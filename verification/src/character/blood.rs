//! Blood-related traits: hunger, blood potency and generation.

use vstd::prelude::*;

verus! {

/// How hungry a vampire is, from 0 (sated) to 5 (ravenous).
///
/// The field is public: a hunger written down directly, or made with
/// `from`, holds whatever number it was given.  Only [`Hunger::new`] caps
/// the value; [`Hunger::is_in_range`] tells afterwards whether it is valid.
#[derive(Debug, PartialEq, Eq, Structural, PartialOrd)]
pub struct Hunger(pub u8);

impl Hunger {
    /// The value that `new` stores for `value`: `value` itself, capped at 5.
    pub open spec fn capped(value: u8) -> u8 {
        if value > 5 {
            5
        } else {
            value
        }
    }

    /// Whether the stored value lies in `0..=5`.
    pub open spec fn in_range(&self) -> bool {
        self.0 <= 5
    }

    /// Creates a hunger that never exceeds 5: a larger `value` is stored as
    /// 5, any other as it is.
    pub fn new(value: u8) -> (hunger: Hunger)
        ensures
            hunger.0 == Self::capped(value),
            hunger.in_range(),
    {
        if value > 5u8 {
            return Hunger(5);
        }
        Hunger(value)
    }

    /// Tells whether the stored value lies in `0..=5`.
    pub fn is_in_range(&self) -> (within: bool)
        ensures
            within == self.in_range(),
    {
        // an unsigned number is never below 0
        self.0 <= 5u8
    }
}

impl Default for Hunger {
    /// No hunger at all.
    fn default() -> (hunger: Hunger)
        ensures
            hunger == Hunger(0),
    {
        Hunger(0)
    }
}

impl From<u8> for Hunger {
    /// Stores `value` as it is, without capping it.
    fn from(value: u8) -> (hunger: Hunger)
        ensures
            hunger == Hunger(value),
    {
        Hunger(value)
    }
}

impl vstd::std_specs::convert::FromSpecImpl<u8> for Hunger {
    open spec fn obeys_from_spec() -> bool {
        true
    }

    open spec fn from_spec(value: u8) -> Hunger {
        Hunger(value)
    }
}

impl PartialEq<u8> for Hunger {
    /// A hunger equals a number where it stores that number.
    fn eq(&self, other: &u8) -> (same: bool)
        ensures
            same == (self.0 == *other),
    {
        self.0 == *other
    }
}

impl vstd::std_specs::cmp::PartialEqSpecImpl<u8> for Hunger {
    open spec fn obeys_eq_spec() -> bool {
        true
    }

    open spec fn eq_spec(&self, other: &u8) -> bool {
        self.0 == *other
    }
}

/// The generation of a vampire: how many steps it stands from the first of
/// its kind.  A higher number means a weaker vampire.  Numbers above 16 are
/// unusual but allowed.
///
/// The field is public: a generation written down directly holds whatever
/// number it was given, 0 included.  Only `from` turns 0 into 1.
#[derive(Debug, PartialEq, Eq, Structural, PartialOrd)]
pub struct Generation(pub u8);

impl Generation {
    /// The value that `from` stores for `value`: 1 in place of 0, any other
    /// value as it is.
    pub open spec fn normalized(value: u8) -> u8 {
        if value == 0 {
            1
        } else {
            value
        }
    }

    /// Whether the stored value is at least 1.
    pub open spec fn is_valid(&self) -> bool {
        self.0 >= 1
    }

    /// The notice that is due when `from` is given `value`: there is one
    /// exactly when `value` is 0, which `from` replaces by 1.
    pub fn coercion_notice(value: u8) -> (notice: Option<String>)
        ensures
            notice is Some <==> value == 0,
            notice matches Some(text) ==> text@
                == "Generation cannot be 0, setting to 1 instead!"@,
    {
        if value == 0 {
            Some("Generation cannot be 0, setting to 1 instead!".to_owned())
        } else {
            None
        }
    }
}

impl Default for Generation {
    /// The thirteenth generation, a good starting point for a new character.
    fn default() -> (generation: Generation)
        ensures
            generation == Generation(13),
            generation.is_valid(),
    {
        Generation(13)
    }
}

impl From<u8> for Generation {
    /// A generation from a number.  There is no generation 0: it is stored
    /// as 1.  Any other number is stored as it is.
    fn from(value: u8) -> (generation: Generation)
        ensures
            generation == Generation(Generation::normalized(value)),
            generation.is_valid(),
    {
        if value == 0 {
            return Generation(1);
        }
        Generation(value)
    }
}

impl vstd::std_specs::convert::FromSpecImpl<u8> for Generation {
    open spec fn obeys_from_spec() -> bool {
        true
    }

    open spec fn from_spec(value: u8) -> Generation {
        Generation(Generation::normalized(value))
    }
}

/// How potent the blood of a vampire is.
#[derive(Debug, PartialEq, Eq, Structural, PartialOrd)]
pub struct BloodPotency(pub u8);

impl BloodPotency {
    /// The blood potency that goes with a generation: 3 below the tenth,
    /// 2 for the tenth and eleventh, 1 for the twelfth and thirteenth,
    /// 0 from the fourteenth on.
    pub open spec fn for_generation(generation: u8) -> u8 {
        if generation < 10 {
            3
        } else if generation <= 11 {
            2
        } else if generation <= 13 {
            1
        } else {
            0
        }
    }

    /// Assigns the blood potency that goes with a generation.
    ///
    /// This is a starting value, not a rule of the game: blood potency can
    /// be raised later, and a generation can change.
    pub fn from_generation(generation: &Generation) -> (potency: BloodPotency)
        ensures
            potency == BloodPotency(Self::for_generation(generation.0)),
    {
        let value = generation.0;
        if value < 10 {
            BloodPotency(3)
        } else if value <= 11 {
            BloodPotency(2)
        } else if value <= 13 {
            BloodPotency(1)
        } else {
            BloodPotency(0)
        }
    }
}

impl Default for BloodPotency {
    /// A blood potency of 1.  Only thin-blooded vampires have 0, which is
    /// possible but not the usual case.
    fn default() -> (potency: BloodPotency)
        ensures
            potency == BloodPotency(1),
    {
        BloodPotency(1)
    }
}

impl From<u8> for BloodPotency {
    /// Stores `value` as it is.
    fn from(value: u8) -> (potency: BloodPotency)
        ensures
            potency == BloodPotency(value),
    {
        BloodPotency(value)
    }
}

impl vstd::std_specs::convert::FromSpecImpl<u8> for BloodPotency {
    open spec fn obeys_from_spec() -> bool {
        true
    }

    open spec fn from_spec(value: u8) -> BloodPotency {
        BloodPotency(value)
    }
}

} // verus!
