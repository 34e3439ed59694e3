//! Statistics that are tracked on, or derived from, a character: health,
//! willpower and humanity.

use crate::character::Character;
use vstd::prelude::*;

verus! {

/// Damage taken, by kind.  It is tracked on the sheet, since it cannot be
/// derived from anything else.
#[derive(Debug, PartialEq, Eq, Structural)]
pub struct Damage {
    pub superficial: u8,
    pub aggravated: u8,
}

impl Default for Damage {
    /// No damage of either kind.
    fn default() -> (damage: Damage)
        ensures
            damage == (Damage { superficial: 0, aggravated: 0 }),
    {
        Damage { superficial: 0, aggravated: 0 }
    }
}

/// The health of a character: how much damage it can take, and how much it
/// has taken.
#[derive(Debug, PartialEq, Eq, Structural)]
pub struct Health {
    pub value: u8,
    pub damage: Damage,
}

impl Health {
    /// The health that a character with `stamina` dots of stamina has.
    pub open spec fn for_stamina(stamina: u8) -> int {
        stamina + 3
    }

    /// A health of `value` without damage.
    pub fn new(value: u8) -> (health: Health)
        ensures
            health == (Health { value, damage: Damage { superficial: 0, aggravated: 0 } }),
    {
        Health { value, damage: Damage::default() }
    }

    /// The health of a character: its stamina plus 3.
    ///
    /// The damage is taken from `superficial` and `aggravated`, each counted
    /// as 0 where it is absent.  The damage stored on the character is not
    /// read: a caller who wants it passes it in.
    pub fn from_character(
        character: &Character,
        superficial: Option<u8>,
        aggravated: Option<u8>,
    ) -> (health: Health)
        requires
            Self::for_stamina(character.attributes.stamina) <= u8::MAX,
        ensures
            health.value == Self::for_stamina(character.attributes.stamina),
            health.damage.superficial == match superficial {
                Some(taken) => taken,
                None => 0,
            },
            health.damage.aggravated == match aggravated {
                Some(taken) => taken,
                None => 0,
            },
    {
        let damage = Damage {
            superficial: match superficial {
                Some(taken) => taken,
                None => 0,
            },
            aggravated: match aggravated {
                Some(taken) => taken,
                None => 0,
            },
        };
        Health { value: character.attributes.stamina + 3, damage }
    }
}

impl Default for Health {
    /// No health and no damage.
    fn default() -> (health: Health)
        ensures
            health == (Health { value: 0, damage: Damage { superficial: 0, aggravated: 0 } }),
    {
        Health { value: 0, damage: Damage::default() }
    }
}

/// The willpower of a character, with the damage done to it.
#[derive(Debug, PartialEq, Eq, Structural)]
pub struct Willpower {
    pub value: u8,
    pub damage: Damage,
}

impl Willpower {
    /// The willpower that goes with `composure` and `resolve`.
    pub open spec fn for_traits(composure: u8, resolve: u8) -> int {
        composure + resolve
    }

    /// The willpower of a character: its composure plus its resolve, with
    /// the willpower damage stored on the character.
    pub fn from_character(character: &Character) -> (willpower: Willpower)
        requires
            Self::for_traits(character.attributes.composure, character.attributes.resolve)
                <= u8::MAX,
        ensures
            willpower.value == Self::for_traits(
                character.attributes.composure,
                character.attributes.resolve,
            ),
            willpower.damage == character.willpower_damage,
    {
        Willpower {
            value: character.attributes.composure + character.attributes.resolve,
            damage: Damage {
                superficial: character.willpower_damage.superficial,
                aggravated: character.willpower_damage.aggravated,
            },
        }
    }
}

/// The humanity of a character, with the stains on it.
#[derive(Debug, PartialEq, Eq, Structural)]
pub struct Humanity {
    pub value: u8,
    pub stains: u8,
}

impl Humanity {
    /// The humanity that a character starts with: 7, without stains.
    ///
    /// Ancillae start lower (see [`Humanity::new_for_ancilla`]), and a
    /// predator type or a flaw can lower it further.
    pub fn new(&self) -> (humanity: Humanity)
        ensures
            humanity == (Humanity { value: 7, stains: 0 }),
    {
        Humanity::default()
    }

    /// The humanity that an ancilla starts with: 6, one less than others,
    /// without stains.
    pub fn new_for_ancilla(&self) -> (humanity: Humanity)
        ensures
            humanity == (Humanity { value: 6, stains: 0 }),
    {
        Humanity { value: 6, stains: 0 }
    }

    /// The humanity stored on a character.
    pub fn from_character(character: &Character) -> (humanity: Humanity)
        ensures
            humanity == character.humanity,
    {
        Humanity { value: character.humanity.value, stains: character.humanity.stains }
    }
}

impl Default for Humanity {
    /// A humanity of 7 without stains.  It is not 0: at 0 a vampire has
    /// fallen to the Beast.
    fn default() -> (humanity: Humanity)
        ensures
            humanity == (Humanity { value: 7, stains: 0 }),
    {
        Humanity { value: 7, stains: 0 }
    }
}

} // verus!
