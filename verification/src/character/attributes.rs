//! The nine attributes of a character.

use crate::text::{lowercase_of, str_eq, to_lowercase};
use std::ops::{Index, IndexMut};
use std::str::FromStr;
use vstd::prelude::*;

verus! {

/// The name of one attribute.
#[derive(Clone, Copy, Debug, PartialEq, Eq, Structural)]
pub enum Attribute {
    Strength,
    Dexterity,
    Stamina,
    Charisma,
    Manipulation,
    Composure,
    Intelligence,
    Wits,
    Resolve,
}

/// The failure to read an [`Attribute`] from a text that names none.
#[derive(Debug, PartialEq, Eq, Structural)]
pub struct ParseAttributeError;

impl ParseAttributeError {
    /// The message that describes this failure.
    pub fn to_string(&self) -> (message: String)
        ensures
            message@ == "string did not match any attribute"@,
    {
        "string did not match any attribute".to_owned()
    }
}

impl Attribute {
    /// The attribute that a lower-case text names, by its one-letter code or
    /// by its full name.
    pub open spec fn named(name: Seq<char>) -> Option<Attribute> {
        if name == "s"@ || name == "strength"@ {
            Some(Attribute::Strength)
        } else if name == "d"@ || name == "dexterity"@ {
            Some(Attribute::Dexterity)
        } else if name == "t"@ || name == "stamina"@ {
            Some(Attribute::Stamina)
        } else if name == "c"@ || name == "charisma"@ {
            Some(Attribute::Charisma)
        } else if name == "m"@ || name == "manipulation"@ {
            Some(Attribute::Manipulation)
        } else if name == "o"@ || name == "composure"@ {
            Some(Attribute::Composure)
        } else if name == "i"@ || name == "intelligence"@ {
            Some(Attribute::Intelligence)
        } else if name == "w"@ || name == "wits"@ {
            Some(Attribute::Wits)
        } else if name == "r"@ || name == "resolve"@ {
            Some(Attribute::Resolve)
        } else {
            None
        }
    }

    /// What parsing yields for a text whose lower-case form is `name`.
    pub open spec fn parsed(name: Seq<char>) -> Result<Attribute, ParseAttributeError> {
        match Self::named(name) {
            Some(attribute) => Ok(attribute),
            None => Err(ParseAttributeError),
        }
    }

    /// Reads an attribute from a text that is already in lower case.
    pub fn from_lowercase(name: &str) -> (parsed: Result<Attribute, ParseAttributeError>)
        ensures
            parsed == Self::parsed(name@),
    {
        if str_eq(name, "s") || str_eq(name, "strength") {
            Ok(Attribute::Strength)
        } else if str_eq(name, "d") || str_eq(name, "dexterity") {
            Ok(Attribute::Dexterity)
        } else if str_eq(name, "t") || str_eq(name, "stamina") {
            Ok(Attribute::Stamina)
        } else if str_eq(name, "c") || str_eq(name, "charisma") {
            Ok(Attribute::Charisma)
        } else if str_eq(name, "m") || str_eq(name, "manipulation") {
            Ok(Attribute::Manipulation)
        } else if str_eq(name, "o") || str_eq(name, "composure") {
            Ok(Attribute::Composure)
        } else if str_eq(name, "i") || str_eq(name, "intelligence") {
            Ok(Attribute::Intelligence)
        } else if str_eq(name, "w") || str_eq(name, "wits") {
            Ok(Attribute::Wits)
        } else if str_eq(name, "r") || str_eq(name, "resolve") {
            Ok(Attribute::Resolve)
        } else {
            Err(ParseAttributeError)
        }
    }
}

impl FromStr for Attribute {
    type Err = ParseAttributeError;

    /// Reads an attribute from its one-letter code or its full name, in any
    /// mix of upper and lower case.
    fn from_str(s: &str) -> (parsed: Result<Attribute, ParseAttributeError>)
        ensures
            parsed == Attribute::parsed(lowercase_of(s@)),
    {
        let lower = to_lowercase(s);
        Attribute::from_lowercase(lower.as_str())
    }
}

/// The attributes of a character, each counted in dots.
#[derive(Debug, PartialEq, Eq, Structural)]
pub struct Attributes {
    pub strength: u8,
    pub dexterity: u8,
    pub stamina: u8,
    pub charisma: u8,
    pub manipulation: u8,
    pub composure: u8,
    pub intelligence: u8,
    pub wits: u8,
    pub resolve: u8,
}

impl Attributes {
    /// The dots of one attribute: `attributes[attribute]` in ghost code.
    pub open spec fn spec_index(&self, attribute: Attribute) -> u8 {
        match attribute {
            Attribute::Strength => self.strength,
            Attribute::Dexterity => self.dexterity,
            Attribute::Stamina => self.stamina,
            Attribute::Charisma => self.charisma,
            Attribute::Manipulation => self.manipulation,
            Attribute::Composure => self.composure,
            Attribute::Intelligence => self.intelligence,
            Attribute::Wits => self.wits,
            Attribute::Resolve => self.resolve,
        }
    }

    /// These attributes with one of them set to `dots`.
    pub open spec fn with(self, attribute: Attribute, dots: u8) -> Attributes {
        match attribute {
            Attribute::Strength => Attributes { strength: dots, ..self },
            Attribute::Dexterity => Attributes { dexterity: dots, ..self },
            Attribute::Stamina => Attributes { stamina: dots, ..self },
            Attribute::Charisma => Attributes { charisma: dots, ..self },
            Attribute::Manipulation => Attributes { manipulation: dots, ..self },
            Attribute::Composure => Attributes { composure: dots, ..self },
            Attribute::Intelligence => Attributes { intelligence: dots, ..self },
            Attribute::Wits => Attributes { wits: dots, ..self },
            Attribute::Resolve => Attributes { resolve: dots, ..self },
        }
    }

    /// The attributes that all have the same number of dots.
    pub open spec fn uniform(dots: u8) -> Attributes {
        Attributes {
            strength: dots,
            dexterity: dots,
            stamina: dots,
            charisma: dots,
            manipulation: dots,
            composure: dots,
            intelligence: dots,
            wits: dots,
            resolve: dots,
        }
    }

    /// 1 where `held` is exactly `dots`, else 0.
    pub open spec fn tally(held: u8, dots: u8) -> nat {
        if held == dots {
            1
        } else {
            0
        }
    }

    /// How many of the nine attributes have exactly `dots` dots.
    pub open spec fn count_of(&self, dots: u8) -> nat {
        Self::tally(self.strength, dots) + Self::tally(self.dexterity, dots) + Self::tally(
            self.stamina,
            dots,
        ) + Self::tally(self.charisma, dots) + Self::tally(self.manipulation, dots) + Self::tally(
            self.composure,
            dots,
        ) + Self::tally(self.intelligence, dots) + Self::tally(self.wits, dots) + Self::tally(
            self.resolve,
            dots,
        )
    }

    /// Whether every attribute lies in the range of 0 to 5 dots that the
    /// game allows.
    pub open spec fn within_limits(&self) -> bool {
        forall|attribute: Attribute| #[trigger] self[attribute] <= 5
    }

    /// The dots that character creation gives to `attribute`: 3 where it is
    /// one of `mids`, else 1 where it is `lowest`, else 4 where it is
    /// `highest`, else 2.  Where an attribute was designated more than
    /// once, the designation that is applied last decides.
    pub open spec fn creation_dots(
        highest: Attribute,
        lowest: Attribute,
        mids: Seq<Attribute>,
        attribute: Attribute,
    ) -> u8 {
        if mids.contains(attribute) {
            3
        } else if attribute == lowest {
            1
        } else if attribute == highest {
            4
        } else {
            2
        }
    }

    /// The attributes that character creation yields: each attribute with its
    /// [`creation_dots`](Attributes::creation_dots).
    pub open spec fn created(
        highest: Attribute,
        lowest: Attribute,
        mids: Seq<Attribute>,
    ) -> Attributes {
        Attributes {
            strength: Self::creation_dots(highest, lowest, mids, Attribute::Strength),
            dexterity: Self::creation_dots(highest, lowest, mids, Attribute::Dexterity),
            stamina: Self::creation_dots(highest, lowest, mids, Attribute::Stamina),
            charisma: Self::creation_dots(highest, lowest, mids, Attribute::Charisma),
            manipulation: Self::creation_dots(highest, lowest, mids, Attribute::Manipulation),
            composure: Self::creation_dots(highest, lowest, mids, Attribute::Composure),
            intelligence: Self::creation_dots(highest, lowest, mids, Attribute::Intelligence),
            wits: Self::creation_dots(highest, lowest, mids, Attribute::Wits),
            resolve: Self::creation_dots(highest, lowest, mids, Attribute::Resolve),
        }
    }

    /// Sets all attributes to 2 dots, the baseline from which single
    /// attributes are then raised or lowered.
    pub fn set_all_to_2(&mut self)
        ensures
            *final(self) == Self::uniform(2),
            forall|attribute: Attribute| #[trigger] final(self)[attribute] == 2,
            final(self).count_of(2) == 9,
            final(self).within_limits(),
    {
        self.strength = 2;
        self.dexterity = 2;
        self.stamina = 2;
        self.charisma = 2;
        self.manipulation = 2;
        self.composure = 2;
        self.intelligence = 2;
        self.wits = 2;
        self.resolve = 2;
    }

    /// Distributes the dots of character creation: every attribute gets 2,
    /// then `highest` gets 4, `lowest` gets 1, and each of `three_threes`
    /// gets 3, in this order.
    ///
    /// The designated attributes are meant to differ from one another.
    /// Nothing checks that they do: where one is named twice, the later
    /// assignment wins.
    pub fn set_attributes_during_creation(
        &mut self,
        highest: Attribute,
        lowest: Attribute,
        three_threes: Vec<Attribute>,
    )
        ensures
            *final(self) == Self::created(highest, lowest, three_threes@),
            forall|attribute: Attribute| #[trigger]
                final(self)[attribute] == Self::creation_dots(
                    highest,
                    lowest,
                    three_threes@,
                    attribute,
                ),
            final(self).within_limits(),
    {
        self.set_all_to_2();
        *self.index_mut(highest) = 4;
        *self.index_mut(lowest) = 1;
        assert(three_threes@.take(0) =~= Seq::<Attribute>::empty());
        let mut i: usize = 0;
        while i < three_threes.len()
            invariant
                i <= three_threes.len(),
                forall|attribute: Attribute| #[trigger]
                    self[attribute] == Self::creation_dots(
                        highest,
                        lowest,
                        three_threes@.take(i as int),
                        attribute,
                    ),
            decreases three_threes.len() - i,
        {
            let mid = three_threes[i];
            let ghost before = *self;
            *self.index_mut(mid) = 3;
            proof {
                let done = three_threes@.take(i as int);
                let next = three_threes@.take(i + 1);
                assert(next =~= done.push(mid));
                assert forall|attribute: Attribute| #[trigger]
                    self[attribute] == Self::creation_dots(
                        highest,
                        lowest,
                        next,
                        attribute,
                    ) by {
                    assert(before[attribute] == Self::creation_dots(
                        highest,
                        lowest,
                        done,
                        attribute,
                    ));
                    if attribute == mid {
                        assert(next[i as int] == mid);
                    } else if done.contains(attribute) {
                        let k = choose|k: int| 0 <= k < done.len() && done[k] == attribute;
                        assert(next[k] == attribute);
                    } else if next.contains(attribute) {
                        let k = choose|k: int| 0 <= k < next.len() && next[k] == attribute;
                        assert(done[k] == attribute);
                    }
                }
            }
            i += 1;
        }
        assert(three_threes@.take(i as int) =~= three_threes@);
        assert(self.strength == self[Attribute::Strength]);
        assert(self.dexterity == self[Attribute::Dexterity]);
        assert(self.stamina == self[Attribute::Stamina]);
        assert(self.charisma == self[Attribute::Charisma]);
        assert(self.manipulation == self[Attribute::Manipulation]);
        assert(self.composure == self[Attribute::Composure]);
        assert(self.intelligence == self[Attribute::Intelligence]);
        assert(self.wits == self[Attribute::Wits]);
        assert(self.resolve == self[Attribute::Resolve]);
    }
}

impl Attributes {
    /// Reading after writing: once one attribute has been set, it reads as
    /// the dots it was set to, and every other attribute reads as before.
    pub proof fn lemma_read_after_write(self, written: Attribute, dots: u8, read: Attribute)
        ensures
            self.with(written, dots)[read] == if read == written {
                dots
            } else {
                self[read]
            },
    {
    }

    /// Whether the designations of character creation name five different
    /// attributes: one highest, one lowest and three in between.
    pub open spec fn distinct_designations(
        highest: Attribute,
        lowest: Attribute,
        mids: Seq<Attribute>,
    ) -> bool {
        &&& mids.len() == 3
        &&& highest != lowest
        &&& !mids.contains(highest)
        &&& !mids.contains(lowest)
        &&& mids.no_duplicates()
    }

    /// 1 where two attributes are the same, else 0.
    #[verifier::opaque]
    spec fn same(left: Attribute, right: Attribute) -> nat {
        if left == right {
            1
        } else {
            0
        }
    }

    /// `tally`, kept folded while the counts are added up.
    #[verifier::opaque]
    spec fn same_dots(held: u8, dots: u8) -> nat {
        Self::tally(held, dots)
    }

    /// The sum of a quantity over the nine attributes.
    spec fn over_all(quantity: spec_fn(Attribute) -> nat) -> nat {
        quantity(Attribute::Strength) + quantity(Attribute::Dexterity) + quantity(
            Attribute::Stamina,
        ) + quantity(Attribute::Charisma) + quantity(Attribute::Manipulation) + quantity(
            Attribute::Composure,
        ) + quantity(Attribute::Intelligence) + quantity(Attribute::Wits) + quantity(
            Attribute::Resolve,
        )
    }

    /// Every attribute is exactly one of the nine.
    proof fn lemma_one_of_nine(attribute: Attribute)
        ensures
            Self::over_all(|other: Attribute| Self::same(other, attribute)) == 1,
    {
        reveal(Attributes::same);
    }

    /// The count of the attributes with `dots` dots, as a sum over the nine.
    proof fn lemma_count_over_all(self, dots: u8)
        ensures
            self.count_of(dots) == Self::over_all(
                |other: Attribute| Self::same_dots(self[other], dots),
            ),
    {
        reveal(Attributes::same_dots);
    }

    /// Adds up, over the nine attributes, what each of them adds to the
    /// counts of 4, 1, 3 and 2 dots, where each attribute adds to the count
    /// of 4 if it is the one marked by `is_highest`, to the count of 1 if it
    /// is the one marked by `is_lowest`, to the count of 3 if one of the
    /// three other marks is on it, and to the count of 2 if it has no mark.
    proof fn lemma_column_sums(
        fours: spec_fn(Attribute) -> nat,
        ones: spec_fn(Attribute) -> nat,
        threes: spec_fn(Attribute) -> nat,
        twos: spec_fn(Attribute) -> nat,
        is_highest: spec_fn(Attribute) -> nat,
        is_lowest: spec_fn(Attribute) -> nat,
        is_first: spec_fn(Attribute) -> nat,
        is_second: spec_fn(Attribute) -> nat,
        is_third: spec_fn(Attribute) -> nat,
    )
        requires
            forall|a: Attribute| #[trigger] fours(a) == is_highest(a),
            forall|a: Attribute| #[trigger] ones(a) == is_lowest(a),
            forall|a: Attribute| #[trigger] threes(a) == is_first(a) + is_second(a) + is_third(a),
            forall|a: Attribute| #[trigger]
                twos(a) + is_highest(a) + is_lowest(a) + is_first(a) + is_second(a) + is_third(a)
                    == 1,
            Self::over_all(is_highest) == 1,
            Self::over_all(is_lowest) == 1,
            Self::over_all(is_first) == 1,
            Self::over_all(is_second) == 1,
            Self::over_all(is_third) == 1,
        ensures
            Self::over_all(fours) == 1,
            Self::over_all(ones) == 1,
            Self::over_all(threes) == 3,
            Self::over_all(twos) == 4,
    {
    }

    /// What one attribute adds to each count after character creation with
    /// five different designations.
    proof fn lemma_creation_tallies(
        highest: Attribute,
        lowest: Attribute,
        mids: Seq<Attribute>,
        attribute: Attribute,
    )
        requires
            Self::distinct_designations(highest, lowest, mids),
        ensures
            ({
                let dots = Self::creation_dots(highest, lowest, mids, attribute);
                let in_mids = Self::same(attribute, mids[0]) + Self::same(attribute, mids[1])
                    + Self::same(attribute, mids[2]);
                &&& Self::same_dots(dots, 4) == Self::same(attribute, highest)
                &&& Self::same_dots(dots, 1) == Self::same(attribute, lowest)
                &&& Self::same_dots(dots, 3) == in_mids
                &&& Self::same_dots(dots, 2) + Self::same(attribute, highest) + Self::same(
                    attribute,
                    lowest,
                ) + in_mids == 1
            }),
    {
        reveal(Attributes::same);
        reveal(Attributes::same_dots);
        assert(mids.contains(mids[0]) && mids.contains(mids[1]) && mids.contains(mids[2]));
        assert(mids[0] != mids[1] && mids[0] != mids[2] && mids[1] != mids[2]);
        if mids.contains(attribute) {
            let k = choose|k: int| 0 <= k < mids.len() && mids[k] == attribute;
            assert(k == 0 || k == 1 || k == 2);
        }
    }

    /// The counts of the law below, for any attributes that hold the dots
    /// of character creation.
    proof fn lemma_creation_counts(
        created: Attributes,
        highest: Attribute,
        lowest: Attribute,
        mids: Seq<Attribute>,
    )
        requires
            Self::distinct_designations(highest, lowest, mids),
            forall|attribute: Attribute| #[trigger]
                created[attribute] == Self::creation_dots(highest, lowest, mids, attribute),
        ensures
            created.count_of(4) == 1,
            created.count_of(1) == 1,
            created.count_of(3) == 3,
            created.count_of(2) == 4,
    {
        let fours = |a: Attribute| Self::same_dots(created[a], 4);
        let ones = |a: Attribute| Self::same_dots(created[a], 1);
        let threes = |a: Attribute| Self::same_dots(created[a], 3);
        let twos = |a: Attribute| Self::same_dots(created[a], 2);
        let is_highest = |a: Attribute| Self::same(a, highest);
        let is_lowest = |a: Attribute| Self::same(a, lowest);
        let is_first = |a: Attribute| Self::same(a, mids[0]);
        let is_second = |a: Attribute| Self::same(a, mids[1]);
        let is_third = |a: Attribute| Self::same(a, mids[2]);
        assert forall|a: Attribute| #[trigger] fours(a) == is_highest(a) by {
            Self::lemma_creation_tallies(highest, lowest, mids, a);
        }
        assert forall|a: Attribute| #[trigger] ones(a) == is_lowest(a) by {
            Self::lemma_creation_tallies(highest, lowest, mids, a);
        }
        assert forall|a: Attribute| #[trigger]
            threes(a) == is_first(a) + is_second(a) + is_third(a) by {
            Self::lemma_creation_tallies(highest, lowest, mids, a);
        }
        assert forall|a: Attribute| #[trigger]
            twos(a) + is_highest(a) + is_lowest(a) + is_first(a) + is_second(a) + is_third(a)
                == 1 by {
            Self::lemma_creation_tallies(highest, lowest, mids, a);
        }
        Self::lemma_one_of_nine(highest);
        Self::lemma_one_of_nine(lowest);
        Self::lemma_one_of_nine(mids[0]);
        Self::lemma_one_of_nine(mids[1]);
        Self::lemma_one_of_nine(mids[2]);
        Self::lemma_column_sums(
            fours,
            ones,
            threes,
            twos,
            is_highest,
            is_lowest,
            is_first,
            is_second,
            is_third,
        );
        created.lemma_count_over_all(4);
        created.lemma_count_over_all(1);
        created.lemma_count_over_all(3);
        created.lemma_count_over_all(2);
    }

    /// Character creation with five different designations gives 4 dots to
    /// the highest attribute, 1 to the lowest, 3 to each of the three in
    /// between and 2 to every other one.  So one attribute ends at 4 dots,
    /// one at 1, three at 3 and four at 2, and all are within the limits of
    /// the game.
    pub proof fn lemma_creation_distribution(
        highest: Attribute,
        lowest: Attribute,
        mids: Seq<Attribute>,
    )
        requires
            Self::distinct_designations(highest, lowest, mids),
        ensures
            Self::created(highest, lowest, mids)[highest] == 4,
            Self::created(highest, lowest, mids)[lowest] == 1,
            forall|i: int|
                0 <= i < 3 ==> Self::created(highest, lowest, mids)[#[trigger] mids[i]] == 3,
            forall|attribute: Attribute|
                attribute != highest && attribute != lowest && !mids.contains(attribute)
                    ==> #[trigger] Self::created(highest, lowest, mids)[attribute] == 2,
            Self::created(highest, lowest, mids).count_of(4) == 1,
            Self::created(highest, lowest, mids).count_of(1) == 1,
            Self::created(highest, lowest, mids).count_of(3) == 3,
            Self::created(highest, lowest, mids).count_of(2) == 4,
            Self::created(highest, lowest, mids).within_limits(),
    {
        let created = Self::created(highest, lowest, mids);
        assert forall|attribute: Attribute| #[trigger]
            created[attribute] == Self::creation_dots(highest, lowest, mids, attribute) by {}
        assert forall|i: int| 0 <= i < 3 implies created[#[trigger] mids[i]] == 3 by {
            assert(mids.contains(mids[i]));
        }
        Self::lemma_creation_counts(created, highest, lowest, mids);
    }
}

impl Index<Attribute> for Attributes {
    type Output = u8;

    /// The dots of one attribute.
    fn index(&self, attr: Attribute) -> (dots: &u8)
        ensures
            *dots == self[attr],
    {
        match attr {
            Attribute::Strength => &self.strength,
            Attribute::Dexterity => &self.dexterity,
            Attribute::Stamina => &self.stamina,
            Attribute::Charisma => &self.charisma,
            Attribute::Manipulation => &self.manipulation,
            Attribute::Composure => &self.composure,
            Attribute::Intelligence => &self.intelligence,
            Attribute::Wits => &self.wits,
            Attribute::Resolve => &self.resolve,
        }
    }
}

impl vstd::std_specs::core::IndexSpecImpl<Attribute> for Attributes {
    /// Every attribute has its dots: indexing asks nothing of its caller.
    open spec fn index_req(&self, index: &Attribute) -> bool {
        true
    }
}

impl IndexMut<Attribute> for Attributes {
    /// The dots of one attribute, to be changed in place.  The other
    /// attributes stay as they are.
    fn index_mut(&mut self, index: Attribute) -> (dots: &mut u8)
        ensures
            *dots == old(self)[index],
            *final(self) == old(self).with(index, *final(dots)),
    {
        match index {
            Attribute::Strength => &mut self.strength,
            Attribute::Dexterity => &mut self.dexterity,
            Attribute::Stamina => &mut self.stamina,
            Attribute::Charisma => &mut self.charisma,
            Attribute::Manipulation => &mut self.manipulation,
            Attribute::Composure => &mut self.composure,
            Attribute::Intelligence => &mut self.intelligence,
            Attribute::Wits => &mut self.wits,
            Attribute::Resolve => &mut self.resolve,
        }
    }
}

impl Default for Attributes {
    /// Attributes without any dots.
    fn default() -> (attributes: Attributes)
        ensures
            attributes == Attributes::uniform(0),
    {
        Attributes {
            strength: 0,
            dexterity: 0,
            stamina: 0,
            charisma: 0,
            manipulation: 0,
            composure: 0,
            intelligence: 0,
            wits: 0,
            resolve: 0,
        }
    }
}

} // verus!
