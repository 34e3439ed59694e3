//! A character and the traits that make it up.

pub mod attributes;
pub mod blood;
pub mod skills;
pub mod stats;

pub use attributes::Attribute;

use attributes::Attributes;
use blood::{BloodPotency, Generation, Hunger};
use skills::Skills;
use stats::{Damage, Health, Humanity, Willpower};
use vstd::prelude::*;

verus! {

/// One character, as it stands on its sheet.
#[derive(Debug, PartialEq)]
pub struct Character {
    pub player_name: String,
    pub character_name: String,
    pub chronicle: String,
    pub attributes: Attributes,
    pub skills: Skills,
    pub damage: Damage,
    pub willpower_damage: Damage,
    pub humanity: Humanity,
    pub blood_potency: BloodPotency,
    pub generation: Generation,
    pub hunger: Hunger,
}

impl Character {
    /// The highest health that this character can have.
    /// Starts a character.  The three names have to be given before the
    /// character can be built; every other trait may be given or left at
    /// its default.
    pub fn builder() -> (builder: CharacterBuilder<Missing, Missing, Missing>)
        ensures
            builder == (CharacterBuilder {
                player_name: Missing,
                character_name: Missing,
                chronicle: Missing,
                attributes: None::<Attributes>,
                skills: None::<Skills>,
                blood_potency: None::<BloodPotency>,
                generation: None::<Generation>,
                hunger: None::<Hunger>,
            }),
    {
        CharacterBuilder {
            player_name: Missing,
            character_name: Missing,
            chronicle: Missing,
            attributes: None,
            skills: None,
            blood_potency: None,
            generation: None,
            hunger: None,
        }
    }

    pub fn _get_max_health(&self) -> (health: u8)
        requires
            Health::for_stamina(self.attributes.stamina) <= u8::MAX,
        ensures
            health == Health::for_stamina(self.attributes.stamina),
    {
        Health::from_character(
            self,
            Some(self.damage.superficial),
            Some(self.damage.aggravated),
        ).value
    }

    /// The highest willpower that this character can have.
    pub fn _get_max_wp(&self) -> (willpower: u8)
        requires
            Willpower::for_traits(self.attributes.composure, self.attributes.resolve)
                <= u8::MAX,
        ensures
            willpower == Willpower::for_traits(
                self.attributes.composure,
                self.attributes.resolve,
            ),
    {
        Willpower::from_character(self).value
    }
}

impl Default for Character {
    /// An empty sheet: no names, no dots, no damage, a humanity of 7, a
    /// blood potency of 1, the thirteenth generation and no hunger.
    fn default() -> (character: Character)
        ensures
            character.player_name@ == Seq::<char>::empty(),
            character.character_name@ == Seq::<char>::empty(),
            character.chronicle@ == Seq::<char>::empty(),
            character.attributes == Attributes::uniform(0),
            character.skills == Skills::untrained(),
            character.damage == (Damage { superficial: 0, aggravated: 0 }),
            character.willpower_damage == (Damage { superficial: 0, aggravated: 0 }),
            character.humanity == (Humanity { value: 7, stains: 0 }),
            character.blood_potency == BloodPotency(1),
            character.generation == Generation(13),
            character.hunger == Hunger(0),
    {
        Character {
            player_name: String::new(),
            character_name: String::new(),
            chronicle: String::new(),
            attributes: Attributes::default(),
            skills: Skills::default(),
            damage: Damage::default(),
            willpower_damage: Damage::default(),
            humanity: Humanity::default(),
            blood_potency: BloodPotency::default(),
            generation: Generation::default(),
            hunger: Hunger::default(),
        }
    }
}

/// Stands in a [`CharacterBuilder`] for a name that was not given yet.
#[derive(Debug)]
pub struct Missing;

/// A character in the making.
///
/// `P`, `N` and `C` tell whether the name of the player, the name of the
/// character and the chronicle were given: each is [`Missing`] at first and
/// `String` once the name is there.  A character can only be built when all
/// three are.
#[derive(Debug)]
pub struct CharacterBuilder<P, N, C> {
    pub player_name: P,
    pub character_name: N,
    pub chronicle: C,
    pub attributes: Option<Attributes>,
    pub skills: Option<Skills>,
    pub blood_potency: Option<BloodPotency>,
    pub generation: Option<Generation>,
    pub hunger: Option<Hunger>,
}

impl<N, C> CharacterBuilder<Missing, N, C> {
    /// Gives the name of the player.
    pub fn player_name(self, value: String) -> (builder: CharacterBuilder<String, N, C>)
        ensures
            builder == (CharacterBuilder {
                player_name: value,
                character_name: self.character_name,
                chronicle: self.chronicle,
                attributes: self.attributes,
                skills: self.skills,
                blood_potency: self.blood_potency,
                generation: self.generation,
                hunger: self.hunger,
            }),
    {
        CharacterBuilder {
            player_name: value,
            character_name: self.character_name,
            chronicle: self.chronicle,
            attributes: self.attributes,
            skills: self.skills,
            blood_potency: self.blood_potency,
            generation: self.generation,
            hunger: self.hunger,
        }
    }
}

impl<P, C> CharacterBuilder<P, Missing, C> {
    /// Gives the name of the character.
    pub fn character_name(self, value: String) -> (builder: CharacterBuilder<P, String, C>)
        ensures
            builder == (CharacterBuilder {
                player_name: self.player_name,
                character_name: value,
                chronicle: self.chronicle,
                attributes: self.attributes,
                skills: self.skills,
                blood_potency: self.blood_potency,
                generation: self.generation,
                hunger: self.hunger,
            }),
    {
        CharacterBuilder {
            player_name: self.player_name,
            character_name: value,
            chronicle: self.chronicle,
            attributes: self.attributes,
            skills: self.skills,
            blood_potency: self.blood_potency,
            generation: self.generation,
            hunger: self.hunger,
        }
    }
}

impl<P, N> CharacterBuilder<P, N, Missing> {
    /// Gives the name of the chronicle.
    pub fn chronicle(self, value: String) -> (builder: CharacterBuilder<P, N, String>)
        ensures
            builder == (CharacterBuilder {
                player_name: self.player_name,
                character_name: self.character_name,
                chronicle: value,
                attributes: self.attributes,
                skills: self.skills,
                blood_potency: self.blood_potency,
                generation: self.generation,
                hunger: self.hunger,
            }),
    {
        CharacterBuilder {
            player_name: self.player_name,
            character_name: self.character_name,
            chronicle: value,
            attributes: self.attributes,
            skills: self.skills,
            blood_potency: self.blood_potency,
            generation: self.generation,
            hunger: self.hunger,
        }
    }
}

impl<P, N, C> CharacterBuilder<P, N, C> {
    /// Gives the attributes, in place of attributes without dots.
    pub fn attributes(self, value: Attributes) -> (builder: Self)
        ensures
            builder == (CharacterBuilder { attributes: Some(value), ..self }),
    {
        CharacterBuilder { attributes: Some(value), ..self }
    }

    /// Gives the skills, in place of skills without dots.
    pub fn skills(self, value: Skills) -> (builder: Self)
        ensures
            builder == (CharacterBuilder { skills: Some(value), ..self }),
    {
        CharacterBuilder { skills: Some(value), ..self }
    }

    /// Gives the blood potency, in place of a blood potency of 1.
    pub fn blood_potency(self, value: BloodPotency) -> (builder: Self)
        ensures
            builder == (CharacterBuilder { blood_potency: Some(value), ..self }),
    {
        CharacterBuilder { blood_potency: Some(value), ..self }
    }

    /// Gives the generation, in place of the thirteenth.
    pub fn generation(self, value: Generation) -> (builder: Self)
        ensures
            builder == (CharacterBuilder { generation: Some(value), ..self }),
    {
        CharacterBuilder { generation: Some(value), ..self }
    }

    /// Gives the hunger, in place of no hunger.
    pub fn hunger(self, value: Hunger) -> (builder: Self)
        ensures
            builder == (CharacterBuilder { hunger: Some(value), ..self }),
    {
        CharacterBuilder { hunger: Some(value), ..self }
    }
}

impl CharacterBuilder<String, String, String> {
    /// The character that `build` makes: the names and traits that were
    /// given, a default for each trait that was not, no damage and a
    /// humanity of 7.
    pub open spec fn built(self) -> Character {
        Character {
            player_name: self.player_name,
            character_name: self.character_name,
            chronicle: self.chronicle,
            attributes: match self.attributes {
                Some(attributes) => attributes,
                None => Attributes::uniform(0),
            },
            skills: match self.skills {
                Some(skills) => skills,
                None => Skills::untrained(),
            },
            damage: Damage { superficial: 0, aggravated: 0 },
            willpower_damage: Damage { superficial: 0, aggravated: 0 },
            humanity: Humanity { value: 7, stains: 0 },
            blood_potency: match self.blood_potency {
                Some(potency) => potency,
                None => BloodPotency(1),
            },
            generation: match self.generation {
                Some(generation) => generation,
                None => Generation(13),
            },
            hunger: match self.hunger {
                Some(hunger) => hunger,
                None => Hunger(0),
            },
        }
    }

    /// Builds the character.  A new character has no damage: that is set
    /// later, on the character itself.
    pub fn build(self) -> (character: Character)
        ensures
            character == self.built(),
    {
        Character {
            player_name: self.player_name,
            character_name: self.character_name,
            chronicle: self.chronicle,
            attributes: match self.attributes {
                Some(attributes) => attributes,
                None => Attributes::default(),
            },
            skills: match self.skills {
                Some(skills) => skills,
                None => Skills::default(),
            },
            damage: Damage::default(),
            willpower_damage: Damage::default(),
            humanity: Humanity::default(),
            blood_potency: match self.blood_potency {
                Some(potency) => potency,
                None => BloodPotency::default(),
            },
            generation: match self.generation {
                Some(generation) => generation,
                None => Generation::default(),
            },
            hunger: match self.hunger {
                Some(hunger) => hunger,
                None => Hunger::default(),
            },
        }
    }
}

} // verus!
