//! The twenty-seven skills of a character.

use crate::text::{lowercase_of, str_eq, to_lowercase};
use std::ops::Index;
use std::str::FromStr;
use vstd::prelude::*;

verus! {

/// The name of one skill.
#[derive(Clone, Copy, Debug, PartialEq, Eq, Structural)]
pub enum Skill {
    Athletics,
    Brawl,
    Craft,
    Drive,
    Firearms,
    Larceny,
    Melee,
    Stealth,
    Survival,
    AnimalKen,
    Etiquette,
    Insight,
    Intimidation,
    Leadership,
    Performance,
    Persuasion,
    Streetwise,
    Subterfuge,
    Academics,
    Awareness,
    Finance,
    Investigation,
    Medicine,
    Occult,
    Politics,
    Science,
    Technology,
}

/// The failure to read a [`Skill`] from a text that names none.
#[derive(Debug, PartialEq, Eq, Structural)]
pub struct ParseSkillError;

impl ParseSkillError {
    /// The message that describes this failure.
    pub fn to_string(&self) -> (message: String)
        ensures
            message@ == "string did not match any attribute"@,
    {
        "string did not match any attribute".to_owned()
    }
}

impl Skill {
    /// The skill that a lower-case text names.  A name of two words is
    /// written with one space between them.
    pub open spec fn named(name: Seq<char>) -> Option<Skill> {
        if name == "athletics"@ {
            Some(Skill::Athletics)
        } else if name == "brawl"@ {
            Some(Skill::Brawl)
        } else if name == "craft"@ {
            Some(Skill::Craft)
        } else if name == "drive"@ {
            Some(Skill::Drive)
        } else if name == "firearms"@ {
            Some(Skill::Firearms)
        } else if name == "larceny"@ {
            Some(Skill::Larceny)
        } else if name == "melee"@ {
            Some(Skill::Melee)
        } else if name == "stealth"@ {
            Some(Skill::Stealth)
        } else if name == "survival"@ {
            Some(Skill::Survival)
        } else if name == "animal ken"@ {
            Some(Skill::AnimalKen)
        } else if name == "etiquette"@ {
            Some(Skill::Etiquette)
        } else if name == "insight"@ {
            Some(Skill::Insight)
        } else if name == "intimidation"@ {
            Some(Skill::Intimidation)
        } else if name == "leadership"@ {
            Some(Skill::Leadership)
        } else if name == "performance"@ {
            Some(Skill::Performance)
        } else if name == "persuasion"@ {
            Some(Skill::Persuasion)
        } else if name == "streetwise"@ {
            Some(Skill::Streetwise)
        } else if name == "subterfuge"@ {
            Some(Skill::Subterfuge)
        } else if name == "academics"@ {
            Some(Skill::Academics)
        } else if name == "awareness"@ {
            Some(Skill::Awareness)
        } else if name == "finance"@ {
            Some(Skill::Finance)
        } else if name == "investigation"@ {
            Some(Skill::Investigation)
        } else if name == "medicine"@ {
            Some(Skill::Medicine)
        } else if name == "occult"@ {
            Some(Skill::Occult)
        } else if name == "politics"@ {
            Some(Skill::Politics)
        } else if name == "science"@ {
            Some(Skill::Science)
        } else if name == "technology"@ {
            Some(Skill::Technology)
        } else {
            None
        }
    }

    /// What parsing yields for a text whose lower-case form is `name`.
    pub open spec fn parsed(name: Seq<char>) -> Result<Skill, ParseSkillError> {
        match Self::named(name) {
            Some(skill) => Ok(skill),
            None => Err(ParseSkillError),
        }
    }

    /// Reads a skill from a text that is already in lower case.
    pub fn from_lowercase(name: &str) -> (parsed: Result<Skill, ParseSkillError>)
        ensures
            parsed == Self::parsed(name@),
    {
        if str_eq(name, "athletics") {
            Ok(Skill::Athletics)
        } else if str_eq(name, "brawl") {
            Ok(Skill::Brawl)
        } else if str_eq(name, "craft") {
            Ok(Skill::Craft)
        } else if str_eq(name, "drive") {
            Ok(Skill::Drive)
        } else if str_eq(name, "firearms") {
            Ok(Skill::Firearms)
        } else if str_eq(name, "larceny") {
            Ok(Skill::Larceny)
        } else if str_eq(name, "melee") {
            Ok(Skill::Melee)
        } else if str_eq(name, "stealth") {
            Ok(Skill::Stealth)
        } else if str_eq(name, "survival") {
            Ok(Skill::Survival)
        } else if str_eq(name, "animal ken") {
            Ok(Skill::AnimalKen)
        } else if str_eq(name, "etiquette") {
            Ok(Skill::Etiquette)
        } else if str_eq(name, "insight") {
            Ok(Skill::Insight)
        } else if str_eq(name, "intimidation") {
            Ok(Skill::Intimidation)
        } else if str_eq(name, "leadership") {
            Ok(Skill::Leadership)
        } else if str_eq(name, "performance") {
            Ok(Skill::Performance)
        } else if str_eq(name, "persuasion") {
            Ok(Skill::Persuasion)
        } else if str_eq(name, "streetwise") {
            Ok(Skill::Streetwise)
        } else if str_eq(name, "subterfuge") {
            Ok(Skill::Subterfuge)
        } else if str_eq(name, "academics") {
            Ok(Skill::Academics)
        } else if str_eq(name, "awareness") {
            Ok(Skill::Awareness)
        } else if str_eq(name, "finance") {
            Ok(Skill::Finance)
        } else if str_eq(name, "investigation") {
            Ok(Skill::Investigation)
        } else if str_eq(name, "medicine") {
            Ok(Skill::Medicine)
        } else if str_eq(name, "occult") {
            Ok(Skill::Occult)
        } else if str_eq(name, "politics") {
            Ok(Skill::Politics)
        } else if str_eq(name, "science") {
            Ok(Skill::Science)
        } else if str_eq(name, "technology") {
            Ok(Skill::Technology)
        } else {
            Err(ParseSkillError)
        }
    }
}

impl FromStr for Skill {
    type Err = ParseSkillError;

    /// Reads a skill from its name, in any mix of upper and lower case.
    fn from_str(s: &str) -> (parsed: Result<Skill, ParseSkillError>)
        ensures
            parsed == Skill::parsed(lowercase_of(s@)),
    {
        let lower = to_lowercase(s);
        Skill::from_lowercase(lower.as_str())
    }
}

/// The skills of a character.  Each holds its rating in dots and, where the
/// character has one, the name of a specialty.
#[derive(Debug, PartialEq)]
pub struct Skills {
    pub athletics: (u8, Option<String>),
    pub brawl: (u8, Option<String>),
    pub craft: (u8, Option<String>),
    pub drive: (u8, Option<String>),
    pub firearms: (u8, Option<String>),
    pub larceny: (u8, Option<String>),
    pub melee: (u8, Option<String>),
    pub stealth: (u8, Option<String>),
    pub survival: (u8, Option<String>),
    pub animal_ken: (u8, Option<String>),
    pub etiquette: (u8, Option<String>),
    pub insight: (u8, Option<String>),
    pub intimidation: (u8, Option<String>),
    pub leadership: (u8, Option<String>),
    pub performance: (u8, Option<String>),
    pub persuasion: (u8, Option<String>),
    pub streetwise: (u8, Option<String>),
    pub subterfuge: (u8, Option<String>),
    pub academics: (u8, Option<String>),
    pub awareness: (u8, Option<String>),
    pub finance: (u8, Option<String>),
    pub investigation: (u8, Option<String>),
    pub medicine: (u8, Option<String>),
    pub occult: (u8, Option<String>),
    pub politics: (u8, Option<String>),
    pub science: (u8, Option<String>),
    pub technology: (u8, Option<String>),
}

impl Skills {
    /// The rating and specialty of one skill: `skills[skill]` in ghost code.
    pub open spec fn spec_index(&self, skill: Skill) -> (u8, Option<String>) {
        match skill {
            Skill::Athletics => self.athletics,
            Skill::Brawl => self.brawl,
            Skill::Craft => self.craft,
            Skill::Drive => self.drive,
            Skill::Firearms => self.firearms,
            Skill::Larceny => self.larceny,
            Skill::Melee => self.melee,
            Skill::Stealth => self.stealth,
            Skill::Survival => self.survival,
            Skill::AnimalKen => self.animal_ken,
            Skill::Etiquette => self.etiquette,
            Skill::Insight => self.insight,
            Skill::Intimidation => self.intimidation,
            Skill::Leadership => self.leadership,
            Skill::Performance => self.performance,
            Skill::Persuasion => self.persuasion,
            Skill::Streetwise => self.streetwise,
            Skill::Subterfuge => self.subterfuge,
            Skill::Academics => self.academics,
            Skill::Awareness => self.awareness,
            Skill::Finance => self.finance,
            Skill::Investigation => self.investigation,
            Skill::Medicine => self.medicine,
            Skill::Occult => self.occult,
            Skill::Politics => self.politics,
            Skill::Science => self.science,
            Skill::Technology => self.technology,
        }
    }

    /// The skills without any dot or specialty.
    pub open spec fn untrained() -> Skills {
        Skills {
            athletics: (0, None),
            brawl: (0, None),
            craft: (0, None),
            drive: (0, None),
            firearms: (0, None),
            larceny: (0, None),
            melee: (0, None),
            stealth: (0, None),
            survival: (0, None),
            animal_ken: (0, None),
            etiquette: (0, None),
            insight: (0, None),
            intimidation: (0, None),
            leadership: (0, None),
            performance: (0, None),
            persuasion: (0, None),
            streetwise: (0, None),
            subterfuge: (0, None),
            academics: (0, None),
            awareness: (0, None),
            finance: (0, None),
            investigation: (0, None),
            medicine: (0, None),
            occult: (0, None),
            politics: (0, None),
            science: (0, None),
            technology: (0, None),
        }
    }

    /// Whether every rating lies in the range of 0 to 5 dots that the game
    /// allows.
    pub open spec fn within_limits(&self) -> bool {
        forall|skill: Skill| (#[trigger] self[skill]).0 <= 5
    }

    /// Whether every specialty goes with a rating of at least one dot.
    /// This is a convention of the game.  Nothing enforces it: the fields
    /// can be set to anything.
    pub open spec fn specialties_are_rated(&self) -> bool {
        forall|skill: Skill| (#[trigger] self[skill]).1 is Some ==> self[skill].0 > 0
    }
}

impl Index<Skill> for Skills {
    type Output = (u8, Option<String>);

    /// The rating and specialty of one skill.
    fn index(&self, skill: Skill) -> (entry: &(u8, Option<String>))
        ensures
            *entry == self[skill],
    {
        match skill {
            Skill::Athletics => &self.athletics,
            Skill::Brawl => &self.brawl,
            Skill::Craft => &self.craft,
            Skill::Drive => &self.drive,
            Skill::Firearms => &self.firearms,
            Skill::Larceny => &self.larceny,
            Skill::Melee => &self.melee,
            Skill::Stealth => &self.stealth,
            Skill::Survival => &self.survival,
            Skill::AnimalKen => &self.animal_ken,
            Skill::Etiquette => &self.etiquette,
            Skill::Insight => &self.insight,
            Skill::Intimidation => &self.intimidation,
            Skill::Leadership => &self.leadership,
            Skill::Performance => &self.performance,
            Skill::Persuasion => &self.persuasion,
            Skill::Streetwise => &self.streetwise,
            Skill::Subterfuge => &self.subterfuge,
            Skill::Academics => &self.academics,
            Skill::Awareness => &self.awareness,
            Skill::Finance => &self.finance,
            Skill::Investigation => &self.investigation,
            Skill::Medicine => &self.medicine,
            Skill::Occult => &self.occult,
            Skill::Politics => &self.politics,
            Skill::Science => &self.science,
            Skill::Technology => &self.technology,
        }
    }
}

impl vstd::std_specs::core::IndexSpecImpl<Skill> for Skills {
    /// Every skill has its entry: indexing asks nothing of its caller.
    open spec fn index_req(&self, index: &Skill) -> bool {
        true
    }
}

impl Default for Skills {
    /// Skills without any dot or specialty.
    fn default() -> (skills: Skills)
        ensures
            skills == Skills::untrained(),
            skills.within_limits(),
            skills.specialties_are_rated(),
    {
        Skills {
            athletics: (0, None),
            brawl: (0, None),
            craft: (0, None),
            drive: (0, None),
            firearms: (0, None),
            larceny: (0, None),
            melee: (0, None),
            stealth: (0, None),
            survival: (0, None),
            animal_ken: (0, None),
            etiquette: (0, None),
            insight: (0, None),
            intimidation: (0, None),
            leadership: (0, None),
            performance: (0, None),
            persuasion: (0, None),
            streetwise: (0, None),
            subterfuge: (0, None),
            academics: (0, None),
            awareness: (0, None),
            finance: (0, None),
            investigation: (0, None),
            medicine: (0, None),
            occult: (0, None),
            politics: (0, None),
            science: (0, None),
            technology: (0, None),
        }
    }
}

} // verus!
