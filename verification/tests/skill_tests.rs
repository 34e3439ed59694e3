use vampire_charact_rs::character::skills::{ParseSkillError, Skill, Skills};

#[test]
fn skill_from_string() {
    let skill = "athletics".parse::<Skill>().unwrap();
    let expected = Skill::Athletics;

    assert_eq!(skill, expected)
}

#[test]
#[should_panic]
fn non_existing_skill_from_string() {
    let _ = "foo".parse::<Skill>().unwrap();
}

fn skill_table() -> Vec<(&'static str, Skill)> {
    vec![
        ("athletics", Skill::Athletics),
        ("brawl", Skill::Brawl),
        ("craft", Skill::Craft),
        ("drive", Skill::Drive),
        ("firearms", Skill::Firearms),
        ("larceny", Skill::Larceny),
        ("melee", Skill::Melee),
        ("stealth", Skill::Stealth),
        ("survival", Skill::Survival),
        ("animal ken", Skill::AnimalKen),
        ("etiquette", Skill::Etiquette),
        ("insight", Skill::Insight),
        ("intimidation", Skill::Intimidation),
        ("leadership", Skill::Leadership),
        ("performance", Skill::Performance),
        ("persuasion", Skill::Persuasion),
        ("streetwise", Skill::Streetwise),
        ("subterfuge", Skill::Subterfuge),
        ("academics", Skill::Academics),
        ("awareness", Skill::Awareness),
        ("finance", Skill::Finance),
        ("investigation", Skill::Investigation),
        ("medicine", Skill::Medicine),
        ("occult", Skill::Occult),
        ("politics", Skill::Politics),
        ("science", Skill::Science),
        ("technology", Skill::Technology),
    ]
}

#[test]
fn skill_from_each_name() {
    let table = skill_table();
    assert_eq!(table.len(), 27);
    for (name, skill) in table {
        assert_eq!(name.parse::<Skill>(), Ok(skill));
        assert_eq!(Skill::from_lowercase(name), Ok(skill));
        assert_eq!(name.to_uppercase().parse::<Skill>(), Ok(skill));
    }
}

#[test]
fn skill_from_any_case() {
    assert_eq!("Athletics".parse::<Skill>(), Ok(Skill::Athletics));
    assert_eq!("Animal Ken".parse::<Skill>(), Ok(Skill::AnimalKen));
    assert_eq!("ANIMAL KEN".parse::<Skill>(), Ok(Skill::AnimalKen));
    // the Kelvin sign is an upper-case letter whose lower case is `k`
    assert_eq!("animal \u{212a}en".parse::<Skill>(), Ok(Skill::AnimalKen));
}

#[test]
fn skill_from_lowercase_is_exact() {
    assert_eq!(Skill::from_lowercase("Athletics"), Err(ParseSkillError));
    assert_eq!(
        Skill::from_lowercase("animal \u{212a}en"),
        Err(ParseSkillError)
    );
}

#[test]
fn skill_from_other_text_fails() {
    assert_eq!("foo".parse::<Skill>(), Err(ParseSkillError));
    assert_eq!("".parse::<Skill>(), Err(ParseSkillError));
    assert_eq!("animal_ken".parse::<Skill>(), Err(ParseSkillError));
    assert_eq!("animalken".parse::<Skill>(), Err(ParseSkillError));
    assert_eq!("animal  ken".parse::<Skill>(), Err(ParseSkillError));
    assert_eq!("a".parse::<Skill>(), Err(ParseSkillError));
    assert_eq!("strength".parse::<Skill>(), Err(ParseSkillError));
}

#[test]
fn skill_error_message() {
    assert_eq!(
        ParseSkillError.to_string(),
        "string did not match any attribute"
    );
}

#[test]
fn default_skills_are_untrained() {
    let skills = Skills::default();
    for (_, skill) in skill_table() {
        assert_eq!(skills[skill], (0, None));
    }
}

#[test]
fn index_reads_each_skill() {
    let skills = Skills {
        athletics: (1, None),
        brawl: (2, None),
        craft: (3, Some(String::from("carpenter"))),
        drive: (4, None),
        firearms: (5, None),
        larceny: (6, None),
        melee: (7, None),
        stealth: (8, None),
        survival: (9, Some(String::from("foraging"))),
        animal_ken: (10, None),
        etiquette: (11, None),
        insight: (12, None),
        intimidation: (13, None),
        leadership: (14, Some(String::from("practicality"))),
        performance: (15, None),
        persuasion: (16, None),
        streetwise: (17, None),
        subterfuge: (18, None),
        academics: (19, None),
        awareness: (20, None),
        finance: (21, None),
        investigation: (22, None),
        medicine: (23, None),
        occult: (24, None),
        politics: (25, None),
        science: (26, None),
        technology: (27, None),
    };
    for (position, (_, skill)) in skill_table().into_iter().enumerate() {
        assert_eq!(skills[skill].0 as usize, position + 1);
    }
    assert_eq!(skills[Skill::Craft], (3, Some(String::from("carpenter"))));
    assert_eq!(skills[Skill::Survival].1, Some(String::from("foraging")));
    assert_eq!(
        skills[Skill::Leadership].1,
        Some(String::from("practicality"))
    );
    assert_eq!(skills[Skill::Brawl].1, None);
}
