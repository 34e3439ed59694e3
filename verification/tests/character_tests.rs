use vampire_charact_rs::character::attributes::Attributes;
use vampire_charact_rs::character::blood::{BloodPotency, Generation, Hunger};
use vampire_charact_rs::character::skills::Skills;
use vampire_charact_rs::character::stats::{Damage, Humanity};
use vampire_charact_rs::character::{Attribute, Character};
use vampire_charact_rs::text::str_eq;
use vampire_charact_rs::{create_character, is_json_extension, list_characters, listing_line};

#[test]
fn new_character_all_default_values() {
    let test_char = Character::builder()
        .player_name(String::from("Test Player"))
        .character_name(String::from("Test Character"))
        .chronicle(String::from("Test Chronicle by Night"))
        .build();

    assert_eq!(
        test_char,
        Character {
            player_name: String::from("Test Player"),
            character_name: String::from("Test Character"),
            chronicle: String::from("Test Chronicle by Night"),
            attributes: Attributes::default(),
            skills: Skills::default(),
            damage: Damage::default(),
            willpower_damage: Damage::default(),
            humanity: Humanity::default(),
            blood_potency: BloodPotency::default(),
            generation: Default::default(),
            hunger: Default::default(),
        }
    );
}

#[test]
fn attributes_passed_explicitly() {
    let attributes = Attributes {
        strength: 5,
        dexterity: 4,
        stamina: 3,
        charisma: 2,
        manipulation: 2,
        composure: 2,
        intelligence: 1,
        wits: 3,
        resolve: 2,
    };
    let test_char = Character::builder()
        .player_name(String::from("Test Player"))
        .character_name(String::from("Test Character"))
        .chronicle(String::from("Test Chronicle by Night"))
        .attributes(attributes)
        .build();

    let expected = Character {
        player_name: String::from("Test Player"),
        character_name: String::from("Test Character"),
        chronicle: String::from("Test Chronicle by Night"),
        attributes: Attributes {
            strength: 5,
            dexterity: 4,
            stamina: 3,
            charisma: 2,
            manipulation: 2,
            composure: 2,
            intelligence: 1,
            wits: 3,
            resolve: 2,
        },
        skills: Skills::default(),
        damage: Damage::default(),
        willpower_damage: Damage::default(),
        humanity: Humanity::default(),
        blood_potency: BloodPotency::default(),
        generation: Default::default(),
        hunger: Default::default(),
    };

    assert_eq!(test_char, expected);
}

#[test]
fn skills_passed_explicitly_no_specialities() {
    let skills = Skills {
        athletics: (1, None),
        brawl: (2, None),
        craft: (3, None),
        drive: (4, None),
        firearms: (5, None),
        larceny: (0, None),
        melee: (1, None),
        stealth: (2, None),
        survival: (3, None),
        animal_ken: (4, None),
        etiquette: (5, None),
        insight: (0, None),
        intimidation: (1, None),
        leadership: (2, None),
        performance: (3, None),
        persuasion: (4, None),
        streetwise: (5, None),
        subterfuge: (0, None),
        academics: (1, None),
        awareness: (2, None),
        finance: (3, None),
        investigation: (4, None),
        medicine: (5, None),
        occult: (0, None),
        politics: (1, None),
        science: (2, None),
        technology: (3, None),
    };

    let test_char = Character::builder()
        .player_name(String::from(""))
        .character_name(String::from(""))
        .chronicle(String::from(""))
        .skills(skills)
        .build();

    let expected = Character {
        player_name: String::from(""),
        character_name: String::from(""),
        chronicle: String::from(""),
        attributes: Attributes::default(),
        skills: Skills {
            athletics: (1, None),
            brawl: (2, None),
            craft: (3, None),
            drive: (4, None),
            firearms: (5, None),
            larceny: (0, None),
            melee: (1, None),
            stealth: (2, None),
            survival: (3, None),
            animal_ken: (4, None),
            etiquette: (5, None),
            insight: (0, None),
            intimidation: (1, None),
            leadership: (2, None),
            performance: (3, None),
            persuasion: (4, None),
            streetwise: (5, None),
            subterfuge: (0, None),
            academics: (1, None),
            awareness: (2, None),
            finance: (3, None),
            investigation: (4, None),
            medicine: (5, None),
            occult: (0, None),
            politics: (1, None),
            science: (2, None),
            technology: (3, None),
        },
        damage: Default::default(),
        willpower_damage: Default::default(),
        humanity: Default::default(),
        hunger: Default::default(),
        blood_potency: Default::default(),
        generation: Default::default(),
    };

    assert_eq!(test_char, expected);
}

#[test]
fn default_character_is_an_empty_sheet() {
    let expected = Character {
        player_name: String::new(),
        character_name: String::new(),
        chronicle: String::new(),
        attributes: Attributes {
            strength: 0,
            dexterity: 0,
            stamina: 0,
            charisma: 0,
            manipulation: 0,
            composure: 0,
            intelligence: 0,
            wits: 0,
            resolve: 0,
        },
        skills: Skills::default(),
        damage: Damage {
            superficial: 0,
            aggravated: 0,
        },
        willpower_damage: Damage {
            superficial: 0,
            aggravated: 0,
        },
        humanity: Humanity {
            value: 7,
            stains: 0,
        },
        blood_potency: BloodPotency(1),
        generation: Generation(13),
        hunger: Hunger(0),
    };
    assert_eq!(Character::default(), expected);
}

#[test]
fn builder_takes_names_in_any_order() {
    let one = Character::builder()
        .chronicle(String::from("C"))
        .hunger(Hunger::new(2))
        .character_name(String::from("B"))
        .player_name(String::from("A"))
        .build();
    let other = Character::builder()
        .player_name(String::from("A"))
        .character_name(String::from("B"))
        .chronicle(String::from("C"))
        .hunger(Hunger::new(2))
        .build();
    assert_eq!(one, other);
    assert_eq!(one.player_name, "A");
    assert_eq!(one.character_name, "B");
    assert_eq!(one.chronicle, "C");
}

#[test]
fn builder_takes_blood_traits() {
    let character = Character::builder()
        .player_name(String::from("A"))
        .character_name(String::from("B"))
        .chronicle(String::from("C"))
        .blood_potency(BloodPotency(2))
        .generation(Generation::from(10))
        .hunger(Hunger::new(9))
        .build();
    assert_eq!(character.blood_potency, BloodPotency(2));
    assert_eq!(character.generation, Generation(10));
    assert_eq!(character.hunger, Hunger(5));
    assert_eq!(character.damage, Damage::default());
    assert_eq!(character.willpower_damage, Damage::default());
    assert_eq!(
        character.humanity,
        Humanity {
            value: 7,
            stains: 0
        }
    );
}

#[test]
fn builder_keeps_the_last_value() {
    let character = Character::builder()
        .player_name(String::from("A"))
        .character_name(String::from("B"))
        .chronicle(String::from("C"))
        .generation(Generation(9))
        .generation(Generation(11))
        .build();
    assert_eq!(character.generation, Generation(11));
}

#[test]
fn created_character() {
    let character = create_character(
        String::from("Test player"),
        String::from("Test character"),
        String::from("Test chronicle"),
        Attribute::Dexterity,
        Attribute::Resolve,
        vec![
            Attribute::Charisma,
            Attribute::Intelligence,
            Attribute::Manipulation,
        ],
        10,
    );
    let expected = Character {
        player_name: String::from("Test player"),
        character_name: String::from("Test character"),
        chronicle: String::from("Test chronicle"),
        attributes: Attributes {
            strength: 2,
            dexterity: 4,
            stamina: 2,
            charisma: 3,
            manipulation: 3,
            composure: 2,
            intelligence: 3,
            wits: 2,
            resolve: 1,
        },
        skills: Skills::default(),
        damage: Damage::default(),
        willpower_damage: Damage::default(),
        humanity: Humanity::default(),
        blood_potency: BloodPotency(2),
        generation: Generation(10),
        hunger: Hunger(0),
    };
    assert_eq!(character, expected);
}

#[test]
fn created_character_of_generation_zero() {
    let character = create_character(
        String::new(),
        String::new(),
        String::new(),
        Attribute::Strength,
        Attribute::Wits,
        vec![
            Attribute::Stamina,
            Attribute::Composure,
            Attribute::Resolve,
        ],
        0,
    );
    assert_eq!(character.generation, Generation(1));
    assert_eq!(character.blood_potency, BloodPotency(3));
}

#[test]
fn created_character_blood_potency_follows_generation() {
    for (generation, potency) in [(9, 3), (10, 2), (11, 2), (12, 1), (13, 1), (14, 0), (16, 0)] {
        let character = create_character(
            String::new(),
            String::new(),
            String::new(),
            Attribute::Strength,
            Attribute::Wits,
            vec![],
            generation,
        );
        assert_eq!(character.generation, Generation(generation));
        assert_eq!(character.blood_potency, BloodPotency(potency));
    }
}

fn named(player: &str, character: &str) -> Character {
    Character::builder()
        .player_name(String::from(player))
        .character_name(String::from(character))
        .chronicle(String::from("Something by Night"))
        .build()
}

#[test]
fn listing_line_names_player_and_character() {
    assert_eq!(
        listing_line(&named("Jason", "Phil Rubens")),
        "Player: Jason, Character: Phil Rubens"
    );
    assert_eq!(listing_line(&named("", "")), "Player: , Character: ");
}

#[test]
fn listing_of_three_sheets() {
    let sheets = vec![
        Some(named("Jason", "Phil Rubens")),
        Some(named("Mary", "Cassandra Skyloft")),
        Some(named("Jib", "Mordred")),
    ];
    assert_eq!(
        list_characters(&sheets),
        vec![
            "Player: Jason, Character: Phil Rubens",
            "Player: Mary, Character: Cassandra Skyloft",
            "Player: Jib, Character: Mordred",
        ]
    );
}

#[test]
fn listing_of_no_sheets() {
    let sheets: Vec<Option<Character>> = vec![];
    let lines: Vec<String> = vec![];
    assert_eq!(list_characters(&sheets), lines);
}

#[test]
fn listing_skips_unreadable_sheets() {
    let sheets = vec![
        Some(named("Jason", "Phil Rubens")),
        None,
        Some(named("Jib", "Mordred")),
    ];
    assert_eq!(
        list_characters(&sheets),
        vec![
            "Player: Jason, Character: Phil Rubens",
            "Player: Jib, Character: Mordred",
        ]
    );

    let lines: Vec<String> = vec![];
    assert_eq!(list_characters(&vec![None, None]), lines);
    assert_eq!(
        list_characters(&vec![None, Some(named("Mary", "Cassandra Skyloft")), None]),
        vec!["Player: Mary, Character: Cassandra Skyloft"]
    );
}

#[test]
fn json_extension() {
    assert!(is_json_extension(Some("json")));
    assert!(!is_json_extension(None));
    assert!(!is_json_extension(Some("")));
    assert!(!is_json_extension(Some("JSON")));
    assert!(!is_json_extension(Some("jso")));
    assert!(!is_json_extension(Some("jsonl")));
    assert!(!is_json_extension(Some("txt")));
}

#[test]
fn text_equality() {
    assert!(str_eq("", ""));
    assert!(str_eq("wits", "wits"));
    assert!(!str_eq("wits", "wit"));
    assert!(!str_eq("wits", "wiTs"));
    assert!(!str_eq("", "w"));
    assert!(str_eq("animal \u{212a}en", "animal \u{212a}en"));
    assert!(!str_eq("animal \u{212a}en", "animal ken"));
}
