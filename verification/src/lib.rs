//! A character-sheet model for a tabletop role-playing game about vampires.
//!
//! The crate holds the data of one character (its attributes, skills, damage
//! tracks, humanity and blood traits), the statistics derived from them, and
//! the rules that build or list characters.  It performs no input or output:
//! callers hand it plain values and get plain values back.

pub mod character;
pub mod text;

use character::attributes::{Attribute, Attributes};
use character::blood::{BloodPotency, Generation, Hunger};
use character::skills::Skills;
use character::stats::{Damage, Humanity};
use character::Character;
use text::str_eq;
use vstd::prelude::*;
use vstd::string::StringExecFns;

verus! {

/// The line that a listing shows for one character.
pub open spec fn listing_line_of(character: Character) -> Seq<char> {
    "Player: "@ + character.player_name@ + ", Character: "@ + character.character_name@
}

/// What a listing shows for one sheet: a line where the sheet could be
/// read, nothing where it could not.
pub open spec fn listed(sheet: Option<Character>) -> Option<Seq<char>> {
    match sheet {
        Some(character) => Some(listing_line_of(character)),
        None => None,
    }
}

/// The lines of a listing: one for each sheet that could be read, in the
/// order of the sheets.
pub open spec fn listing(sheets: Seq<Option<Character>>) -> Seq<Seq<char>> {
    sheets.filter_map(|sheet: Option<Character>| listed(sheet))
}

/// Writes the line that a listing shows for one character: the names of the
/// player and of the character.
pub fn listing_line(character: &Character) -> (line: String)
    ensures
        line@ == listing_line_of(*character),
{
    let mut line = "Player: ".to_owned();
    line.append(character.player_name.as_str());
    line.append(", Character: ");
    line.append(character.character_name.as_str());
    line
}

/// Lists character sheets: one line for each sheet, in the order given.
///
/// A sheet that could not be read stands in `sheets` as `None`.  It is left
/// out of the listing, and the sheets around it are still listed.
pub fn list_characters(sheets: &Vec<Option<Character>>) -> (lines: Vec<String>)
    ensures
        lines.deep_view() == listing(sheets@),
{
    let mut lines: Vec<String> = Vec::new();
    let mut i: usize = 0;
    assert(sheets@.take(0).filter_map(|sheet: Option<Character>| listed(sheet))
        =~= Seq::<Seq<char>>::empty());
    while i < sheets.len()
        invariant
            i <= sheets.len(),
            lines.deep_view() == listing(sheets@.take(i as int)),
        decreases sheets.len() - i,
    {
        let ghost before = lines.deep_view();
        proof {
            sheets@.lemma_filter_map_take_succ(|sheet: Option<Character>| listed(sheet), i as int);
        }
        match &sheets[i] {
            Some(character) => {
                let line = listing_line(character);
                lines.push(line);
                assert(lines.deep_view() =~= before + seq![listing_line_of(*character)]);
            },
            None => {
                assert(lines.deep_view() =~= before + Seq::<Seq<char>>::empty());
            },
        }
        i += 1;
    }
    assert(sheets@.take(i as int) =~= sheets@);
    lines
}

/// A listing of no sheets has no lines.
pub proof fn lemma_listing_of_nothing()
    ensures
        listing(Seq::<Option<Character>>::empty()) == Seq::<Seq<char>>::empty(),
{
}

/// Listing keeps the order of the sheets: the listing of one run of sheets
/// followed by another is the listing of the first followed by the listing
/// of the second.
pub proof fn lemma_listing_in_order(first: Seq<Option<Character>>, second: Seq<Option<Character>>)
    ensures
        listing(first + second) == listing(first) + listing(second),
    decreases second.len(),
{
    if second.len() == 0 {
        assert(first + second =~= first);
        assert(listing(first) + listing(second) =~= listing(first));
    } else {
        let earlier = second.drop_last();
        lemma_listing_in_order(first, earlier);
        assert((first + second).drop_last() =~= first + earlier);
        assert((first + second).last() == second.last());
        match listed(second.last()) {
            Some(line) => {
                assert(listing(first + second) =~= listing(first) + (listing(earlier)
                    + seq![line]));
            },
            None => {},
        }
    }
}

/// Where every sheet could be read, the listing has one line for each
/// sheet, at the place of that sheet.
pub proof fn lemma_listing_of_readable(sheets: Seq<Option<Character>>)
    requires
        forall|i: int| 0 <= i < sheets.len() ==> sheets[i] is Some,
    ensures
        listing(sheets).len() == sheets.len(),
        forall|i: int|
            0 <= i < sheets.len() ==> #[trigger] listing(sheets)[i] == listing_line_of(
                sheets[i]->0,
            ),
    decreases sheets.len(),
{
    if sheets.len() > 0 {
        lemma_listing_of_readable(sheets.drop_last());
    }
}

/// A sheet that could not be read is skipped: the listing is the one of the
/// sheets before it followed by the one of the sheets after it.
pub proof fn lemma_listing_skips_unreadable(
    before: Seq<Option<Character>>,
    after: Seq<Option<Character>>,
)
    ensures
        listing(before + seq![None::<Character>] + after) == listing(before) + listing(after),
{
    let gap = seq![None::<Character>];
    lemma_listing_in_order(before + gap, after);
    lemma_listing_in_order(before, gap);
    assert(gap.drop_last() =~= Seq::<Option<Character>>::empty());
    assert(listing(gap) =~= Seq::<Seq<char>>::empty()) by {
        reveal_with_fuel(Seq::filter_map, 2);
    }
    assert(listing(before) + listing(gap) =~= listing(before));
}

/// Tells whether a file belongs to the character sheets of a directory,
/// given the extension of its name: it does where the extension is `json`.
pub fn is_json_extension(extension: Option<&str>) -> (is_json: bool)
    ensures
        is_json == (extension matches Some(ending) && ending@ == "json"@),
{
    match extension {
        Some(ending) => str_eq(ending, "json"),
        None => false,
    }
}

/// Creates a character from what its player has chosen.
///
/// The attributes get the dots of character creation: 4 for `highest`, 1 for
/// `lowest`, 3 for each of `three_threes` and 2 for the others.  The
/// generation is taken from `generation`, with 1 in place of 0, and the blood
/// potency is the one that goes with that generation.  Everything else
/// starts as on an empty sheet: no skills, no damage, no hunger, and a
/// humanity of 7.
pub fn create_character(
    player_name: String,
    character_name: String,
    chronicle: String,
    highest: Attribute,
    lowest: Attribute,
    three_threes: Vec<Attribute>,
    generation: u8,
) -> (character: Character)
    ensures
        character.player_name == player_name,
        character.character_name == character_name,
        character.chronicle == chronicle,
        character.attributes == Attributes::created(highest, lowest, three_threes@),
        forall|attribute: Attribute| #[trigger]
            character.attributes[attribute] == Attributes::creation_dots(
                highest,
                lowest,
                three_threes@,
                attribute,
            ),
        character.attributes.within_limits(),
        character.skills == Skills::untrained(),
        character.damage == (Damage { superficial: 0, aggravated: 0 }),
        character.willpower_damage == (Damage { superficial: 0, aggravated: 0 }),
        character.humanity == (Humanity { value: 7, stains: 0 }),
        character.generation == Generation(Generation::normalized(generation)),
        character.blood_potency == BloodPotency(
            BloodPotency::for_generation(Generation::normalized(generation)),
        ),
        character.hunger == Hunger(0),
{
    let mut attributes = Attributes::default();
    attributes.set_attributes_during_creation(highest, lowest, three_threes);
    let generation = Generation::from(generation);
    let blood_potency = BloodPotency::from_generation(&generation);
    Character {
        player_name,
        character_name,
        chronicle,
        attributes,
        skills: Skills::default(),
        damage: Damage::default(),
        willpower_damage: Damage::default(),
        humanity: Humanity::default(),
        blood_potency,
        generation,
        hunger: Hunger::default(),
    }
}

} // verus!
