//! The built-in reference tables of `fermata show`: for each topic, the
//! keywords of the language with what they mean, and the text layout in
//! which a table is shown, plain or with terminal colors.

use vstd::prelude::*;
use owo_colors::OwoColorize;
use crate::text::{push_char, chars_of, str_eq, nat_digits, all_digits, digits_value, is_digit};
use crate::sexpr::printer::{each, lemma_each_step, push_str};
use crate::ir::beam::NoteheadValue;
use crate::sexpr::convert::note::notehead_value_name;
use crate::ir::notation::{
    FermataShape, ArticulationElement, StrongAccent, EmptyLine, BreathMark, BreathMarkValue, Caesura,
};
use crate::ir::common::EmptyPlacement;
use crate::sexpr::notation_printer::articulation_text;
use crate::sexpr::convert::notation::fermata_shape_name;
use crate::ir::direction::DynamicElement;
use crate::sexpr::convert::direction::dynamic_element_name;
use crate::ir::common::AccidentalValue;
use crate::sexpr::convert::common::accidental_value_name;
use crate::ir::attributes::Mode;
use crate::sexpr::convert::attributes::mode_name;

verus! {

// === Topics ===

/// The topics of `fermata show`.
#[derive(Debug, Clone, Copy, PartialEq, Eq)]
pub enum ShowTopic {
    /// Output targets.
    Targets,
    /// The syntax of the language.
    Syntax,
    /// Duration symbols.
    Durations,
    /// Pitch names and octaves.
    Pitches,
    /// Clefs.
    Clefs,
    /// Key signatures.
    Keys,
    /// Dynamic markings.
    Dynamics,
    /// Articulations.
    Articulations,
    /// Ornaments.
    Ornaments,
    /// Instruments.
    Instruments,
    /// Barlines.
    Barlines,
    /// Accidentals.
    Accidentals,
    /// Noteheads.
    Noteheads,
    /// Fermatas.
    Fermatas,
}

/// How `fermata show` prints a table.
#[derive(Debug, Clone, Copy, PartialEq, Eq)]
pub enum OutputFormat {
    /// Aligned text.
    Text,
    /// JSON.
    Json,
}

/// The name of each topic on the command line.
pub open spec fn topic_name(t: ShowTopic) -> Seq<char> {
    match t {
        ShowTopic::Targets => "targets"@,
        ShowTopic::Syntax => "syntax"@,
        ShowTopic::Durations => "durations"@,
        ShowTopic::Pitches => "pitches"@,
        ShowTopic::Clefs => "clefs"@,
        ShowTopic::Keys => "keys"@,
        ShowTopic::Dynamics => "dynamics"@,
        ShowTopic::Articulations => "articulations"@,
        ShowTopic::Ornaments => "ornaments"@,
        ShowTopic::Instruments => "instruments"@,
        ShowTopic::Barlines => "barlines"@,
        ShowTopic::Accidentals => "accidentals"@,
        ShowTopic::Noteheads => "noteheads"@,
        ShowTopic::Fermatas => "fermatas"@,
    }
}

/// Every topic, in the order in which they are listed.
pub open spec fn all_topics_spec() -> Seq<ShowTopic> {
    seq![ShowTopic::Targets, ShowTopic::Syntax, ShowTopic::Durations, ShowTopic::Pitches, ShowTopic::Clefs, ShowTopic::Keys, ShowTopic::Dynamics, ShowTopic::Articulations, ShowTopic::Ornaments, ShowTopic::Instruments, ShowTopic::Barlines, ShowTopic::Accidentals, ShowTopic::Noteheads, ShowTopic::Fermatas]
}

impl ShowTopic {
    /// The name of the topic, as `topic_name` states.
    pub fn name(&self) -> (r: &'static str)
        ensures
            r@ == topic_name(*self),
    {
        match self {
            ShowTopic::Targets => "targets",
            ShowTopic::Syntax => "syntax",
            ShowTopic::Durations => "durations",
            ShowTopic::Pitches => "pitches",
            ShowTopic::Clefs => "clefs",
            ShowTopic::Keys => "keys",
            ShowTopic::Dynamics => "dynamics",
            ShowTopic::Articulations => "articulations",
            ShowTopic::Ornaments => "ornaments",
            ShowTopic::Instruments => "instruments",
            ShowTopic::Barlines => "barlines",
            ShowTopic::Accidentals => "accidentals",
            ShowTopic::Noteheads => "noteheads",
            ShowTopic::Fermatas => "fermatas",
        }
    }

    /// The topic with the given name; `None` where no topic has it.
    pub fn from_name(name: &str) -> (r: Option<ShowTopic>)
        ensures
            match r {
                Some(t) => topic_name(t) == name@,
                None => forall|t: ShowTopic| topic_name(t) != name@,
            },
    {
        let all = all_topics();
        let mut i: usize = 0;
        while i < all.len()
            invariant
                i <= all.len(),
                all@ == all_topics_spec(),
                forall|j: int| 0 <= j < i ==> topic_name(#[trigger] all@[j]) != name@,
            decreases all.len() - i,
        {
            let t = all[i];
            if str_eq(t.name(), name) {
                return Some(t);
            }
            i = i + 1;
        }
        proof {
            assert forall|t: ShowTopic| topic_name(t) != name@ by {
                lemma_topic_listed(t);
            }
        }
        None
    }
}

/// Each topic is listed.
proof fn lemma_topic_listed(t: ShowTopic)
    ensures
        all_topics_spec().contains(t),
{
    match t {
        ShowTopic::Targets => assert(all_topics_spec()[0] == t),
        ShowTopic::Syntax => assert(all_topics_spec()[1] == t),
        ShowTopic::Durations => assert(all_topics_spec()[2] == t),
        ShowTopic::Pitches => assert(all_topics_spec()[3] == t),
        ShowTopic::Clefs => assert(all_topics_spec()[4] == t),
        ShowTopic::Keys => assert(all_topics_spec()[5] == t),
        ShowTopic::Dynamics => assert(all_topics_spec()[6] == t),
        ShowTopic::Articulations => assert(all_topics_spec()[7] == t),
        ShowTopic::Ornaments => assert(all_topics_spec()[8] == t),
        ShowTopic::Instruments => assert(all_topics_spec()[9] == t),
        ShowTopic::Barlines => assert(all_topics_spec()[10] == t),
        ShowTopic::Accidentals => assert(all_topics_spec()[11] == t),
        ShowTopic::Noteheads => assert(all_topics_spec()[12] == t),
        ShowTopic::Fermatas => assert(all_topics_spec()[13] == t),
    }
}

/// Every topic, in the order in which they are listed.
pub fn all_topics() -> (r: Vec<ShowTopic>)
    ensures
        r@ == all_topics_spec(),
{
    let mut r: Vec<ShowTopic> = Vec::new();
    r.push(ShowTopic::Targets);
    r.push(ShowTopic::Syntax);
    r.push(ShowTopic::Durations);
    r.push(ShowTopic::Pitches);
    r.push(ShowTopic::Clefs);
    r.push(ShowTopic::Keys);
    r.push(ShowTopic::Dynamics);
    r.push(ShowTopic::Articulations);
    r.push(ShowTopic::Ornaments);
    r.push(ShowTopic::Instruments);
    r.push(ShowTopic::Barlines);
    r.push(ShowTopic::Accidentals);
    r.push(ShowTopic::Noteheads);
    r.push(ShowTopic::Fermatas);
    assert(r@ =~= all_topics_spec());
    r
}

// === Tables ===

/// A keyword with what it means, and an example of its use where there is
/// one.
#[derive(Debug, Clone, PartialEq, Eq)]
pub struct RefItem {
    /// The keyword.
    pub keyword: &'static str,
    /// What it means.
    pub description: &'static str,
    /// An example.
    pub example: Option<&'static str>,
}

/// A group of keywords under a heading; a table of one group may have no
/// heading.
#[derive(Debug, Clone, PartialEq, Eq)]
pub struct RefCategory {
    /// The heading; empty for none.
    pub name: &'static str,
    /// The keywords.
    pub items: Vec<RefItem>,
}

/// The table of a topic: its title and its groups.
#[derive(Debug, Clone, PartialEq, Eq)]
pub struct Reference {
    /// The title.
    pub title: &'static str,
    /// The groups of keywords.
    pub categories: Vec<RefCategory>,
}

/// The texts of an item: keyword, description and example.
pub type ItemV = (Seq<char>, Seq<char>, Option<Seq<char>>);

/// The texts of a group: heading and items.
pub type CategoryV = (Seq<char>, Seq<ItemV>);

/// The texts of an item.
pub open spec fn item_view(i: RefItem) -> ItemV {
    (
        i.keyword@,
        i.description@,
        match i.example {
            Some(e) => Some(e@),
            None => None,
        },
    )
}

/// The texts of a group.
pub open spec fn category_view(c: RefCategory) -> CategoryV {
    (c.name@, c.items@.map_values(|i: RefItem| item_view(i)))
}

/// The texts of the groups of a table.
pub open spec fn categories_view(cs: Seq<RefCategory>) -> Seq<CategoryV> {
    cs.map_values(|c: RefCategory| category_view(c))
}

/// The title of each topic's table.
pub open spec fn topic_title(t: ShowTopic) -> Seq<char> {
    match t {
        ShowTopic::Targets => "Output Targets"@,
        ShowTopic::Syntax => "Syntax Quick Reference"@,
        ShowTopic::Durations => "Duration Symbols"@,
        ShowTopic::Pitches => "Pitch Notation"@,
        ShowTopic::Clefs => "Clefs"@,
        ShowTopic::Keys => "Key Signatures"@,
        ShowTopic::Dynamics => "Dynamic Markings"@,
        ShowTopic::Articulations => "Articulations"@,
        ShowTopic::Ornaments => "Ornaments"@,
        ShowTopic::Instruments => "Instruments"@,
        ShowTopic::Barlines => "Barline Types"@,
        ShowTopic::Accidentals => "Accidentals"@,
        ShowTopic::Noteheads => "Notehead Shapes"@,
        ShowTopic::Fermatas => "Fermata Shapes"@,
    }
}

/// The groups of each topic's table.
pub open spec fn topic_categories(t: ShowTopic) -> Seq<CategoryV> {
    match t {
        ShowTopic::Targets => seq![targets_items()],
        ShowTopic::Syntax => seq![syntax_structure(), syntax_notes(), syntax_attributes()],
        ShowTopic::Durations => seq![durations_standard_durations(), durations_extended_durations(), durations_modifiers()],
        ShowTopic::Pitches => seq![pitches_pitch_names(), pitches_octaves(), pitches_accidentals()],
        ShowTopic::Clefs => seq![clefs_common_clefs(), clefs_special_clefs(), clefs_octave_clefs()],
        ShowTopic::Keys => seq![keys_major_keys(), keys_minor_keys(), keys_modes()],
        ShowTopic::Dynamics => seq![dynamics_soft_dynamics(), dynamics_medium_dynamics(), dynamics_loud_dynamics(), dynamics_accent_dynamics()],
        ShowTopic::Articulations => seq![articulations_standard_articulations(), articulations_jazz_articulations(), articulations_breath_pause()],
        ShowTopic::Ornaments => seq![ornaments_trills(), ornaments_turns(), ornaments_mordents(), ornaments_other_ornaments()],
        ShowTopic::Instruments => seq![instruments_keyboard(), instruments_strings(), instruments_woodwinds(), instruments_brass(), instruments_percussion(), instruments_voice()],
        ShowTopic::Barlines => seq![barlines_standard_barlines(), barlines_repeat_barlines(), barlines_special_barlines()],
        ShowTopic::Accidentals => seq![accidentals_standard_accidentals(), accidentals_compound_accidentals(), accidentals_microtonal_accidentals(), accidentals_arrow_accidentals(), accidentals_special_accidentals()],
        ShowTopic::Noteheads => seq![noteheads_standard_noteheads(), noteheads_percussion_special(), noteheads_directional(), noteheads_decorative(), noteheads_shape_note_solfege()],
        ShowTopic::Fermatas => seq![fermatas_standard_fermatas(), fermatas_fermata_shapes()],
    }
}

/// The group without heading of the targets table.
pub open spec fn targets_items() -> CategoryV {
    (
        ""@,
        seq![
            ("musicxml"@, "MusicXML format for notation software"@, Some("Finale, Sibelius, MuseScore, Dorico"@)),
            ("xml"@, "Alias for musicxml"@, None),
            ("lilypond"@, "LilyPond format (not yet implemented)"@, Some("Publication-quality PDF engraving"@)),
            ("ly"@, "Alias for lilypond"@, None),
        ],
    )
}

/// The group "Structure" of the syntax table.
pub open spec fn syntax_structure() -> CategoryV {
    (
        "Structure"@,
        seq![
            ("(score ...)"@, "Top-level score container"@, None),
            ("(part ...)"@, "Musical part/instrument"@, Some("(part :piano ...)"@)),
            ("(measure ...)"@, "A measure of music"@, None),
            ("(voice ...)"@, "Voice within a measure"@, None),
        ],
    )
}

/// The group "Notes" of the syntax table.
pub open spec fn syntax_notes() -> CategoryV {
    (
        "Notes"@,
        seq![
            ("(note ...)"@, "A single note"@, Some("(note c4 :q)"@)),
            ("(rest ...)"@, "A rest"@, Some("(rest :q)"@)),
            ("(chord ...)"@, "Multiple notes together"@, Some("(chord :q C4 E4 G4)"@)),
        ],
    )
}

/// The group "Attributes" of the syntax table.
pub open spec fn syntax_attributes() -> CategoryV {
    (
        "Attributes"@,
        seq![
            ("(key ...)"@, "Key signature"@, Some("(key c :major)"@)),
            ("(time ...)"@, "Time signature"@, Some("(time 4 4)"@)),
            ("(clef ...)"@, "Clef"@, Some("(clef :treble)"@)),
            ("(tempo ...)"@, "Tempo marking"@, Some("(tempo 120 :quarter)"@)),
        ],
    )
}

/// The group "Standard Durations" of the durations table.
pub open spec fn durations_standard_durations() -> CategoryV {
    (
        "Standard Durations"@,
        seq![
            (":w"@, "Whole note (semibreve)"@, Some("4 beats in 4/4"@)),
            (":h"@, "Half note (minim)"@, Some("2 beats in 4/4"@)),
            (":q"@, "Quarter note (crotchet)"@, Some("1 beat in 4/4"@)),
            (":8"@, "Eighth note (quaver)"@, Some("1/2 beat in 4/4"@)),
            (":16"@, "Sixteenth note (semiquaver)"@, Some("1/4 beat in 4/4"@)),
            (":32"@, "Thirty-second note (demisemiquaver)"@, None),
            (":64"@, "Sixty-fourth note (hemidemisemiquaver)"@, None),
        ],
    )
}

/// The group "Extended Durations" of the durations table.
pub open spec fn durations_extended_durations() -> CategoryV {
    (
        "Extended Durations"@,
        seq![
            (":breve"@, "Double whole note"@, Some("8 beats in 4/4"@)),
            (":long"@, "Quadruple whole note"@, None),
            (":maxima"@, "Octuple whole note"@, None),
            (":128"@, "128th note"@, None),
            (":256"@, "256th note"@, None),
        ],
    )
}

/// The group "Modifiers" of the durations table.
pub open spec fn durations_modifiers() -> CategoryV {
    (
        "Modifiers"@,
        seq![
            (":dot"@, "Add augmentation dot (1.5x duration)"@, Some("(note c4 :q :dot)"@)),
            (":dots 2"@, "Add multiple dots"@, Some("(note c4 :h :dots 2)"@)),
        ],
    )
}

/// The group "Pitch Names" of the pitches table.
pub open spec fn pitches_pitch_names() -> CategoryV {
    (
        "Pitch Names"@,
        seq![
            ("c d e f g a b"@, "Basic pitch names (case-insensitive)"@, Some("c4, D5, e3"@)),
        ],
    )
}

/// The group "Octaves" of the pitches table.
pub open spec fn pitches_octaves() -> CategoryV {
    (
        "Octaves"@,
        seq![
            ("0-9"@, "Octave number follows pitch name"@, Some("c4 = middle C"@)),
            ("c4"@, "Middle C (261.63 Hz)"@, None),
            ("a4"@, "Concert A (440 Hz)"@, None),
        ],
    )
}

/// The group "Accidentals" of the pitches table.
pub open spec fn pitches_accidentals() -> CategoryV {
    (
        "Accidentals"@,
        seq![
            ("#"@, "Sharp (raises pitch by semitone)"@, Some("f#4, c#5"@)),
            ("b"@, "Flat (lowers pitch by semitone)"@, Some("bb3, eb4"@)),
            ("x"@, "Double sharp"@, Some("fx4"@)),
            ("bb"@, "Double flat"@, Some("bbb3"@)),
            ("n"@, "Natural (explicit)"@, Some("fn4"@)),
        ],
    )
}

/// The group "Common Clefs" of the clefs table.
pub open spec fn clefs_common_clefs() -> CategoryV {
    (
        "Common Clefs"@,
        seq![
            (":treble"@, "G clef on line 2 (treble clef)"@, Some("Violin, flute, right hand piano"@)),
            (":bass"@, "F clef on line 4 (bass clef)"@, Some("Cello, bass, left hand piano"@)),
            (":alto"@, "C clef on line 3 (alto clef)"@, Some("Viola"@)),
            (":tenor"@, "C clef on line 4 (tenor clef)"@, Some("Cello, bassoon, trombone"@)),
        ],
    )
}

/// The group "Special Clefs" of the clefs table.
pub open spec fn clefs_special_clefs() -> CategoryV {
    (
        "Special Clefs"@,
        seq![
            (":percussion"@, "Percussion clef (neutral clef)"@, Some("Drums, unpitched percussion"@)),
            (":tab"@, "Tablature clef"@, Some("Guitar tablature"@)),
            (":none"@, "No clef displayed"@, None),
        ],
    )
}

/// The group "Octave Clefs" of the clefs table.
pub open spec fn clefs_octave_clefs() -> CategoryV {
    (
        "Octave Clefs"@,
        seq![
            (":treble-8vb"@, "Treble clef, octave lower"@, Some("Guitar, tenor voice"@)),
            (":treble-8va"@, "Treble clef, octave higher"@, Some("Piccolo, glockenspiel"@)),
            (":bass-8vb"@, "Bass clef, octave lower"@, Some("Contrabass"@)),
        ],
    )
}

/// The group "Major Keys" of the keys table.
pub open spec fn keys_major_keys() -> CategoryV {
    (
        "Major Keys"@,
        seq![
            ("c :major"@, "C major (no sharps or flats)"@, Some("(key c :major)"@)),
            ("g :major"@, "G major (1 sharp)"@, Some("F#"@)),
            ("d :major"@, "D major (2 sharps)"@, Some("F#, C#"@)),
            ("f :major"@, "F major (1 flat)"@, Some("Bb"@)),
            ("bb :major"@, "Bb major (2 flats)"@, Some("Bb, Eb"@)),
        ],
    )
}

/// The group "Minor Keys" of the keys table.
pub open spec fn keys_minor_keys() -> CategoryV {
    (
        "Minor Keys"@,
        seq![
            ("a :minor"@, "A minor (relative to C major)"@, Some("(key a :minor)"@)),
            ("e :minor"@, "E minor (1 sharp)"@, None),
            ("d :minor"@, "D minor (1 flat)"@, None),
        ],
    )
}

/// The group "Modes" of the keys table.
pub open spec fn keys_modes() -> CategoryV {
    (
        "Modes"@,
        seq![
            (":dorian"@, "Dorian mode"@, Some("D dorian = D E F G A B C D"@)),
            (":phrygian"@, "Phrygian mode"@, None),
            (":lydian"@, "Lydian mode"@, None),
            (":mixolydian"@, "Mixolydian mode"@, None),
            (":aeolian"@, "Aeolian mode (natural minor)"@, None),
            (":locrian"@, "Locrian mode"@, None),
            (":ionian"@, "Ionian mode (major)"@, None),
        ],
    )
}

/// The group "Soft Dynamics" of the dynamics table.
pub open spec fn dynamics_soft_dynamics() -> CategoryV {
    (
        "Soft Dynamics"@,
        seq![
            (":pppppp"@, "As soft as possible"@, None),
            (":ppppp"@, "Extremely soft"@, None),
            (":pppp"@, "Very very soft"@, None),
            (":ppp"@, "Very soft (pianississimo)"@, None),
            (":pp"@, "Soft (pianissimo)"@, None),
            (":p"@, "Soft (piano)"@, None),
        ],
    )
}

/// The group "Medium Dynamics" of the dynamics table.
pub open spec fn dynamics_medium_dynamics() -> CategoryV {
    (
        "Medium Dynamics"@,
        seq![
            (":mp"@, "Moderately soft (mezzo-piano)"@, None),
            (":mf"@, "Moderately loud (mezzo-forte)"@, None),
        ],
    )
}

/// The group "Loud Dynamics" of the dynamics table.
pub open spec fn dynamics_loud_dynamics() -> CategoryV {
    (
        "Loud Dynamics"@,
        seq![
            (":f"@, "Loud (forte)"@, None),
            (":ff"@, "Very loud (fortissimo)"@, None),
            (":fff"@, "Very very loud (fortississimo)"@, None),
            (":ffff"@, "Extremely loud"@, None),
            (":fffff"@, "As loud as possible"@, None),
            (":ffffff"@, "As loud as possible"@, None),
        ],
    )
}

/// The group "Accent Dynamics" of the dynamics table.
pub open spec fn dynamics_accent_dynamics() -> CategoryV {
    (
        "Accent Dynamics"@,
        seq![
            (":sf"@, "Sforzando (sudden accent)"@, None),
            (":sfz"@, "Sforzando"@, None),
            (":sffz"@, "Sforzando fortissimo"@, None),
            (":fp"@, "Forte-piano (loud then soft)"@, None),
            (":sfp"@, "Sforzando-piano"@, None),
            (":sfpp"@, "Sforzando-pianissimo"@, None),
            (":fz"@, "Forzando"@, None),
            (":rf"@, "Rinforzando"@, None),
            (":rfz"@, "Rinforzando"@, None),
            (":n"@, "Niente (nothing, fade to silence)"@, None),
        ],
    )
}

/// The group "Standard Articulations" of the articulations table.
pub open spec fn articulations_standard_articulations() -> CategoryV {
    (
        "Standard Articulations"@,
        seq![
            (":staccato"@, "Short, detached"@, Some("."@)),
            (":staccatissimo"@, "Very short, extremely detached"@, Some("wedge"@)),
            (":tenuto"@, "Held for full value"@, Some("-"@)),
            (":accent"@, "Emphasized attack"@, Some(">"@)),
            (":strong-accent"@, "Strongly emphasized (marcato)"@, Some("^"@)),
            (":detached-legato"@, "Slightly separated but smooth"@, Some("portato"@)),
        ],
    )
}

/// The group "Jazz Articulations" of the articulations table.
pub open spec fn articulations_jazz_articulations() -> CategoryV {
    (
        "Jazz Articulations"@,
        seq![
            (":scoop"@, "Slide up into note"@, None),
            (":plop"@, "Slide down into note"@, None),
            (":doit"@, "Slide up from note"@, None),
            (":falloff"@, "Slide down from note"@, None),
            (":spiccato"@, "Light bouncing bow"@, None),
        ],
    )
}

/// The group "Breath & Pause" of the articulations table.
pub open spec fn articulations_breath_pause() -> CategoryV {
    (
        "Breath & Pause"@,
        seq![
            (":breath-mark"@, "Breath mark (comma)"@, None),
            (":caesura"@, "Full stop/railroad tracks"@, None),
            (":stress"@, "Stress mark"@, None),
            (":unstress"@, "Unstress mark"@, None),
        ],
    )
}

/// The group "Trills" of the ornaments table.
pub open spec fn ornaments_trills() -> CategoryV {
    (
        "Trills"@,
        seq![
            (":trill"@, "Trill (rapid alternation)"@, Some("tr"@)),
            (":shake"@, "Shake ornament"@, None),
            (":wavy-line"@, "Wavy line (trill extension)"@, None),
        ],
    )
}

/// The group "Turns" of the ornaments table.
pub open spec fn ornaments_turns() -> CategoryV {
    (
        "Turns"@,
        seq![
            (":turn"@, "Turn (4-note ornament)"@, None),
            (":inverted-turn"@, "Inverted turn"@, None),
            (":delayed-turn"@, "Turn played after main note"@, None),
            (":vertical-turn"@, "Vertical turn symbol"@, None),
        ],
    )
}

/// The group "Mordents" of the ornaments table.
pub open spec fn ornaments_mordents() -> CategoryV {
    (
        "Mordents"@,
        seq![
            (":mordent"@, "Lower mordent"@, None),
            (":inverted-mordent"@, "Upper mordent (pralltriller)"@, None),
        ],
    )
}

/// The group "Other Ornaments" of the ornaments table.
pub open spec fn ornaments_other_ornaments() -> CategoryV {
    (
        "Other Ornaments"@,
        seq![
            (":tremolo"@, "Tremolo (rapid repetition)"@, Some("1-8 slashes"@)),
            (":schleifer"@, "Baroque slide"@, None),
        ],
    )
}

/// The group "Keyboard" of the instruments table.
pub open spec fn instruments_keyboard() -> CategoryV {
    (
        "Keyboard"@,
        seq![
            (":piano"@, "Piano"@, Some("Grand staff"@)),
            (":organ"@, "Organ"@, None),
            (":harpsichord"@, "Harpsichord"@, None),
        ],
    )
}

/// The group "Strings" of the instruments table.
pub open spec fn instruments_strings() -> CategoryV {
    (
        "Strings"@,
        seq![
            (":violin"@, "Violin"@, Some("Treble clef"@)),
            (":viola"@, "Viola"@, Some("Alto clef"@)),
            (":cello"@, "Violoncello"@, Some("Bass/tenor clef"@)),
            (":bass"@, "Double bass/contrabass"@, Some("Bass clef, sounds 8vb"@)),
            (":guitar"@, "Guitar"@, Some("Treble clef, sounds 8vb"@)),
            (":harp"@, "Harp"@, Some("Grand staff"@)),
        ],
    )
}

/// The group "Woodwinds" of the instruments table.
pub open spec fn instruments_woodwinds() -> CategoryV {
    (
        "Woodwinds"@,
        seq![
            (":flute"@, "Flute"@, Some("Treble clef"@)),
            (":oboe"@, "Oboe"@, None),
            (":clarinet"@, "Clarinet (Bb)"@, Some("Transposing"@)),
            (":bassoon"@, "Bassoon"@, Some("Bass/tenor clef"@)),
            (":saxophone"@, "Saxophone"@, Some("Transposing"@)),
        ],
    )
}

/// The group "Brass" of the instruments table.
pub open spec fn instruments_brass() -> CategoryV {
    (
        "Brass"@,
        seq![
            (":trumpet"@, "Trumpet"@, Some("Transposing"@)),
            (":horn"@, "French horn"@, Some("Transposing"@)),
            (":trombone"@, "Trombone"@, Some("Bass/tenor clef"@)),
            (":tuba"@, "Tuba"@, Some("Bass clef"@)),
        ],
    )
}

/// The group "Percussion" of the instruments table.
pub open spec fn instruments_percussion() -> CategoryV {
    (
        "Percussion"@,
        seq![
            (":timpani"@, "Timpani"@, Some("Bass clef, pitched"@)),
            (":drums"@, "Drum set"@, Some("Percussion clef"@)),
            (":percussion"@, "General percussion"@, None),
        ],
    )
}

/// The group "Voice" of the instruments table.
pub open spec fn instruments_voice() -> CategoryV {
    (
        "Voice"@,
        seq![
            (":soprano"@, "Soprano voice"@, Some("Treble clef"@)),
            (":alto"@, "Alto voice"@, Some("Treble clef"@)),
            (":tenor"@, "Tenor voice"@, Some("Treble 8vb or tenor clef"@)),
            (":baritone"@, "Baritone voice"@, Some("Bass clef"@)),
            (":bass-voice"@, "Bass voice"@, Some("Bass clef"@)),
        ],
    )
}

/// The group "Standard Barlines" of the barlines table.
pub open spec fn barlines_standard_barlines() -> CategoryV {
    (
        "Standard Barlines"@,
        seq![
            (":regular"@, "Single barline"@, Some("|"@)),
            (":double"@, "Double barline (light-light)"@, Some("||"@)),
            (":final"@, "Final barline (light-heavy)"@, Some("|]"@)),
            (":heavy"@, "Heavy single barline"@, None),
            (":heavy-heavy"@, "Double heavy barline"@, None),
        ],
    )
}

/// The group "Repeat Barlines" of the barlines table.
pub open spec fn barlines_repeat_barlines() -> CategoryV {
    (
        "Repeat Barlines"@,
        seq![
            (":repeat-forward"@, "Start repeat"@, Some("|:"@)),
            (":repeat-backward"@, "End repeat"@, Some(":|"@)),
            (":repeat-both"@, "End and start repeat"@, Some(":|:"@)),
        ],
    )
}

/// The group "Special Barlines" of the barlines table.
pub open spec fn barlines_special_barlines() -> CategoryV {
    (
        "Special Barlines"@,
        seq![
            (":dashed"@, "Dashed barline"@, None),
            (":dotted"@, "Dotted barline"@, None),
            (":tick"@, "Tick mark (short barline)"@, None),
            (":short"@, "Short barline"@, None),
            (":none"@, "No barline"@, None),
        ],
    )
}

/// The group "Standard Accidentals" of the accidentals table.
pub open spec fn accidentals_standard_accidentals() -> CategoryV {
    (
        "Standard Accidentals"@,
        seq![
            (":sharp"@, "Sharp"@, Some("#"@)),
            (":flat"@, "Flat"@, Some("b"@)),
            (":natural"@, "Natural"@, None),
            (":double-sharp"@, "Double sharp"@, Some("x"@)),
            (":double-flat"@, "Double flat"@, Some("bb"@)),
        ],
    )
}

/// The group "Compound Accidentals" of the accidentals table.
pub open spec fn accidentals_compound_accidentals() -> CategoryV {
    (
        "Compound Accidentals"@,
        seq![
            (":natural-sharp"@, "Natural then sharp"@, None),
            (":natural-flat"@, "Natural then flat"@, None),
            (":sharp-sharp"@, "Sharp-sharp (same as double sharp)"@, None),
            (":flat-flat"@, "Flat-flat (same as double flat)"@, None),
        ],
    )
}

/// The group "Microtonal Accidentals" of the accidentals table.
pub open spec fn accidentals_microtonal_accidentals() -> CategoryV {
    (
        "Microtonal Accidentals"@,
        seq![
            (":quarter-sharp"@, "Quarter-tone sharp"@, None),
            (":quarter-flat"@, "Quarter-tone flat"@, None),
            (":three-quarters-sharp"@, "Three-quarter-tone sharp"@, None),
            (":three-quarters-flat"@, "Three-quarter-tone flat"@, None),
        ],
    )
}

/// The group "Arrow Accidentals" of the accidentals table.
pub open spec fn accidentals_arrow_accidentals() -> CategoryV {
    (
        "Arrow Accidentals"@,
        seq![
            (":sharp-up"@, "Sharp raised by comma"@, None),
            (":sharp-down"@, "Sharp lowered by comma"@, None),
            (":flat-up"@, "Flat raised by comma"@, None),
            (":flat-down"@, "Flat lowered by comma"@, None),
            (":natural-up"@, "Natural raised by comma"@, None),
            (":natural-down"@, "Natural lowered by comma"@, None),
        ],
    )
}

/// The group "Special Accidentals" of the accidentals table.
pub open spec fn accidentals_special_accidentals() -> CategoryV {
    (
        "Special Accidentals"@,
        seq![
            (":sori"@, "Persian sori"@, None),
            (":koron"@, "Persian koron"@, None),
            (":triple-sharp"@, "Triple sharp"@, None),
            (":triple-flat"@, "Triple flat"@, None),
        ],
    )
}

/// The group "Standard Noteheads" of the noteheads table.
pub open spec fn noteheads_standard_noteheads() -> CategoryV {
    (
        "Standard Noteheads"@,
        seq![
            (":normal"@, "Normal oval notehead"@, Some("Default"@)),
            (":diamond"@, "Diamond notehead"@, Some("Harmonics"@)),
            (":triangle"@, "Triangle notehead"@, None),
            (":square"@, "Square notehead"@, Some("Gregorian chant"@)),
            (":rectangle"@, "Rectangle notehead"@, None),
        ],
    )
}

/// The group "Percussion/Special" of the noteheads table.
pub open spec fn noteheads_percussion_special() -> CategoryV {
    (
        "Percussion/Special"@,
        seq![
            (":x"@, "X notehead"@, Some("Hi-hat, spoken"@)),
            (":cross"@, "Cross notehead"@, Some("Percussion"@)),
            (":circle-x"@, "Circled X notehead"@, None),
            (":slash"@, "Slash notehead"@, Some("Rhythmic notation"@)),
            (":cluster"@, "Cluster notehead"@, None),
        ],
    )
}

/// The group "Directional" of the noteheads table.
pub open spec fn noteheads_directional() -> CategoryV {
    (
        "Directional"@,
        seq![
            (":arrow-up"@, "Arrow up notehead"@, None),
            (":arrow-down"@, "Arrow down notehead"@, None),
            (":inverted-triangle"@, "Inverted triangle"@, None),
            (":left-triangle"@, "Left-pointing triangle"@, None),
        ],
    )
}

/// The group "Decorative" of the noteheads table.
pub open spec fn noteheads_decorative() -> CategoryV {
    (
        "Decorative"@,
        seq![
            (":circled"@, "Circled notehead"@, None),
            (":slashed"@, "Slashed notehead"@, None),
            (":back-slashed"@, "Back-slashed notehead"@, None),
            (":circle-dot"@, "Circle with dot notehead"@, None),
            (":none"@, "No notehead (stem only)"@, None),
        ],
    )
}

/// The group "Shape Note (Solfege)" of the noteheads table.
pub open spec fn noteheads_shape_note_solfege() -> CategoryV {
    (
        "Shape Note (Solfege)"@,
        seq![
            (":do"@, "Do (triangle)"@, None),
            (":re"@, "Re (moon/crescent)"@, None),
            (":mi"@, "Mi (diamond)"@, None),
            (":fa"@, "Fa (right-pointing triangle)"@, None),
            (":so"@, "So (oval)"@, None),
            (":la"@, "La (rectangle)"@, None),
            (":ti"@, "Ti (ice cream cone)"@, None),
        ],
    )
}

/// The group "Standard Fermatas" of the fermatas table.
pub open spec fn fermatas_standard_fermatas() -> CategoryV {
    (
        "Standard Fermatas"@,
        seq![
            (":fermata"@, "Normal fermata"@, Some("Standard pause symbol"@)),
            (":fermata-inverted"@, "Inverted fermata (below staff)"@, None),
        ],
    )
}

/// The group "Fermata Shapes" of the fermatas table.
pub open spec fn fermatas_fermata_shapes() -> CategoryV {
    (
        "Fermata Shapes"@,
        seq![
            (":normal"@, "Normal curved fermata"@, Some("Most common"@)),
            (":angled"@, "Angled/triangular fermata"@, Some("Short fermata"@)),
            (":square"@, "Square fermata"@, Some("Long fermata"@)),
            (":double-angled"@, "Double angled fermata"@, Some("Very short"@)),
            (":double-square"@, "Double square fermata"@, Some("Very long"@)),
            (":double-dot"@, "Double-dot fermata"@, None),
            (":half-curve"@, "Half-curve fermata"@, None),
            (":curlew"@, "Curlew fermata (Britten)"@, None),
        ],
    )
}

/// Builds the group that `targets_items` states.
fn build_targets_items() -> (r: RefCategory)
    ensures
        category_view(r) == targets_items(),
{
    let mut items: Vec<RefItem> = Vec::new();
    items.push(RefItem { keyword: "musicxml", description: "MusicXML format for notation software", example: Some("Finale, Sibelius, MuseScore, Dorico") });
    items.push(RefItem { keyword: "xml", description: "Alias for musicxml", example: None });
    items.push(RefItem { keyword: "lilypond", description: "LilyPond format (not yet implemented)", example: Some("Publication-quality PDF engraving") });
    items.push(RefItem { keyword: "ly", description: "Alias for lilypond", example: None });
    let r = RefCategory { name: "", items };
    assert(r.items@.map_values(|i: RefItem| item_view(i)) =~= targets_items().1);
    r
}

/// Builds the table of the targets topic.
fn build_targets() -> (r: Reference)
    ensures
        r.title@ == topic_title(ShowTopic::Targets),
        categories_view(r.categories@) == topic_categories(ShowTopic::Targets),
{
    let mut categories: Vec<RefCategory> = Vec::new();
    categories.push(build_targets_items());
    let r = Reference { title: "Output Targets", categories };
    assert(categories_view(r.categories@) =~= topic_categories(ShowTopic::Targets));
    r
}

/// Builds the group that `syntax_structure` states.
fn build_syntax_structure() -> (r: RefCategory)
    ensures
        category_view(r) == syntax_structure(),
{
    let mut items: Vec<RefItem> = Vec::new();
    items.push(RefItem { keyword: "(score ...)", description: "Top-level score container", example: None });
    items.push(RefItem { keyword: "(part ...)", description: "Musical part/instrument", example: Some("(part :piano ...)") });
    items.push(RefItem { keyword: "(measure ...)", description: "A measure of music", example: None });
    items.push(RefItem { keyword: "(voice ...)", description: "Voice within a measure", example: None });
    let r = RefCategory { name: "Structure", items };
    assert(r.items@.map_values(|i: RefItem| item_view(i)) =~= syntax_structure().1);
    r
}

/// Builds the group that `syntax_notes` states.
fn build_syntax_notes() -> (r: RefCategory)
    ensures
        category_view(r) == syntax_notes(),
{
    let mut items: Vec<RefItem> = Vec::new();
    items.push(RefItem { keyword: "(note ...)", description: "A single note", example: Some("(note c4 :q)") });
    items.push(RefItem { keyword: "(rest ...)", description: "A rest", example: Some("(rest :q)") });
    items.push(RefItem { keyword: "(chord ...)", description: "Multiple notes together", example: Some("(chord :q C4 E4 G4)") });
    let r = RefCategory { name: "Notes", items };
    assert(r.items@.map_values(|i: RefItem| item_view(i)) =~= syntax_notes().1);
    r
}

/// Builds the group that `syntax_attributes` states.
fn build_syntax_attributes() -> (r: RefCategory)
    ensures
        category_view(r) == syntax_attributes(),
{
    let mut items: Vec<RefItem> = Vec::new();
    items.push(RefItem { keyword: "(key ...)", description: "Key signature", example: Some("(key c :major)") });
    items.push(RefItem { keyword: "(time ...)", description: "Time signature", example: Some("(time 4 4)") });
    items.push(RefItem { keyword: "(clef ...)", description: "Clef", example: Some("(clef :treble)") });
    items.push(RefItem { keyword: "(tempo ...)", description: "Tempo marking", example: Some("(tempo 120 :quarter)") });
    let r = RefCategory { name: "Attributes", items };
    assert(r.items@.map_values(|i: RefItem| item_view(i)) =~= syntax_attributes().1);
    r
}

/// Builds the table of the syntax topic.
fn build_syntax() -> (r: Reference)
    ensures
        r.title@ == topic_title(ShowTopic::Syntax),
        categories_view(r.categories@) == topic_categories(ShowTopic::Syntax),
{
    let mut categories: Vec<RefCategory> = Vec::new();
    categories.push(build_syntax_structure());
    categories.push(build_syntax_notes());
    categories.push(build_syntax_attributes());
    let r = Reference { title: "Syntax Quick Reference", categories };
    assert(categories_view(r.categories@) =~= topic_categories(ShowTopic::Syntax));
    r
}

/// Builds the group that `durations_standard_durations` states.
fn build_durations_standard_durations() -> (r: RefCategory)
    ensures
        category_view(r) == durations_standard_durations(),
{
    let mut items: Vec<RefItem> = Vec::new();
    items.push(RefItem { keyword: ":w", description: "Whole note (semibreve)", example: Some("4 beats in 4/4") });
    items.push(RefItem { keyword: ":h", description: "Half note (minim)", example: Some("2 beats in 4/4") });
    items.push(RefItem { keyword: ":q", description: "Quarter note (crotchet)", example: Some("1 beat in 4/4") });
    items.push(RefItem { keyword: ":8", description: "Eighth note (quaver)", example: Some("1/2 beat in 4/4") });
    items.push(RefItem { keyword: ":16", description: "Sixteenth note (semiquaver)", example: Some("1/4 beat in 4/4") });
    items.push(RefItem { keyword: ":32", description: "Thirty-second note (demisemiquaver)", example: None });
    items.push(RefItem { keyword: ":64", description: "Sixty-fourth note (hemidemisemiquaver)", example: None });
    let r = RefCategory { name: "Standard Durations", items };
    assert(r.items@.map_values(|i: RefItem| item_view(i)) =~= durations_standard_durations().1);
    r
}

/// Builds the group that `durations_extended_durations` states.
fn build_durations_extended_durations() -> (r: RefCategory)
    ensures
        category_view(r) == durations_extended_durations(),
{
    let mut items: Vec<RefItem> = Vec::new();
    items.push(RefItem { keyword: ":breve", description: "Double whole note", example: Some("8 beats in 4/4") });
    items.push(RefItem { keyword: ":long", description: "Quadruple whole note", example: None });
    items.push(RefItem { keyword: ":maxima", description: "Octuple whole note", example: None });
    items.push(RefItem { keyword: ":128", description: "128th note", example: None });
    items.push(RefItem { keyword: ":256", description: "256th note", example: None });
    let r = RefCategory { name: "Extended Durations", items };
    assert(r.items@.map_values(|i: RefItem| item_view(i)) =~= durations_extended_durations().1);
    r
}

/// Builds the group that `durations_modifiers` states.
fn build_durations_modifiers() -> (r: RefCategory)
    ensures
        category_view(r) == durations_modifiers(),
{
    let mut items: Vec<RefItem> = Vec::new();
    items.push(RefItem { keyword: ":dot", description: "Add augmentation dot (1.5x duration)", example: Some("(note c4 :q :dot)") });
    items.push(RefItem { keyword: ":dots 2", description: "Add multiple dots", example: Some("(note c4 :h :dots 2)") });
    let r = RefCategory { name: "Modifiers", items };
    assert(r.items@.map_values(|i: RefItem| item_view(i)) =~= durations_modifiers().1);
    r
}

/// Builds the table of the durations topic.
fn build_durations() -> (r: Reference)
    ensures
        r.title@ == topic_title(ShowTopic::Durations),
        categories_view(r.categories@) == topic_categories(ShowTopic::Durations),
{
    let mut categories: Vec<RefCategory> = Vec::new();
    categories.push(build_durations_standard_durations());
    categories.push(build_durations_extended_durations());
    categories.push(build_durations_modifiers());
    let r = Reference { title: "Duration Symbols", categories };
    assert(categories_view(r.categories@) =~= topic_categories(ShowTopic::Durations));
    r
}

/// Builds the group that `pitches_pitch_names` states.
fn build_pitches_pitch_names() -> (r: RefCategory)
    ensures
        category_view(r) == pitches_pitch_names(),
{
    let mut items: Vec<RefItem> = Vec::new();
    items.push(RefItem { keyword: "c d e f g a b", description: "Basic pitch names (case-insensitive)", example: Some("c4, D5, e3") });
    let r = RefCategory { name: "Pitch Names", items };
    assert(r.items@.map_values(|i: RefItem| item_view(i)) =~= pitches_pitch_names().1);
    r
}

/// Builds the group that `pitches_octaves` states.
fn build_pitches_octaves() -> (r: RefCategory)
    ensures
        category_view(r) == pitches_octaves(),
{
    let mut items: Vec<RefItem> = Vec::new();
    items.push(RefItem { keyword: "0-9", description: "Octave number follows pitch name", example: Some("c4 = middle C") });
    items.push(RefItem { keyword: "c4", description: "Middle C (261.63 Hz)", example: None });
    items.push(RefItem { keyword: "a4", description: "Concert A (440 Hz)", example: None });
    let r = RefCategory { name: "Octaves", items };
    assert(r.items@.map_values(|i: RefItem| item_view(i)) =~= pitches_octaves().1);
    r
}

/// Builds the group that `pitches_accidentals` states.
fn build_pitches_accidentals() -> (r: RefCategory)
    ensures
        category_view(r) == pitches_accidentals(),
{
    let mut items: Vec<RefItem> = Vec::new();
    items.push(RefItem { keyword: "#", description: "Sharp (raises pitch by semitone)", example: Some("f#4, c#5") });
    items.push(RefItem { keyword: "b", description: "Flat (lowers pitch by semitone)", example: Some("bb3, eb4") });
    items.push(RefItem { keyword: "x", description: "Double sharp", example: Some("fx4") });
    items.push(RefItem { keyword: "bb", description: "Double flat", example: Some("bbb3") });
    items.push(RefItem { keyword: "n", description: "Natural (explicit)", example: Some("fn4") });
    let r = RefCategory { name: "Accidentals", items };
    assert(r.items@.map_values(|i: RefItem| item_view(i)) =~= pitches_accidentals().1);
    r
}

/// Builds the table of the pitches topic.
fn build_pitches() -> (r: Reference)
    ensures
        r.title@ == topic_title(ShowTopic::Pitches),
        categories_view(r.categories@) == topic_categories(ShowTopic::Pitches),
{
    let mut categories: Vec<RefCategory> = Vec::new();
    categories.push(build_pitches_pitch_names());
    categories.push(build_pitches_octaves());
    categories.push(build_pitches_accidentals());
    let r = Reference { title: "Pitch Notation", categories };
    assert(categories_view(r.categories@) =~= topic_categories(ShowTopic::Pitches));
    r
}

/// Builds the group that `clefs_common_clefs` states.
fn build_clefs_common_clefs() -> (r: RefCategory)
    ensures
        category_view(r) == clefs_common_clefs(),
{
    let mut items: Vec<RefItem> = Vec::new();
    items.push(RefItem { keyword: ":treble", description: "G clef on line 2 (treble clef)", example: Some("Violin, flute, right hand piano") });
    items.push(RefItem { keyword: ":bass", description: "F clef on line 4 (bass clef)", example: Some("Cello, bass, left hand piano") });
    items.push(RefItem { keyword: ":alto", description: "C clef on line 3 (alto clef)", example: Some("Viola") });
    items.push(RefItem { keyword: ":tenor", description: "C clef on line 4 (tenor clef)", example: Some("Cello, bassoon, trombone") });
    let r = RefCategory { name: "Common Clefs", items };
    assert(r.items@.map_values(|i: RefItem| item_view(i)) =~= clefs_common_clefs().1);
    r
}

/// Builds the group that `clefs_special_clefs` states.
fn build_clefs_special_clefs() -> (r: RefCategory)
    ensures
        category_view(r) == clefs_special_clefs(),
{
    let mut items: Vec<RefItem> = Vec::new();
    items.push(RefItem { keyword: ":percussion", description: "Percussion clef (neutral clef)", example: Some("Drums, unpitched percussion") });
    items.push(RefItem { keyword: ":tab", description: "Tablature clef", example: Some("Guitar tablature") });
    items.push(RefItem { keyword: ":none", description: "No clef displayed", example: None });
    let r = RefCategory { name: "Special Clefs", items };
    assert(r.items@.map_values(|i: RefItem| item_view(i)) =~= clefs_special_clefs().1);
    r
}

/// Builds the group that `clefs_octave_clefs` states.
fn build_clefs_octave_clefs() -> (r: RefCategory)
    ensures
        category_view(r) == clefs_octave_clefs(),
{
    let mut items: Vec<RefItem> = Vec::new();
    items.push(RefItem { keyword: ":treble-8vb", description: "Treble clef, octave lower", example: Some("Guitar, tenor voice") });
    items.push(RefItem { keyword: ":treble-8va", description: "Treble clef, octave higher", example: Some("Piccolo, glockenspiel") });
    items.push(RefItem { keyword: ":bass-8vb", description: "Bass clef, octave lower", example: Some("Contrabass") });
    let r = RefCategory { name: "Octave Clefs", items };
    assert(r.items@.map_values(|i: RefItem| item_view(i)) =~= clefs_octave_clefs().1);
    r
}

/// Builds the table of the clefs topic.
fn build_clefs() -> (r: Reference)
    ensures
        r.title@ == topic_title(ShowTopic::Clefs),
        categories_view(r.categories@) == topic_categories(ShowTopic::Clefs),
{
    let mut categories: Vec<RefCategory> = Vec::new();
    categories.push(build_clefs_common_clefs());
    categories.push(build_clefs_special_clefs());
    categories.push(build_clefs_octave_clefs());
    let r = Reference { title: "Clefs", categories };
    assert(categories_view(r.categories@) =~= topic_categories(ShowTopic::Clefs));
    r
}

/// Builds the group that `keys_major_keys` states.
fn build_keys_major_keys() -> (r: RefCategory)
    ensures
        category_view(r) == keys_major_keys(),
{
    let mut items: Vec<RefItem> = Vec::new();
    items.push(RefItem { keyword: "c :major", description: "C major (no sharps or flats)", example: Some("(key c :major)") });
    items.push(RefItem { keyword: "g :major", description: "G major (1 sharp)", example: Some("F#") });
    items.push(RefItem { keyword: "d :major", description: "D major (2 sharps)", example: Some("F#, C#") });
    items.push(RefItem { keyword: "f :major", description: "F major (1 flat)", example: Some("Bb") });
    items.push(RefItem { keyword: "bb :major", description: "Bb major (2 flats)", example: Some("Bb, Eb") });
    let r = RefCategory { name: "Major Keys", items };
    assert(r.items@.map_values(|i: RefItem| item_view(i)) =~= keys_major_keys().1);
    r
}

/// Builds the group that `keys_minor_keys` states.
fn build_keys_minor_keys() -> (r: RefCategory)
    ensures
        category_view(r) == keys_minor_keys(),
{
    let mut items: Vec<RefItem> = Vec::new();
    items.push(RefItem { keyword: "a :minor", description: "A minor (relative to C major)", example: Some("(key a :minor)") });
    items.push(RefItem { keyword: "e :minor", description: "E minor (1 sharp)", example: None });
    items.push(RefItem { keyword: "d :minor", description: "D minor (1 flat)", example: None });
    let r = RefCategory { name: "Minor Keys", items };
    assert(r.items@.map_values(|i: RefItem| item_view(i)) =~= keys_minor_keys().1);
    r
}

/// Builds the group that `keys_modes` states.
fn build_keys_modes() -> (r: RefCategory)
    ensures
        category_view(r) == keys_modes(),
{
    let mut items: Vec<RefItem> = Vec::new();
    items.push(RefItem { keyword: ":dorian", description: "Dorian mode", example: Some("D dorian = D E F G A B C D") });
    items.push(RefItem { keyword: ":phrygian", description: "Phrygian mode", example: None });
    items.push(RefItem { keyword: ":lydian", description: "Lydian mode", example: None });
    items.push(RefItem { keyword: ":mixolydian", description: "Mixolydian mode", example: None });
    items.push(RefItem { keyword: ":aeolian", description: "Aeolian mode (natural minor)", example: None });
    items.push(RefItem { keyword: ":locrian", description: "Locrian mode", example: None });
    items.push(RefItem { keyword: ":ionian", description: "Ionian mode (major)", example: None });
    let r = RefCategory { name: "Modes", items };
    assert(r.items@.map_values(|i: RefItem| item_view(i)) =~= keys_modes().1);
    r
}

/// Builds the table of the keys topic.
fn build_keys() -> (r: Reference)
    ensures
        r.title@ == topic_title(ShowTopic::Keys),
        categories_view(r.categories@) == topic_categories(ShowTopic::Keys),
{
    let mut categories: Vec<RefCategory> = Vec::new();
    categories.push(build_keys_major_keys());
    categories.push(build_keys_minor_keys());
    categories.push(build_keys_modes());
    let r = Reference { title: "Key Signatures", categories };
    assert(categories_view(r.categories@) =~= topic_categories(ShowTopic::Keys));
    r
}

/// Builds the group that `dynamics_soft_dynamics` states.
fn build_dynamics_soft_dynamics() -> (r: RefCategory)
    ensures
        category_view(r) == dynamics_soft_dynamics(),
{
    let mut items: Vec<RefItem> = Vec::new();
    items.push(RefItem { keyword: ":pppppp", description: "As soft as possible", example: None });
    items.push(RefItem { keyword: ":ppppp", description: "Extremely soft", example: None });
    items.push(RefItem { keyword: ":pppp", description: "Very very soft", example: None });
    items.push(RefItem { keyword: ":ppp", description: "Very soft (pianississimo)", example: None });
    items.push(RefItem { keyword: ":pp", description: "Soft (pianissimo)", example: None });
    items.push(RefItem { keyword: ":p", description: "Soft (piano)", example: None });
    let r = RefCategory { name: "Soft Dynamics", items };
    assert(r.items@.map_values(|i: RefItem| item_view(i)) =~= dynamics_soft_dynamics().1);
    r
}

/// Builds the group that `dynamics_medium_dynamics` states.
fn build_dynamics_medium_dynamics() -> (r: RefCategory)
    ensures
        category_view(r) == dynamics_medium_dynamics(),
{
    let mut items: Vec<RefItem> = Vec::new();
    items.push(RefItem { keyword: ":mp", description: "Moderately soft (mezzo-piano)", example: None });
    items.push(RefItem { keyword: ":mf", description: "Moderately loud (mezzo-forte)", example: None });
    let r = RefCategory { name: "Medium Dynamics", items };
    assert(r.items@.map_values(|i: RefItem| item_view(i)) =~= dynamics_medium_dynamics().1);
    r
}

/// Builds the group that `dynamics_loud_dynamics` states.
fn build_dynamics_loud_dynamics() -> (r: RefCategory)
    ensures
        category_view(r) == dynamics_loud_dynamics(),
{
    let mut items: Vec<RefItem> = Vec::new();
    items.push(RefItem { keyword: ":f", description: "Loud (forte)", example: None });
    items.push(RefItem { keyword: ":ff", description: "Very loud (fortissimo)", example: None });
    items.push(RefItem { keyword: ":fff", description: "Very very loud (fortississimo)", example: None });
    items.push(RefItem { keyword: ":ffff", description: "Extremely loud", example: None });
    items.push(RefItem { keyword: ":fffff", description: "As loud as possible", example: None });
    items.push(RefItem { keyword: ":ffffff", description: "As loud as possible", example: None });
    let r = RefCategory { name: "Loud Dynamics", items };
    assert(r.items@.map_values(|i: RefItem| item_view(i)) =~= dynamics_loud_dynamics().1);
    r
}

/// Builds the group that `dynamics_accent_dynamics` states.
fn build_dynamics_accent_dynamics() -> (r: RefCategory)
    ensures
        category_view(r) == dynamics_accent_dynamics(),
{
    let mut items: Vec<RefItem> = Vec::new();
    items.push(RefItem { keyword: ":sf", description: "Sforzando (sudden accent)", example: None });
    items.push(RefItem { keyword: ":sfz", description: "Sforzando", example: None });
    items.push(RefItem { keyword: ":sffz", description: "Sforzando fortissimo", example: None });
    items.push(RefItem { keyword: ":fp", description: "Forte-piano (loud then soft)", example: None });
    items.push(RefItem { keyword: ":sfp", description: "Sforzando-piano", example: None });
    items.push(RefItem { keyword: ":sfpp", description: "Sforzando-pianissimo", example: None });
    items.push(RefItem { keyword: ":fz", description: "Forzando", example: None });
    items.push(RefItem { keyword: ":rf", description: "Rinforzando", example: None });
    items.push(RefItem { keyword: ":rfz", description: "Rinforzando", example: None });
    items.push(RefItem { keyword: ":n", description: "Niente (nothing, fade to silence)", example: None });
    let r = RefCategory { name: "Accent Dynamics", items };
    assert(r.items@.map_values(|i: RefItem| item_view(i)) =~= dynamics_accent_dynamics().1);
    r
}

/// Builds the table of the dynamics topic.
fn build_dynamics() -> (r: Reference)
    ensures
        r.title@ == topic_title(ShowTopic::Dynamics),
        categories_view(r.categories@) == topic_categories(ShowTopic::Dynamics),
{
    let mut categories: Vec<RefCategory> = Vec::new();
    categories.push(build_dynamics_soft_dynamics());
    categories.push(build_dynamics_medium_dynamics());
    categories.push(build_dynamics_loud_dynamics());
    categories.push(build_dynamics_accent_dynamics());
    let r = Reference { title: "Dynamic Markings", categories };
    assert(categories_view(r.categories@) =~= topic_categories(ShowTopic::Dynamics));
    r
}

/// Builds the group that `articulations_standard_articulations` states.
fn build_articulations_standard_articulations() -> (r: RefCategory)
    ensures
        category_view(r) == articulations_standard_articulations(),
{
    let mut items: Vec<RefItem> = Vec::new();
    items.push(RefItem { keyword: ":staccato", description: "Short, detached", example: Some(".") });
    items.push(RefItem { keyword: ":staccatissimo", description: "Very short, extremely detached", example: Some("wedge") });
    items.push(RefItem { keyword: ":tenuto", description: "Held for full value", example: Some("-") });
    items.push(RefItem { keyword: ":accent", description: "Emphasized attack", example: Some(">") });
    items.push(RefItem { keyword: ":strong-accent", description: "Strongly emphasized (marcato)", example: Some("^") });
    items.push(RefItem { keyword: ":detached-legato", description: "Slightly separated but smooth", example: Some("portato") });
    let r = RefCategory { name: "Standard Articulations", items };
    assert(r.items@.map_values(|i: RefItem| item_view(i)) =~= articulations_standard_articulations().1);
    r
}

/// Builds the group that `articulations_jazz_articulations` states.
fn build_articulations_jazz_articulations() -> (r: RefCategory)
    ensures
        category_view(r) == articulations_jazz_articulations(),
{
    let mut items: Vec<RefItem> = Vec::new();
    items.push(RefItem { keyword: ":scoop", description: "Slide up into note", example: None });
    items.push(RefItem { keyword: ":plop", description: "Slide down into note", example: None });
    items.push(RefItem { keyword: ":doit", description: "Slide up from note", example: None });
    items.push(RefItem { keyword: ":falloff", description: "Slide down from note", example: None });
    items.push(RefItem { keyword: ":spiccato", description: "Light bouncing bow", example: None });
    let r = RefCategory { name: "Jazz Articulations", items };
    assert(r.items@.map_values(|i: RefItem| item_view(i)) =~= articulations_jazz_articulations().1);
    r
}

/// Builds the group that `articulations_breath_pause` states.
fn build_articulations_breath_pause() -> (r: RefCategory)
    ensures
        category_view(r) == articulations_breath_pause(),
{
    let mut items: Vec<RefItem> = Vec::new();
    items.push(RefItem { keyword: ":breath-mark", description: "Breath mark (comma)", example: None });
    items.push(RefItem { keyword: ":caesura", description: "Full stop/railroad tracks", example: None });
    items.push(RefItem { keyword: ":stress", description: "Stress mark", example: None });
    items.push(RefItem { keyword: ":unstress", description: "Unstress mark", example: None });
    let r = RefCategory { name: "Breath & Pause", items };
    assert(r.items@.map_values(|i: RefItem| item_view(i)) =~= articulations_breath_pause().1);
    r
}

/// Builds the table of the articulations topic.
fn build_articulations() -> (r: Reference)
    ensures
        r.title@ == topic_title(ShowTopic::Articulations),
        categories_view(r.categories@) == topic_categories(ShowTopic::Articulations),
{
    let mut categories: Vec<RefCategory> = Vec::new();
    categories.push(build_articulations_standard_articulations());
    categories.push(build_articulations_jazz_articulations());
    categories.push(build_articulations_breath_pause());
    let r = Reference { title: "Articulations", categories };
    assert(categories_view(r.categories@) =~= topic_categories(ShowTopic::Articulations));
    r
}

/// Builds the group that `ornaments_trills` states.
fn build_ornaments_trills() -> (r: RefCategory)
    ensures
        category_view(r) == ornaments_trills(),
{
    let mut items: Vec<RefItem> = Vec::new();
    items.push(RefItem { keyword: ":trill", description: "Trill (rapid alternation)", example: Some("tr") });
    items.push(RefItem { keyword: ":shake", description: "Shake ornament", example: None });
    items.push(RefItem { keyword: ":wavy-line", description: "Wavy line (trill extension)", example: None });
    let r = RefCategory { name: "Trills", items };
    assert(r.items@.map_values(|i: RefItem| item_view(i)) =~= ornaments_trills().1);
    r
}

/// Builds the group that `ornaments_turns` states.
fn build_ornaments_turns() -> (r: RefCategory)
    ensures
        category_view(r) == ornaments_turns(),
{
    let mut items: Vec<RefItem> = Vec::new();
    items.push(RefItem { keyword: ":turn", description: "Turn (4-note ornament)", example: None });
    items.push(RefItem { keyword: ":inverted-turn", description: "Inverted turn", example: None });
    items.push(RefItem { keyword: ":delayed-turn", description: "Turn played after main note", example: None });
    items.push(RefItem { keyword: ":vertical-turn", description: "Vertical turn symbol", example: None });
    let r = RefCategory { name: "Turns", items };
    assert(r.items@.map_values(|i: RefItem| item_view(i)) =~= ornaments_turns().1);
    r
}

/// Builds the group that `ornaments_mordents` states.
fn build_ornaments_mordents() -> (r: RefCategory)
    ensures
        category_view(r) == ornaments_mordents(),
{
    let mut items: Vec<RefItem> = Vec::new();
    items.push(RefItem { keyword: ":mordent", description: "Lower mordent", example: None });
    items.push(RefItem { keyword: ":inverted-mordent", description: "Upper mordent (pralltriller)", example: None });
    let r = RefCategory { name: "Mordents", items };
    assert(r.items@.map_values(|i: RefItem| item_view(i)) =~= ornaments_mordents().1);
    r
}

/// Builds the group that `ornaments_other_ornaments` states.
fn build_ornaments_other_ornaments() -> (r: RefCategory)
    ensures
        category_view(r) == ornaments_other_ornaments(),
{
    let mut items: Vec<RefItem> = Vec::new();
    items.push(RefItem { keyword: ":tremolo", description: "Tremolo (rapid repetition)", example: Some("1-8 slashes") });
    items.push(RefItem { keyword: ":schleifer", description: "Baroque slide", example: None });
    let r = RefCategory { name: "Other Ornaments", items };
    assert(r.items@.map_values(|i: RefItem| item_view(i)) =~= ornaments_other_ornaments().1);
    r
}

/// Builds the table of the ornaments topic.
fn build_ornaments() -> (r: Reference)
    ensures
        r.title@ == topic_title(ShowTopic::Ornaments),
        categories_view(r.categories@) == topic_categories(ShowTopic::Ornaments),
{
    let mut categories: Vec<RefCategory> = Vec::new();
    categories.push(build_ornaments_trills());
    categories.push(build_ornaments_turns());
    categories.push(build_ornaments_mordents());
    categories.push(build_ornaments_other_ornaments());
    let r = Reference { title: "Ornaments", categories };
    assert(categories_view(r.categories@) =~= topic_categories(ShowTopic::Ornaments));
    r
}

/// Builds the group that `instruments_keyboard` states.
fn build_instruments_keyboard() -> (r: RefCategory)
    ensures
        category_view(r) == instruments_keyboard(),
{
    let mut items: Vec<RefItem> = Vec::new();
    items.push(RefItem { keyword: ":piano", description: "Piano", example: Some("Grand staff") });
    items.push(RefItem { keyword: ":organ", description: "Organ", example: None });
    items.push(RefItem { keyword: ":harpsichord", description: "Harpsichord", example: None });
    let r = RefCategory { name: "Keyboard", items };
    assert(r.items@.map_values(|i: RefItem| item_view(i)) =~= instruments_keyboard().1);
    r
}

/// Builds the group that `instruments_strings` states.
fn build_instruments_strings() -> (r: RefCategory)
    ensures
        category_view(r) == instruments_strings(),
{
    let mut items: Vec<RefItem> = Vec::new();
    items.push(RefItem { keyword: ":violin", description: "Violin", example: Some("Treble clef") });
    items.push(RefItem { keyword: ":viola", description: "Viola", example: Some("Alto clef") });
    items.push(RefItem { keyword: ":cello", description: "Violoncello", example: Some("Bass/tenor clef") });
    items.push(RefItem { keyword: ":bass", description: "Double bass/contrabass", example: Some("Bass clef, sounds 8vb") });
    items.push(RefItem { keyword: ":guitar", description: "Guitar", example: Some("Treble clef, sounds 8vb") });
    items.push(RefItem { keyword: ":harp", description: "Harp", example: Some("Grand staff") });
    let r = RefCategory { name: "Strings", items };
    assert(r.items@.map_values(|i: RefItem| item_view(i)) =~= instruments_strings().1);
    r
}

/// Builds the group that `instruments_woodwinds` states.
fn build_instruments_woodwinds() -> (r: RefCategory)
    ensures
        category_view(r) == instruments_woodwinds(),
{
    let mut items: Vec<RefItem> = Vec::new();
    items.push(RefItem { keyword: ":flute", description: "Flute", example: Some("Treble clef") });
    items.push(RefItem { keyword: ":oboe", description: "Oboe", example: None });
    items.push(RefItem { keyword: ":clarinet", description: "Clarinet (Bb)", example: Some("Transposing") });
    items.push(RefItem { keyword: ":bassoon", description: "Bassoon", example: Some("Bass/tenor clef") });
    items.push(RefItem { keyword: ":saxophone", description: "Saxophone", example: Some("Transposing") });
    let r = RefCategory { name: "Woodwinds", items };
    assert(r.items@.map_values(|i: RefItem| item_view(i)) =~= instruments_woodwinds().1);
    r
}

/// Builds the group that `instruments_brass` states.
fn build_instruments_brass() -> (r: RefCategory)
    ensures
        category_view(r) == instruments_brass(),
{
    let mut items: Vec<RefItem> = Vec::new();
    items.push(RefItem { keyword: ":trumpet", description: "Trumpet", example: Some("Transposing") });
    items.push(RefItem { keyword: ":horn", description: "French horn", example: Some("Transposing") });
    items.push(RefItem { keyword: ":trombone", description: "Trombone", example: Some("Bass/tenor clef") });
    items.push(RefItem { keyword: ":tuba", description: "Tuba", example: Some("Bass clef") });
    let r = RefCategory { name: "Brass", items };
    assert(r.items@.map_values(|i: RefItem| item_view(i)) =~= instruments_brass().1);
    r
}

/// Builds the group that `instruments_percussion` states.
fn build_instruments_percussion() -> (r: RefCategory)
    ensures
        category_view(r) == instruments_percussion(),
{
    let mut items: Vec<RefItem> = Vec::new();
    items.push(RefItem { keyword: ":timpani", description: "Timpani", example: Some("Bass clef, pitched") });
    items.push(RefItem { keyword: ":drums", description: "Drum set", example: Some("Percussion clef") });
    items.push(RefItem { keyword: ":percussion", description: "General percussion", example: None });
    let r = RefCategory { name: "Percussion", items };
    assert(r.items@.map_values(|i: RefItem| item_view(i)) =~= instruments_percussion().1);
    r
}

/// Builds the group that `instruments_voice` states.
fn build_instruments_voice() -> (r: RefCategory)
    ensures
        category_view(r) == instruments_voice(),
{
    let mut items: Vec<RefItem> = Vec::new();
    items.push(RefItem { keyword: ":soprano", description: "Soprano voice", example: Some("Treble clef") });
    items.push(RefItem { keyword: ":alto", description: "Alto voice", example: Some("Treble clef") });
    items.push(RefItem { keyword: ":tenor", description: "Tenor voice", example: Some("Treble 8vb or tenor clef") });
    items.push(RefItem { keyword: ":baritone", description: "Baritone voice", example: Some("Bass clef") });
    items.push(RefItem { keyword: ":bass-voice", description: "Bass voice", example: Some("Bass clef") });
    let r = RefCategory { name: "Voice", items };
    assert(r.items@.map_values(|i: RefItem| item_view(i)) =~= instruments_voice().1);
    r
}

/// Builds the table of the instruments topic.
fn build_instruments() -> (r: Reference)
    ensures
        r.title@ == topic_title(ShowTopic::Instruments),
        categories_view(r.categories@) == topic_categories(ShowTopic::Instruments),
{
    let mut categories: Vec<RefCategory> = Vec::new();
    categories.push(build_instruments_keyboard());
    categories.push(build_instruments_strings());
    categories.push(build_instruments_woodwinds());
    categories.push(build_instruments_brass());
    categories.push(build_instruments_percussion());
    categories.push(build_instruments_voice());
    let r = Reference { title: "Instruments", categories };
    assert(categories_view(r.categories@) =~= topic_categories(ShowTopic::Instruments));
    r
}

/// Builds the group that `barlines_standard_barlines` states.
fn build_barlines_standard_barlines() -> (r: RefCategory)
    ensures
        category_view(r) == barlines_standard_barlines(),
{
    let mut items: Vec<RefItem> = Vec::new();
    items.push(RefItem { keyword: ":regular", description: "Single barline", example: Some("|") });
    items.push(RefItem { keyword: ":double", description: "Double barline (light-light)", example: Some("||") });
    items.push(RefItem { keyword: ":final", description: "Final barline (light-heavy)", example: Some("|]") });
    items.push(RefItem { keyword: ":heavy", description: "Heavy single barline", example: None });
    items.push(RefItem { keyword: ":heavy-heavy", description: "Double heavy barline", example: None });
    let r = RefCategory { name: "Standard Barlines", items };
    assert(r.items@.map_values(|i: RefItem| item_view(i)) =~= barlines_standard_barlines().1);
    r
}

/// Builds the group that `barlines_repeat_barlines` states.
fn build_barlines_repeat_barlines() -> (r: RefCategory)
    ensures
        category_view(r) == barlines_repeat_barlines(),
{
    let mut items: Vec<RefItem> = Vec::new();
    items.push(RefItem { keyword: ":repeat-forward", description: "Start repeat", example: Some("|:") });
    items.push(RefItem { keyword: ":repeat-backward", description: "End repeat", example: Some(":|") });
    items.push(RefItem { keyword: ":repeat-both", description: "End and start repeat", example: Some(":|:") });
    let r = RefCategory { name: "Repeat Barlines", items };
    assert(r.items@.map_values(|i: RefItem| item_view(i)) =~= barlines_repeat_barlines().1);
    r
}

/// Builds the group that `barlines_special_barlines` states.
fn build_barlines_special_barlines() -> (r: RefCategory)
    ensures
        category_view(r) == barlines_special_barlines(),
{
    let mut items: Vec<RefItem> = Vec::new();
    items.push(RefItem { keyword: ":dashed", description: "Dashed barline", example: None });
    items.push(RefItem { keyword: ":dotted", description: "Dotted barline", example: None });
    items.push(RefItem { keyword: ":tick", description: "Tick mark (short barline)", example: None });
    items.push(RefItem { keyword: ":short", description: "Short barline", example: None });
    items.push(RefItem { keyword: ":none", description: "No barline", example: None });
    let r = RefCategory { name: "Special Barlines", items };
    assert(r.items@.map_values(|i: RefItem| item_view(i)) =~= barlines_special_barlines().1);
    r
}

/// Builds the table of the barlines topic.
fn build_barlines() -> (r: Reference)
    ensures
        r.title@ == topic_title(ShowTopic::Barlines),
        categories_view(r.categories@) == topic_categories(ShowTopic::Barlines),
{
    let mut categories: Vec<RefCategory> = Vec::new();
    categories.push(build_barlines_standard_barlines());
    categories.push(build_barlines_repeat_barlines());
    categories.push(build_barlines_special_barlines());
    let r = Reference { title: "Barline Types", categories };
    assert(categories_view(r.categories@) =~= topic_categories(ShowTopic::Barlines));
    r
}

/// Builds the group that `accidentals_standard_accidentals` states.
fn build_accidentals_standard_accidentals() -> (r: RefCategory)
    ensures
        category_view(r) == accidentals_standard_accidentals(),
{
    let mut items: Vec<RefItem> = Vec::new();
    items.push(RefItem { keyword: ":sharp", description: "Sharp", example: Some("#") });
    items.push(RefItem { keyword: ":flat", description: "Flat", example: Some("b") });
    items.push(RefItem { keyword: ":natural", description: "Natural", example: None });
    items.push(RefItem { keyword: ":double-sharp", description: "Double sharp", example: Some("x") });
    items.push(RefItem { keyword: ":double-flat", description: "Double flat", example: Some("bb") });
    let r = RefCategory { name: "Standard Accidentals", items };
    assert(r.items@.map_values(|i: RefItem| item_view(i)) =~= accidentals_standard_accidentals().1);
    r
}

/// Builds the group that `accidentals_compound_accidentals` states.
fn build_accidentals_compound_accidentals() -> (r: RefCategory)
    ensures
        category_view(r) == accidentals_compound_accidentals(),
{
    let mut items: Vec<RefItem> = Vec::new();
    items.push(RefItem { keyword: ":natural-sharp", description: "Natural then sharp", example: None });
    items.push(RefItem { keyword: ":natural-flat", description: "Natural then flat", example: None });
    items.push(RefItem { keyword: ":sharp-sharp", description: "Sharp-sharp (same as double sharp)", example: None });
    items.push(RefItem { keyword: ":flat-flat", description: "Flat-flat (same as double flat)", example: None });
    let r = RefCategory { name: "Compound Accidentals", items };
    assert(r.items@.map_values(|i: RefItem| item_view(i)) =~= accidentals_compound_accidentals().1);
    r
}

/// Builds the group that `accidentals_microtonal_accidentals` states.
fn build_accidentals_microtonal_accidentals() -> (r: RefCategory)
    ensures
        category_view(r) == accidentals_microtonal_accidentals(),
{
    let mut items: Vec<RefItem> = Vec::new();
    items.push(RefItem { keyword: ":quarter-sharp", description: "Quarter-tone sharp", example: None });
    items.push(RefItem { keyword: ":quarter-flat", description: "Quarter-tone flat", example: None });
    items.push(RefItem { keyword: ":three-quarters-sharp", description: "Three-quarter-tone sharp", example: None });
    items.push(RefItem { keyword: ":three-quarters-flat", description: "Three-quarter-tone flat", example: None });
    let r = RefCategory { name: "Microtonal Accidentals", items };
    assert(r.items@.map_values(|i: RefItem| item_view(i)) =~= accidentals_microtonal_accidentals().1);
    r
}

/// Builds the group that `accidentals_arrow_accidentals` states.
fn build_accidentals_arrow_accidentals() -> (r: RefCategory)
    ensures
        category_view(r) == accidentals_arrow_accidentals(),
{
    let mut items: Vec<RefItem> = Vec::new();
    items.push(RefItem { keyword: ":sharp-up", description: "Sharp raised by comma", example: None });
    items.push(RefItem { keyword: ":sharp-down", description: "Sharp lowered by comma", example: None });
    items.push(RefItem { keyword: ":flat-up", description: "Flat raised by comma", example: None });
    items.push(RefItem { keyword: ":flat-down", description: "Flat lowered by comma", example: None });
    items.push(RefItem { keyword: ":natural-up", description: "Natural raised by comma", example: None });
    items.push(RefItem { keyword: ":natural-down", description: "Natural lowered by comma", example: None });
    let r = RefCategory { name: "Arrow Accidentals", items };
    assert(r.items@.map_values(|i: RefItem| item_view(i)) =~= accidentals_arrow_accidentals().1);
    r
}

/// Builds the group that `accidentals_special_accidentals` states.
fn build_accidentals_special_accidentals() -> (r: RefCategory)
    ensures
        category_view(r) == accidentals_special_accidentals(),
{
    let mut items: Vec<RefItem> = Vec::new();
    items.push(RefItem { keyword: ":sori", description: "Persian sori", example: None });
    items.push(RefItem { keyword: ":koron", description: "Persian koron", example: None });
    items.push(RefItem { keyword: ":triple-sharp", description: "Triple sharp", example: None });
    items.push(RefItem { keyword: ":triple-flat", description: "Triple flat", example: None });
    let r = RefCategory { name: "Special Accidentals", items };
    assert(r.items@.map_values(|i: RefItem| item_view(i)) =~= accidentals_special_accidentals().1);
    r
}

/// Builds the table of the accidentals topic.
fn build_accidentals() -> (r: Reference)
    ensures
        r.title@ == topic_title(ShowTopic::Accidentals),
        categories_view(r.categories@) == topic_categories(ShowTopic::Accidentals),
{
    let mut categories: Vec<RefCategory> = Vec::new();
    categories.push(build_accidentals_standard_accidentals());
    categories.push(build_accidentals_compound_accidentals());
    categories.push(build_accidentals_microtonal_accidentals());
    categories.push(build_accidentals_arrow_accidentals());
    categories.push(build_accidentals_special_accidentals());
    let r = Reference { title: "Accidentals", categories };
    assert(categories_view(r.categories@) =~= topic_categories(ShowTopic::Accidentals));
    r
}

/// Builds the group that `noteheads_standard_noteheads` states.
fn build_noteheads_standard_noteheads() -> (r: RefCategory)
    ensures
        category_view(r) == noteheads_standard_noteheads(),
{
    let mut items: Vec<RefItem> = Vec::new();
    items.push(RefItem { keyword: ":normal", description: "Normal oval notehead", example: Some("Default") });
    items.push(RefItem { keyword: ":diamond", description: "Diamond notehead", example: Some("Harmonics") });
    items.push(RefItem { keyword: ":triangle", description: "Triangle notehead", example: None });
    items.push(RefItem { keyword: ":square", description: "Square notehead", example: Some("Gregorian chant") });
    items.push(RefItem { keyword: ":rectangle", description: "Rectangle notehead", example: None });
    let r = RefCategory { name: "Standard Noteheads", items };
    assert(r.items@.map_values(|i: RefItem| item_view(i)) =~= noteheads_standard_noteheads().1);
    r
}

/// Builds the group that `noteheads_percussion_special` states.
fn build_noteheads_percussion_special() -> (r: RefCategory)
    ensures
        category_view(r) == noteheads_percussion_special(),
{
    let mut items: Vec<RefItem> = Vec::new();
    items.push(RefItem { keyword: ":x", description: "X notehead", example: Some("Hi-hat, spoken") });
    items.push(RefItem { keyword: ":cross", description: "Cross notehead", example: Some("Percussion") });
    items.push(RefItem { keyword: ":circle-x", description: "Circled X notehead", example: None });
    items.push(RefItem { keyword: ":slash", description: "Slash notehead", example: Some("Rhythmic notation") });
    items.push(RefItem { keyword: ":cluster", description: "Cluster notehead", example: None });
    let r = RefCategory { name: "Percussion/Special", items };
    assert(r.items@.map_values(|i: RefItem| item_view(i)) =~= noteheads_percussion_special().1);
    r
}

/// Builds the group that `noteheads_directional` states.
fn build_noteheads_directional() -> (r: RefCategory)
    ensures
        category_view(r) == noteheads_directional(),
{
    let mut items: Vec<RefItem> = Vec::new();
    items.push(RefItem { keyword: ":arrow-up", description: "Arrow up notehead", example: None });
    items.push(RefItem { keyword: ":arrow-down", description: "Arrow down notehead", example: None });
    items.push(RefItem { keyword: ":inverted-triangle", description: "Inverted triangle", example: None });
    items.push(RefItem { keyword: ":left-triangle", description: "Left-pointing triangle", example: None });
    let r = RefCategory { name: "Directional", items };
    assert(r.items@.map_values(|i: RefItem| item_view(i)) =~= noteheads_directional().1);
    r
}

/// Builds the group that `noteheads_decorative` states.
fn build_noteheads_decorative() -> (r: RefCategory)
    ensures
        category_view(r) == noteheads_decorative(),
{
    let mut items: Vec<RefItem> = Vec::new();
    items.push(RefItem { keyword: ":circled", description: "Circled notehead", example: None });
    items.push(RefItem { keyword: ":slashed", description: "Slashed notehead", example: None });
    items.push(RefItem { keyword: ":back-slashed", description: "Back-slashed notehead", example: None });
    items.push(RefItem { keyword: ":circle-dot", description: "Circle with dot notehead", example: None });
    items.push(RefItem { keyword: ":none", description: "No notehead (stem only)", example: None });
    let r = RefCategory { name: "Decorative", items };
    assert(r.items@.map_values(|i: RefItem| item_view(i)) =~= noteheads_decorative().1);
    r
}

/// Builds the group that `noteheads_shape_note_solfege` states.
fn build_noteheads_shape_note_solfege() -> (r: RefCategory)
    ensures
        category_view(r) == noteheads_shape_note_solfege(),
{
    let mut items: Vec<RefItem> = Vec::new();
    items.push(RefItem { keyword: ":do", description: "Do (triangle)", example: None });
    items.push(RefItem { keyword: ":re", description: "Re (moon/crescent)", example: None });
    items.push(RefItem { keyword: ":mi", description: "Mi (diamond)", example: None });
    items.push(RefItem { keyword: ":fa", description: "Fa (right-pointing triangle)", example: None });
    items.push(RefItem { keyword: ":so", description: "So (oval)", example: None });
    items.push(RefItem { keyword: ":la", description: "La (rectangle)", example: None });
    items.push(RefItem { keyword: ":ti", description: "Ti (ice cream cone)", example: None });
    let r = RefCategory { name: "Shape Note (Solfege)", items };
    assert(r.items@.map_values(|i: RefItem| item_view(i)) =~= noteheads_shape_note_solfege().1);
    r
}

/// Builds the table of the noteheads topic.
fn build_noteheads() -> (r: Reference)
    ensures
        r.title@ == topic_title(ShowTopic::Noteheads),
        categories_view(r.categories@) == topic_categories(ShowTopic::Noteheads),
{
    let mut categories: Vec<RefCategory> = Vec::new();
    categories.push(build_noteheads_standard_noteheads());
    categories.push(build_noteheads_percussion_special());
    categories.push(build_noteheads_directional());
    categories.push(build_noteheads_decorative());
    categories.push(build_noteheads_shape_note_solfege());
    let r = Reference { title: "Notehead Shapes", categories };
    assert(categories_view(r.categories@) =~= topic_categories(ShowTopic::Noteheads));
    r
}

/// Builds the group that `fermatas_standard_fermatas` states.
fn build_fermatas_standard_fermatas() -> (r: RefCategory)
    ensures
        category_view(r) == fermatas_standard_fermatas(),
{
    let mut items: Vec<RefItem> = Vec::new();
    items.push(RefItem { keyword: ":fermata", description: "Normal fermata", example: Some("Standard pause symbol") });
    items.push(RefItem { keyword: ":fermata-inverted", description: "Inverted fermata (below staff)", example: None });
    let r = RefCategory { name: "Standard Fermatas", items };
    assert(r.items@.map_values(|i: RefItem| item_view(i)) =~= fermatas_standard_fermatas().1);
    r
}

/// Builds the group that `fermatas_fermata_shapes` states.
fn build_fermatas_fermata_shapes() -> (r: RefCategory)
    ensures
        category_view(r) == fermatas_fermata_shapes(),
{
    let mut items: Vec<RefItem> = Vec::new();
    items.push(RefItem { keyword: ":normal", description: "Normal curved fermata", example: Some("Most common") });
    items.push(RefItem { keyword: ":angled", description: "Angled/triangular fermata", example: Some("Short fermata") });
    items.push(RefItem { keyword: ":square", description: "Square fermata", example: Some("Long fermata") });
    items.push(RefItem { keyword: ":double-angled", description: "Double angled fermata", example: Some("Very short") });
    items.push(RefItem { keyword: ":double-square", description: "Double square fermata", example: Some("Very long") });
    items.push(RefItem { keyword: ":double-dot", description: "Double-dot fermata", example: None });
    items.push(RefItem { keyword: ":half-curve", description: "Half-curve fermata", example: None });
    items.push(RefItem { keyword: ":curlew", description: "Curlew fermata (Britten)", example: None });
    let r = RefCategory { name: "Fermata Shapes", items };
    assert(r.items@.map_values(|i: RefItem| item_view(i)) =~= fermatas_fermata_shapes().1);
    r
}

/// Builds the table of the fermatas topic.
fn build_fermatas() -> (r: Reference)
    ensures
        r.title@ == topic_title(ShowTopic::Fermatas),
        categories_view(r.categories@) == topic_categories(ShowTopic::Fermatas),
{
    let mut categories: Vec<RefCategory> = Vec::new();
    categories.push(build_fermatas_standard_fermatas());
    categories.push(build_fermatas_fermata_shapes());
    let r = Reference { title: "Fermata Shapes", categories };
    assert(categories_view(r.categories@) =~= topic_categories(ShowTopic::Fermatas));
    r
}

/// The table of a topic: its title, as `topic_title` states, and its
/// groups, as `topic_categories` states.
pub fn reference(topic: ShowTopic) -> (r: Reference)
    ensures
        r.title@ == topic_title(topic),
        categories_view(r.categories@) == topic_categories(topic),
{
    match topic {
        ShowTopic::Targets => build_targets(),
        ShowTopic::Syntax => build_syntax(),
        ShowTopic::Durations => build_durations(),
        ShowTopic::Pitches => build_pitches(),
        ShowTopic::Clefs => build_clefs(),
        ShowTopic::Keys => build_keys(),
        ShowTopic::Dynamics => build_dynamics(),
        ShowTopic::Articulations => build_articulations(),
        ShowTopic::Ornaments => build_ornaments(),
        ShowTopic::Instruments => build_instruments(),
        ShowTopic::Barlines => build_barlines(),
        ShowTopic::Accidentals => build_accidentals(),
        ShowTopic::Noteheads => build_noteheads(),
        ShowTopic::Fermatas => build_fermatas(),
    }
}

// === Layout ===

/// The text of a keyword column: `s` followed by spaces up to `width`
/// characters; `s` itself where it is as long already.
pub open spec fn pad_right(s: Seq<char>, width: nat) -> Seq<char> {
    if s.len() < width {
        s + Seq::new((width - s.len()) as nat, |i: int| ' ')
    } else {
        s
    }
}

/// Bold text, as a terminal shows it.
pub open spec fn bold_text(s: Seq<char>) -> Seq<char> {
    "\x1b[1m"@ + s + "\x1b[0m"@
}

/// Underlined text, as a terminal shows it.
pub open spec fn underline_text(s: Seq<char>) -> Seq<char> {
    "\x1b[4m"@ + s + "\x1b[0m"@
}

/// Dimmed text, as a terminal shows it.
pub open spec fn dimmed_text(s: Seq<char>) -> Seq<char> {
    "\x1b[2m"@ + s + "\x1b[0m"@
}

/// Cyan text, as a terminal shows it.
pub open spec fn cyan_text(s: Seq<char>) -> Seq<char> {
    "\x1b[36m"@ + s + "\x1b[39m"@
}

/// Green text, as a terminal shows it.
pub open spec fn green_text(s: Seq<char>) -> Seq<char> {
    "\x1b[32m"@ + s + "\x1b[39m"@
}

/// The text of a table: its title (bold and underlined in color), a blank
/// line, and its groups.
pub open spec fn reference_text(title: Seq<char>, categories: Seq<CategoryV>, colors: bool) -> Seq<char> {
    (if colors {
        underline_text(bold_text(title))
    } else {
        title
    }) + "\n\n"@ + each(categories, category_line_fn(colors))
}

/// The lines of a group.
pub open spec fn category_line_fn(colors: bool) -> spec_fn(CategoryV) -> Seq<char> {
    |c: CategoryV| category_text(c, colors)
}

/// The lines of a group: its heading, indented by two spaces (bold cyan in
/// color), where it has one; a line for each item; and a blank line.
pub open spec fn category_text(c: CategoryV, colors: bool) -> Seq<char> {
    (if c.0.len() > 0 {
        "  "@ + (if colors {
            bold_text(cyan_text(c.0))
        } else {
            c.0
        }) + "\n"@
    } else {
        Seq::empty()
    }) + each(c.1, item_line_fn(colors)) + "\n"@
}

/// The line of an item.
pub open spec fn item_line_fn(colors: bool) -> spec_fn(ItemV) -> Seq<char> {
    |i: ItemV| item_text(i, colors)
}

/// The line of an item: indented by four spaces, the keyword padded to
/// sixteen characters (green in color), two spaces and the description, and
/// where there is an example, two spaces and the example in parentheses
/// (dimmed in color).
pub open spec fn item_text(i: ItemV, colors: bool) -> Seq<char> {
    "    "@ + (if colors {
        green_text(pad_right(i.0, 16))
    } else {
        pad_right(i.0, 16)
    }) + "  "@ + i.1 + match i.2 {
        Some(e) => "  "@ + (if colors {
            dimmed_text("("@ + e + ")"@)
        } else {
            "("@ + e + ")"@
        }),
        None => Seq::empty(),
    } + "\n"@
}

/// `OwoColorize::bold`, shown: the text between the codes that turn bold on
/// and all styles off, as the crate's `BoldDisplay` writes them.
#[verifier::external_body]
fn bold(s: &str) -> (r: String)
    ensures
        r@ == bold_text(s@),
{
    format!("{}", s.bold())
}

/// `OwoColorize::underline`, shown: the text between the codes that turn
/// underlining on and all styles off, as the crate's `UnderlineDisplay`
/// writes them.
#[verifier::external_body]
fn underline(s: &str) -> (r: String)
    ensures
        r@ == underline_text(s@),
{
    format!("{}", s.underline())
}

/// `OwoColorize::dimmed`, shown: the text between the codes that turn
/// dimming on and all styles off, as the crate's `DimDisplay` writes them.
#[verifier::external_body]
fn dimmed(s: &str) -> (r: String)
    ensures
        r@ == dimmed_text(s@),
{
    format!("{}", s.dimmed())
}

/// `OwoColorize::cyan`, shown: the text between the codes that set the
/// foreground to cyan and back to the default, as the crate's
/// `FgColorDisplay` writes them.
#[verifier::external_body]
fn cyan(s: &str) -> (r: String)
    ensures
        r@ == cyan_text(s@),
{
    format!("{}", s.cyan())
}

/// `OwoColorize::green`, shown: the text between the codes that set the
/// foreground to green and back to the default, as the crate's
/// `FgColorDisplay` writes them.
#[verifier::external_body]
fn green(s: &str) -> (r: String)
    ensures
        r@ == green_text(s@),
{
    format!("{}", s.green())
}

/// `s` followed by spaces up to `width` characters, as `pad_right` states.
fn padded(s: &str, width: usize) -> (r: String)
    ensures
        r@ == pad_right(s@, width as nat),
{
    let n = chars_of(s).len();
    let mut out = String::new();
    push_str(&mut out, s);
    let ghost start = out@;
    if n < width {
        let mut k: usize = n;
        while k < width
            invariant
                n <= k <= width,
                n == s@.len(),
                start == s@,
                out@ == start + Seq::new((k - n) as nat, |i: int| ' '),
            decreases width - k,
        {
            push_char(&mut out, ' ');
            assert(out@ =~= start + Seq::new((k + 1 - n) as nat, |i: int| ' '));
            k = k + 1;
        }
    }
    assert(out@ =~= pad_right(s@, width as nat));
    out
}

/// Writes a table as text, as `reference_text` states: in color where
/// `use_colors` holds.
pub fn render_text(r: &Reference, use_colors: bool) -> (out: String)
    ensures
        out@ == reference_text(r.title@, categories_view(r.categories@), use_colors),
{
    let mut out = String::new();
    if use_colors {
        let b = bold(r.title);
        let u = underline(b.as_str());
        push_str(&mut out, u.as_str());
    } else {
        push_str(&mut out, r.title);
    }
    push_str(&mut out, "\n\n");
    let ghost start = out@;
    let ghost views = categories_view(r.categories@);
    let mut i: usize = 0;
    while i < r.categories.len()
        invariant
            i <= r.categories.len(),
            views == categories_view(r.categories@),
            views.len() == r.categories@.len(),
            out@ == start + each(views.take(i as int), category_line_fn(use_colors)),
        decreases r.categories.len() - i,
    {
        push_category(&mut out, &r.categories[i], use_colors);
        proof {
            lemma_each_step(views, i as int, category_line_fn(use_colors));
        }
        assert(out@ =~= start + each(views.take(i + 1), category_line_fn(use_colors)));
        i = i + 1;
    }
    assert(views.take(r.categories.len() as int) =~= views);
    out
}

/// Appends the lines of a group, as `category_text` states.
fn push_category(out: &mut String, c: &RefCategory, use_colors: bool)
    ensures
        final(out)@ == old(out)@ + category_text(category_view(*c), use_colors),
{
    let ghost begin = out@;
    if !c.name.is_empty() {
        push_str(out, "  ");
        if use_colors {
            let cy = cyan(c.name);
            let b = bold(cy.as_str());
            push_str(out, b.as_str());
        } else {
            push_str(out, c.name);
        }
        push_str(out, "\n");
    }
    let ghost start = out@;
    let ghost views = category_view(*c).1;
    let mut i: usize = 0;
    while i < c.items.len()
        invariant
            i <= c.items.len(),
            views == c.items@.map_values(|x: RefItem| item_view(x)),
            out@ == start + each(views.take(i as int), item_line_fn(use_colors)),
        decreases c.items.len() - i,
    {
        push_item(out, &c.items[i], use_colors);
        proof {
            lemma_each_step(views, i as int, item_line_fn(use_colors));
        }
        assert(out@ =~= start + each(views.take(i + 1), item_line_fn(use_colors)));
        i = i + 1;
    }
    assert(views.take(c.items.len() as int) =~= views);
    push_str(out, "\n");
    assert(out@ =~= begin + category_text(category_view(*c), use_colors));
}

/// Appends the line of an item, as `item_text` states.
fn push_item(out: &mut String, x: &RefItem, use_colors: bool)
    ensures
        final(out)@ == old(out)@ + item_text(item_view(*x), use_colors),
{
    let ghost begin = out@;
    push_str(out, "    ");
    let p = padded(x.keyword, 16);
    if use_colors {
        let g = green(p.as_str());
        push_str(out, g.as_str());
    } else {
        push_str(out, p.as_str());
    }
    push_str(out, "  ");
    push_str(out, x.description);
    let ghost mid = out@;
    match x.example {
        Some(e) => {
            push_str(out, "  ");
            let mut q = String::new();
            push_str(&mut q, "(");
            push_str(&mut q, e);
            push_str(&mut q, ")");
            assert(q@ =~= "("@ + e@ + ")"@);
            if use_colors {
                let d = dimmed(q.as_str());
                push_str(out, d.as_str());
            } else {
                push_str(out, q.as_str());
            }
        },
        None => {},
    }
    push_str(out, "\n");
    assert(out@ =~= begin + item_text(item_view(*x), use_colors));
}

// === The tables and the printer ===

/// The keywords of a group, in order.
pub open spec fn keywords_of(c: CategoryV) -> Seq<Seq<char>> {
    c.1.map_values(|i: ItemV| i.0)
}

/// Each keyword of the noteheads table is a colon and the symbol of a
/// notehead shape, the symbol that the printer writes for that shape; the
/// groups list the shapes in this order.
pub proof fn law_notehead_keywords()
    ensures
        keywords_of(noteheads_standard_noteheads()) == seq![NoteheadValue::Normal, NoteheadValue::Diamond, NoteheadValue::Triangle, NoteheadValue::Square, NoteheadValue::Rectangle].map_values(|v: NoteheadValue| seq![':'] + notehead_value_name(v)),
        keywords_of(noteheads_percussion_special()) == seq![NoteheadValue::X, NoteheadValue::Cross, NoteheadValue::CircleX, NoteheadValue::Slash, NoteheadValue::Cluster].map_values(|v: NoteheadValue| seq![':'] + notehead_value_name(v)),
        keywords_of(noteheads_directional()) == seq![NoteheadValue::ArrowUp, NoteheadValue::ArrowDown, NoteheadValue::InvertedTriangle, NoteheadValue::LeftTriangle].map_values(|v: NoteheadValue| seq![':'] + notehead_value_name(v)),
        keywords_of(noteheads_decorative()) == seq![NoteheadValue::Circled, NoteheadValue::Slashed, NoteheadValue::BackSlashed, NoteheadValue::CircleDot, NoteheadValue::NoNotehead].map_values(|v: NoteheadValue| seq![':'] + notehead_value_name(v)),
        keywords_of(noteheads_shape_note_solfege()) == seq![NoteheadValue::Do, NoteheadValue::Re, NoteheadValue::Mi, NoteheadValue::Fa, NoteheadValue::So, NoteheadValue::La, NoteheadValue::Ti].map_values(|v: NoteheadValue| seq![':'] + notehead_value_name(v)),
{
    reveal_strlit(":normal");
    reveal_strlit("normal");
    reveal_strlit(":diamond");
    reveal_strlit("diamond");
    reveal_strlit(":triangle");
    reveal_strlit("triangle");
    reveal_strlit(":square");
    reveal_strlit("square");
    reveal_strlit(":rectangle");
    reveal_strlit("rectangle");
    reveal_strlit(":x");
    reveal_strlit("x");
    reveal_strlit(":cross");
    reveal_strlit("cross");
    reveal_strlit(":circle-x");
    reveal_strlit("circle-x");
    reveal_strlit(":slash");
    reveal_strlit("slash");
    reveal_strlit(":cluster");
    reveal_strlit("cluster");
    reveal_strlit(":arrow-up");
    reveal_strlit("arrow-up");
    reveal_strlit(":arrow-down");
    reveal_strlit("arrow-down");
    reveal_strlit(":inverted-triangle");
    reveal_strlit("inverted-triangle");
    reveal_strlit(":left-triangle");
    reveal_strlit("left-triangle");
    reveal_strlit(":circled");
    reveal_strlit("circled");
    reveal_strlit(":slashed");
    reveal_strlit("slashed");
    reveal_strlit(":back-slashed");
    reveal_strlit("back-slashed");
    reveal_strlit(":circle-dot");
    reveal_strlit("circle-dot");
    reveal_strlit(":none");
    reveal_strlit("none");
    reveal_strlit(":do");
    reveal_strlit("do");
    reveal_strlit(":re");
    reveal_strlit("re");
    reveal_strlit(":mi");
    reveal_strlit("mi");
    reveal_strlit(":fa");
    reveal_strlit("fa");
    reveal_strlit(":so");
    reveal_strlit("so");
    reveal_strlit(":la");
    reveal_strlit("la");
    reveal_strlit(":ti");
    reveal_strlit("ti");
    assert(keywords_of(noteheads_standard_noteheads()) =~~= seq![NoteheadValue::Normal, NoteheadValue::Diamond, NoteheadValue::Triangle, NoteheadValue::Square, NoteheadValue::Rectangle].map_values(|v: NoteheadValue| seq![':'] + notehead_value_name(v)));
    assert(keywords_of(noteheads_percussion_special()) =~~= seq![NoteheadValue::X, NoteheadValue::Cross, NoteheadValue::CircleX, NoteheadValue::Slash, NoteheadValue::Cluster].map_values(|v: NoteheadValue| seq![':'] + notehead_value_name(v)));
    assert(keywords_of(noteheads_directional()) =~~= seq![NoteheadValue::ArrowUp, NoteheadValue::ArrowDown, NoteheadValue::InvertedTriangle, NoteheadValue::LeftTriangle].map_values(|v: NoteheadValue| seq![':'] + notehead_value_name(v)));
    assert(keywords_of(noteheads_decorative()) =~~= seq![NoteheadValue::Circled, NoteheadValue::Slashed, NoteheadValue::BackSlashed, NoteheadValue::CircleDot, NoteheadValue::NoNotehead].map_values(|v: NoteheadValue| seq![':'] + notehead_value_name(v)));
    assert(keywords_of(noteheads_shape_note_solfege()) =~~= seq![NoteheadValue::Do, NoteheadValue::Re, NoteheadValue::Mi, NoteheadValue::Fa, NoteheadValue::So, NoteheadValue::La, NoteheadValue::Ti].map_values(|v: NoteheadValue| seq![':'] + notehead_value_name(v)));
}


/// Each keyword of the group "Fermata Shapes" of the fermatas table is a
/// colon and the symbol that the printer writes for a fermata shape: every
/// shape, once, in this order.
pub proof fn law_fermata_shape_keywords()
    ensures
        keywords_of(fermatas_fermata_shapes()) == seq![FermataShape::Normal, FermataShape::Angled, FermataShape::Square, FermataShape::DoubleAngled, FermataShape::DoubleSquare, FermataShape::DoubleDot, FermataShape::HalfCurve, FermataShape::Curlew].map_values(|v: FermataShape| seq![':'] + fermata_shape_name(v)),
{
    reveal_strlit(":normal");
    reveal_strlit("normal");
    reveal_strlit(":angled");
    reveal_strlit("angled");
    reveal_strlit(":square");
    reveal_strlit("square");
    reveal_strlit(":double-angled");
    reveal_strlit("double-angled");
    reveal_strlit(":double-square");
    reveal_strlit("double-square");
    reveal_strlit(":double-dot");
    reveal_strlit("double-dot");
    reveal_strlit(":half-curve");
    reveal_strlit("half-curve");
    reveal_strlit(":curlew");
    reveal_strlit("curlew");
    assert(keywords_of(fermatas_fermata_shapes()) =~~= seq![FermataShape::Normal, FermataShape::Angled, FermataShape::Square, FermataShape::DoubleAngled, FermataShape::DoubleSquare, FermataShape::DoubleDot, FermataShape::HalfCurve, FermataShape::Curlew].map_values(|v: FermataShape| seq![':'] + fermata_shape_name(v)));
}

/// Each keyword of the dynamics table is a colon and the symbol that the
/// printer writes for a dynamic marking; the groups list the markings in
/// this order.
pub proof fn law_dynamics_keywords()
    ensures
        keywords_of(dynamics_soft_dynamics()) == seq![DynamicElement::PPPPPP, DynamicElement::PPPPP, DynamicElement::PPPP, DynamicElement::PPP, DynamicElement::PP, DynamicElement::P].map_values(|v: DynamicElement| seq![':'] + dynamic_element_name(v)),
        keywords_of(dynamics_medium_dynamics()) == seq![DynamicElement::MP, DynamicElement::MF].map_values(|v: DynamicElement| seq![':'] + dynamic_element_name(v)),
        keywords_of(dynamics_loud_dynamics()) == seq![DynamicElement::F, DynamicElement::FF, DynamicElement::FFF, DynamicElement::FFFF, DynamicElement::FFFFF, DynamicElement::FFFFFF].map_values(|v: DynamicElement| seq![':'] + dynamic_element_name(v)),
        keywords_of(dynamics_accent_dynamics()) == seq![DynamicElement::SF, DynamicElement::SFZ, DynamicElement::SFFZ, DynamicElement::FP, DynamicElement::SFP, DynamicElement::SFPP, DynamicElement::FZ, DynamicElement::RF, DynamicElement::RFZ, DynamicElement::N].map_values(|v: DynamicElement| seq![':'] + dynamic_element_name(v)),
{
    reveal_strlit(":pppppp");
    reveal_strlit("pppppp");
    reveal_strlit(":ppppp");
    reveal_strlit("ppppp");
    reveal_strlit(":pppp");
    reveal_strlit("pppp");
    reveal_strlit(":ppp");
    reveal_strlit("ppp");
    reveal_strlit(":pp");
    reveal_strlit("pp");
    reveal_strlit(":p");
    reveal_strlit("p");
    reveal_strlit(":mp");
    reveal_strlit("mp");
    reveal_strlit(":mf");
    reveal_strlit("mf");
    reveal_strlit(":f");
    reveal_strlit("f");
    reveal_strlit(":ff");
    reveal_strlit("ff");
    reveal_strlit(":fff");
    reveal_strlit("fff");
    reveal_strlit(":ffff");
    reveal_strlit("ffff");
    reveal_strlit(":fffff");
    reveal_strlit("fffff");
    reveal_strlit(":ffffff");
    reveal_strlit("ffffff");
    reveal_strlit(":sf");
    reveal_strlit("sf");
    reveal_strlit(":sfz");
    reveal_strlit("sfz");
    reveal_strlit(":sffz");
    reveal_strlit("sffz");
    reveal_strlit(":fp");
    reveal_strlit("fp");
    reveal_strlit(":sfp");
    reveal_strlit("sfp");
    reveal_strlit(":sfpp");
    reveal_strlit("sfpp");
    reveal_strlit(":fz");
    reveal_strlit("fz");
    reveal_strlit(":rf");
    reveal_strlit("rf");
    reveal_strlit(":rfz");
    reveal_strlit("rfz");
    reveal_strlit(":n");
    reveal_strlit("n");
    assert(keywords_of(dynamics_soft_dynamics()) =~~= seq![DynamicElement::PPPPPP, DynamicElement::PPPPP, DynamicElement::PPPP, DynamicElement::PPP, DynamicElement::PP, DynamicElement::P].map_values(|v: DynamicElement| seq![':'] + dynamic_element_name(v)));
    assert(keywords_of(dynamics_medium_dynamics()) =~~= seq![DynamicElement::MP, DynamicElement::MF].map_values(|v: DynamicElement| seq![':'] + dynamic_element_name(v)));
    assert(keywords_of(dynamics_loud_dynamics()) =~~= seq![DynamicElement::F, DynamicElement::FF, DynamicElement::FFF, DynamicElement::FFFF, DynamicElement::FFFFF, DynamicElement::FFFFFF].map_values(|v: DynamicElement| seq![':'] + dynamic_element_name(v)));
    assert(keywords_of(dynamics_accent_dynamics()) =~~= seq![DynamicElement::SF, DynamicElement::SFZ, DynamicElement::SFFZ, DynamicElement::FP, DynamicElement::SFP, DynamicElement::SFPP, DynamicElement::FZ, DynamicElement::RF, DynamicElement::RFZ, DynamicElement::N].map_values(|v: DynamicElement| seq![':'] + dynamic_element_name(v)));
}

/// Each keyword of the accidentals table is a colon and the symbol that the
/// printer writes for an accidental; the groups list the accidentals in
/// this order.
pub proof fn law_accidental_keywords()
    ensures
        keywords_of(accidentals_standard_accidentals()) == seq![AccidentalValue::Sharp, AccidentalValue::Flat, AccidentalValue::Natural, AccidentalValue::DoubleSharp, AccidentalValue::DoubleFlat].map_values(|v: AccidentalValue| seq![':'] + accidental_value_name(v)),
        keywords_of(accidentals_compound_accidentals()) == seq![AccidentalValue::NaturalSharp, AccidentalValue::NaturalFlat, AccidentalValue::SharpSharp, AccidentalValue::FlatFlat].map_values(|v: AccidentalValue| seq![':'] + accidental_value_name(v)),
        keywords_of(accidentals_microtonal_accidentals()) == seq![AccidentalValue::QuarterSharp, AccidentalValue::QuarterFlat, AccidentalValue::ThreeQuartersSharp, AccidentalValue::ThreeQuartersFlat].map_values(|v: AccidentalValue| seq![':'] + accidental_value_name(v)),
        keywords_of(accidentals_arrow_accidentals()) == seq![AccidentalValue::SharpUp, AccidentalValue::SharpDown, AccidentalValue::FlatUp, AccidentalValue::FlatDown, AccidentalValue::NaturalUp, AccidentalValue::NaturalDown].map_values(|v: AccidentalValue| seq![':'] + accidental_value_name(v)),
        keywords_of(accidentals_special_accidentals()) == seq![AccidentalValue::Sori, AccidentalValue::Koron, AccidentalValue::TripleSharp, AccidentalValue::TripleFlat].map_values(|v: AccidentalValue| seq![':'] + accidental_value_name(v)),
{
    reveal_strlit(":sharp");
    reveal_strlit("sharp");
    reveal_strlit(":flat");
    reveal_strlit("flat");
    reveal_strlit(":natural");
    reveal_strlit("natural");
    reveal_strlit(":double-sharp");
    reveal_strlit("double-sharp");
    reveal_strlit(":double-flat");
    reveal_strlit("double-flat");
    reveal_strlit(":natural-sharp");
    reveal_strlit("natural-sharp");
    reveal_strlit(":natural-flat");
    reveal_strlit("natural-flat");
    reveal_strlit(":sharp-sharp");
    reveal_strlit("sharp-sharp");
    reveal_strlit(":flat-flat");
    reveal_strlit("flat-flat");
    reveal_strlit(":quarter-sharp");
    reveal_strlit("quarter-sharp");
    reveal_strlit(":quarter-flat");
    reveal_strlit("quarter-flat");
    reveal_strlit(":three-quarters-sharp");
    reveal_strlit("three-quarters-sharp");
    reveal_strlit(":three-quarters-flat");
    reveal_strlit("three-quarters-flat");
    reveal_strlit(":sharp-up");
    reveal_strlit("sharp-up");
    reveal_strlit(":sharp-down");
    reveal_strlit("sharp-down");
    reveal_strlit(":flat-up");
    reveal_strlit("flat-up");
    reveal_strlit(":flat-down");
    reveal_strlit("flat-down");
    reveal_strlit(":natural-up");
    reveal_strlit("natural-up");
    reveal_strlit(":natural-down");
    reveal_strlit("natural-down");
    reveal_strlit(":sori");
    reveal_strlit("sori");
    reveal_strlit(":koron");
    reveal_strlit("koron");
    reveal_strlit(":triple-sharp");
    reveal_strlit("triple-sharp");
    reveal_strlit(":triple-flat");
    reveal_strlit("triple-flat");
    assert(keywords_of(accidentals_standard_accidentals()) =~~= seq![AccidentalValue::Sharp, AccidentalValue::Flat, AccidentalValue::Natural, AccidentalValue::DoubleSharp, AccidentalValue::DoubleFlat].map_values(|v: AccidentalValue| seq![':'] + accidental_value_name(v)));
    assert(keywords_of(accidentals_compound_accidentals()) =~~= seq![AccidentalValue::NaturalSharp, AccidentalValue::NaturalFlat, AccidentalValue::SharpSharp, AccidentalValue::FlatFlat].map_values(|v: AccidentalValue| seq![':'] + accidental_value_name(v)));
    assert(keywords_of(accidentals_microtonal_accidentals()) =~~= seq![AccidentalValue::QuarterSharp, AccidentalValue::QuarterFlat, AccidentalValue::ThreeQuartersSharp, AccidentalValue::ThreeQuartersFlat].map_values(|v: AccidentalValue| seq![':'] + accidental_value_name(v)));
    assert(keywords_of(accidentals_arrow_accidentals()) =~~= seq![AccidentalValue::SharpUp, AccidentalValue::SharpDown, AccidentalValue::FlatUp, AccidentalValue::FlatDown, AccidentalValue::NaturalUp, AccidentalValue::NaturalDown].map_values(|v: AccidentalValue| seq![':'] + accidental_value_name(v)));
    assert(keywords_of(accidentals_special_accidentals()) =~~= seq![AccidentalValue::Sori, AccidentalValue::Koron, AccidentalValue::TripleSharp, AccidentalValue::TripleFlat].map_values(|v: AccidentalValue| seq![':'] + accidental_value_name(v)));
}

/// Each keyword of the group "Modes" of the keys table is a colon and the
/// symbol that the printer writes for a mode of a key signature; the group
/// lists the modes in this order.
pub proof fn law_mode_keywords()
    ensures
        keywords_of(keys_modes()) == seq![Mode::Dorian, Mode::Phrygian, Mode::Lydian, Mode::Mixolydian, Mode::Aeolian, Mode::Locrian, Mode::Ionian].map_values(|v: Mode| seq![':'] + mode_name(v)),
{
    reveal_strlit(":dorian");
    reveal_strlit("dorian");
    reveal_strlit(":phrygian");
    reveal_strlit("phrygian");
    reveal_strlit(":lydian");
    reveal_strlit("lydian");
    reveal_strlit(":mixolydian");
    reveal_strlit("mixolydian");
    reveal_strlit(":aeolian");
    reveal_strlit("aeolian");
    reveal_strlit(":locrian");
    reveal_strlit("locrian");
    reveal_strlit(":ionian");
    reveal_strlit("ionian");
    assert(keywords_of(keys_modes()) =~~= seq![Mode::Dorian, Mode::Phrygian, Mode::Lydian, Mode::Mixolydian, Mode::Aeolian, Mode::Locrian, Mode::Ionian].map_values(|v: Mode| seq![':'] + mode_name(v)));
}


/// The printer writes an articulation of each kind that the articulations
/// table lists as the keyword without its colon, in parentheses, whatever
/// the articulation's placement and line (a breath mark without a value).
pub proof fn law_articulation_keywords(
    a: EmptyPlacement,
    sa: StrongAccent,
    l: EmptyLine,
    b: BreathMark,
    c: Caesura,
)
    requires
        b.value == BreathMarkValue::Empty,
    ensures
        keywords_of(articulations_standard_articulations()).map_values(|k: Seq<char>| seq!['('] + k.drop_first() + seq![')']) == seq![articulation_text(ArticulationElement::Staccato(a)), articulation_text(ArticulationElement::Staccatissimo(a)), articulation_text(ArticulationElement::Tenuto(a)), articulation_text(ArticulationElement::Accent(a)), articulation_text(ArticulationElement::StrongAccent(sa)), articulation_text(ArticulationElement::DetachedLegato(a))],
        keywords_of(articulations_jazz_articulations()).map_values(|k: Seq<char>| seq!['('] + k.drop_first() + seq![')']) == seq![articulation_text(ArticulationElement::Scoop(l)), articulation_text(ArticulationElement::Plop(l)), articulation_text(ArticulationElement::Doit(l)), articulation_text(ArticulationElement::Falloff(l)), articulation_text(ArticulationElement::Spiccato(a))],
        keywords_of(articulations_breath_pause()).map_values(|k: Seq<char>| seq!['('] + k.drop_first() + seq![')']) == seq![articulation_text(ArticulationElement::BreathMark(b)), articulation_text(ArticulationElement::Caesura(c)), articulation_text(ArticulationElement::Stress(a)), articulation_text(ArticulationElement::Unstress(a))],
{
    reveal_strlit(":staccato");
    reveal_strlit("(staccato)");
    reveal_strlit(":staccatissimo");
    reveal_strlit("(staccatissimo)");
    reveal_strlit(":tenuto");
    reveal_strlit("(tenuto)");
    reveal_strlit(":accent");
    reveal_strlit("(accent)");
    reveal_strlit(":strong-accent");
    reveal_strlit("(strong-accent)");
    reveal_strlit(":detached-legato");
    reveal_strlit("(detached-legato)");
    reveal_strlit(":scoop");
    reveal_strlit("(scoop)");
    reveal_strlit(":plop");
    reveal_strlit("(plop)");
    reveal_strlit(":doit");
    reveal_strlit("(doit)");
    reveal_strlit(":falloff");
    reveal_strlit("(falloff)");
    reveal_strlit(":spiccato");
    reveal_strlit("(spiccato)");
    reveal_strlit(":breath-mark");
    reveal_strlit(":caesura");
    reveal_strlit("(caesura)");
    reveal_strlit(":stress");
    reveal_strlit("(stress)");
    reveal_strlit(":unstress");
    reveal_strlit("(unstress)");
    reveal_strlit("(breath-mark");
    reveal_strlit(")");
    assert(keywords_of(articulations_standard_articulations()).map_values(|k: Seq<char>| seq!['('] + k.drop_first() + seq![')']) =~~= seq![articulation_text(ArticulationElement::Staccato(a)), articulation_text(ArticulationElement::Staccatissimo(a)), articulation_text(ArticulationElement::Tenuto(a)), articulation_text(ArticulationElement::Accent(a)), articulation_text(ArticulationElement::StrongAccent(sa)), articulation_text(ArticulationElement::DetachedLegato(a))]);
    assert(keywords_of(articulations_jazz_articulations()).map_values(|k: Seq<char>| seq!['('] + k.drop_first() + seq![')']) =~~= seq![articulation_text(ArticulationElement::Scoop(l)), articulation_text(ArticulationElement::Plop(l)), articulation_text(ArticulationElement::Doit(l)), articulation_text(ArticulationElement::Falloff(l)), articulation_text(ArticulationElement::Spiccato(a))]);
    assert(keywords_of(articulations_breath_pause()).map_values(|k: Seq<char>| seq!['('] + k.drop_first() + seq![')']) =~~= seq![articulation_text(ArticulationElement::BreathMark(b)), articulation_text(ArticulationElement::Caesura(c)), articulation_text(ArticulationElement::Stress(a)), articulation_text(ArticulationElement::Unstress(a))]);
}


/// The length of the note that a duration keyword names, as a fraction
/// `(a, b)` of a whole note: `:w` a whole, `:h` a half, `:q` a quarter,
/// `:breve` two wholes, and a colon with a number `n` the `n`-th part of a
/// whole.
pub open spec fn duration_fraction(kw: Seq<char>) -> Option<(nat, nat)> {
    if kw == ":w"@ {
        Some((1, 1))
    } else if kw == ":h"@ {
        Some((1, 2))
    } else if kw == ":q"@ {
        Some((1, 4))
    } else if kw == ":breve"@ {
        Some((2, 1))
    } else if kw.len() > 1 && kw[0] == ':' && all_digits(kw.drop_first()) {
        Some((1, digits_value(kw.drop_first())))
    } else {
        None
    }
}

/// How long a note of `a/b` of a whole lasts in 4/4, a quarter note being
/// one beat: a whole number of beats, or one beat divided by a whole number.
pub open spec fn beats_text(a: nat, b: nat) -> Seq<char> {
    let p = 4 * a;
    if b > 0 && p % b == 0 {
        nat_digits(p / b) + if p / b == 1 {
            " beat in 4/4"@
        } else {
            " beats in 4/4"@
        }
    } else {
        "1/"@ + nat_digits(b / p) + " beat in 4/4"@
    }
}

/// Whether the example of a duration row, where it has one, gives the
/// length in beats of the note that its keyword names.
pub open spec fn example_counts_beats(it: ItemV) -> bool {
    match it.2 {
        Some(e) => match duration_fraction(it.0) {
            Some((a, b)) => e == beats_text(a, b),
            None => false,
        },
        None => true,
    }
}

/// The example of each row of the durations table that has one gives how
/// many beats the note of its keyword lasts in 4/4: four for a whole note,
/// one for a quarter, a quarter of one for a sixteenth, eight for a breve.
pub proof fn law_duration_examples_count_beats()
    ensures
        forall|i: int| 0 <= i < durations_standard_durations().1.len()
            ==> #[trigger] example_counts_beats(durations_standard_durations().1[i]),
        forall|i: int| 0 <= i < durations_extended_durations().1.len()
            ==> #[trigger] example_counts_beats(durations_extended_durations().1[i]),
{
    let st = durations_standard_durations().1;
    let ex = durations_extended_durations().1;
    reveal_strlit(":w");
    reveal_strlit(":h");
    reveal_strlit(":q");
    reveal_strlit(":8");
    reveal_strlit(":16");
    reveal_strlit(":breve");
    reveal_strlit("4 beats in 4/4");
    reveal_strlit("2 beats in 4/4");
    reveal_strlit("1 beat in 4/4");
    reveal_strlit("1/2 beat in 4/4");
    reveal_strlit("1/4 beat in 4/4");
    reveal_strlit("8 beats in 4/4");
    reveal_strlit(" beat in 4/4");
    reveal_strlit(" beats in 4/4");
    reveal_strlit("1/");
    assert(nat_digits(4) == seq!['4']);
    assert(nat_digits(2) == seq!['2']);
    assert(nat_digits(1) == seq!['1']);
    assert(nat_digits(8) == seq!['8']);
    assert(":w"@[1] != ":h"@[1] && ":w"@[1] != ":q"@[1] && ":h"@[1] != ":q"@[1]);
    assert(":8"@[1] != ":w"@[1] && ":8"@[1] != ":h"@[1] && ":8"@[1] != ":q"@[1]);
    assert(":8"@ != ":breve"@);
    assert(":16"@[1] != ":breve"@[1]);
    assert(":8"@.drop_first() =~= seq!['8']);
    assert(digits_value(seq!['8']) == 8) by {
        assert(seq!['8'].drop_last() =~= Seq::<char>::empty());
        assert(digits_value(Seq::<char>::empty()) == 0);
        assert(seq!['8'].last() == '8');
        assert(('8' as int) - ('0' as int) == 8);
    }
    assert(all_digits(seq!['8'])) by {
        assert(is_digit('8'));
    }
    assert(":16"@.drop_first() =~= seq!['1', '6']);
    assert(digits_value(seq!['1', '6']) == 16) by {
        assert(seq!['1', '6'].drop_last() =~= seq!['1']);
        assert(seq!['1'].drop_last() =~= Seq::<char>::empty());
        assert(('1' as int) - ('0' as int) == 1);
        assert(('6' as int) - ('0' as int) == 6);
        assert(digits_value(Seq::<char>::empty()) == 0);
        assert(seq!['1'].last() == '1');
        assert(seq!['1', '6'].last() == '6');
        assert(digits_value(seq!['1']) == 1);
    }
    assert(all_digits(seq!['1', '6'])) by {
        assert(is_digit('1') && is_digit('6'));
    }
    assert(example_counts_beats(st[0])) by {
        assert("4 beats in 4/4"@ =~= seq!['4'] + " beats in 4/4"@);
    }
    assert(example_counts_beats(st[1])) by {
        assert("2 beats in 4/4"@ =~= seq!['2'] + " beats in 4/4"@);
    }
    assert(example_counts_beats(st[2])) by {
        assert("1 beat in 4/4"@ =~= seq!['1'] + " beat in 4/4"@);
    }
    assert(example_counts_beats(st[3])) by {
        assert("1/2 beat in 4/4"@ =~= "1/"@ + seq!['2'] + " beat in 4/4"@);
    }
    assert(example_counts_beats(st[4])) by {
        assert("1/4 beat in 4/4"@ =~= "1/"@ + seq!['4'] + " beat in 4/4"@);
    }
    assert(example_counts_beats(st[5]));
    assert(example_counts_beats(st[6]));
    assert(example_counts_beats(ex[0])) by {
        assert("8 beats in 4/4"@ =~= seq!['8'] + " beats in 4/4"@);
    }
    assert(example_counts_beats(ex[1]));
    assert(example_counts_beats(ex[2]));
    assert(example_counts_beats(ex[3]));
    assert(example_counts_beats(ex[4]));
}


/// Each topic is named on the command line by its word: `Targets` by
/// `targets`, `Syntax` by `syntax`, `Durations` by `durations`, `Pitches` by
/// `pitches`, `Clefs` by `clefs`, `Keys` by `keys`, `Dynamics` by `dynamics`,
/// `Articulations` by `articulations`, `Ornaments` by `ornaments`,
/// `Instruments` by `instruments`, `Barlines` by `barlines`, `Accidentals` by
/// `accidentals`, `Noteheads` by `noteheads`, `Fermatas` by `fermatas`.
pub proof fn law_topic_names()
    ensures
        topic_name(ShowTopic::Targets) == "targets"@,
        topic_name(ShowTopic::Syntax) == "syntax"@,
        topic_name(ShowTopic::Durations) == "durations"@,
        topic_name(ShowTopic::Pitches) == "pitches"@,
        topic_name(ShowTopic::Clefs) == "clefs"@,
        topic_name(ShowTopic::Keys) == "keys"@,
        topic_name(ShowTopic::Dynamics) == "dynamics"@,
        topic_name(ShowTopic::Articulations) == "articulations"@,
        topic_name(ShowTopic::Ornaments) == "ornaments"@,
        topic_name(ShowTopic::Instruments) == "instruments"@,
        topic_name(ShowTopic::Barlines) == "barlines"@,
        topic_name(ShowTopic::Accidentals) == "accidentals"@,
        topic_name(ShowTopic::Noteheads) == "noteheads"@,
        topic_name(ShowTopic::Fermatas) == "fermatas"@,
{
}


/// The place of a natural note's major key on the circle of fifths: C at
/// nought, each step of a fifth up one more (G, D, A, E, B), F one below.
pub open spec fn letter_fifths(c: char) -> int {
    if c == 'f' {
        -1
    } else if c == 'c' {
        0
    } else if c == 'g' {
        1
    } else if c == 'd' {
        2
    } else if c == 'a' {
        3
    } else if c == 'e' {
        4
    } else {
        5
    }
}

/// The sharps (positive) or flats (negative) of the major key whose tonic
/// starts a keyword such as `bb :major`: a flat tonic lies seven fifths
/// below its natural note, a sharp one seven above.
pub open spec fn major_fifths(kw: Seq<char>) -> int {
    letter_fifths(kw[0]) + if kw.len() > 1 && kw[1] == 'b' {
        -7
    } else if kw.len() > 1 && kw[1] == '#' {
        7
    } else {
        0
    }
}

/// The sharps in the order in which a key signature adds them.
pub open spec fn sharp_order() -> Seq<Seq<char>> {
    seq!["F#"@, "C#"@, "G#"@, "D#"@, "A#"@, "E#"@, "B#"@]
}

/// The flats in the order in which a key signature adds them.
pub open spec fn flat_order() -> Seq<Seq<char>> {
    seq!["Bb"@, "Eb"@, "Ab"@, "Db"@, "Gb"@, "Cb"@, "Fb"@]
}

/// Names joined by a comma and a space.
pub open spec fn joined(names: Seq<Seq<char>>) -> Seq<char>
    decreases names.len(),
{
    if names.len() == 0 {
        Seq::empty()
    } else if names.len() == 1 {
        names[0]
    } else {
        joined(names.drop_last()) + ", "@ + names.last()
    }
}

/// The accidentals of a key signature with `fifths` sharps (or, below
/// nought, flats), in order.
pub open spec fn key_signature_text(fifths: int) -> Seq<char> {
    if fifths >= 0 {
        joined(sharp_order().take(fifths))
    } else {
        joined(flat_order().take(-fifths))
    }
}

/// Whether the example of a major-key row, where it lists accidentals
/// rather than showing a use, lists those of the key's signature.
pub open spec fn lists_key_signature(it: ItemV) -> bool {
    match it.2 {
        Some(e) => (e.len() > 0 && e[0] == '(') || e == key_signature_text(major_fifths(it.0)),
        None => true,
    }
}

/// The accidentals that the major-key rows of the keys table list are those
/// of each key's signature, found from its tonic on the circle of fifths: G
/// major has F#, D major F# and C#, F major Bb, B-flat major Bb and Eb.
pub proof fn law_major_key_examples()
    ensures
        forall|i: int| 0 <= i < keys_major_keys().1.len()
            ==> #[trigger] lists_key_signature(keys_major_keys().1[i]),
{
    let k = keys_major_keys().1;
    reveal_strlit("(key c :major)");
    reveal_strlit("g :major");
    reveal_strlit("d :major");
    reveal_strlit("f :major");
    reveal_strlit("bb :major");
    reveal_strlit("F#");
    reveal_strlit("C#");
    reveal_strlit("Bb");
    reveal_strlit("Eb");
    reveal_strlit("F#, C#");
    reveal_strlit("Bb, Eb");
    reveal_strlit(", ");
    assert(lists_key_signature(k[0]));
    assert(lists_key_signature(k[1])) by {
        assert(major_fifths("g :major"@) == 1);
        assert(sharp_order().take(1) =~= seq!["F#"@]);
    }
    assert(lists_key_signature(k[2])) by {
        assert(major_fifths("d :major"@) == 2);
        assert(sharp_order().take(2) =~= seq!["F#"@, "C#"@]);
        assert(sharp_order().take(2).drop_last() =~= seq!["F#"@]);
        assert("F#, C#"@ =~= "F#"@ + ", "@ + "C#"@);
        assert(joined(seq!["F#"@]) == "F#"@);
        assert(joined(sharp_order().take(2)) == joined(seq!["F#"@]) + ", "@ + "C#"@);
    }
    assert(lists_key_signature(k[3])) by {
        assert(major_fifths("f :major"@) == -1);
        assert(flat_order().take(1) =~= seq!["Bb"@]);
    }
    assert(lists_key_signature(k[4])) by {
        assert(major_fifths("bb :major"@) == -2);
        assert(flat_order().take(2) =~= seq!["Bb"@, "Eb"@]);
        assert(flat_order().take(2).drop_last() =~= seq!["Bb"@]);
        assert("Bb, Eb"@ =~= "Bb"@ + ", "@ + "Eb"@);
        assert(joined(seq!["Bb"@]) == "Bb"@);
        assert(joined(flat_order().take(2)) == joined(seq!["Bb"@]) + ", "@ + "Eb"@);
    }
}


/// The title of each topic's table and the headings of its groups, in order.
pub proof fn law_topic_titles_and_headings()
    ensures
        topic_title(ShowTopic::Targets) == "Output Targets"@,
        topic_categories(ShowTopic::Targets).map_values(|c: CategoryV| c.0) == seq![""@],
        topic_title(ShowTopic::Syntax) == "Syntax Quick Reference"@,
        topic_categories(ShowTopic::Syntax).map_values(|c: CategoryV| c.0) == seq!["Structure"@, "Notes"@, "Attributes"@],
        topic_title(ShowTopic::Durations) == "Duration Symbols"@,
        topic_categories(ShowTopic::Durations).map_values(|c: CategoryV| c.0) == seq!["Standard Durations"@, "Extended Durations"@, "Modifiers"@],
        topic_title(ShowTopic::Pitches) == "Pitch Notation"@,
        topic_categories(ShowTopic::Pitches).map_values(|c: CategoryV| c.0) == seq!["Pitch Names"@, "Octaves"@, "Accidentals"@],
        topic_title(ShowTopic::Clefs) == "Clefs"@,
        topic_categories(ShowTopic::Clefs).map_values(|c: CategoryV| c.0) == seq!["Common Clefs"@, "Special Clefs"@, "Octave Clefs"@],
        topic_title(ShowTopic::Keys) == "Key Signatures"@,
        topic_categories(ShowTopic::Keys).map_values(|c: CategoryV| c.0) == seq!["Major Keys"@, "Minor Keys"@, "Modes"@],
        topic_title(ShowTopic::Dynamics) == "Dynamic Markings"@,
        topic_categories(ShowTopic::Dynamics).map_values(|c: CategoryV| c.0) == seq!["Soft Dynamics"@, "Medium Dynamics"@, "Loud Dynamics"@, "Accent Dynamics"@],
        topic_title(ShowTopic::Articulations) == "Articulations"@,
        topic_categories(ShowTopic::Articulations).map_values(|c: CategoryV| c.0) == seq!["Standard Articulations"@, "Jazz Articulations"@, "Breath & Pause"@],
        topic_title(ShowTopic::Ornaments) == "Ornaments"@,
        topic_categories(ShowTopic::Ornaments).map_values(|c: CategoryV| c.0) == seq!["Trills"@, "Turns"@, "Mordents"@, "Other Ornaments"@],
        topic_title(ShowTopic::Instruments) == "Instruments"@,
        topic_categories(ShowTopic::Instruments).map_values(|c: CategoryV| c.0) == seq!["Keyboard"@, "Strings"@, "Woodwinds"@, "Brass"@, "Percussion"@, "Voice"@],
        topic_title(ShowTopic::Barlines) == "Barline Types"@,
        topic_categories(ShowTopic::Barlines).map_values(|c: CategoryV| c.0) == seq!["Standard Barlines"@, "Repeat Barlines"@, "Special Barlines"@],
        topic_title(ShowTopic::Accidentals) == "Accidentals"@,
        topic_categories(ShowTopic::Accidentals).map_values(|c: CategoryV| c.0) == seq!["Standard Accidentals"@, "Compound Accidentals"@, "Microtonal Accidentals"@, "Arrow Accidentals"@, "Special Accidentals"@],
        topic_title(ShowTopic::Noteheads) == "Notehead Shapes"@,
        topic_categories(ShowTopic::Noteheads).map_values(|c: CategoryV| c.0) == seq!["Standard Noteheads"@, "Percussion/Special"@, "Directional"@, "Decorative"@, "Shape Note (Solfege)"@],
        topic_title(ShowTopic::Fermatas) == "Fermata Shapes"@,
        topic_categories(ShowTopic::Fermatas).map_values(|c: CategoryV| c.0) == seq!["Standard Fermatas"@, "Fermata Shapes"@],
{
    assert(topic_categories(ShowTopic::Targets).map_values(|c: CategoryV| c.0) =~= seq![""@]);
    assert(topic_categories(ShowTopic::Syntax).map_values(|c: CategoryV| c.0) =~= seq!["Structure"@, "Notes"@, "Attributes"@]);
    assert(topic_categories(ShowTopic::Durations).map_values(|c: CategoryV| c.0) =~= seq!["Standard Durations"@, "Extended Durations"@, "Modifiers"@]);
    assert(topic_categories(ShowTopic::Pitches).map_values(|c: CategoryV| c.0) =~= seq!["Pitch Names"@, "Octaves"@, "Accidentals"@]);
    assert(topic_categories(ShowTopic::Clefs).map_values(|c: CategoryV| c.0) =~= seq!["Common Clefs"@, "Special Clefs"@, "Octave Clefs"@]);
    assert(topic_categories(ShowTopic::Keys).map_values(|c: CategoryV| c.0) =~= seq!["Major Keys"@, "Minor Keys"@, "Modes"@]);
    assert(topic_categories(ShowTopic::Dynamics).map_values(|c: CategoryV| c.0) =~= seq!["Soft Dynamics"@, "Medium Dynamics"@, "Loud Dynamics"@, "Accent Dynamics"@]);
    assert(topic_categories(ShowTopic::Articulations).map_values(|c: CategoryV| c.0) =~= seq!["Standard Articulations"@, "Jazz Articulations"@, "Breath & Pause"@]);
    assert(topic_categories(ShowTopic::Ornaments).map_values(|c: CategoryV| c.0) =~= seq!["Trills"@, "Turns"@, "Mordents"@, "Other Ornaments"@]);
    assert(topic_categories(ShowTopic::Instruments).map_values(|c: CategoryV| c.0) =~= seq!["Keyboard"@, "Strings"@, "Woodwinds"@, "Brass"@, "Percussion"@, "Voice"@]);
    assert(topic_categories(ShowTopic::Barlines).map_values(|c: CategoryV| c.0) =~= seq!["Standard Barlines"@, "Repeat Barlines"@, "Special Barlines"@]);
    assert(topic_categories(ShowTopic::Accidentals).map_values(|c: CategoryV| c.0) =~= seq!["Standard Accidentals"@, "Compound Accidentals"@, "Microtonal Accidentals"@, "Arrow Accidentals"@, "Special Accidentals"@]);
    assert(topic_categories(ShowTopic::Noteheads).map_values(|c: CategoryV| c.0) =~= seq!["Standard Noteheads"@, "Percussion/Special"@, "Directional"@, "Decorative"@, "Shape Note (Solfege)"@]);
    assert(topic_categories(ShowTopic::Fermatas).map_values(|c: CategoryV| c.0) =~= seq!["Standard Fermatas"@, "Fermata Shapes"@]);
}

} // verus!
