use fermata::reference::{all_topics, reference, render_text, ShowTopic};
use fermata::ir::attributes::Mode;
use fermata::ir::beam::NoteheadValue;
use fermata::ir::common::AccidentalValue;
use fermata::ir::direction::DynamicElement;
use fermata::ir::notation::FermataShape;

#[test]
fn targets_table_as_plain_text() {
    let table = reference(ShowTopic::Targets);
    assert_eq!(
        render_text(&table, false),
        "Output Targets\n\n\
         \x20   musicxml          MusicXML format for notation software  (Finale, Sibelius, MuseScore, Dorico)\n\
         \x20   xml               Alias for musicxml\n\
         \x20   lilypond          LilyPond format (not yet implemented)  (Publication-quality PDF engraving)\n\
         \x20   ly                Alias for lilypond\n\
         \n"
    );
}

#[test]
fn colored_text_wraps_title_heading_keyword_and_example() {
    let table = reference(ShowTopic::Instruments);
    let text = render_text(&table, true);
    assert!(text.starts_with("\x1b[4m\x1b[1mInstruments\x1b[0m\x1b[0m\n\n"));
    assert!(text.contains("  \x1b[1m\x1b[36mKeyboard\x1b[39m\x1b[0m\n"));
    assert!(text.contains("    \x1b[32m:piano          \x1b[39m  Piano  \x1b[2m(Grand staff)\x1b[0m\n"));
    assert!(text.contains("    \x1b[32m:organ          \x1b[39m  Organ\n"));
}

#[test]
fn long_keywords_are_not_cut() {
    let table = reference(ShowTopic::Syntax);
    let text = render_text(&table, false);
    assert!(text.contains("  Structure\n    (score ...)       Top-level score container\n"));
}

#[test]
fn topic_tables_have_their_groups() {
    let sizes: Vec<(ShowTopic, Vec<usize>)> = vec![
        (ShowTopic::Targets, vec![4]),
        (ShowTopic::Dynamics, vec![6, 2, 6, 10]),
        (ShowTopic::Instruments, vec![3, 6, 5, 4, 3, 5]),
        (ShowTopic::Fermatas, vec![2, 8]),
    ];
    for (topic, expected) in sizes {
        let table = reference(topic);
        let got: Vec<usize> = table.categories.iter().map(|c| c.items.len()).collect();
        assert_eq!(got, expected);
    }
    let dynamics = reference(ShowTopic::Dynamics);
    assert_eq!(dynamics.title, "Dynamic Markings");
    assert_eq!(dynamics.categories[0].name, "Soft Dynamics");
    assert_eq!(dynamics.categories[0].items[0].keyword, ":pppppp");
    assert_eq!(dynamics.categories[0].items[0].example, None);
}

#[test]
fn topics_are_found_by_name() {
    assert_eq!(ShowTopic::from_name("dynamics"), Some(ShowTopic::Dynamics));
    assert_eq!(ShowTopic::from_name("fermatas"), Some(ShowTopic::Fermatas));
    assert_eq!(ShowTopic::from_name("Dynamics"), None);
    assert_eq!(ShowTopic::from_name(""), None);
    let names: Vec<&str> = all_topics().iter().map(|t| t.name()).collect();
    assert_eq!(names.len(), 14);
    assert_eq!(names[0], "targets");
    assert_eq!(names[13], "fermatas");
    for t in all_topics() {
        assert_eq!(ShowTopic::from_name(t.name()), Some(t));
    }
}

fn keywords(topic: ShowTopic) -> Vec<Vec<String>> {
    reference(topic)
        .categories
        .iter()
        .map(|c| c.items.iter().map(|i| i.keyword.to_string()).collect())
        .collect()
}

fn colon(symbols: &[&str]) -> Vec<String> {
    symbols.iter().map(|s| format!(":{}", s)).collect()
}

#[test]
fn notehead_keywords_are_printed_symbols() {
    let groups = keywords(ShowTopic::Noteheads);
    let expected: Vec<Vec<NoteheadValue>> = vec![
        vec![NoteheadValue::Normal, NoteheadValue::Diamond, NoteheadValue::Triangle, NoteheadValue::Square, NoteheadValue::Rectangle],
        vec![NoteheadValue::X, NoteheadValue::Cross, NoteheadValue::CircleX, NoteheadValue::Slash, NoteheadValue::Cluster],
        vec![NoteheadValue::ArrowUp, NoteheadValue::ArrowDown, NoteheadValue::InvertedTriangle, NoteheadValue::LeftTriangle],
        vec![NoteheadValue::Circled, NoteheadValue::Slashed, NoteheadValue::BackSlashed, NoteheadValue::CircleDot, NoteheadValue::NoNotehead],
        vec![NoteheadValue::Do, NoteheadValue::Re, NoteheadValue::Mi, NoteheadValue::Fa, NoteheadValue::So, NoteheadValue::La, NoteheadValue::Ti],
    ];
    assert_eq!(groups.len(), expected.len());
    for (g, e) in groups.iter().zip(expected.iter()) {
        let symbols: Vec<&str> = e.iter().map(|v| v.symbol()).collect();
        assert_eq!(g, &colon(&symbols));
    }
}

#[test]
fn fermata_shape_keywords_are_printed_symbols() {
    let groups = keywords(ShowTopic::Fermatas);
    let symbols: Vec<&str> = [FermataShape::Normal, FermataShape::Angled, FermataShape::Square, FermataShape::DoubleAngled, FermataShape::DoubleSquare, FermataShape::DoubleDot, FermataShape::HalfCurve, FermataShape::Curlew]
        .iter()
        .map(|v| v.symbol())
        .collect();
    assert_eq!(groups[1], colon(&symbols));
}

#[test]
fn dynamics_keywords_are_printed_symbols() {
    let groups = keywords(ShowTopic::Dynamics);
    let expected: Vec<Vec<DynamicElement>> = vec![
        vec![DynamicElement::PPPPPP, DynamicElement::PPPPP, DynamicElement::PPPP, DynamicElement::PPP, DynamicElement::PP, DynamicElement::P],
        vec![DynamicElement::MP, DynamicElement::MF],
        vec![DynamicElement::F, DynamicElement::FF, DynamicElement::FFF, DynamicElement::FFFF, DynamicElement::FFFFF, DynamicElement::FFFFFF],
        vec![DynamicElement::SF, DynamicElement::SFZ, DynamicElement::SFFZ, DynamicElement::FP, DynamicElement::SFP, DynamicElement::SFPP, DynamicElement::FZ, DynamicElement::RF, DynamicElement::RFZ, DynamicElement::N],
    ];
    for (g, e) in groups.iter().zip(expected.iter()) {
        let symbols: Vec<&str> = e.iter().map(|v| v.symbol()).collect();
        assert_eq!(g, &colon(&symbols));
    }
}

#[test]
fn accidental_and_mode_keywords_are_printed_symbols() {
    let groups = keywords(ShowTopic::Accidentals);
    let standard: Vec<&str> = [
        AccidentalValue::Sharp,
        AccidentalValue::Flat,
        AccidentalValue::Natural,
        AccidentalValue::DoubleSharp,
        AccidentalValue::DoubleFlat,
    ]
    .iter()
    .map(|v| v.symbol())
    .collect();
    assert_eq!(groups[0], colon(&standard));
    assert_eq!(groups[2][2], format!(":{}", AccidentalValue::ThreeQuartersSharp.symbol()));
    assert_eq!(groups[4][1], format!(":{}", AccidentalValue::Koron.symbol()));
    let modes: Vec<&str> = [Mode::Dorian, Mode::Phrygian, Mode::Lydian, Mode::Mixolydian, Mode::Aeolian, Mode::Locrian, Mode::Ionian]
        .iter()
        .map(|v| v.symbol())
        .collect();
    assert_eq!(keywords(ShowTopic::Keys)[2], colon(&modes));
}
