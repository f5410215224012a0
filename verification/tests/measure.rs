use fermata::decimal::Decimal;
use fermata::ir::attributes::{
    Attributes, BackwardForward, BarStyle, Barline, Cancel, Clef, ClefSign, Ending, Key,
    KeyContent, KeyStep, Mode, Repeat, RightLeftMiddle, StaffDetails, StartStopDiscontinue, Time,
    TimeContent, TimeSignature, TimeSymbol, TraditionalKey, Transpose,
};
use fermata::ir::common::{AboveBelow, AccidentalValue, YesNo};
use fermata::ir::direction::{
    BeatEquation, Direction, DirectionType, DirectionTypeContent, DynamicElement, Dynamics,
    Metronome, MetronomeContent, OctaveShift, Pedal, PedalType, PerMinute, Rehearsal,
    UpDownStopContinue, Wedge, WedgeType, Words,
};
use fermata::ir::duration::NoteTypeValue;
use fermata::ir::measure::{Measure, MusicDataElement};
use fermata::ir::part::{Part, PartList};
use fermata::ir::pitch::Step;
use fermata::ir::score::ScorePartwise;
use fermata::sexpr::ast::Sexpr;
use fermata::sexpr::print::print_sexpr;
use fermata::sexpr::printer::PrintOptions;
use fermata::sexpr::traits::ToSexpr;
use fermata::sexpr::print_score_with_options;

fn score_of(content: Vec<MusicDataElement>) -> ScorePartwise {
    ScorePartwise {
        version: None,
        work: None,
        movement_number: None,
        movement_title: None,
        identification: None,
        defaults: None,
        credits: vec![],
        part_list: PartList { content: vec![] },
        parts: vec![Part {
            id: "P1".to_string(),
            measures: vec![Measure {
                number: "1".to_string(),
                implicit: None,
                non_controlling: None,
                width: None,
                content,
            }],
        }],
    }
}

fn printed(content: Vec<MusicDataElement>) -> String {
    print_score_with_options(&score_of(content), &PrintOptions::default())
}

fn printed_compact(content: Vec<MusicDataElement>) -> String {
    let o = PrintOptions { compact: true, ..PrintOptions::default() };
    print_score_with_options(&score_of(content), &o)
}

const FRAME: &str = "(score-partwise\n  (part-list)\n  (part :id \"P1\"\n    (measure :number \"1\"\n";

fn attributes_of(f: impl FnOnce(&mut Attributes)) -> MusicDataElement {
    let mut a = Attributes::default();
    f(&mut a);
    MusicDataElement::Attributes(Box::new(a))
}

fn traditional_key(fifths: i8, mode: Option<Mode>) -> Key {
    Key {
        number: None,
        print_object: None,
        content: KeyContent::Traditional(TraditionalKey { cancel: None, fifths, mode }),
    }
}

fn common_time() -> Time {
    Time {
        number: None,
        symbol: Some(TimeSymbol::Common),
        content: TimeContent::Measured(vec![TimeSignature {
            beats: "4".to_string(),
            beat_type: "4".to_string(),
        }]),
    }
}

fn clef(sign: ClefSign, line: u32) -> Clef {
    Clef { number: None, sign, line: Some(line), octave_change: None, print_object: None }
}

fn direction_of(types: Vec<DirectionTypeContent>, placement: Option<AboveBelow>) -> MusicDataElement {
    MusicDataElement::Direction(Box::new(Direction {
        placement,
        direction_types: types.into_iter().map(|content| DirectionType { content }).collect(),
        staff: None,
        voice: None,
    }))
}

fn barline_of(b: Barline) -> MusicDataElement {
    MusicDataElement::Barline(Box::new(b))
}

#[test]
fn test_print_attributes_divisions_integration() {
    let out = printed(vec![attributes_of(|a| a.divisions = Some(4))]);
    assert!(out.contains("(attributes"));
    assert!(out.contains(":divisions 4"));
}

#[test]
fn test_print_attributes_key_major_integration() {
    let out = printed(vec![attributes_of(|a| a.keys = vec![traditional_key(2, Some(Mode::Major))])]);
    assert!(out.contains("(key"));
    assert!(out.contains(":fifths 2"));
    assert!(out.contains(":mode major"));
}

#[test]
fn test_print_attributes_key_minor_integration() {
    let out = printed(vec![attributes_of(|a| a.keys = vec![traditional_key(-3, Some(Mode::Minor))])]);
    assert!(out.contains(":fifths -3"));
    assert!(out.contains(":mode minor"));
}

#[test]
fn test_print_attributes_time_common_integration() {
    let out = printed(vec![attributes_of(|a| a.times = vec![common_time()])]);
    assert!(out.contains("(time"));
    assert!(out.contains(":symbol common"));
    assert!(out.contains("(beats \"4\")"));
    assert!(out.contains("(beat-type \"4\")"));
}

#[test]
fn test_print_attributes_time_cut_integration() {
    let mut t = common_time();
    t.symbol = Some(TimeSymbol::Cut);
    let out = printed(vec![attributes_of(|a| a.times = vec![t])]);
    assert!(out.contains(":symbol cut"));
}

#[test]
fn test_print_attributes_clef_treble_integration() {
    let out = printed(vec![attributes_of(|a| a.clefs = vec![clef(ClefSign::G, 2)])]);
    assert!(out.contains("(clef :sign G :line 2)"));
}

#[test]
fn test_print_attributes_clef_bass_integration() {
    let out = printed(vec![attributes_of(|a| a.clefs = vec![clef(ClefSign::F, 4)])]);
    assert!(out.contains("(clef :sign F :line 4)"));
}

#[test]
fn test_print_attributes_clef_alto_integration() {
    let out = printed(vec![attributes_of(|a| a.clefs = vec![clef(ClefSign::C, 3)])]);
    assert!(out.contains("(clef :sign C :line 3)"));
}

#[test]
fn test_print_attributes_clef_octave_change_integration() {
    let mut c = clef(ClefSign::G, 2);
    c.octave_change = Some(-1);
    let out = printed(vec![attributes_of(|a| a.clefs = vec![c])]);
    assert!(out.contains(":clef-octave-change -1"));
}

#[test]
fn printed_attributes_are_exact() {
    let mut bass = clef(ClefSign::F, 4);
    bass.number = Some(2);
    bass.octave_change = Some(-1);
    let el = attributes_of(|a| {
        a.divisions = Some(4);
        a.keys = vec![traditional_key(2, Some(Mode::Major))];
        a.times = vec![common_time()];
        a.staves = Some(2);
        a.clefs = vec![clef(ClefSign::G, 2), bass];
        a.staff_details = vec![StaffDetails { number: Some(1), staff_lines: Some(5) }];
        a.transpose = vec![Transpose {
            number: None,
            diatonic: Some(-1),
            chromatic: -2,
            octave_change: None,
            double: Some(YesNo::Yes),
        }];
        a.instruments = Some(3);
    });
    let expected = format!(
        "{}{}",
        FRAME,
        "      (attributes :divisions 4\n        (key :fifths 2 :mode major)\n        \
         (time :symbol common (beats \"4\") (beat-type \"4\")) :staves 2\n        \
         (clef :sign G :line 2)\n        (clef :number 2 :sign F :line 4 :clef-octave-change -1)\n        \
         (staff-details :number 1 :staff-lines 5)\n        \
         (transpose :diatonic -1 :chromatic -2 :double #t) :instruments 3))))"
    );
    assert_eq!(printed(vec![el]), expected);
}

#[test]
fn printed_keys_with_cancel_and_steps_are_exact() {
    let cancelled = Key {
        number: Some(1),
        print_object: Some(YesNo::No),
        content: KeyContent::Traditional(TraditionalKey {
            cancel: Some(Cancel { fifths: -2 }),
            fifths: 0,
            mode: None,
        }),
    };
    let steps = Key {
        number: None,
        print_object: None,
        content: KeyContent::NonTraditional(vec![
            KeyStep { step: Step::F, alter: Decimal::new(1, 0), accidental: Some(AccidentalValue::Sharp) },
            KeyStep { step: Step::B, alter: Decimal::new(-5, 1), accidental: None },
        ]),
    };
    let el = attributes_of(|a| a.keys = vec![cancelled, steps]);
    let expected = format!(
        "{}{}",
        FRAME,
        "      (attributes\n        (key :number 1 :print-object #f\n          (cancel :fifths -2) :fifths 0)\n        \
         (key\n          (key-step F :key-alter 1) :key-accidental sharp\n          (key-step B :key-alter -0.5)))))"
    );
    assert_eq!(printed(vec![el]), expected);
}

#[test]
fn printed_senza_misura_is_exact() {
    let t = Time { number: Some(1), symbol: None, content: TimeContent::SenzaMisura("X".to_string()) };
    let bare = Time { number: None, symbol: None, content: TimeContent::SenzaMisura(String::new()) };
    let el = attributes_of(|a| a.times = vec![t, bare]);
    let expected = format!(
        "{}{}",
        FRAME,
        "      (attributes\n        (time :number 1 :senza-misura #t \"X\")\n        (time :senza-misura #t)))))"
    );
    assert_eq!(printed(vec![el]), expected);
}

#[test]
fn printed_directions_are_exact() {
    let el = MusicDataElement::Direction(Box::new(Direction {
        placement: Some(AboveBelow::Below),
        direction_types: vec![
            DirectionType {
                content: DirectionTypeContent::Dynamics(Dynamics {
                    content: vec![DynamicElement::P],
                    placement: None,
                }),
            },
            DirectionType { content: DirectionTypeContent::Wedge(Wedge { type_: WedgeType::Crescendo }) },
            DirectionType {
                content: DirectionTypeContent::Words(vec![
                    Words { value: "cresc.".to_string(), lang: Some("it".to_string()) },
                    Words { value: "ignored".to_string(), lang: None },
                ]),
            },
            DirectionType {
                content: DirectionTypeContent::Metronome(Metronome {
                    parentheses: None,
                    content: MetronomeContent::PerMinute(PerMinute {
                        beat_unit: NoteTypeValue::Quarter,
                        beat_unit_dots: 1,
                        per_minute: "120".to_string(),
                    }),
                }),
            },
            DirectionType {
                content: DirectionTypeContent::Pedal(Pedal {
                    type_: PedalType::Start,
                    line: Some(YesNo::Yes),
                    sign: None,
                }),
            },
            DirectionType {
                content: DirectionTypeContent::OctaveShift(OctaveShift {
                    type_: UpDownStopContinue::Down,
                    number: None,
                    size: Some(8),
                }),
            },
        ],
        staff: Some(1),
        voice: Some("2".to_string()),
    }));
    let expected = format!(
        "{}{}",
        FRAME,
        "      (direction :placement below\n        (dynamics p)\n        (wedge :type crescendo)\n        \
         (words \"cresc.\" :lang \"it\")\n        (metronome :beat-unit quarter :beat-unit-dot :per-minute \"120\")\n        \
         (pedal :type start :line #t)\n        (octave-shift :type down :size 8) :staff 1 :voice \"2\"))))"
    );
    assert_eq!(printed(vec![el]), expected);
}

#[test]
fn printed_direction_markings_without_text_are_exact() {
    let el = direction_of(
        vec![
            DirectionTypeContent::Rehearsal(vec![Rehearsal { value: "A".to_string() }]),
            DirectionTypeContent::Rehearsal(vec![]),
            DirectionTypeContent::Segno,
            DirectionTypeContent::Coda,
            DirectionTypeContent::Words(vec![]),
            DirectionTypeContent::Dashes,
            DirectionTypeContent::Metronome(Metronome {
                parentheses: Some(YesNo::Yes),
                content: MetronomeContent::BeatEquation(BeatEquation {
                    left_unit: NoteTypeValue::Half,
                    left_dots: 0,
                    right_unit: NoteTypeValue::Quarter,
                    right_dots: 2,
                }),
            }),
            DirectionTypeContent::Metronome(Metronome {
                parentheses: None,
                content: MetronomeContent::MetricModulation,
            }),
        ],
        None,
    );
    let expected = format!(
        "{}{}",
        FRAME,
        "      (direction\n        (rehearsal \"A\")\n        (rehearsal)\n        (segno)\n        (coda)\n        \
         (words)\n        (direction-type)\n        \
         (metronome :parentheses #t :left-unit half :right-unit quarter :right-dot :right-dot)\n        \
         (metronome :metric-modulation #t)))))"
    );
    assert_eq!(printed(vec![el]), expected);
}

#[test]
fn printed_barlines_are_exact() {
    let b = barline_of(Barline {
        location: Some(RightLeftMiddle::Right),
        bar_style: Some(BarStyle::LightHeavy),
        repeat: Some(Repeat { direction: BackwardForward::Backward, times: Some(2) }),
        ending: Some(Ending {
            number: "1".to_string(),
            type_: StartStopDiscontinue::Stop,
            text: Some(String::new()),
        }),
    });
    let start = barline_of(Barline {
        location: Some(RightLeftMiddle::Left),
        bar_style: None,
        repeat: None,
        ending: Some(Ending {
            number: "1, 2".to_string(),
            type_: StartStopDiscontinue::Start,
            text: Some("1.".to_string()),
        }),
    });
    let expected = format!(
        "{}{}",
        FRAME,
        "      (barline :location left\n        (ending :number \"1, 2\" :type start \"1.\"))\n      \
         (barline :location right :bar-style light-heavy\n        (repeat :direction backward :times 2)\n        \
         (ending :number \"1\" :type stop)))))"
    );
    assert_eq!(printed(vec![start, b]), expected);
}

#[test]
fn compact_measure_elements_stay_on_one_line() {
    let out = printed_compact(vec![
        attributes_of(|a| a.clefs = vec![clef(ClefSign::G, 2)]),
        direction_of(vec![DirectionTypeContent::Segno], Some(AboveBelow::Above)),
        barline_of(Barline {
            location: None,
            bar_style: Some(BarStyle::NoBar),
            repeat: Some(Repeat { direction: BackwardForward::Forward, times: None }),
            ending: None,
        }),
    ]);
    assert_eq!(
        out,
        "(score-partwise (part-list) (part :id \"P1\" (measure :number \"1\" (attributes (clef :sign G :line 2)) \
         (direction :placement above (segno)) (barline :bar-style none (repeat :direction forward)))))"
    );
}

#[test]
fn attributes_convert_to_keyword_lists() {
    let c = Clef { number: None, sign: ClefSign::G, line: Some(2), octave_change: Some(-1), print_object: None };
    assert_eq!(print_sexpr(&c.to_sexpr()), "(clef :sign G :line 2 :octave-change -1)");
    assert_eq!(ClefSign::Tab.to_sexpr(), Sexpr::symbol("TAB"));
    assert_eq!(Mode::NoMode.to_sexpr(), Sexpr::symbol("none"));
    assert_eq!(BarStyle::LightHeavy.to_sexpr(), Sexpr::symbol("light-heavy"));
    let r = Repeat { direction: BackwardForward::Backward, times: Some(2) };
    assert_eq!(print_sexpr(&r.to_sexpr()), "(repeat :direction backward :times 2)");
    let w = Wedge { type_: WedgeType::Diminuendo };
    assert_eq!(print_sexpr(&w.to_sexpr()), "(wedge :type diminuendo)");
}

#[test]
fn width_does_not_change_the_layout() {
    let content = vec![attributes_of(|a| {
        a.divisions = Some(4);
        a.clefs = vec![clef(ClefSign::G, 2)];
    })];
    let narrow = PrintOptions { max_width: 10, ..PrintOptions::default() };
    let wide = PrintOptions { max_width: 200, ..PrintOptions::default() };
    assert_eq!(
        print_score_with_options(&score_of(content.clone()), &narrow),
        print_score_with_options(&score_of(content), &wide)
    );
}
