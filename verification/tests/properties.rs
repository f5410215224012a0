use fermata::decimal::Decimal;
use fermata::ir::beam::{Beam, BeamValue, Fan, Stem, StemValue};
use fermata::ir::common::{AboveBelow, EmptyPlacement, Position, StartStop, StartStopContinue, YesNo};
use fermata::ir::direction::{DynamicElement, Dynamics};
use fermata::ir::notation::{
    ArticulationElement, Articulations, Bend, BreathMark, BreathMarkValue, Fingering, HammerPull,
    NotationContent, Notations, Slur, Technical, TechnicalElement, Tied,
};
use fermata::ir::duration::{NoteType, NoteTypeValue, TimeModification};
use fermata::ir::measure::{Measure, MusicDataElement};
use fermata::ir::beam::Notehead;
use fermata::ir::beam::NoteheadValue;
use fermata::ir::lyric::{Extend, Lyric, LyricContent, Syllabic, TextElementData};
use fermata::ir::note::{FullNote, Grace, Note, NoteContent, PitchRestUnpitched, Rest, Tie};
use fermata::ir::part::{GroupName, GroupSymbol, GroupSymbolValue, PartGroup, PartListElement};
use fermata::ir::pitch::Unpitched;
use fermata::ir::score::{Encoding, EncodingContent, Identification, TypedText, Work};
use fermata::ir::voice::Forward;
use fermata::ir::part::{Part, PartList};
use fermata::ir::pitch::{Pitch, Step};
use fermata::ir::score::ScorePartwise;
use fermata::ir::voice::Backup;
use fermata::sexpr::ast::Sexpr;
use fermata::sexpr::error::{ConvertError, ParseError};
use fermata::sexpr::parser::{parse, parse_all, unescape_string};
use fermata::sexpr::print::escape_string;
use fermata::sexpr::read_print::confirm_ascii_classified;
use fermata::sexpr::print::{print_sexpr, to_sexpr_string};
use fermata::sexpr::printer::{format_float, PrintOptions};
use fermata::sexpr::traits::{FromSexpr, ToSexpr};
use fermata::sexpr::{from_sexpr_str, print_score_with_options, SexprError};

fn quarter_c4() -> Note {
    Note {
        position: Position::default(),
        dynamics: None,
        end_dynamics: None,
        attack: None,
        release: None,
        pizzicato: None,
        print_object: None,
        content: NoteContent::Regular {
            full_note: FullNote {
                chord: false,
                content: PitchRestUnpitched::Pitch(Pitch {
                    step: Step::C,
                    alter: Some(Decimal::new(5, 1)),
                    octave: 4,
                }),
            },
            duration: 4,
            ties: vec![Tie { type_: StartStop::Start, time_only: None }],
        },
        instrument: vec![],
        voice: Some("1".to_string()),
        type_: Some(NoteType { value: NoteTypeValue::Quarter, size: None }),
        dots: vec![],
        accidental: None,
        time_modification: Some(TimeModification {
            actual_notes: 3,
            normal_notes: 2,
            normal_type: None,
            normal_dots: 0,
        }),
        stem: Some(Stem { value: StemValue::Up, default_y: None, color: None }),
        notehead: None,
        staff: Some(1),
        beams: vec![Beam { value: BeamValue::Begin, number: 1, fan: Some(Fan::Accel), color: None }],
        notations: vec![],
        lyrics: vec![],
    }
}

#[test]
fn note_reads_back_as_written() {
    let note = quarter_c4();
    let back = Note::from_sexpr(&note.to_sexpr()).unwrap();
    assert_eq!(back, note);
}

#[test]
fn note_reads_back_through_text() {
    let note = quarter_c4();
    let text = to_sexpr_string(&note);
    let back: Note = from_sexpr_str(&text).unwrap();
    assert_eq!(back, note);
}

#[test]
fn note_text_is_exact() {
    let note = quarter_c4();
    assert_eq!(
        to_sexpr_string(&note),
        "(note :content (regular :full-note (full-note :content (pitch :step C :alter 0.5 :octave 4)) \
         :duration 4 :ties ((tie :type start))) :voice \"1\" :type (note-type :value quarter) \
         :time-modification (time-modification :actual-notes 3 :normal-notes 2) :stem (stem :value up) \
         :staff 1 :beams ((beam :value begin :number 1 :fan accel)))"
    );
}

#[test]
fn present_false_is_written_as_nil_and_reads_as_absent() {
    let mut note = quarter_c4();
    note.pizzicato = Some(false);
    let back = Note::from_sexpr(&note.to_sexpr()).unwrap();
    assert_eq!(back.pizzicato, None);
}

#[test]
fn position_round_trip_and_omission() {
    let p = Position {
        default_x: Some(Decimal::new(-125, 1)),
        default_y: None,
        relative_x: Some(Decimal::from_int(3)),
        relative_y: None,
    };
    assert_eq!(print_sexpr(&p.to_sexpr()), "(position :default-x -12.5 :relative-x 3.0)");
    assert_eq!(Position::from_sexpr(&p.to_sexpr()).unwrap(), p);
}

#[test]
fn sexpr_text_round_trip() {
    let s = Sexpr::list(vec![
        Sexpr::symbol("note"),
        Sexpr::keyword("text"),
        Sexpr::String("a \"quoted\"\\ line\n".to_string()),
        Sexpr::Integer(-42),
        Sexpr::Float(Decimal::new(3025, 3)),
        Sexpr::Bool(true),
        Sexpr::Nil,
        Sexpr::List(vec![]),
    ]);
    let text = print_sexpr(&s);
    assert_eq!(text, "(note :text \"a \\\"quoted\\\"\\\\ line\\n\" -42 3.025 #t nil ())");
    assert_eq!(parse(&text).unwrap(), s);
}

#[test]
fn unicode_symbols_read_as_symbols() {
    assert_eq!(parse("é♯").unwrap_err(), ParseError::TrailingContent("♯".to_string()));
    assert_eq!(parse("(clé)").unwrap(), Sexpr::list(vec![Sexpr::symbol("clé")]));
}

#[test]
fn parse_all_reads_each_expression() {
    let all = parse_all("a ; comment\n (b 1) \"c\"").unwrap();
    assert_eq!(
        all,
        vec![
            Sexpr::symbol("a"),
            Sexpr::list(vec![Sexpr::symbol("b"), Sexpr::Integer(1)]),
            Sexpr::String("c".to_string()),
        ]
    );
}

#[test]
fn each_convert_error_kind() {
    assert_eq!(
        YesNoProbe::read("maybe").to_string(),
        "Expected yes-no, found symbol 'maybe'"
    );
    let missing = Tie::from_sexpr(&parse("(tie)").unwrap()).unwrap_err();
    assert_eq!(missing, ConvertError::MissingField("type"));
    let head = Tie::from_sexpr(&parse("(slur :type start)").unwrap()).unwrap_err();
    assert_eq!(head, ConvertError::ExpectedHead("tie"));
    let variant = PitchRestUnpitched::from_sexpr(&parse("(chord)").unwrap()).unwrap_err();
    assert_eq!(variant, ConvertError::InvalidVariant("chord".to_string()));
    let value = u8::from_sexpr(&Sexpr::Integer(300)).unwrap_err();
    assert_eq!(value.to_string(), "Invalid value for u8: 300");
}

struct YesNoProbe;

impl YesNoProbe {
    fn read(text: &str) -> ConvertError {
        match from_sexpr_str::<YesNo>(text) {
            Err(SexprError::Convert(e)) => e,
            other => panic!("expected a conversion error, got {:?}", other),
        }
    }
}

#[test]
fn from_sexpr_str_reports_parse_errors() {
    match from_sexpr_str::<YesNo>("(unclosed") {
        Err(SexprError::Parse(_)) => {}
        other => panic!("expected a parse error, got {:?}", other),
    }
    match from_sexpr_str::<YesNo>("yes no") {
        Err(SexprError::Parse(ParseError::TrailingContent(t))) => assert_eq!(t, "no"),
        other => panic!("expected trailing content, got {:?}", other),
    }
}

#[test]
fn lowercase_steps_read() {
    assert_eq!(Step::from_sexpr(&Sexpr::symbol("e")).unwrap(), Step::E);
    assert!(Step::from_sexpr(&Sexpr::symbol("H")).is_err());
}

fn small_score() -> ScorePartwise {
    ScorePartwise {
        version: Some("4.0".to_string()),
        work: None,
        movement_number: None,
        movement_title: None,
        identification: None,
        defaults: None,
        credits: vec![],
        part_list: PartList { content: vec![] },
        parts: vec![Part {
            id: "P\"1".to_string(),
            measures: vec![Measure {
                number: "1".to_string(),
                implicit: Some(YesNo::Yes),
                non_controlling: None,
                width: Some(Decimal::new(2000, 1)),
                content: vec![
                    MusicDataElement::Note(Box::new(quarter_c4())),
                    MusicDataElement::Backup(Backup { duration: 4, editorial: Default::default() }),
                ],
            }],
        }],
    }
}

#[test]
fn printed_score_is_exact() {
    let score = small_score();
    let out = print_score_with_options(&score, &PrintOptions::default());
    assert_eq!(
        out,
        "(score-partwise :version \"4.0\"\n  (part-list)\n  (part :id \"P\\\"1\"\n    \
         (measure :number \"1\" :width 200 :implicit #t\n      (note :pitch (pitch :step C :alter 0.5 :octave 4) \
         :duration 4 :tie start :type quarter :time-modification (time-modification :actual-notes 3 :normal-notes 2) \
         :stem up :staff 1 :beam (beam :number 1 :value begin) :fan accel :voice \"1\")\n      (backup :duration 4))))"
    );
}

#[test]
fn compact_score_has_no_line_breaks() {
    let score = small_score();
    let options = PrintOptions { indent: "  ".to_string(), max_width: 80, compact: true };
    let out = print_score_with_options(&score, &options);
    assert!(!out.contains('\n'));
    assert!(out.starts_with("(score-partwise :version \"4.0\" (part-list) (part"));
}

#[test]
fn placement_symbols() {
    assert_eq!(AboveBelow::Below.to_sexpr(), Sexpr::symbol("below"));
    assert_eq!(AboveBelow::from_sexpr(&Sexpr::symbol("above")).unwrap(), AboveBelow::Above);
}

fn note_with_notations() -> Note {
    use_notations(quarter_c4())
}

fn use_notations(mut note: Note) -> Note {
    note.time_modification = None;
    note.stem = None;
    note.beams = vec![];
    note.notations = vec![Notations {
        print_object: None,
        content: vec![
            NotationContent::Tied(Tied {
                type_: StartStopContinue::Start,
                number: Some(1),
                line_type: None,
                position: Position::default(),
                placement: None,
                orientation: None,
                color: None,
            }),
            NotationContent::Slur(Slur {
                type_: StartStopContinue::Start,
                number: 1,
                line_type: None,
                position: Position::default(),
                placement: Some(AboveBelow::Above),
                orientation: None,
                color: None,
            }),
            NotationContent::Articulations(Box::new(Articulations {
                content: vec![
                    ArticulationElement::Staccato(EmptyPlacement::default()),
                    ArticulationElement::BreathMark(BreathMark {
                        value: BreathMarkValue::Comma,
                        placement: None,
                        position: Position::default(),
                    }),
                ],
            })),
            NotationContent::Technical(Box::new(Technical {
                content: vec![
                    TechnicalElement::Fingering(Fingering { value: "3".to_string(), ..Default::default() }),
                    TechnicalElement::HammerOn(HammerPull {
                        value: "H".to_string(),
                        type_: StartStop::Start,
                        number: None,
                        placement: None,
                    }),
                    TechnicalElement::Bend(Bend { bend_alter: Decimal::new(-15, 1), ..Default::default() }),
                ],
            })),
            NotationContent::Dynamics(Box::new(Dynamics {
                content: vec![DynamicElement::SFZ, DynamicElement::P],
                placement: None,
            })),
        ],
        editorial: Default::default(),
    }];
    note
}

#[test]
fn printed_notations_are_exact() {
    let mut score = small_score();
    score.parts[0].measures[0].content = vec![MusicDataElement::Note(Box::new(note_with_notations()))];
    let out = print_score_with_options(&score, &PrintOptions::default());
    assert_eq!(
        out,
        "(score-partwise :version \"4.0\"\n  (part-list)\n  (part :id \"P\\\"1\"\n    \
         (measure :number \"1\" :width 200 :implicit #t\n      (note :pitch (pitch :step C :alter 0.5 :octave 4) \
         :duration 4 :tie start :type quarter :staff 1\n        (notations\n          (tied :type start :number 1)\n          \
         (slur :type start :number 1 :placement above)\n          (articulations\n            (staccato)\n            \
         (breath-mark :value comma))\n          (technical\n            (fingering \"3\")\n            \
         (hammer-on :type start \"H\")\n            (bend :bend-alter -1.5))\n          (dynamics sfz p)) :voice \"1\"))))"
    );
}

#[test]
fn symbols_that_look_almost_like_numbers_read_back() {
    for name in ["-x", "-", "#", "#x", "1a", "1.5x", "nilly", "+1"] {
        let s = Sexpr::list(vec![Sexpr::symbol(name), Sexpr::Integer(7)]);
        let text = print_sexpr(&s);
        assert_eq!(parse(&text).unwrap(), s, "{}", text);
    }
}

#[test]
fn symbols_shaped_like_numbers_or_booleans_do_not_read_back() {
    assert_eq!(parse(&print_sexpr(&Sexpr::symbol("12"))).unwrap(), Sexpr::Integer(12));
    assert_eq!(parse(&print_sexpr(&Sexpr::symbol("nil"))).unwrap(), Sexpr::Nil);
    assert!(parse(&print_sexpr(&Sexpr::symbol("#tx"))).is_err());
    assert!(parse(&print_sexpr(&Sexpr::symbol("1.5.2"))).is_err());
}

#[test]
fn test_format_float_whole_number() {
    assert_eq!(format_float(Decimal::new(4, 0)), "4");
}

#[test]
fn test_format_float_decimal() {
    assert_eq!(format_float(Decimal::new(35, 1)), "3.5");
}

#[test]
fn test_format_float_negative() {
    assert_eq!(format_float(Decimal::new(-2, 0)), "-2");
}

fn fragments_score() -> ScorePartwise {
    let mut grace_note = quarter_c4();
    grace_note.time_modification = None;
    grace_note.content = NoteContent::Grace {
        grace: Grace { steal_time_previous: None, steal_time_following: None, make_time: None, slash: Some(YesNo::Yes) },
        full_note: FullNote {
            chord: false,
            content: PitchRestUnpitched::Pitch(Pitch { step: Step::F, alter: Some(Decimal::new(1, 0)), octave: 4 }),
        },
        ties: vec![],
    };
    let mut rest = quarter_c4();
    rest.content = NoteContent::Regular {
        full_note: FullNote {
            chord: false,
            content: PitchRestUnpitched::Rest(Rest { measure: Some(YesNo::Yes), display_step: None, display_octave: None }),
        },
        duration: 16,
        ties: vec![],
    };
    let mut drum = quarter_c4();
    drum.content = NoteContent::Cue {
        full_note: FullNote {
            chord: true,
            content: PitchRestUnpitched::Unpitched(Unpitched { display_step: Some(Step::E), display_octave: Some(4) }),
        },
        duration: 4,
    };
    drum.notehead = Some(Notehead { value: NoteheadValue::Diamond, filled: None, parentheses: None, font: Default::default(), color: None });
    drum.lyrics = vec![Lyric {
        number: Some("1".to_string()),
        name: None,
        justify: None,
        placement: None,
        content: LyricContent::Syllable {
            syllabic: Some(Syllabic::Single),
            text: TextElementData { value: "Hello".to_string() },
            extensions: vec![],
            extend: Some(Extend { type_: Some(StartStopContinue::Start) }),
        },
        end_line: false,
        end_paragraph: false,
    }];
    let mut score = small_score();
    score.work = Some(Work {
        work_number: Some("BWV 846".to_string()),
        work_title: Some("Prelude and Fugue in C Major".to_string()),
        opus: None,
    });
    score.identification = Some(Identification {
        creators: vec![TypedText { value: "J.S. Bach".to_string(), type_: Some("composer".to_string()) }],
        encoding: Some(Encoding {
            content: vec![
                EncodingContent::Software("MuseScore 4.0".to_string()),
                EncodingContent::EncodingDate("2024-01-15".to_string()),
            ],
        }),
        ..Default::default()
    });
    score.part_list = PartList {
        content: vec![
            PartListElement::PartGroup(PartGroup {
                type_: StartStop::Start,
                number: Some("1".to_string()),
                group_name: Some(GroupName { value: "Strings".to_string() }),
                group_abbreviation: None,
                group_symbol: Some(GroupSymbol { value: GroupSymbolValue::Bracket }),
                group_barline: None,
            }),
            PartListElement::PartGroup(PartGroup {
                type_: StartStop::Stop,
                number: Some("1".to_string()),
                group_name: None,
                group_abbreviation: None,
                group_symbol: None,
                group_barline: None,
            }),
        ],
    };
    score.parts[0].measures[0].content = vec![
        MusicDataElement::Note(Box::new(grace_note)),
        MusicDataElement::Note(Box::new(rest)),
        MusicDataElement::Note(Box::new(drum)),
        MusicDataElement::Forward(Forward {
            duration: 8,
            voice: Some("2".to_string()),
            staff: Some(1),
            editorial: Default::default(),
        }),
    ];
    score
}

#[test]
fn printed_score_holds_the_documented_fragments() {
    let result = print_score_with_options(&fragments_score(), &PrintOptions::default());
    for fragment in [
        "(work",
        ":work-number \"BWV 846\"",
        ":work-title \"Prelude and Fugue in C Major\"",
        "(identification",
        "(creator :type \"composer\" \"J.S. Bach\")",
        "(encoding",
        "(software \"MuseScore 4.0\")",
        "(encoding-date \"2024-01-15\")",
        "(part-group :type start :number \"1\"",
        ":group-name \"Strings\"",
        "(group-symbol bracket)",
        "(part-group :type stop :number \"1\"",
        ":grace #t",
        ":slash #t",
        ":pitch (pitch :step F :alter 1 :octave 4)",
        ":rest (rest :measure #t)",
        ":cue #t",
        ":chord #t",
        ":unpitched (unpitched :display-step E :display-octave 4)",
        ":notehead diamond",
        "(lyric",
        ":number \"1\"",
        ":syllabic single",
        ":text \"Hello\"",
        "(extend",
        ":type start",
        "(forward :duration 8",
        ":voice \"2\"",
        ":staff 1",
    ] {
        assert!(result.contains(fragment), "missing {} in {}", fragment, result);
    }
}

#[test]
fn failure_messages_write_the_rest_as_debug_text() {
    assert_eq!(
        parse("\u{1}x").unwrap_err(),
        ParseError::Nom("Error { input: \"\\u{1}x\", code: Char }".to_string())
    );
    assert_eq!(
        parse("'a\n").unwrap_err(),
        ParseError::Nom("Error { input: \"'a\\n\", code: Char }".to_string())
    );
    assert_eq!(
        parse("(a \"b").unwrap_err(),
        ParseError::Nom("Error { input: \"\\\"b\", code: Char }".to_string())
    );
}

fn empty_score() -> ScorePartwise {
    ScorePartwise {
        version: Some("4.0".to_string()),
        work: None,
        movement_number: None,
        movement_title: None,
        identification: None,
        defaults: None,
        credits: vec![],
        part_list: PartList { content: vec![] },
        parts: vec![],
    }
}

#[test]
fn indentation_is_written_once_per_level() {
    let out = print_score_with_options(&empty_score(), &PrintOptions::default());
    assert_eq!(out, "(score-partwise :version \"4.0\"\n  (part-list))");
    let tabs = PrintOptions { indent: "\t".to_string(), max_width: 80, compact: false };
    let out = print_score_with_options(&small_score(), &tabs);
    assert!(out.contains("\n\t(part-list)\n\t(part :id"));
    assert!(out.contains("\n\t\t(measure"));
}

#[test]
fn compact_output_has_no_line_break_even_from_strings() {
    let mut score = small_score();
    score.version = Some("4\n0".to_string());
    score.parts[0].measures[0].number = "1\n2".to_string();
    let options = PrintOptions { indent: "  ".to_string(), max_width: 80, compact: true };
    let out = print_score_with_options(&score, &options);
    assert!(!out.contains('\n'));
    assert!(out.starts_with("(score-partwise :version \"4 0\" (part-list) (part"));
}

#[test]
fn version_is_written_as_it_is() {
    let mut score = empty_score();
    score.version = Some("4\"0".to_string());
    let out = print_score_with_options(&score, &PrintOptions::default());
    assert!(out.starts_with("(score-partwise :version \"4\"0\"\n"));
}

#[test]
fn words_true_and_false_read_as_booleans() {
    assert_eq!(parse("true").unwrap(), Sexpr::Bool(true));
    assert_eq!(parse("false").unwrap(), Sexpr::Bool(false));
    assert_eq!(parse("(a true false)").unwrap(), Sexpr::list(vec![Sexpr::symbol("a"), Sexpr::Bool(true), Sexpr::Bool(false)]));
    assert_eq!(parse("trueish").unwrap(), Sexpr::symbol("trueish"));
    assert_eq!(parse("falsey").unwrap(), Sexpr::symbol("falsey"));
    assert_eq!(parse("tru").unwrap(), Sexpr::symbol("tru"));
    assert_eq!(parse("nilly").unwrap(), Sexpr::symbol("nilly"));
    assert_eq!(parse("#t").unwrap(), Sexpr::Bool(true));
}

#[test]
fn unescaping_an_escaped_string_gives_it_back() {
    for s in ["plain", "a \"quoted\" word", "back\\slash", "line\nbreak\ttab\rreturn", ""] {
        assert_eq!(unescape_string(&escape_string(s)), s);
    }
}

#[test]
fn ascii_classification_can_be_confirmed() {
    confirm_ascii_classified();
    assert!(!fermata::sexpr::parser::is_symbol_char(' '));
    assert!(fermata::sexpr::parser::is_symbol_char('a'));
}

#[test]
fn long_multibyte_strings_convert() {
    let fingering = TechnicalElement::Fingering(Fingering { value: "é".repeat(11), ..Default::default() });
    assert_eq!(TechnicalElement::from_sexpr(&fingering.to_sexpr()).unwrap(), fingering);
    let text = to_sexpr_string(&"é".repeat(11));
    let back: String = match from_sexpr_str::<String>(&text) {
        Ok(s) => s,
        Err(_) => panic!("the text did not read back"),
    };
    assert_eq!(back, "é".repeat(11));
}
