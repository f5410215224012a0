use fermata::decimal::Decimal;
use fermata::ir::beam::Beam;
use fermata::ir::beam::BeamValue;
use fermata::ir::beam::Stem;
use fermata::ir::beam::StemValue;
use fermata::ir::common::AccidentalValue;
use fermata::ir::common::Position;
use fermata::ir::common::StartStop;
use fermata::ir::common::SymbolSize;
use fermata::ir::common::YesNo;
use fermata::ir::duration::NoteType;
use fermata::ir::duration::NoteTypeValue;
use fermata::ir::note::Accidental;
use fermata::ir::note::FullNote;
use fermata::ir::note::Grace;
use fermata::ir::note::Instrument;
use fermata::ir::note::Note;
use fermata::ir::note::NoteContent;
use fermata::ir::note::PitchRestUnpitched;
use fermata::ir::note::Rest;
use fermata::ir::note::Tie;
use fermata::ir::pitch::Pitch;
use fermata::ir::pitch::Step;
use fermata::ir::pitch::Unpitched;
use fermata::sexpr::parser::parse;
use fermata::sexpr::print::print_sexpr;
use fermata::sexpr::traits::FromSexpr;
use fermata::sexpr::traits::ToSexpr;

#[test]
fn test_rest_to_sexpr_default() {
    let rest = Rest::default();
    let sexpr = rest.to_sexpr();
    let text = print_sexpr(&sexpr);
    assert_eq!(text, "(rest)");
}

#[test]
fn test_rest_to_sexpr_whole_measure() {
    let rest = Rest {
        measure: Some(YesNo::Yes),
        display_step: None,
        display_octave: None,
    };
    let sexpr = rest.to_sexpr();
    let text = print_sexpr(&sexpr);
    assert_eq!(text, "(rest :measure yes)");
}

#[test]
fn test_rest_to_sexpr_with_display() {
    let rest = Rest {
        measure: None,
        display_step: Some(Step::B),
        display_octave: Some(4),
    };
    let sexpr = rest.to_sexpr();
    let text = print_sexpr(&sexpr);
    assert!(text.contains(":display-step B"));
    assert!(text.contains(":display-octave 4"));
}

#[test]
fn test_rest_from_sexpr_default() {
    let sexpr = parse("(rest)").unwrap();
    let rest = Rest::from_sexpr(&sexpr).unwrap();
    assert!(rest.measure.is_none());
    assert!(rest.display_step.is_none());
    assert!(rest.display_octave.is_none());
}

#[test]
fn test_rest_from_sexpr_whole_measure() {
    let sexpr = parse("(rest :measure yes)").unwrap();
    let rest = Rest::from_sexpr(&sexpr).unwrap();
    assert_eq!(rest.measure, Some(YesNo::Yes));
}

#[test]
fn test_rest_round_trip() {
    let original = Rest {
        measure: Some(YesNo::No),
        display_step: Some(Step::D),
        display_octave: Some(5),
    };
    let sexpr = original.to_sexpr();
    let parsed = Rest::from_sexpr(&sexpr).unwrap();
    assert_eq!(original, parsed);
}

#[test]
fn test_pitchrestunpitched_pitch() {
    let content = PitchRestUnpitched::Pitch(Pitch {
        step: Step::C,
        alter: None,
        octave: 4,
    });
    let sexpr = content.to_sexpr();
    let text = print_sexpr(&sexpr);
    assert!(text.starts_with("(pitch"));
}

#[test]
fn test_pitchrestunpitched_rest() {
    let content = PitchRestUnpitched::Rest(Rest::default());
    let sexpr = content.to_sexpr();
    let text = print_sexpr(&sexpr);
    assert!(text.starts_with("(rest"));
}

#[test]
fn test_pitchrestunpitched_unpitched() {
    let content = PitchRestUnpitched::Unpitched(Unpitched::default());
    let sexpr = content.to_sexpr();
    let text = print_sexpr(&sexpr);
    assert!(text.starts_with("(unpitched"));
}

#[test]
fn test_pitchrestunpitched_round_trip_pitch() {
    let original = PitchRestUnpitched::Pitch(Pitch {
        step: Step::F,
        alter: Some(Decimal::new(10, 1)),
        octave: 4,
    });
    let sexpr = original.to_sexpr();
    let parsed = PitchRestUnpitched::from_sexpr(&sexpr).unwrap();
    assert_eq!(original, parsed);
}

#[test]
fn test_pitchrestunpitched_round_trip_rest() {
    let original = PitchRestUnpitched::Rest(Rest {
        measure: Some(YesNo::Yes),
        display_step: None,
        display_octave: None,
    });
    let sexpr = original.to_sexpr();
    let parsed = PitchRestUnpitched::from_sexpr(&sexpr).unwrap();
    assert_eq!(original, parsed);
}

#[test]
fn test_fullnote_to_sexpr_simple() {
    let full_note = FullNote {
        chord: false,
        content: PitchRestUnpitched::Pitch(Pitch {
            step: Step::C,
            alter: None,
            octave: 4,
        }),
    };
    let sexpr = full_note.to_sexpr();
    let text = print_sexpr(&sexpr);
    assert!(text.contains("(full-note"));
    assert!(text.contains(":content (pitch"));
    assert!(!text.contains(":chord"));
}

#[test]
fn test_fullnote_to_sexpr_chord() {
    let full_note = FullNote {
        chord: true,
        content: PitchRestUnpitched::Pitch(Pitch {
            step: Step::E,
            alter: None,
            octave: 4,
        }),
    };
    let sexpr = full_note.to_sexpr();
    let text = print_sexpr(&sexpr);
    assert!(text.contains(":chord t"));
}

#[test]
fn test_fullnote_round_trip() {
    let original = FullNote {
        chord: true,
        content: PitchRestUnpitched::Rest(Rest::default()),
    };
    let sexpr = original.to_sexpr();
    let parsed = FullNote::from_sexpr(&sexpr).unwrap();
    assert_eq!(original, parsed);
}

#[test]
fn test_tie_to_sexpr_start() {
    let tie = Tie {
        type_: StartStop::Start,
        time_only: None,
    };
    let sexpr = tie.to_sexpr();
    let text = print_sexpr(&sexpr);
    assert_eq!(text, "(tie :type start)");
}

#[test]
fn test_tie_to_sexpr_with_time_only() {
    let tie = Tie {
        type_: StartStop::Start,
        time_only: Some("1".to_string()),
    };
    let sexpr = tie.to_sexpr();
    let text = print_sexpr(&sexpr);
    assert!(text.contains(":time-only \"1\""));
}

#[test]
fn test_tie_round_trip() {
    let original = Tie {
        type_: StartStop::Stop,
        time_only: Some("2".to_string()),
    };
    let sexpr = original.to_sexpr();
    let parsed = Tie::from_sexpr(&sexpr).unwrap();
    assert_eq!(original, parsed);
}

#[test]
fn test_grace_to_sexpr_default() {
    let grace = Grace::default();
    let sexpr = grace.to_sexpr();
    let text = print_sexpr(&sexpr);
    assert_eq!(text, "(grace)");
}

#[test]
fn test_grace_to_sexpr_with_slash() {
    let grace = Grace {
        steal_time_previous: None,
        steal_time_following: None,
        make_time: None,
        slash: Some(YesNo::Yes),
    };
    let sexpr = grace.to_sexpr();
    let text = print_sexpr(&sexpr);
    assert_eq!(text, "(grace :slash yes)");
}

#[test]
fn test_grace_to_sexpr_with_steal_time() {
    let grace = Grace {
        steal_time_previous: Some(Decimal::new(500, 1)),
        steal_time_following: Some(Decimal::new(250, 1)),
        make_time: Some(10),
        slash: None,
    };
    let sexpr = grace.to_sexpr();
    let text = print_sexpr(&sexpr);
    assert!(text.contains(":steal-time-previous 50.0"));
    assert!(text.contains(":steal-time-following 25.0"));
    assert!(text.contains(":make-time 10"));
}

#[test]
fn test_grace_round_trip() {
    let original = Grace {
        steal_time_previous: Some(Decimal::new(300, 1)),
        steal_time_following: Some(Decimal::new(200, 1)),
        make_time: Some(5),
        slash: Some(YesNo::Yes),
    };
    let sexpr = original.to_sexpr();
    let parsed = Grace::from_sexpr(&sexpr).unwrap();
    assert_eq!(original, parsed);
}

#[test]
fn test_notecontent_regular() {
    let content = NoteContent::Regular {
        full_note: FullNote {
            chord: false,
            content: PitchRestUnpitched::Pitch(Pitch {
                step: Step::C,
                alter: None,
                octave: 4,
            }),
        },
        duration: 4,
        ties: vec![],
    };
    let sexpr = content.to_sexpr();
    let text = print_sexpr(&sexpr);
    assert!(text.starts_with("(regular"));
    assert!(text.contains(":full-note"));
    assert!(text.contains(":duration 4"));
}

#[test]
fn test_notecontent_regular_with_ties() {
    let content = NoteContent::Regular {
        full_note: FullNote {
            chord: false,
            content: PitchRestUnpitched::Pitch(Pitch {
                step: Step::D,
                alter: None,
                octave: 4,
            }),
        },
        duration: 8,
        ties: vec![Tie {
            type_: StartStop::Start,
            time_only: None,
        }],
    };
    let sexpr = content.to_sexpr();
    let text = print_sexpr(&sexpr);
    assert!(text.contains(":ties"));
}

#[test]
fn test_notecontent_grace() {
    let content = NoteContent::Grace {
        grace: Grace {
            slash: Some(YesNo::Yes),
            ..Default::default()
        },
        full_note: FullNote {
            chord: false,
            content: PitchRestUnpitched::Pitch(Pitch {
                step: Step::E,
                alter: None,
                octave: 5,
            }),
        },
        ties: vec![],
    };
    let sexpr = content.to_sexpr();
    let text = print_sexpr(&sexpr);
    assert!(text.starts_with("(grace-note"));
}

#[test]
fn test_notecontent_cue() {
    let content = NoteContent::Cue {
        full_note: FullNote {
            chord: false,
            content: PitchRestUnpitched::Pitch(Pitch {
                step: Step::F,
                alter: Some(Decimal::new(10, 1)),
                octave: 4,
            }),
        },
        duration: 2,
    };
    let sexpr = content.to_sexpr();
    let text = print_sexpr(&sexpr);
    assert!(text.starts_with("(cue"));
}

#[test]
fn test_notecontent_round_trip_regular() {
    let original = NoteContent::Regular {
        full_note: FullNote {
            chord: false,
            content: PitchRestUnpitched::Pitch(Pitch {
                step: Step::G,
                alter: None,
                octave: 4,
            }),
        },
        duration: 4,
        ties: vec![
            Tie {
                type_: StartStop::Start,
                time_only: None,
            },
            Tie {
                type_: StartStop::Stop,
                time_only: None,
            },
        ],
    };
    let sexpr = original.to_sexpr();
    let parsed = NoteContent::from_sexpr(&sexpr).unwrap();
    assert_eq!(original, parsed);
}

#[test]
fn test_notecontent_round_trip_grace() {
    let original = NoteContent::Grace {
        grace: Grace {
            slash: Some(YesNo::Yes),
            steal_time_previous: Some(Decimal::new(500, 1)),
            ..Default::default()
        },
        full_note: FullNote {
            chord: false,
            content: PitchRestUnpitched::Pitch(Pitch {
                step: Step::A,
                alter: None,
                octave: 5,
            }),
        },
        ties: vec![],
    };
    let sexpr = original.to_sexpr();
    let parsed = NoteContent::from_sexpr(&sexpr).unwrap();
    assert_eq!(original, parsed);
}

#[test]
fn test_accidental_to_sexpr_simple() {
    let acc = Accidental {
        value: AccidentalValue::Sharp,
        cautionary: None,
        editorial: None,
        parentheses: None,
        bracket: None,
        size: None,
    };
    let sexpr = acc.to_sexpr();
    let text = print_sexpr(&sexpr);
    assert_eq!(text, "(accidental :value sharp)");
}

#[test]
fn test_accidental_to_sexpr_with_options() {
    let acc = Accidental {
        value: AccidentalValue::Natural,
        cautionary: Some(YesNo::Yes),
        editorial: Some(YesNo::No),
        parentheses: Some(YesNo::Yes),
        bracket: None,
        size: Some(SymbolSize::Cue),
    };
    let sexpr = acc.to_sexpr();
    let text = print_sexpr(&sexpr);
    assert!(text.contains(":cautionary yes"));
    assert!(text.contains(":editorial no"));
    assert!(text.contains(":parentheses yes"));
    assert!(text.contains(":size cue"));
}

#[test]
fn test_accidental_round_trip() {
    let original = Accidental {
        value: AccidentalValue::DoubleSharp,
        cautionary: Some(YesNo::Yes),
        editorial: Some(YesNo::No),
        parentheses: Some(YesNo::Yes),
        bracket: Some(YesNo::No),
        size: Some(SymbolSize::Full),
    };
    let sexpr = original.to_sexpr();
    let parsed = Accidental::from_sexpr(&sexpr).unwrap();
    assert_eq!(original, parsed);
}

#[test]
fn test_instrument_to_sexpr() {
    let inst = Instrument {
        id: "P1-I1".to_string(),
    };
    let sexpr = inst.to_sexpr();
    let text = print_sexpr(&sexpr);
    assert_eq!(text, "(instrument :id \"P1-I1\")");
}

#[test]
fn test_instrument_round_trip() {
    let original = Instrument {
        id: "Piano".to_string(),
    };
    let sexpr = original.to_sexpr();
    let parsed = Instrument::from_sexpr(&sexpr).unwrap();
    assert_eq!(original, parsed);
}

#[test]
fn test_note_simple_quarter() {
    let note = Note {
        position: Position::default(),
        dynamics: None,
        end_dynamics: None,
        attack: None,
        release: None,
        pizzicato: None,
        print_object: None,
        content: NoteContent::Regular {
            full_note: FullNote {
                chord: false,
                content: PitchRestUnpitched::Pitch(Pitch {
                    step: Step::C,
                    alter: None,
                    octave: 4,
                }),
            },
            duration: 1,
            ties: vec![],
        },
        instrument: vec![],
        voice: Some("1".to_string()),
        type_: Some(NoteType {
            value: NoteTypeValue::Quarter,
            size: None,
        }),
        dots: vec![],
        accidental: None,
        time_modification: None,
        stem: Some(Stem {
            value: StemValue::Up,
            default_y: None,
            color: None,
        }),
        notehead: None,
        staff: None,
        beams: vec![],
        notations: vec![],
        lyrics: vec![],
    };

    let sexpr = note.to_sexpr();
    let text = print_sexpr(&sexpr);
    assert!(text.contains("(note"));
    assert!(text.contains(":content (regular"));
    assert!(text.contains(":voice \"1\""));
    assert!(text.contains(":type (note-type :value quarter)"));
    assert!(text.contains(":stem (stem :value up)"));
}

#[test]
fn test_note_rest() {
    let note = Note {
        position: Position::default(),
        dynamics: None,
        end_dynamics: None,
        attack: None,
        release: None,
        pizzicato: None,
        print_object: None,
        content: NoteContent::Regular {
            full_note: FullNote {
                chord: false,
                content: PitchRestUnpitched::Rest(Rest::default()),
            },
            duration: 2,
            ties: vec![],
        },
        instrument: vec![],
        voice: None,
        type_: Some(NoteType {
            value: NoteTypeValue::Half,
            size: None,
        }),
        dots: vec![],
        accidental: None,
        time_modification: None,
        stem: None,
        notehead: None,
        staff: None,
        beams: vec![],
        notations: vec![],
        lyrics: vec![],
    };

    let sexpr = note.to_sexpr();
    let text = print_sexpr(&sexpr);
    assert!(text.contains("(rest)"));
}

#[test]
fn test_note_chord_tone() {
    let note = Note {
        position: Position::default(),
        dynamics: None,
        end_dynamics: None,
        attack: None,
        release: None,
        pizzicato: None,
        print_object: None,
        content: NoteContent::Regular {
            full_note: FullNote {
                chord: true,
                content: PitchRestUnpitched::Pitch(Pitch {
                    step: Step::E,
                    alter: None,
                    octave: 4,
                }),
            },
            duration: 1,
            ties: vec![],
        },
        instrument: vec![],
        voice: None,
        type_: Some(NoteType {
            value: NoteTypeValue::Quarter,
            size: None,
        }),
        dots: vec![],
        accidental: None,
        time_modification: None,
        stem: None,
        notehead: None,
        staff: None,
        beams: vec![],
        notations: vec![],
        lyrics: vec![],
    };

    let sexpr = note.to_sexpr();
    let text = print_sexpr(&sexpr);
    assert!(text.contains(":chord t"));
}

#[test]
fn test_note_with_beams() {
    let note = Note {
        position: Position::default(),
        dynamics: None,
        end_dynamics: None,
        attack: None,
        release: None,
        pizzicato: None,
        print_object: None,
        content: NoteContent::Regular {
            full_note: FullNote {
                chord: false,
                content: PitchRestUnpitched::Pitch(Pitch {
                    step: Step::G,
                    alter: None,
                    octave: 4,
                }),
            },
            duration: 1,
            ties: vec![],
        },
        instrument: vec![],
        voice: None,
        type_: Some(NoteType {
            value: NoteTypeValue::Eighth,
            size: None,
        }),
        dots: vec![],
        accidental: None,
        time_modification: None,
        stem: None,
        notehead: None,
        staff: None,
        beams: vec![Beam {
            value: BeamValue::Begin,
            number: 1,
            fan: None,
            color: None,
        }],
        notations: vec![],
        lyrics: vec![],
    };

    let sexpr = note.to_sexpr();
    let text = print_sexpr(&sexpr);
    assert!(text.contains(":beams"));
    assert!(text.contains("(beam :value begin :number 1)"));
}

#[test]
fn test_note_round_trip_simple() {
    let original = Note {
        position: Position::default(),
        dynamics: None,
        end_dynamics: None,
        attack: None,
        release: None,
        pizzicato: None,
        print_object: None,
        content: NoteContent::Regular {
            full_note: FullNote {
                chord: false,
                content: PitchRestUnpitched::Pitch(Pitch {
                    step: Step::C,
                    alter: None,
                    octave: 4,
                }),
            },
            duration: 1,
            ties: vec![],
        },
        instrument: vec![],
        voice: Some("1".to_string()),
        type_: Some(NoteType {
            value: NoteTypeValue::Quarter,
            size: None,
        }),
        dots: vec![],
        accidental: None,
        time_modification: None,
        stem: Some(Stem {
            value: StemValue::Up,
            default_y: None,
            color: None,
        }),
        notehead: None,
        staff: Some(1),
        beams: vec![],
        notations: vec![],
        lyrics: vec![],
    };

    let sexpr = original.to_sexpr();
    let parsed = Note::from_sexpr(&sexpr).unwrap();
    assert_eq!(original, parsed);
}

#[test]
fn test_note_round_trip_with_accidental() {
    let original = Note {
        position: Position::default(),
        dynamics: None,
        end_dynamics: None,
        attack: None,
        release: None,
        pizzicato: None,
        print_object: None,
        content: NoteContent::Regular {
            full_note: FullNote {
                chord: false,
                content: PitchRestUnpitched::Pitch(Pitch {
                    step: Step::F,
                    alter: Some(Decimal::new(10, 1)),
                    octave: 4,
                }),
            },
            duration: 1,
            ties: vec![],
        },
        instrument: vec![],
        voice: None,
        type_: Some(NoteType {
            value: NoteTypeValue::Quarter,
            size: None,
        }),
        dots: vec![],
        accidental: Some(Accidental {
            value: AccidentalValue::Sharp,
            cautionary: Some(YesNo::Yes),
            editorial: None,
            parentheses: None,
            bracket: None,
            size: None,
        }),
        time_modification: None,
        stem: None,
        notehead: None,
        staff: None,
        beams: vec![],
        notations: vec![],
        lyrics: vec![],
    };

    let sexpr = original.to_sexpr();
    let parsed = Note::from_sexpr(&sexpr).unwrap();
    assert_eq!(original, parsed);
}

#[test]
fn test_note_round_trip_grace() {
    let original = Note {
        position: Position::default(),
        dynamics: None,
        end_dynamics: None,
        attack: None,
        release: None,
        pizzicato: None,
        print_object: None,
        content: NoteContent::Grace {
            grace: Grace {
                slash: Some(YesNo::Yes),
                ..Default::default()
            },
            full_note: FullNote {
                chord: false,
                content: PitchRestUnpitched::Pitch(Pitch {
                    step: Step::D,
                    alter: None,
                    octave: 5,
                }),
            },
            ties: vec![],
        },
        instrument: vec![],
        voice: None,
        type_: Some(NoteType {
            value: NoteTypeValue::Eighth,
            size: None,
        }),
        dots: vec![],
        accidental: None,
        time_modification: None,
        stem: None,
        notehead: None,
        staff: None,
        beams: vec![],
        notations: vec![],
        lyrics: vec![],
    };

    let sexpr = original.to_sexpr();
    let parsed = Note::from_sexpr(&sexpr).unwrap();
    assert_eq!(original, parsed);
}

#[test]
fn test_note_round_trip_with_dynamics() {
    let original = Note {
        position: Position::default(),
        dynamics: Some(Decimal::new(800, 1)),
        end_dynamics: Some(Decimal::new(700, 1)),
        attack: Some(-10),
        release: Some(5),
        pizzicato: Some(true),
        print_object: Some(YesNo::Yes),
        content: NoteContent::Regular {
            full_note: FullNote {
                chord: false,
                content: PitchRestUnpitched::Pitch(Pitch {
                    step: Step::A,
                    alter: None,
                    octave: 4,
                }),
            },
            duration: 2,
            ties: vec![],
        },
        instrument: vec![],
        voice: None,
        type_: None,
        dots: vec![],
        accidental: None,
        time_modification: None,
        stem: None,
        notehead: None,
        staff: None,
        beams: vec![],
        notations: vec![],
        lyrics: vec![],
    };

    let sexpr = original.to_sexpr();
    let parsed = Note::from_sexpr(&sexpr).unwrap();
    assert_eq!(original, parsed);
}
