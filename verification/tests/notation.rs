use fermata::decimal::Decimal;
use fermata::ir::common::AboveBelow;
use fermata::ir::common::AccidentalValue;
use fermata::ir::common::Editorial;
use fermata::ir::common::EmptyPlacement;
use fermata::ir::common::Font;
use fermata::ir::common::FontStyle;
use fermata::ir::common::FontWeight;
use fermata::ir::common::LineType;
use fermata::ir::common::OverUnder;
use fermata::ir::common::Position;
use fermata::ir::common::PrintStyle;
use fermata::ir::common::StartStop;
use fermata::ir::common::StartStopContinue;
use fermata::ir::common::StartStopSingle;
use fermata::ir::common::UpDown;
use fermata::ir::common::WavyLine;
use fermata::ir::common::YesNo;
use fermata::ir::direction::Dynamics;
use fermata::ir::duration::NoteTypeValue;
use fermata::ir::notation::AccidentalMark;
use fermata::ir::notation::Arpeggiate;
use fermata::ir::notation::Arrow;
use fermata::ir::notation::ArrowDirection;
use fermata::ir::notation::ArrowStyle;
use fermata::ir::notation::ArticulationElement;
use fermata::ir::notation::Articulations;
use fermata::ir::notation::Bend;
use fermata::ir::notation::BendRelease;
use fermata::ir::notation::BreathMark;
use fermata::ir::notation::BreathMarkValue;
use fermata::ir::notation::Caesura;
use fermata::ir::notation::CaesuraValue;
use fermata::ir::notation::EmptyLine;
use fermata::ir::notation::EmptyTrillSound;
use fermata::ir::notation::Fermata;
use fermata::ir::notation::Fingering;
use fermata::ir::notation::Fret;
use fermata::ir::notation::Glissando;
use fermata::ir::notation::HammerPull;
use fermata::ir::notation::Handbell;
use fermata::ir::notation::HandbellValue;
use fermata::ir::notation::HarmonMute;
use fermata::ir::notation::Harmonic;
use fermata::ir::notation::HeelToe;
use fermata::ir::notation::Hole;
use fermata::ir::notation::HoleClosed;
use fermata::ir::notation::HoleClosedLocation;
use fermata::ir::notation::HoleClosedValue;
use fermata::ir::notation::LineLength;
use fermata::ir::notation::LineShape;
use fermata::ir::notation::Mordent;
use fermata::ir::notation::NonArpeggiate;
use fermata::ir::notation::NotationContent;
use fermata::ir::notation::Notations;
use fermata::ir::notation::OrnamentElement;
use fermata::ir::notation::OrnamentWithAccidentals;
use fermata::ir::notation::Ornaments;
use fermata::ir::notation::OtherArticulation;
use fermata::ir::notation::OtherNotation;
use fermata::ir::notation::OtherOrnament;
use fermata::ir::notation::OtherTechnical;
use fermata::ir::notation::Pluck;
use fermata::ir::notation::ShowTuplet;
use fermata::ir::notation::Slide;
use fermata::ir::notation::Slur;
use fermata::ir::notation::StartNote;
use fermata::ir::notation::StringNumber;
use fermata::ir::notation::StrongAccent;
use fermata::ir::notation::Tap;
use fermata::ir::notation::TapHand;
use fermata::ir::notation::Technical;
use fermata::ir::notation::TechnicalElement;
use fermata::ir::notation::Tied;
use fermata::ir::notation::TopBottom;
use fermata::ir::notation::Tremolo;
use fermata::ir::notation::TremoloType;
use fermata::ir::notation::TrillStep;
use fermata::ir::notation::Tuplet;
use fermata::ir::notation::TupletDot;
use fermata::ir::notation::TupletNumber;
use fermata::ir::notation::TupletPortion;
use fermata::ir::notation::TupletType;
use fermata::ir::notation::Turn;
use fermata::ir::notation::TwoNoteTurn;
use fermata::sexpr::ast::Sexpr;
use fermata::sexpr::print::print_sexpr;
use fermata::sexpr::traits::FromSexpr;
use fermata::sexpr::traits::ToSexpr;

#[test]
fn test_tied_round_trip() {
    let tied = Tied {
        type_: StartStopContinue::Start,
        number: Some(1),
        line_type: None,
        position: Position::default(),
        placement: Some(AboveBelow::Above),
        orientation: None,
        color: None,
    };

    let sexpr = tied.to_sexpr();
    let parsed = Tied::from_sexpr(&sexpr).unwrap();
    assert_eq!(tied.type_, parsed.type_);
    assert_eq!(tied.number, parsed.number);
}

#[test]
fn test_slur_round_trip() {
    let slur = Slur {
        type_: StartStopContinue::Start,
        number: 1,
        line_type: Some(LineType::Solid),
        position: Position::default(),
        placement: Some(AboveBelow::Above),
        orientation: Some(OverUnder::Over),
        color: None,
    };

    let sexpr = slur.to_sexpr();
    let parsed = Slur::from_sexpr(&sexpr).unwrap();
    assert_eq!(slur.number, parsed.number);
    assert_eq!(slur.placement, parsed.placement);
}

#[test]
fn test_tuplet_round_trip() {
    let tuplet = Tuplet {
        type_: StartStop::Start,
        number: Some(1),
        bracket: Some(YesNo::Yes),
        show_number: Some(ShowTuplet::Actual),
        show_type: None,
        line_shape: Some(LineShape::Curved),
        position: Position::default(),
        placement: Some(AboveBelow::Above),
        tuplet_actual: None,
        tuplet_normal: None,
    };

    let sexpr = tuplet.to_sexpr();
    let parsed = Tuplet::from_sexpr(&sexpr).unwrap();
    assert_eq!(tuplet.type_, parsed.type_);
    assert_eq!(tuplet.bracket, parsed.bracket);
}

#[test]
fn test_arpeggiate_round_trip() {
    let arp = Arpeggiate {
        number: Some(1),
        direction: Some(UpDown::Up),
        position: Position::default(),
        color: None,
    };

    let sexpr = arp.to_sexpr();
    let parsed = Arpeggiate::from_sexpr(&sexpr).unwrap();
    assert_eq!(arp.direction, parsed.direction);
}

#[test]
fn test_articulations_round_trip() {
    let art = Articulations {
        content: vec![
            ArticulationElement::Accent(EmptyPlacement::default()),
            ArticulationElement::Staccato(EmptyPlacement::default()),
        ],
    };

    let sexpr = art.to_sexpr();
    let parsed = Articulations::from_sexpr(&sexpr).unwrap();
    assert_eq!(art.content.len(), parsed.content.len());
}

#[test]
fn test_ornaments_round_trip() {
    let orn = Ornaments {
        content: vec![OrnamentWithAccidentals {
            ornament: OrnamentElement::TrillMark(EmptyTrillSound::default()),
            accidental_marks: vec![],
        }],
    };

    let sexpr = orn.to_sexpr();
    let parsed = Ornaments::from_sexpr(&sexpr).unwrap();
    assert_eq!(orn.content.len(), parsed.content.len());
}

#[test]
fn test_technical_round_trip() {
    let tech = Technical {
        content: vec![TechnicalElement::UpBow(EmptyPlacement::default())],
    };

    let sexpr = tech.to_sexpr();
    let parsed = Technical::from_sexpr(&sexpr).unwrap();
    assert_eq!(tech.content.len(), parsed.content.len());
}

#[test]
fn test_notations_round_trip() {

    let notations = Notations {
        print_object: Some(YesNo::Yes),
        content: vec![NotationContent::Fermata(Fermata::default())],
        editorial: Editorial::default(),
    };

    let sexpr = notations.to_sexpr();
    let text = print_sexpr(&sexpr);
    assert!(text.contains("notations"));

    let parsed = Notations::from_sexpr(&sexpr).unwrap();
    assert_eq!(notations.print_object, parsed.print_object);
    assert_eq!(notations.content.len(), parsed.content.len());
}

#[test]
fn test_accidental_mark_round_trip() {
    let mark = AccidentalMark {
        value: AccidentalValue::Sharp,
        placement: Some(AboveBelow::Above),
        print_style: PrintStyle::default(),
    };

    let sexpr = mark.to_sexpr();
    let parsed = AccidentalMark::from_sexpr(&sexpr).unwrap();
    assert_eq!(mark.value, parsed.value);
}

#[test]
fn test_breath_mark_round_trip() {
    let bm = BreathMark {
        value: BreathMarkValue::Comma,
        placement: Some(AboveBelow::Above),
        position: Position::default(),
    };

    let sexpr = bm.to_sexpr();
    let parsed = BreathMark::from_sexpr(&sexpr).unwrap();
    assert_eq!(bm.value, parsed.value);
}

#[test]
fn test_tremolo_round_trip() {
    let trem = Tremolo {
        value: 3,
        type_: Some(TremoloType::Single),
        placement: Some(AboveBelow::Above),
        position: Position::default(),
    };

    let sexpr = trem.to_sexpr();
    let parsed = Tremolo::from_sexpr(&sexpr).unwrap();
    assert_eq!(trem.value, parsed.value);
    assert_eq!(trem.type_, parsed.type_);
}

#[test]
fn test_fingering_round_trip() {
    let fing = Fingering {
        value: "1".to_string(),
        substitution: Some(YesNo::No),
        alternate: None,
        placement: Some(AboveBelow::Above),
        print_style: PrintStyle::default(),
    };

    let sexpr = fing.to_sexpr();
    let parsed = Fingering::from_sexpr(&sexpr).unwrap();
    assert_eq!(fing.value, parsed.value);
}

#[test]
fn test_show_tuplet_all_variants() {
    // Test all variants round-trip
    for (variant, expected_str) in [
        (ShowTuplet::Actual, "actual"),
        (ShowTuplet::Both, "both"),
        (ShowTuplet::Neither, "none"),
    ] {
        let sexpr = variant.to_sexpr();
        assert_eq!(sexpr.as_symbol(), Some(expected_str));
        let parsed = ShowTuplet::from_sexpr(&sexpr).unwrap();
        assert_eq!(variant, parsed);
    }
}

#[test]
fn test_show_tuplet_error_invalid() {
    let sexpr = Sexpr::symbol("invalid");
    assert!(ShowTuplet::from_sexpr(&sexpr).is_err());
}

#[test]
fn test_line_shape_all_variants() {
    for (variant, expected_str) in [
        (LineShape::Straight, "straight"),
        (LineShape::Curved, "curved"),
    ] {
        let sexpr = variant.to_sexpr();
        assert_eq!(sexpr.as_symbol(), Some(expected_str));
        let parsed = LineShape::from_sexpr(&sexpr).unwrap();
        assert_eq!(variant, parsed);
    }
}

#[test]
fn test_line_shape_error_invalid() {
    let sexpr = Sexpr::symbol("invalid");
    assert!(LineShape::from_sexpr(&sexpr).is_err());
}

#[test]
fn test_top_bottom_all_variants() {
    for (variant, expected_str) in [(TopBottom::Top, "top"), (TopBottom::Bottom, "bottom")] {
        let sexpr = variant.to_sexpr();
        assert_eq!(sexpr.as_symbol(), Some(expected_str));
        let parsed = TopBottom::from_sexpr(&sexpr).unwrap();
        assert_eq!(variant, parsed);
    }
}

#[test]
fn test_top_bottom_error_invalid() {
    let sexpr = Sexpr::symbol("invalid");
    assert!(TopBottom::from_sexpr(&sexpr).is_err());
}

#[test]
fn test_line_length_all_variants() {
    for (variant, expected_str) in [
        (LineLength::Short, "short"),
        (LineLength::Medium, "medium"),
        (LineLength::Long, "long"),
    ] {
        let sexpr = variant.to_sexpr();
        assert_eq!(sexpr.as_symbol(), Some(expected_str));
        let parsed = LineLength::from_sexpr(&sexpr).unwrap();
        assert_eq!(variant, parsed);
    }
}

#[test]
fn test_line_length_error_invalid() {
    let sexpr = Sexpr::symbol("invalid");
    assert!(LineLength::from_sexpr(&sexpr).is_err());
}

#[test]
fn test_breath_mark_value_all_variants() {
    for (variant, expected_str) in [
        (BreathMarkValue::Empty, "empty"),
        (BreathMarkValue::Comma, "comma"),
        (BreathMarkValue::Tick, "tick"),
        (BreathMarkValue::Upbow, "upbow"),
        (BreathMarkValue::Salzedo, "salzedo"),
    ] {
        let sexpr = variant.to_sexpr();
        assert_eq!(sexpr.as_symbol(), Some(expected_str));
        let parsed = BreathMarkValue::from_sexpr(&sexpr).unwrap();
        assert_eq!(variant, parsed);
    }
}

#[test]
fn test_breath_mark_value_error_invalid() {
    let sexpr = Sexpr::symbol("invalid");
    assert!(BreathMarkValue::from_sexpr(&sexpr).is_err());
}

#[test]
fn test_caesura_value_all_variants() {
    for (variant, expected_str) in [
        (CaesuraValue::Normal, "normal"),
        (CaesuraValue::Thick, "thick"),
        (CaesuraValue::Short, "short"),
        (CaesuraValue::Curved, "curved"),
        (CaesuraValue::Single, "single"),
    ] {
        let sexpr = variant.to_sexpr();
        assert_eq!(sexpr.as_symbol(), Some(expected_str));
        let parsed = CaesuraValue::from_sexpr(&sexpr).unwrap();
        assert_eq!(variant, parsed);
    }
}

#[test]
fn test_caesura_value_error_invalid() {
    let sexpr = Sexpr::symbol("invalid");
    assert!(CaesuraValue::from_sexpr(&sexpr).is_err());
}

#[test]
fn test_start_note_all_variants() {
    for (variant, expected_str) in [
        (StartNote::Upper, "upper"),
        (StartNote::Main, "main"),
        (StartNote::Below, "below"),
    ] {
        let sexpr = variant.to_sexpr();
        assert_eq!(sexpr.as_symbol(), Some(expected_str));
        let parsed = StartNote::from_sexpr(&sexpr).unwrap();
        assert_eq!(variant, parsed);
    }
}

#[test]
fn test_start_note_error_invalid() {
    let sexpr = Sexpr::symbol("invalid");
    assert!(StartNote::from_sexpr(&sexpr).is_err());
}

#[test]
fn test_trill_step_all_variants() {
    for (variant, expected_str) in [
        (TrillStep::Whole, "whole"),
        (TrillStep::Half, "half"),
        (TrillStep::Unison, "unison"),
    ] {
        let sexpr = variant.to_sexpr();
        assert_eq!(sexpr.as_symbol(), Some(expected_str));
        let parsed = TrillStep::from_sexpr(&sexpr).unwrap();
        assert_eq!(variant, parsed);
    }
}

#[test]
fn test_trill_step_error_invalid() {
    let sexpr = Sexpr::symbol("invalid");
    assert!(TrillStep::from_sexpr(&sexpr).is_err());
}

#[test]
fn test_two_note_turn_all_variants() {
    for (variant, expected_str) in [
        (TwoNoteTurn::Whole, "whole"),
        (TwoNoteTurn::Half, "half"),
        (TwoNoteTurn::NoTurn, "none"),
    ] {
        let sexpr = variant.to_sexpr();
        assert_eq!(sexpr.as_symbol(), Some(expected_str));
        let parsed = TwoNoteTurn::from_sexpr(&sexpr).unwrap();
        assert_eq!(variant, parsed);
    }
}

#[test]
fn test_two_note_turn_error_invalid() {
    let sexpr = Sexpr::symbol("invalid");
    assert!(TwoNoteTurn::from_sexpr(&sexpr).is_err());
}

#[test]
fn test_tremolo_type_all_variants() {
    for (variant, expected_str) in [
        (TremoloType::Start, "start"),
        (TremoloType::Stop, "stop"),
        (TremoloType::Single, "single"),
        (TremoloType::Unmeasured, "unmeasured"),
    ] {
        let sexpr = variant.to_sexpr();
        assert_eq!(sexpr.as_symbol(), Some(expected_str));
        let parsed = TremoloType::from_sexpr(&sexpr).unwrap();
        assert_eq!(variant, parsed);
    }
}

#[test]
fn test_tremolo_type_error_invalid() {
    let sexpr = Sexpr::symbol("invalid");
    assert!(TremoloType::from_sexpr(&sexpr).is_err());
}

#[test]
fn test_bend_release_all_variants() {
    for (variant, expected_str) in [(BendRelease::Early, "early"), (BendRelease::Late, "late")]
    {
        let sexpr = variant.to_sexpr();
        assert_eq!(sexpr.as_symbol(), Some(expected_str));
        let parsed = BendRelease::from_sexpr(&sexpr).unwrap();
        assert_eq!(variant, parsed);
    }
}

#[test]
fn test_bend_release_error_invalid() {
    let sexpr = Sexpr::symbol("invalid");
    assert!(BendRelease::from_sexpr(&sexpr).is_err());
}

#[test]
fn test_tap_hand_all_variants() {
    for (variant, expected_str) in [(TapHand::Left, "left"), (TapHand::Right, "right")] {
        let sexpr = variant.to_sexpr();
        assert_eq!(sexpr.as_symbol(), Some(expected_str));
        let parsed = TapHand::from_sexpr(&sexpr).unwrap();
        assert_eq!(variant, parsed);
    }
}

#[test]
fn test_tap_hand_error_invalid() {
    let sexpr = Sexpr::symbol("invalid");
    assert!(TapHand::from_sexpr(&sexpr).is_err());
}

#[test]
fn test_hole_closed_value_all_variants() {
    for (variant, expected_str) in [
        (HoleClosedValue::Yes, "yes"),
        (HoleClosedValue::No, "no"),
        (HoleClosedValue::Half, "half"),
    ] {
        let sexpr = variant.to_sexpr();
        assert_eq!(sexpr.as_symbol(), Some(expected_str));
        let parsed = HoleClosedValue::from_sexpr(&sexpr).unwrap();
        assert_eq!(variant, parsed);
    }
}

#[test]
fn test_hole_closed_value_error_invalid() {
    let sexpr = Sexpr::symbol("invalid");
    assert!(HoleClosedValue::from_sexpr(&sexpr).is_err());
}

#[test]
fn test_hole_closed_location_all_variants() {
    for (variant, expected_str) in [
        (HoleClosedLocation::Right, "right"),
        (HoleClosedLocation::Bottom, "bottom"),
        (HoleClosedLocation::Left, "left"),
        (HoleClosedLocation::Top, "top"),
    ] {
        let sexpr = variant.to_sexpr();
        assert_eq!(sexpr.as_symbol(), Some(expected_str));
        let parsed = HoleClosedLocation::from_sexpr(&sexpr).unwrap();
        assert_eq!(variant, parsed);
    }
}

#[test]
fn test_hole_closed_location_error_invalid() {
    let sexpr = Sexpr::symbol("invalid");
    assert!(HoleClosedLocation::from_sexpr(&sexpr).is_err());
}

#[test]
fn test_arrow_direction_all_variants() {
    for (variant, expected_str) in [
        (ArrowDirection::Left, "left"),
        (ArrowDirection::Up, "up"),
        (ArrowDirection::Right, "right"),
        (ArrowDirection::Down, "down"),
        (ArrowDirection::Northwest, "northwest"),
        (ArrowDirection::Northeast, "northeast"),
        (ArrowDirection::Southeast, "southeast"),
        (ArrowDirection::Southwest, "southwest"),
        (ArrowDirection::LeftRight, "left-right"),
        (ArrowDirection::UpDown, "up-down"),
        (ArrowDirection::NorthwestSoutheast, "northwest-southeast"),
        (ArrowDirection::NortheastSouthwest, "northeast-southwest"),
        (ArrowDirection::Other, "other"),
    ] {
        let sexpr = variant.to_sexpr();
        assert_eq!(sexpr.as_symbol(), Some(expected_str));
        let parsed = ArrowDirection::from_sexpr(&sexpr).unwrap();
        assert_eq!(variant, parsed);
    }
}

#[test]
fn test_arrow_direction_error_invalid() {
    let sexpr = Sexpr::symbol("invalid");
    assert!(ArrowDirection::from_sexpr(&sexpr).is_err());
}

#[test]
fn test_arrow_style_all_variants() {
    for (variant, expected_str) in [
        (ArrowStyle::Single, "single"),
        (ArrowStyle::Double, "double"),
        (ArrowStyle::Filled, "filled"),
        (ArrowStyle::Hollow, "hollow"),
        (ArrowStyle::Paired, "paired"),
        (ArrowStyle::Combined, "combined"),
        (ArrowStyle::Other, "other"),
    ] {
        let sexpr = variant.to_sexpr();
        assert_eq!(sexpr.as_symbol(), Some(expected_str));
        let parsed = ArrowStyle::from_sexpr(&sexpr).unwrap();
        assert_eq!(variant, parsed);
    }
}

#[test]
fn test_arrow_style_error_invalid() {
    let sexpr = Sexpr::symbol("invalid");
    assert!(ArrowStyle::from_sexpr(&sexpr).is_err());
}

#[test]
fn test_handbell_value_all_variants() {
    for (variant, expected_str) in [
        (HandbellValue::Belltree, "belltree"),
        (HandbellValue::Damp, "damp"),
        (HandbellValue::Echo, "echo"),
        (HandbellValue::Gyro, "gyro"),
        (HandbellValue::HandMartellato, "hand-martellato"),
        (HandbellValue::MalletLift, "mallet-lift"),
        (HandbellValue::MalletTable, "mallet-table"),
        (HandbellValue::Martellato, "martellato"),
        (HandbellValue::MartellatoLift, "martellato-lift"),
        (HandbellValue::MutedMartellato, "muted-martellato"),
        (HandbellValue::PluckLift, "pluck-lift"),
        (HandbellValue::Swing, "swing"),
    ] {
        let sexpr = variant.to_sexpr();
        assert_eq!(sexpr.as_symbol(), Some(expected_str));
        let parsed = HandbellValue::from_sexpr(&sexpr).unwrap();
        assert_eq!(variant, parsed);
    }
}

#[test]
fn test_handbell_value_error_invalid() {
    let sexpr = Sexpr::symbol("invalid");
    assert!(HandbellValue::from_sexpr(&sexpr).is_err());
}

#[test]
fn test_empty_placement_minimal() {
    let ep = EmptyPlacement::default();
    let sexpr = ep.to_sexpr();
    let parsed = EmptyPlacement::from_sexpr(&sexpr).unwrap();
    assert_eq!(ep, parsed);
}

#[test]
fn test_empty_placement_with_placement() {
    let ep = EmptyPlacement {
        placement: Some(AboveBelow::Below),
        position: Position::default(),
    };
    let sexpr = ep.to_sexpr();
    let parsed = EmptyPlacement::from_sexpr(&sexpr).unwrap();
    assert_eq!(ep.placement, parsed.placement);
}

#[test]
fn test_empty_placement_with_position() {
    let ep = EmptyPlacement {
        placement: None,
        position: Position {
            default_x: Some(Decimal::new(100, 1)),
            default_y: Some(Decimal::new(200, 1)),
            relative_x: None,
            relative_y: None,
        },
    };
    let sexpr = ep.to_sexpr();
    let parsed = EmptyPlacement::from_sexpr(&sexpr).unwrap();
    assert_eq!(ep.position.default_x, parsed.position.default_x);
    assert_eq!(ep.position.default_y, parsed.position.default_y);
}

#[test]
fn test_empty_placement_error_not_list() {
    let sexpr = Sexpr::symbol("not-a-list");
    assert!(EmptyPlacement::from_sexpr(&sexpr).is_err());
}

#[test]
fn test_tied_with_position() {
    let tied = Tied {
        type_: StartStopContinue::Stop,
        number: None,
        line_type: Some(LineType::Dashed),
        position: Position {
            default_x: Some(Decimal::new(50, 1)),
            default_y: None,
            relative_x: Some(Decimal::new(20, 1)),
            relative_y: None,
        },
        placement: None,
        orientation: Some(OverUnder::Under),
        color: Some("#FF0000".to_string()),
    };
    let sexpr = tied.to_sexpr();
    let parsed = Tied::from_sexpr(&sexpr).unwrap();
    assert_eq!(tied.type_, parsed.type_);
    assert_eq!(tied.line_type, parsed.line_type);
    assert_eq!(tied.orientation, parsed.orientation);
    assert_eq!(tied.color, parsed.color);
}

#[test]
fn test_tied_error_not_list() {
    let sexpr = Sexpr::symbol("not-a-list");
    assert!(Tied::from_sexpr(&sexpr).is_err());
}

#[test]
fn test_slur_with_position() {
    let slur = Slur {
        type_: StartStopContinue::Continue,
        number: 2,
        line_type: Some(LineType::Dotted),
        position: Position {
            default_x: None,
            default_y: Some(Decimal::new(150, 1)),
            relative_x: None,
            relative_y: Some(Decimal::new(30, 1)),
        },
        placement: Some(AboveBelow::Below),
        orientation: None,
        color: Some("#00FF00".to_string()),
    };
    let sexpr = slur.to_sexpr();
    let parsed = Slur::from_sexpr(&sexpr).unwrap();
    assert_eq!(slur.type_, parsed.type_);
    assert_eq!(slur.number, parsed.number);
    assert_eq!(slur.color, parsed.color);
}

#[test]
fn test_slur_error_not_list() {
    let sexpr = Sexpr::symbol("not-a-list");
    assert!(Slur::from_sexpr(&sexpr).is_err());
}

#[test]
fn test_glissando_round_trip() {
    let gliss = Glissando {
        type_: StartStop::Start,
        number: Some(1),
        text: Some("gliss.".to_string()),
        line_type: Some(LineType::Wavy),
        position: Position::default(),
    };
    let sexpr = gliss.to_sexpr();
    let parsed = Glissando::from_sexpr(&sexpr).unwrap();
    assert_eq!(gliss.type_, parsed.type_);
    assert_eq!(gliss.text, parsed.text);
}

#[test]
fn test_glissando_with_position() {
    let gliss = Glissando {
        type_: StartStop::Stop,
        number: None,
        text: None,
        line_type: None,
        position: Position {
            default_x: Some(Decimal::new(10, 1)),
            default_y: Some(Decimal::new(20, 1)),
            relative_x: Some(Decimal::new(30, 1)),
            relative_y: Some(Decimal::new(40, 1)),
        },
    };
    let sexpr = gliss.to_sexpr();
    let parsed = Glissando::from_sexpr(&sexpr).unwrap();
    assert_eq!(gliss.position.default_x, parsed.position.default_x);
}

#[test]
fn test_glissando_error_not_list() {
    let sexpr = Sexpr::symbol("not-a-list");
    assert!(Glissando::from_sexpr(&sexpr).is_err());
}

#[test]
fn test_slide_round_trip() {
    let slide = Slide {
        type_: StartStop::Start,
        number: Some(1),
        text: Some("slide".to_string()),
        line_type: Some(LineType::Solid),
        position: Position::default(),
    };
    let sexpr = slide.to_sexpr();
    let parsed = Slide::from_sexpr(&sexpr).unwrap();
    assert_eq!(slide.type_, parsed.type_);
    assert_eq!(slide.text, parsed.text);
}

#[test]
fn test_slide_with_position() {
    let slide = Slide {
        type_: StartStop::Stop,
        number: None,
        text: None,
        line_type: None,
        position: Position {
            default_x: Some(Decimal::new(100, 1)),
            default_y: None,
            relative_x: None,
            relative_y: Some(Decimal::new(50, 1)),
        },
    };
    let sexpr = slide.to_sexpr();
    let parsed = Slide::from_sexpr(&sexpr).unwrap();
    assert_eq!(slide.position.relative_y, parsed.position.relative_y);
}

#[test]
fn test_slide_error_not_list() {
    let sexpr = Sexpr::symbol("not-a-list");
    assert!(Slide::from_sexpr(&sexpr).is_err());
}

#[test]
fn test_tuplet_number_round_trip() {
    let tn = TupletNumber {
        value: 3,
        font: Font::default(),
        color: None,
    };
    let sexpr = tn.to_sexpr();
    let parsed = TupletNumber::from_sexpr(&sexpr).unwrap();
    assert_eq!(tn.value, parsed.value);
}

#[test]
fn test_tuplet_number_with_font() {
    let tn = TupletNumber {
        value: 5,
        font: Font {
            font_family: Some("Times".to_string()),
            font_style: Some(FontStyle::Italic),
            font_size: None,
            font_weight: None,
        },
        color: Some("#0000FF".to_string()),
    };
    let sexpr = tn.to_sexpr();
    let parsed = TupletNumber::from_sexpr(&sexpr).unwrap();
    assert_eq!(tn.value, parsed.value);
    assert_eq!(tn.color, parsed.color);
}

#[test]
fn test_tuplet_number_error_not_list() {
    let sexpr = Sexpr::symbol("not-a-list");
    assert!(TupletNumber::from_sexpr(&sexpr).is_err());
}

#[test]
fn test_tuplet_type_round_trip() {
    let tt = TupletType {
        value: NoteTypeValue::Eighth,
        font: Font::default(),
        color: None,
    };
    let sexpr = tt.to_sexpr();
    let parsed = TupletType::from_sexpr(&sexpr).unwrap();
    assert_eq!(tt.value, parsed.value);
}

#[test]
fn test_tuplet_type_error_not_list() {
    let sexpr = Sexpr::symbol("not-a-list");
    assert!(TupletType::from_sexpr(&sexpr).is_err());
}

#[test]
fn test_tuplet_dot_round_trip() {
    let td = TupletDot::default();
    let sexpr = td.to_sexpr();
    let parsed = TupletDot::from_sexpr(&sexpr).unwrap();
    assert_eq!(td, parsed);
}

#[test]
fn test_tuplet_dot_with_color() {
    let td = TupletDot {
        font: Font::default(),
        color: Some("#FF00FF".to_string()),
    };
    let sexpr = td.to_sexpr();
    let parsed = TupletDot::from_sexpr(&sexpr).unwrap();
    assert_eq!(td.color, parsed.color);
}

#[test]
fn test_tuplet_dot_with_font() {
    let td = TupletDot {
        font: Font {
            font_family: None,
            font_style: None,
            font_size: None,
            font_weight: Some(FontWeight::Bold),
        },
        color: None,
    };
    let sexpr = td.to_sexpr();
    let parsed = TupletDot::from_sexpr(&sexpr).unwrap();
    assert_eq!(td.font.font_weight, parsed.font.font_weight);
}

#[test]
fn test_tuplet_dot_error_not_list() {
    let sexpr = Sexpr::symbol("not-a-list");
    assert!(TupletDot::from_sexpr(&sexpr).is_err());
}

#[test]
fn test_tuplet_portion_empty() {
    let tp = TupletPortion {
        tuplet_number: None,
        tuplet_type: None,
        tuplet_dots: vec![],
    };
    let sexpr = tp.to_sexpr();
    let parsed = TupletPortion::from_sexpr(&sexpr).unwrap();
    assert!(parsed.tuplet_number.is_none());
    assert!(parsed.tuplet_type.is_none());
    assert!(parsed.tuplet_dots.is_empty());
}

#[test]
fn test_tuplet_portion_with_all() {
    let tp = TupletPortion {
        tuplet_number: Some(TupletNumber {
            value: 3,
            font: Font::default(),
            color: None,
        }),
        tuplet_type: Some(TupletType {
            value: NoteTypeValue::Quarter,
            font: Font::default(),
            color: None,
        }),
        tuplet_dots: vec![TupletDot::default()],
    };
    let sexpr = tp.to_sexpr();
    let parsed = TupletPortion::from_sexpr(&sexpr).unwrap();
    assert!(parsed.tuplet_number.is_some());
    assert!(parsed.tuplet_type.is_some());
    assert_eq!(1, parsed.tuplet_dots.len());
}

#[test]
fn test_tuplet_portion_error_not_list() {
    let sexpr = Sexpr::symbol("not-a-list");
    assert!(TupletPortion::from_sexpr(&sexpr).is_err());
}

#[test]
fn test_tuplet_with_portions() {
    let tuplet = Tuplet {
        type_: StartStop::Start,
        number: Some(1),
        bracket: Some(YesNo::Yes),
        show_number: Some(ShowTuplet::Both),
        show_type: Some(ShowTuplet::Actual),
        line_shape: Some(LineShape::Straight),
        position: Position {
            default_x: Some(Decimal::new(50, 1)),
            default_y: Some(Decimal::new(100, 1)),
            relative_x: None,
            relative_y: None,
        },
        placement: Some(AboveBelow::Above),
        tuplet_actual: Some(TupletPortion {
            tuplet_number: Some(TupletNumber {
                value: 3,
                font: Font::default(),
                color: None,
            }),
            tuplet_type: Some(TupletType {
                value: NoteTypeValue::Eighth,
                font: Font::default(),
                color: None,
            }),
            tuplet_dots: vec![],
        }),
        tuplet_normal: Some(TupletPortion {
            tuplet_number: Some(TupletNumber {
                value: 2,
                font: Font::default(),
                color: None,
            }),
            tuplet_type: None,
            tuplet_dots: vec![],
        }),
    };
    let sexpr = tuplet.to_sexpr();
    let parsed = Tuplet::from_sexpr(&sexpr).unwrap();
    assert_eq!(tuplet.type_, parsed.type_);
    assert!(parsed.tuplet_actual.is_some());
    assert!(parsed.tuplet_normal.is_some());
}

#[test]
fn test_tuplet_error_not_list() {
    let sexpr = Sexpr::symbol("not-a-list");
    assert!(Tuplet::from_sexpr(&sexpr).is_err());
}

#[test]
fn test_arpeggiate_with_position() {
    let arp = Arpeggiate {
        number: Some(2),
        direction: Some(UpDown::Down),
        position: Position {
            default_x: Some(Decimal::new(10, 1)),
            default_y: Some(Decimal::new(20, 1)),
            relative_x: Some(Decimal::new(30, 1)),
            relative_y: Some(Decimal::new(40, 1)),
        },
        color: Some("#123456".to_string()),
    };
    let sexpr = arp.to_sexpr();
    let parsed = Arpeggiate::from_sexpr(&sexpr).unwrap();
    assert_eq!(arp.number, parsed.number);
    assert_eq!(arp.direction, parsed.direction);
    assert_eq!(arp.color, parsed.color);
}

#[test]
fn test_arpeggiate_error_not_list() {
    let sexpr = Sexpr::symbol("not-a-list");
    assert!(Arpeggiate::from_sexpr(&sexpr).is_err());
}

#[test]
fn test_non_arpeggiate_round_trip() {
    let na = NonArpeggiate {
        type_: TopBottom::Bottom,
        number: Some(1),
        position: Position::default(),
        color: None,
    };
    let sexpr = na.to_sexpr();
    let parsed = NonArpeggiate::from_sexpr(&sexpr).unwrap();
    assert_eq!(na.type_, parsed.type_);
    assert_eq!(na.number, parsed.number);
}

#[test]
fn test_non_arpeggiate_with_position() {
    let na = NonArpeggiate {
        type_: TopBottom::Top,
        number: None,
        position: Position {
            default_x: Some(Decimal::new(50, 1)),
            default_y: None,
            relative_x: None,
            relative_y: Some(Decimal::new(100, 1)),
        },
        color: Some("#AABBCC".to_string()),
    };
    let sexpr = na.to_sexpr();
    let parsed = NonArpeggiate::from_sexpr(&sexpr).unwrap();
    assert_eq!(na.position.default_x, parsed.position.default_x);
    assert_eq!(na.color, parsed.color);
}

#[test]
fn test_non_arpeggiate_error_not_list() {
    let sexpr = Sexpr::symbol("not-a-list");
    assert!(NonArpeggiate::from_sexpr(&sexpr).is_err());
}

#[test]
fn test_accidental_mark_with_position() {
    let am = AccidentalMark {
        value: AccidentalValue::Flat,
        placement: Some(AboveBelow::Below),
        print_style: PrintStyle {
            position: Position {
                default_x: Some(Decimal::new(10, 1)),
                default_y: Some(Decimal::new(20, 1)),
                relative_x: None,
                relative_y: None,
            },
            font: Default::default(),
            color: Some("#FFFF00".to_string()),
        },
    };
    let sexpr = am.to_sexpr();
    let parsed = AccidentalMark::from_sexpr(&sexpr).unwrap();
    assert_eq!(am.value, parsed.value);
    assert_eq!(am.placement, parsed.placement);
    assert_eq!(am.print_style.color, parsed.print_style.color);
}

#[test]
fn test_accidental_mark_error_not_list() {
    let sexpr = Sexpr::symbol("not-a-list");
    assert!(AccidentalMark::from_sexpr(&sexpr).is_err());
}

#[test]
fn test_other_notation_round_trip() {
    let on = OtherNotation {
        value: "custom".to_string(),
        type_: StartStopSingle::Single,
        number: Some(1),
        print_object: Some(YesNo::Yes),
        print_style: PrintStyle::default(),
        placement: Some(AboveBelow::Above),
    };
    let sexpr = on.to_sexpr();
    let parsed = OtherNotation::from_sexpr(&sexpr).unwrap();
    assert_eq!(on.value, parsed.value);
    assert_eq!(on.type_, parsed.type_);
}

#[test]
fn test_other_notation_with_position_color() {
    let on = OtherNotation {
        value: "test".to_string(),
        type_: StartStopSingle::Start,
        number: None,
        print_object: None,
        print_style: PrintStyle {
            position: Position {
                default_x: Some(Decimal::new(100, 1)),
                default_y: Some(Decimal::new(200, 1)),
                relative_x: None,
                relative_y: None,
            },
            font: Default::default(),
            color: Some("#112233".to_string()),
        },
        placement: None,
    };
    let sexpr = on.to_sexpr();
    let parsed = OtherNotation::from_sexpr(&sexpr).unwrap();
    assert_eq!(on.print_style.color, parsed.print_style.color);
}

#[test]
fn test_other_notation_error_not_list() {
    let sexpr = Sexpr::symbol("not-a-list");
    assert!(OtherNotation::from_sexpr(&sexpr).is_err());
}

#[test]
fn test_strong_accent_round_trip() {
    let sa = StrongAccent {
        type_: Some(UpDown::Up),
        placement: Some(AboveBelow::Above),
        position: Position::default(),
    };
    let sexpr = sa.to_sexpr();
    let parsed = StrongAccent::from_sexpr(&sexpr).unwrap();
    assert_eq!(sa.type_, parsed.type_);
    assert_eq!(sa.placement, parsed.placement);
}

#[test]
fn test_strong_accent_with_position() {
    let sa = StrongAccent {
        type_: Some(UpDown::Down),
        placement: None,
        position: Position {
            default_x: Some(Decimal::new(50, 1)),
            default_y: Some(Decimal::new(100, 1)),
            relative_x: Some(Decimal::new(10, 1)),
            relative_y: Some(Decimal::new(20, 1)),
        },
    };
    let sexpr = sa.to_sexpr();
    let parsed = StrongAccent::from_sexpr(&sexpr).unwrap();
    assert_eq!(sa.position.default_x, parsed.position.default_x);
}

#[test]
fn test_strong_accent_error_not_list() {
    let sexpr = Sexpr::symbol("not-a-list");
    assert!(StrongAccent::from_sexpr(&sexpr).is_err());
}

#[test]
fn test_empty_line_round_trip() {
    let el = EmptyLine {
        line_shape: Some(LineShape::Curved),
        line_type: Some(LineType::Dashed),
        line_length: Some(LineLength::Medium),
        placement: Some(AboveBelow::Below),
        position: Position::default(),
    };
    let sexpr = el.to_sexpr();
    let parsed = EmptyLine::from_sexpr(&sexpr).unwrap();
    assert_eq!(el.line_shape, parsed.line_shape);
    assert_eq!(el.line_type, parsed.line_type);
    assert_eq!(el.line_length, parsed.line_length);
}

#[test]
fn test_empty_line_with_position() {
    let el = EmptyLine {
        line_shape: None,
        line_type: None,
        line_length: None,
        placement: None,
        position: Position {
            default_x: Some(Decimal::new(10, 1)),
            default_y: None,
            relative_x: None,
            relative_y: Some(Decimal::new(20, 1)),
        },
    };
    let sexpr = el.to_sexpr();
    let parsed = EmptyLine::from_sexpr(&sexpr).unwrap();
    assert_eq!(el.position.default_x, parsed.position.default_x);
}

#[test]
fn test_empty_line_error_not_list() {
    let sexpr = Sexpr::symbol("not-a-list");
    assert!(EmptyLine::from_sexpr(&sexpr).is_err());
}

#[test]
fn test_breath_mark_all_values() {
    for value in [
        BreathMarkValue::Empty,
        BreathMarkValue::Comma,
        BreathMarkValue::Tick,
        BreathMarkValue::Upbow,
        BreathMarkValue::Salzedo,
    ] {
        let bm = BreathMark {
            value,
            placement: Some(AboveBelow::Above),
            position: Position::default(),
        };
        let sexpr = bm.to_sexpr();
        let parsed = BreathMark::from_sexpr(&sexpr).unwrap();
        assert_eq!(bm.value, parsed.value);
    }
}

#[test]
fn test_breath_mark_with_position() {
    let bm = BreathMark {
        value: BreathMarkValue::Tick,
        placement: None,
        position: Position {
            default_x: Some(Decimal::new(50, 1)),
            default_y: Some(Decimal::new(100, 1)),
            relative_x: None,
            relative_y: None,
        },
    };
    let sexpr = bm.to_sexpr();
    let parsed = BreathMark::from_sexpr(&sexpr).unwrap();
    assert_eq!(bm.position.default_x, parsed.position.default_x);
}

#[test]
fn test_breath_mark_error_not_list() {
    let sexpr = Sexpr::symbol("not-a-list");
    assert!(BreathMark::from_sexpr(&sexpr).is_err());
}

#[test]
fn test_caesura_round_trip() {
    let c = Caesura {
        value: CaesuraValue::Thick,
        placement: Some(AboveBelow::Above),
        position: Position::default(),
    };
    let sexpr = c.to_sexpr();
    let parsed = Caesura::from_sexpr(&sexpr).unwrap();
    assert_eq!(c.value, parsed.value);
    assert_eq!(c.placement, parsed.placement);
}

#[test]
fn test_caesura_with_position() {
    let c = Caesura {
        value: CaesuraValue::Curved,
        placement: None,
        position: Position {
            default_x: Some(Decimal::new(10, 1)),
            default_y: Some(Decimal::new(20, 1)),
            relative_x: Some(Decimal::new(30, 1)),
            relative_y: Some(Decimal::new(40, 1)),
        },
    };
    let sexpr = c.to_sexpr();
    let parsed = Caesura::from_sexpr(&sexpr).unwrap();
    assert_eq!(c.position.default_x, parsed.position.default_x);
}

#[test]
fn test_caesura_error_not_list() {
    let sexpr = Sexpr::symbol("not-a-list");
    assert!(Caesura::from_sexpr(&sexpr).is_err());
}

#[test]
fn test_other_articulation_round_trip() {
    let oa = OtherArticulation {
        value: "custom-articulation".to_string(),
        placement: Some(AboveBelow::Below),
        print_style: PrintStyle::default(),
    };
    let sexpr = oa.to_sexpr();
    let parsed = OtherArticulation::from_sexpr(&sexpr).unwrap();
    assert_eq!(oa.value, parsed.value);
    assert_eq!(oa.placement, parsed.placement);
}

#[test]
fn test_other_articulation_with_position_color() {
    let oa = OtherArticulation {
        value: "test".to_string(),
        placement: None,
        print_style: PrintStyle {
            position: Position {
                default_x: Some(Decimal::new(50, 1)),
                default_y: Some(Decimal::new(100, 1)),
                relative_x: None,
                relative_y: None,
            },
            font: Default::default(),
            color: Some("#ABCDEF".to_string()),
        },
    };
    let sexpr = oa.to_sexpr();
    let parsed = OtherArticulation::from_sexpr(&sexpr).unwrap();
    assert_eq!(oa.print_style.color, parsed.print_style.color);
}

#[test]
fn test_other_articulation_error_not_list() {
    let sexpr = Sexpr::symbol("not-a-list");
    assert!(OtherArticulation::from_sexpr(&sexpr).is_err());
}

#[test]
fn test_articulation_element_accent() {
    let ae = ArticulationElement::Accent(EmptyPlacement::default());
    let sexpr = ae.to_sexpr();
    let parsed = ArticulationElement::from_sexpr(&sexpr).unwrap();
    matches!(parsed, ArticulationElement::Accent(_));
}

#[test]
fn test_articulation_element_strong_accent() {
    let ae = ArticulationElement::StrongAccent(StrongAccent::default());
    let sexpr = ae.to_sexpr();
    let parsed = ArticulationElement::from_sexpr(&sexpr).unwrap();
    matches!(parsed, ArticulationElement::StrongAccent(_));
}

#[test]
fn test_articulation_element_staccato() {
    let ae = ArticulationElement::Staccato(EmptyPlacement::default());
    let sexpr = ae.to_sexpr();
    let parsed = ArticulationElement::from_sexpr(&sexpr).unwrap();
    matches!(parsed, ArticulationElement::Staccato(_));
}

#[test]
fn test_articulation_element_tenuto() {
    let ae = ArticulationElement::Tenuto(EmptyPlacement::default());
    let sexpr = ae.to_sexpr();
    let parsed = ArticulationElement::from_sexpr(&sexpr).unwrap();
    matches!(parsed, ArticulationElement::Tenuto(_));
}

#[test]
fn test_articulation_element_detached_legato() {
    let ae = ArticulationElement::DetachedLegato(EmptyPlacement::default());
    let sexpr = ae.to_sexpr();
    let parsed = ArticulationElement::from_sexpr(&sexpr).unwrap();
    matches!(parsed, ArticulationElement::DetachedLegato(_));
}

#[test]
fn test_articulation_element_staccatissimo() {
    let ae = ArticulationElement::Staccatissimo(EmptyPlacement::default());
    let sexpr = ae.to_sexpr();
    let parsed = ArticulationElement::from_sexpr(&sexpr).unwrap();
    matches!(parsed, ArticulationElement::Staccatissimo(_));
}

#[test]
fn test_articulation_element_spiccato() {
    let ae = ArticulationElement::Spiccato(EmptyPlacement::default());
    let sexpr = ae.to_sexpr();
    let parsed = ArticulationElement::from_sexpr(&sexpr).unwrap();
    matches!(parsed, ArticulationElement::Spiccato(_));
}

#[test]
fn test_articulation_element_scoop() {
    let ae = ArticulationElement::Scoop(EmptyLine::default());
    let sexpr = ae.to_sexpr();
    let parsed = ArticulationElement::from_sexpr(&sexpr).unwrap();
    matches!(parsed, ArticulationElement::Scoop(_));
}

#[test]
fn test_articulation_element_plop() {
    let ae = ArticulationElement::Plop(EmptyLine::default());
    let sexpr = ae.to_sexpr();
    let parsed = ArticulationElement::from_sexpr(&sexpr).unwrap();
    matches!(parsed, ArticulationElement::Plop(_));
}

#[test]
fn test_articulation_element_doit() {
    let ae = ArticulationElement::Doit(EmptyLine::default());
    let sexpr = ae.to_sexpr();
    let parsed = ArticulationElement::from_sexpr(&sexpr).unwrap();
    matches!(parsed, ArticulationElement::Doit(_));
}

#[test]
fn test_articulation_element_falloff() {
    let ae = ArticulationElement::Falloff(EmptyLine::default());
    let sexpr = ae.to_sexpr();
    let parsed = ArticulationElement::from_sexpr(&sexpr).unwrap();
    matches!(parsed, ArticulationElement::Falloff(_));
}

#[test]
fn test_articulation_element_breath_mark() {
    let ae = ArticulationElement::BreathMark(BreathMark {
        value: BreathMarkValue::Comma,
        placement: None,
        position: Position::default(),
    });
    let sexpr = ae.to_sexpr();
    let parsed = ArticulationElement::from_sexpr(&sexpr).unwrap();
    matches!(parsed, ArticulationElement::BreathMark(_));
}

#[test]
fn test_articulation_element_caesura() {
    let ae = ArticulationElement::Caesura(Caesura {
        value: CaesuraValue::Normal,
        placement: None,
        position: Position::default(),
    });
    let sexpr = ae.to_sexpr();
    let parsed = ArticulationElement::from_sexpr(&sexpr).unwrap();
    matches!(parsed, ArticulationElement::Caesura(_));
}

#[test]
fn test_articulation_element_stress() {
    let ae = ArticulationElement::Stress(EmptyPlacement::default());
    let sexpr = ae.to_sexpr();
    let parsed = ArticulationElement::from_sexpr(&sexpr).unwrap();
    matches!(parsed, ArticulationElement::Stress(_));
}

#[test]
fn test_articulation_element_unstress() {
    let ae = ArticulationElement::Unstress(EmptyPlacement::default());
    let sexpr = ae.to_sexpr();
    let parsed = ArticulationElement::from_sexpr(&sexpr).unwrap();
    matches!(parsed, ArticulationElement::Unstress(_));
}

#[test]
fn test_articulation_element_soft_accent() {
    let ae = ArticulationElement::SoftAccent(EmptyPlacement::default());
    let sexpr = ae.to_sexpr();
    let parsed = ArticulationElement::from_sexpr(&sexpr).unwrap();
    matches!(parsed, ArticulationElement::SoftAccent(_));
}

#[test]
fn test_articulation_element_other() {
    let ae = ArticulationElement::OtherArticulation(OtherArticulation {
        value: "custom".to_string(),
        placement: None,
        print_style: PrintStyle::default(),
    });
    let sexpr = ae.to_sexpr();
    let parsed = ArticulationElement::from_sexpr(&sexpr).unwrap();
    matches!(parsed, ArticulationElement::OtherArticulation(_));
}

#[test]
fn test_articulation_element_error_not_list() {
    let sexpr = Sexpr::symbol("not-a-list");
    assert!(ArticulationElement::from_sexpr(&sexpr).is_err());
}

#[test]
fn test_articulation_element_error_unknown_variant() {
    let sexpr = Sexpr::list(vec![Sexpr::symbol("unknown-articulation")]);
    assert!(ArticulationElement::from_sexpr(&sexpr).is_err());
}

#[test]
fn test_articulations_empty() {
    let art = Articulations { content: vec![] };
    let sexpr = art.to_sexpr();
    let parsed = Articulations::from_sexpr(&sexpr).unwrap();
    assert!(parsed.content.is_empty());
}

#[test]
fn test_articulations_multiple() {
    let art = Articulations {
        content: vec![
            ArticulationElement::Accent(EmptyPlacement::default()),
            ArticulationElement::Staccato(EmptyPlacement::default()),
            ArticulationElement::Tenuto(EmptyPlacement::default()),
        ],
    };
    let sexpr = art.to_sexpr();
    let parsed = Articulations::from_sexpr(&sexpr).unwrap();
    assert_eq!(3, parsed.content.len());
}

#[test]
fn test_articulations_error_not_list() {
    let sexpr = Sexpr::symbol("not-a-list");
    assert!(Articulations::from_sexpr(&sexpr).is_err());
}

#[test]
fn test_empty_trill_sound_minimal() {
    let ets = EmptyTrillSound::default();
    let sexpr = ets.to_sexpr();
    let parsed = EmptyTrillSound::from_sexpr(&sexpr).unwrap();
    assert_eq!(ets, parsed);
}

#[test]
fn test_empty_trill_sound_full() {
    let ets = EmptyTrillSound {
        placement: Some(AboveBelow::Above),
        position: Position {
            default_x: Some(Decimal::new(10, 1)),
            default_y: Some(Decimal::new(20, 1)),
            relative_x: None,
            relative_y: None,
        },
        start_note: Some(StartNote::Upper),
        trill_step: Some(TrillStep::Whole),
        two_note_turn: Some(TwoNoteTurn::Half),
        accelerate: Some(YesNo::Yes),
        beats: Some(Decimal::new(40, 1)),
        second_beat: Some(Decimal::new(250, 1)),
        last_beat: Some(Decimal::new(750, 1)),
    };
    let sexpr = ets.to_sexpr();
    let parsed = EmptyTrillSound::from_sexpr(&sexpr).unwrap();
    assert_eq!(ets.start_note, parsed.start_note);
    assert_eq!(ets.trill_step, parsed.trill_step);
    assert_eq!(ets.beats, parsed.beats);
}

#[test]
fn test_empty_trill_sound_error_not_list() {
    let sexpr = Sexpr::symbol("not-a-list");
    assert!(EmptyTrillSound::from_sexpr(&sexpr).is_err());
}

#[test]
fn test_turn_minimal() {
    let turn = Turn::default();
    let sexpr = turn.to_sexpr();
    let parsed = Turn::from_sexpr(&sexpr).unwrap();
    assert_eq!(turn, parsed);
}

#[test]
fn test_turn_full() {
    let turn = Turn {
        slash: Some(YesNo::Yes),
        placement: Some(AboveBelow::Below),
        position: Position {
            default_x: Some(Decimal::new(50, 1)),
            default_y: Some(Decimal::new(100, 1)),
            relative_x: Some(Decimal::new(10, 1)),
            relative_y: Some(Decimal::new(20, 1)),
        },
        start_note: Some(StartNote::Main),
        trill_step: Some(TrillStep::Half),
        two_note_turn: Some(TwoNoteTurn::Whole),
        accelerate: Some(YesNo::No),
        beats: Some(Decimal::new(20, 1)),
        second_beat: Some(Decimal::new(330, 1)),
        last_beat: Some(Decimal::new(660, 1)),
    };
    let sexpr = turn.to_sexpr();
    let parsed = Turn::from_sexpr(&sexpr).unwrap();
    assert_eq!(turn.slash, parsed.slash);
    assert_eq!(turn.start_note, parsed.start_note);
}

#[test]
fn test_turn_error_not_list() {
    let sexpr = Sexpr::symbol("not-a-list");
    assert!(Turn::from_sexpr(&sexpr).is_err());
}

#[test]
fn test_mordent_minimal() {
    let mordent = Mordent::default();
    let sexpr = mordent.to_sexpr();
    let parsed = Mordent::from_sexpr(&sexpr).unwrap();
    assert_eq!(mordent, parsed);
}

#[test]
fn test_mordent_full() {
    let mordent = Mordent {
        long: Some(YesNo::Yes),
        approach: Some(AboveBelow::Above),
        departure: Some(AboveBelow::Below),
        placement: Some(AboveBelow::Above),
        position: Position {
            default_x: Some(Decimal::new(10, 1)),
            default_y: Some(Decimal::new(20, 1)),
            relative_x: Some(Decimal::new(30, 1)),
            relative_y: Some(Decimal::new(40, 1)),
        },
        start_note: Some(StartNote::Below),
        trill_step: Some(TrillStep::Unison),
        two_note_turn: Some(TwoNoteTurn::NoTurn),
        accelerate: Some(YesNo::Yes),
        beats: Some(Decimal::new(30, 1)),
        second_beat: Some(Decimal::new(500, 1)),
        last_beat: Some(Decimal::new(500, 1)),
    };
    let sexpr = mordent.to_sexpr();
    let parsed = Mordent::from_sexpr(&sexpr).unwrap();
    assert_eq!(mordent.long, parsed.long);
    assert_eq!(mordent.approach, parsed.approach);
    assert_eq!(mordent.departure, parsed.departure);
}

#[test]
fn test_mordent_error_not_list() {
    let sexpr = Sexpr::symbol("not-a-list");
    assert!(Mordent::from_sexpr(&sexpr).is_err());
}

#[test]
fn test_tremolo_minimal() {
    let trem = Tremolo {
        value: 1,
        type_: None,
        placement: None,
        position: Position::default(),
    };
    let sexpr = trem.to_sexpr();
    let parsed = Tremolo::from_sexpr(&sexpr).unwrap();
    assert_eq!(trem.value, parsed.value);
}

#[test]
fn test_tremolo_with_position() {
    let trem = Tremolo {
        value: 2,
        type_: Some(TremoloType::Start),
        placement: Some(AboveBelow::Below),
        position: Position {
            default_x: Some(Decimal::new(50, 1)),
            default_y: None,
            relative_x: None,
            relative_y: Some(Decimal::new(100, 1)),
        },
    };
    let sexpr = trem.to_sexpr();
    let parsed = Tremolo::from_sexpr(&sexpr).unwrap();
    assert_eq!(trem.position.default_x, parsed.position.default_x);
}

#[test]
fn test_tremolo_error_not_list() {
    let sexpr = Sexpr::symbol("not-a-list");
    assert!(Tremolo::from_sexpr(&sexpr).is_err());
}

#[test]
fn test_other_ornament_round_trip() {
    let oo = OtherOrnament {
        value: "custom-ornament".to_string(),
        placement: Some(AboveBelow::Above),
        print_style: PrintStyle::default(),
    };
    let sexpr = oo.to_sexpr();
    let parsed = OtherOrnament::from_sexpr(&sexpr).unwrap();
    assert_eq!(oo.value, parsed.value);
    assert_eq!(oo.placement, parsed.placement);
}

#[test]
fn test_other_ornament_with_position_color() {
    let oo = OtherOrnament {
        value: "test".to_string(),
        placement: None,
        print_style: PrintStyle {
            position: Position {
                default_x: Some(Decimal::new(10, 1)),
                default_y: Some(Decimal::new(20, 1)),
                relative_x: None,
                relative_y: None,
            },
            font: Default::default(),
            color: Some("#FEDCBA".to_string()),
        },
    };
    let sexpr = oo.to_sexpr();
    let parsed = OtherOrnament::from_sexpr(&sexpr).unwrap();
    assert_eq!(oo.print_style.color, parsed.print_style.color);
}

#[test]
fn test_other_ornament_error_not_list() {
    let sexpr = Sexpr::symbol("not-a-list");
    assert!(OtherOrnament::from_sexpr(&sexpr).is_err());
}

#[test]
fn test_ornament_element_trill_mark() {
    let oe = OrnamentElement::TrillMark(EmptyTrillSound::default());
    let sexpr = oe.to_sexpr();
    let parsed = OrnamentElement::from_sexpr(&sexpr).unwrap();
    matches!(parsed, OrnamentElement::TrillMark(_));
}

#[test]
fn test_ornament_element_turn() {
    let oe = OrnamentElement::Turn(Turn::default());
    let sexpr = oe.to_sexpr();
    let parsed = OrnamentElement::from_sexpr(&sexpr).unwrap();
    matches!(parsed, OrnamentElement::Turn(_));
}

#[test]
fn test_ornament_element_delayed_turn() {
    let oe = OrnamentElement::DelayedTurn(Turn::default());
    let sexpr = oe.to_sexpr();
    let parsed = OrnamentElement::from_sexpr(&sexpr).unwrap();
    matches!(parsed, OrnamentElement::DelayedTurn(_));
}

#[test]
fn test_ornament_element_inverted_turn() {
    let oe = OrnamentElement::InvertedTurn(Turn::default());
    let sexpr = oe.to_sexpr();
    let parsed = OrnamentElement::from_sexpr(&sexpr).unwrap();
    matches!(parsed, OrnamentElement::InvertedTurn(_));
}

#[test]
fn test_ornament_element_delayed_inverted_turn() {
    let oe = OrnamentElement::DelayedInvertedTurn(Turn::default());
    let sexpr = oe.to_sexpr();
    let parsed = OrnamentElement::from_sexpr(&sexpr).unwrap();
    matches!(parsed, OrnamentElement::DelayedInvertedTurn(_));
}

#[test]
fn test_ornament_element_vertical_turn() {
    let oe = OrnamentElement::VerticalTurn(EmptyTrillSound::default());
    let sexpr = oe.to_sexpr();
    let parsed = OrnamentElement::from_sexpr(&sexpr).unwrap();
    matches!(parsed, OrnamentElement::VerticalTurn(_));
}

#[test]
fn test_ornament_element_inverted_vertical_turn() {
    let oe = OrnamentElement::InvertedVerticalTurn(EmptyTrillSound::default());
    let sexpr = oe.to_sexpr();
    let parsed = OrnamentElement::from_sexpr(&sexpr).unwrap();
    matches!(parsed, OrnamentElement::InvertedVerticalTurn(_));
}

#[test]
fn test_ornament_element_shake() {
    let oe = OrnamentElement::Shake(EmptyTrillSound::default());
    let sexpr = oe.to_sexpr();
    let parsed = OrnamentElement::from_sexpr(&sexpr).unwrap();
    matches!(parsed, OrnamentElement::Shake(_));
}

#[test]
fn test_ornament_element_wavy_line() {
    let oe = OrnamentElement::WavyLine(WavyLine {
        type_: StartStopContinue::Start,
        number: Some(1),
        position: Position::default(),
    });
    let sexpr = oe.to_sexpr();
    let parsed = OrnamentElement::from_sexpr(&sexpr).unwrap();
    matches!(parsed, OrnamentElement::WavyLine(_));
}

#[test]
fn test_ornament_element_mordent() {
    let oe = OrnamentElement::Mordent(Mordent::default());
    let sexpr = oe.to_sexpr();
    let parsed = OrnamentElement::from_sexpr(&sexpr).unwrap();
    matches!(parsed, OrnamentElement::Mordent(_));
}

#[test]
fn test_ornament_element_inverted_mordent() {
    let oe = OrnamentElement::InvertedMordent(Mordent::default());
    let sexpr = oe.to_sexpr();
    let parsed = OrnamentElement::from_sexpr(&sexpr).unwrap();
    matches!(parsed, OrnamentElement::InvertedMordent(_));
}

#[test]
fn test_ornament_element_schleifer() {
    let oe = OrnamentElement::Schleifer(EmptyPlacement::default());
    let sexpr = oe.to_sexpr();
    let parsed = OrnamentElement::from_sexpr(&sexpr).unwrap();
    matches!(parsed, OrnamentElement::Schleifer(_));
}

#[test]
fn test_ornament_element_tremolo() {
    let oe = OrnamentElement::Tremolo(Tremolo {
        value: 3,
        type_: Some(TremoloType::Single),
        placement: None,
        position: Position::default(),
    });
    let sexpr = oe.to_sexpr();
    let parsed = OrnamentElement::from_sexpr(&sexpr).unwrap();
    matches!(parsed, OrnamentElement::Tremolo(_));
}

#[test]
fn test_ornament_element_haydn() {
    let oe = OrnamentElement::Haydn(EmptyTrillSound::default());
    let sexpr = oe.to_sexpr();
    let parsed = OrnamentElement::from_sexpr(&sexpr).unwrap();
    matches!(parsed, OrnamentElement::Haydn(_));
}

#[test]
fn test_ornament_element_other() {
    let oe = OrnamentElement::OtherOrnament(OtherOrnament {
        value: "custom".to_string(),
        placement: None,
        print_style: PrintStyle::default(),
    });
    let sexpr = oe.to_sexpr();
    let parsed = OrnamentElement::from_sexpr(&sexpr).unwrap();
    matches!(parsed, OrnamentElement::OtherOrnament(_));
}

#[test]
fn test_ornament_element_error_not_list() {
    let sexpr = Sexpr::symbol("not-a-list");
    assert!(OrnamentElement::from_sexpr(&sexpr).is_err());
}

#[test]
fn test_ornament_element_error_unknown_variant() {
    let sexpr = Sexpr::list(vec![Sexpr::symbol("unknown-ornament")]);
    assert!(OrnamentElement::from_sexpr(&sexpr).is_err());
}

#[test]
fn test_ornament_with_accidentals_no_marks() {
    let owa = OrnamentWithAccidentals {
        ornament: OrnamentElement::TrillMark(EmptyTrillSound::default()),
        accidental_marks: vec![],
    };
    let sexpr = owa.to_sexpr();
    let parsed = OrnamentWithAccidentals::from_sexpr(&sexpr).unwrap();
    assert!(parsed.accidental_marks.is_empty());
}

#[test]
fn test_ornament_with_accidentals_with_marks() {
    let owa = OrnamentWithAccidentals {
        ornament: OrnamentElement::Turn(Turn::default()),
        accidental_marks: vec![
            AccidentalMark {
                value: AccidentalValue::Sharp,
                placement: Some(AboveBelow::Above),
                print_style: PrintStyle::default(),
            },
            AccidentalMark {
                value: AccidentalValue::Flat,
                placement: Some(AboveBelow::Below),
                print_style: PrintStyle::default(),
            },
        ],
    };
    let sexpr = owa.to_sexpr();
    let parsed = OrnamentWithAccidentals::from_sexpr(&sexpr).unwrap();
    assert_eq!(2, parsed.accidental_marks.len());
}

#[test]
fn test_ornament_with_accidentals_error_not_list() {
    let sexpr = Sexpr::symbol("not-a-list");
    assert!(OrnamentWithAccidentals::from_sexpr(&sexpr).is_err());
}

#[test]
fn test_ornaments_empty() {
    let orn = Ornaments { content: vec![] };
    let sexpr = orn.to_sexpr();
    let parsed = Ornaments::from_sexpr(&sexpr).unwrap();
    assert!(parsed.content.is_empty());
}

#[test]
fn test_ornaments_multiple() {
    let orn = Ornaments {
        content: vec![
            OrnamentWithAccidentals {
                ornament: OrnamentElement::TrillMark(EmptyTrillSound::default()),
                accidental_marks: vec![],
            },
            OrnamentWithAccidentals {
                ornament: OrnamentElement::Mordent(Mordent::default()),
                accidental_marks: vec![],
            },
        ],
    };
    let sexpr = orn.to_sexpr();
    let parsed = Ornaments::from_sexpr(&sexpr).unwrap();
    assert_eq!(2, parsed.content.len());
}

#[test]
fn test_ornaments_error_not_list() {
    let sexpr = Sexpr::symbol("not-a-list");
    assert!(Ornaments::from_sexpr(&sexpr).is_err());
}

#[test]
fn test_harmonic_minimal() {
    let h = Harmonic::default();
    let sexpr = h.to_sexpr();
    let parsed = Harmonic::from_sexpr(&sexpr).unwrap();
    assert_eq!(h, parsed);
}

#[test]
fn test_harmonic_full() {
    let h = Harmonic {
        natural: true,
        artificial: false,
        base_pitch: true,
        touching_pitch: false,
        sounding_pitch: true,
        placement: Some(AboveBelow::Above),
        print_object: Some(YesNo::Yes),
    };
    let sexpr = h.to_sexpr();
    let parsed = Harmonic::from_sexpr(&sexpr).unwrap();
    assert!(parsed.natural);
    assert!(!parsed.artificial);
    assert!(parsed.base_pitch);
    assert!(parsed.sounding_pitch);
}

#[test]
fn test_harmonic_error_not_list() {
    let sexpr = Sexpr::symbol("not-a-list");
    assert!(Harmonic::from_sexpr(&sexpr).is_err());
}

#[test]
fn test_fingering_with_all_fields() {
    let f = Fingering {
        value: "p".to_string(),
        substitution: Some(YesNo::Yes),
        alternate: Some(YesNo::No),
        placement: Some(AboveBelow::Below),
        print_style: PrintStyle {
            position: Position {
                default_x: Some(Decimal::new(10, 1)),
                default_y: Some(Decimal::new(20, 1)),
                relative_x: None,
                relative_y: None,
            },
            font: Default::default(),
            color: Some("#123456".to_string()),
        },
    };
    let sexpr = f.to_sexpr();
    let parsed = Fingering::from_sexpr(&sexpr).unwrap();
    assert_eq!(f.value, parsed.value);
    assert_eq!(f.substitution, parsed.substitution);
    assert_eq!(f.alternate, parsed.alternate);
    assert_eq!(f.print_style.color, parsed.print_style.color);
}

#[test]
fn test_fingering_error_not_list() {
    let sexpr = Sexpr::symbol("not-a-list");
    assert!(Fingering::from_sexpr(&sexpr).is_err());
}

#[test]
fn test_pluck_round_trip() {
    let p = Pluck {
        value: "i".to_string(),
        placement: Some(AboveBelow::Above),
    };
    let sexpr = p.to_sexpr();
    let parsed = Pluck::from_sexpr(&sexpr).unwrap();
    assert_eq!(p.value, parsed.value);
    assert_eq!(p.placement, parsed.placement);
}

#[test]
fn test_pluck_error_not_list() {
    let sexpr = Sexpr::symbol("not-a-list");
    assert!(Pluck::from_sexpr(&sexpr).is_err());
}

#[test]
fn test_fret_minimal() {
    let f = Fret {
        value: 5,
        font: Font::default(),
        color: None,
    };
    let sexpr = f.to_sexpr();
    let parsed = Fret::from_sexpr(&sexpr).unwrap();
    assert_eq!(f.value, parsed.value);
}

#[test]
fn test_fret_with_font_color() {
    let f = Fret {
        value: 7,
        font: Font {
            font_family: Some("Arial".to_string()),
            font_style: None,
            font_size: None,
            font_weight: Some(FontWeight::Bold),
        },
        color: Some("#AABBCC".to_string()),
    };
    let sexpr = f.to_sexpr();
    let parsed = Fret::from_sexpr(&sexpr).unwrap();
    assert_eq!(f.value, parsed.value);
    assert_eq!(f.color, parsed.color);
}

#[test]
fn test_fret_error_not_list() {
    let sexpr = Sexpr::symbol("not-a-list");
    assert!(Fret::from_sexpr(&sexpr).is_err());
}

#[test]
fn test_string_number_round_trip() {
    let sn = StringNumber {
        value: 3,
        placement: Some(AboveBelow::Below),
        print_style: PrintStyle::default(),
    };
    let sexpr = sn.to_sexpr();
    let parsed = StringNumber::from_sexpr(&sexpr).unwrap();
    assert_eq!(sn.value, parsed.value);
    assert_eq!(sn.placement, parsed.placement);
}

#[test]
fn test_string_number_with_position_color() {
    let sn = StringNumber {
        value: 1,
        placement: None,
        print_style: PrintStyle {
            position: Position {
                default_x: Some(Decimal::new(50, 1)),
                default_y: Some(Decimal::new(100, 1)),
                relative_x: None,
                relative_y: None,
            },
            font: Default::default(),
            color: Some("#FEDCBA".to_string()),
        },
    };
    let sexpr = sn.to_sexpr();
    let parsed = StringNumber::from_sexpr(&sexpr).unwrap();
    assert_eq!(sn.print_style.color, parsed.print_style.color);
}

#[test]
fn test_string_number_error_not_list() {
    let sexpr = Sexpr::symbol("not-a-list");
    assert!(StringNumber::from_sexpr(&sexpr).is_err());
}

#[test]
fn test_hammer_pull_round_trip() {
    let hp = HammerPull {
        value: "H".to_string(),
        type_: StartStop::Start,
        number: Some(1),
        placement: Some(AboveBelow::Above),
    };
    let sexpr = hp.to_sexpr();
    let parsed = HammerPull::from_sexpr(&sexpr).unwrap();
    assert_eq!(hp.value, parsed.value);
    assert_eq!(hp.type_, parsed.type_);
}

#[test]
fn test_hammer_pull_error_not_list() {
    let sexpr = Sexpr::symbol("not-a-list");
    assert!(HammerPull::from_sexpr(&sexpr).is_err());
}

#[test]
fn test_bend_minimal() {
    let b = Bend {
        bend_alter: Decimal::new(10, 1),
        pre_bend: false,
        release: None,
        with_bar: None,
    };
    let sexpr = b.to_sexpr();
    let parsed = Bend::from_sexpr(&sexpr).unwrap();
    assert_eq!(b.bend_alter, parsed.bend_alter);
    assert!(!parsed.pre_bend);
}

#[test]
fn test_bend_full() {
    let b = Bend {
        bend_alter: Decimal::new(20, 1),
        pre_bend: true,
        release: Some(BendRelease::Late),
        with_bar: Some("w/bar".to_string()),
    };
    let sexpr = b.to_sexpr();
    let parsed = Bend::from_sexpr(&sexpr).unwrap();
    assert!(parsed.pre_bend);
    assert_eq!(b.release, parsed.release);
    assert_eq!(b.with_bar, parsed.with_bar);
}

#[test]
fn test_bend_error_not_list() {
    let sexpr = Sexpr::symbol("not-a-list");
    assert!(Bend::from_sexpr(&sexpr).is_err());
}

#[test]
fn test_tap_round_trip() {
    let t = Tap {
        value: "T".to_string(),
        hand: Some(TapHand::Right),
    };
    let sexpr = t.to_sexpr();
    let parsed = Tap::from_sexpr(&sexpr).unwrap();
    assert_eq!(t.value, parsed.value);
    assert_eq!(t.hand, parsed.hand);
}

#[test]
fn test_tap_error_not_list() {
    let sexpr = Sexpr::symbol("not-a-list");
    assert!(Tap::from_sexpr(&sexpr).is_err());
}

#[test]
fn test_heel_toe_round_trip() {
    let ht = HeelToe {
        substitution: Some(YesNo::Yes),
        placement: Some(AboveBelow::Below),
    };
    let sexpr = ht.to_sexpr();
    let parsed = HeelToe::from_sexpr(&sexpr).unwrap();
    assert_eq!(ht.substitution, parsed.substitution);
    assert_eq!(ht.placement, parsed.placement);
}

#[test]
fn test_heel_toe_error_not_list() {
    let sexpr = Sexpr::symbol("not-a-list");
    assert!(HeelToe::from_sexpr(&sexpr).is_err());
}

#[test]
fn test_hole_closed_round_trip() {
    let hc = HoleClosed {
        value: HoleClosedValue::Half,
        location: Some(HoleClosedLocation::Top),
    };
    let sexpr = hc.to_sexpr();
    let parsed = HoleClosed::from_sexpr(&sexpr).unwrap();
    assert_eq!(hc.value, parsed.value);
    assert_eq!(hc.location, parsed.location);
}

#[test]
fn test_hole_closed_error_not_list() {
    let sexpr = Sexpr::symbol("not-a-list");
    assert!(HoleClosed::from_sexpr(&sexpr).is_err());
}

#[test]
fn test_hole_round_trip() {
    let h = Hole {
        hole_type: Some("thumb".to_string()),
        hole_closed: HoleClosed {
            value: HoleClosedValue::Yes,
            location: None,
        },
        hole_shape: Some("circle".to_string()),
    };
    let sexpr = h.to_sexpr();
    let parsed = Hole::from_sexpr(&sexpr).unwrap();
    assert_eq!(h.hole_type, parsed.hole_type);
    assert_eq!(h.hole_shape, parsed.hole_shape);
}

#[test]
fn test_hole_error_not_list() {
    let sexpr = Sexpr::symbol("not-a-list");
    assert!(Hole::from_sexpr(&sexpr).is_err());
}

#[test]
fn test_arrow_round_trip() {
    let a = Arrow {
        direction: Some(ArrowDirection::Up),
        style: Some(ArrowStyle::Filled),
        smufl: None,
    };
    let sexpr = a.to_sexpr();
    let parsed = Arrow::from_sexpr(&sexpr).unwrap();
    assert_eq!(a.direction, parsed.direction);
    assert_eq!(a.style, parsed.style);
}

#[test]
fn test_arrow_with_smufl() {
    let a = Arrow {
        direction: None,
        style: None,
        smufl: Some("arrowhead".to_string()),
    };
    let sexpr = a.to_sexpr();
    let parsed = Arrow::from_sexpr(&sexpr).unwrap();
    assert_eq!(a.smufl, parsed.smufl);
}

#[test]
fn test_arrow_error_not_list() {
    let sexpr = Sexpr::symbol("not-a-list");
    assert!(Arrow::from_sexpr(&sexpr).is_err());
}

#[test]
fn test_handbell_round_trip() {
    let h = Handbell {
        value: HandbellValue::Martellato,
    };
    let sexpr = h.to_sexpr();
    let parsed = Handbell::from_sexpr(&sexpr).unwrap();
    assert_eq!(h.value, parsed.value);
}

#[test]
fn test_handbell_error_not_list() {
    let sexpr = Sexpr::symbol("not-a-list");
    assert!(Handbell::from_sexpr(&sexpr).is_err());
}

#[test]
fn test_harmon_mute_default() {
    let hm = HarmonMute::default();
    let sexpr = hm.to_sexpr();
    let parsed = HarmonMute::from_sexpr(&sexpr).unwrap();
    assert!(!parsed.open);
    assert!(!parsed.half);
}

#[test]
fn test_harmon_mute_flags() {
    let hm = HarmonMute {
        open: true,
        half: true,
    };
    let sexpr = hm.to_sexpr();
    let parsed = HarmonMute::from_sexpr(&sexpr).unwrap();
    assert!(parsed.open);
    assert!(parsed.half);
}

#[test]
fn test_harmon_mute_error_not_list() {
    let sexpr = Sexpr::symbol("not-a-list");
    assert!(HarmonMute::from_sexpr(&sexpr).is_err());
}

#[test]
fn test_other_technical_round_trip() {
    let ot = OtherTechnical {
        value: "custom-technical".to_string(),
        placement: Some(AboveBelow::Above),
        print_style: PrintStyle::default(),
    };
    let sexpr = ot.to_sexpr();
    let parsed = OtherTechnical::from_sexpr(&sexpr).unwrap();
    assert_eq!(ot.value, parsed.value);
    assert_eq!(ot.placement, parsed.placement);
}

#[test]
fn test_other_technical_with_position_color() {
    let ot = OtherTechnical {
        value: "test".to_string(),
        placement: None,
        print_style: PrintStyle {
            position: Position {
                default_x: Some(Decimal::new(10, 1)),
                default_y: Some(Decimal::new(20, 1)),
                relative_x: Some(Decimal::new(30, 1)),
                relative_y: Some(Decimal::new(40, 1)),
            },
            font: Default::default(),
            color: Some("#999999".to_string()),
        },
    };
    let sexpr = ot.to_sexpr();
    let parsed = OtherTechnical::from_sexpr(&sexpr).unwrap();
    assert_eq!(ot.print_style.color, parsed.print_style.color);
}

#[test]
fn test_other_technical_error_not_list() {
    let sexpr = Sexpr::symbol("not-a-list");
    assert!(OtherTechnical::from_sexpr(&sexpr).is_err());
}

#[test]
fn test_technical_element_up_bow() {
    let te = TechnicalElement::UpBow(EmptyPlacement::default());
    let sexpr = te.to_sexpr();
    let parsed = TechnicalElement::from_sexpr(&sexpr).unwrap();
    matches!(parsed, TechnicalElement::UpBow(_));
}

#[test]
fn test_technical_element_down_bow() {
    let te = TechnicalElement::DownBow(EmptyPlacement::default());
    let sexpr = te.to_sexpr();
    let parsed = TechnicalElement::from_sexpr(&sexpr).unwrap();
    matches!(parsed, TechnicalElement::DownBow(_));
}

#[test]
fn test_technical_element_harmonic() {
    let te = TechnicalElement::Harmonic(Harmonic::default());
    let sexpr = te.to_sexpr();
    let parsed = TechnicalElement::from_sexpr(&sexpr).unwrap();
    matches!(parsed, TechnicalElement::Harmonic(_));
}

#[test]
fn test_technical_element_open_string() {
    let te = TechnicalElement::OpenString(EmptyPlacement::default());
    let sexpr = te.to_sexpr();
    let parsed = TechnicalElement::from_sexpr(&sexpr).unwrap();
    matches!(parsed, TechnicalElement::OpenString(_));
}

#[test]
fn test_technical_element_thumb_position() {
    let te = TechnicalElement::ThumbPosition(EmptyPlacement::default());
    let sexpr = te.to_sexpr();
    let parsed = TechnicalElement::from_sexpr(&sexpr).unwrap();
    matches!(parsed, TechnicalElement::ThumbPosition(_));
}

#[test]
fn test_technical_element_fingering() {
    let te = TechnicalElement::Fingering(Fingering {
        value: "1".to_string(),
        substitution: None,
        alternate: None,
        placement: None,
        print_style: PrintStyle::default(),
    });
    let sexpr = te.to_sexpr();
    let parsed = TechnicalElement::from_sexpr(&sexpr).unwrap();
    matches!(parsed, TechnicalElement::Fingering(_));
}

#[test]
fn test_technical_element_pluck() {
    let te = TechnicalElement::Pluck(Pluck {
        value: "m".to_string(),
        placement: None,
    });
    let sexpr = te.to_sexpr();
    let parsed = TechnicalElement::from_sexpr(&sexpr).unwrap();
    matches!(parsed, TechnicalElement::Pluck(_));
}

#[test]
fn test_technical_element_double_tongue() {
    let te = TechnicalElement::DoubleTongue(EmptyPlacement::default());
    let sexpr = te.to_sexpr();
    let parsed = TechnicalElement::from_sexpr(&sexpr).unwrap();
    matches!(parsed, TechnicalElement::DoubleTongue(_));
}

#[test]
fn test_technical_element_triple_tongue() {
    let te = TechnicalElement::TripleTongue(EmptyPlacement::default());
    let sexpr = te.to_sexpr();
    let parsed = TechnicalElement::from_sexpr(&sexpr).unwrap();
    matches!(parsed, TechnicalElement::TripleTongue(_));
}

#[test]
fn test_technical_element_stopped() {
    let te = TechnicalElement::Stopped(EmptyPlacement::default());
    let sexpr = te.to_sexpr();
    let parsed = TechnicalElement::from_sexpr(&sexpr).unwrap();
    matches!(parsed, TechnicalElement::Stopped(_));
}

#[test]
fn test_technical_element_snap_pizzicato() {
    let te = TechnicalElement::SnapPizzicato(EmptyPlacement::default());
    let sexpr = te.to_sexpr();
    let parsed = TechnicalElement::from_sexpr(&sexpr).unwrap();
    matches!(parsed, TechnicalElement::SnapPizzicato(_));
}

#[test]
fn test_technical_element_fret() {
    let te = TechnicalElement::Fret(Fret {
        value: 5,
        font: Font::default(),
        color: None,
    });
    let sexpr = te.to_sexpr();
    let parsed = TechnicalElement::from_sexpr(&sexpr).unwrap();
    matches!(parsed, TechnicalElement::Fret(_));
}

#[test]
fn test_technical_element_string() {
    let te = TechnicalElement::String(StringNumber {
        value: 2,
        placement: None,
        print_style: PrintStyle::default(),
    });
    let sexpr = te.to_sexpr();
    let parsed = TechnicalElement::from_sexpr(&sexpr).unwrap();
    matches!(parsed, TechnicalElement::String(_));
}

#[test]
fn test_technical_element_hammer_on() {
    let te = TechnicalElement::HammerOn(HammerPull {
        value: "H".to_string(),
        type_: StartStop::Start,
        number: None,
        placement: None,
    });
    let sexpr = te.to_sexpr();
    let parsed = TechnicalElement::from_sexpr(&sexpr).unwrap();
    matches!(parsed, TechnicalElement::HammerOn(_));
}

#[test]
fn test_technical_element_pull_off() {
    let te = TechnicalElement::PullOff(HammerPull {
        value: "P".to_string(),
        type_: StartStop::Stop,
        number: None,
        placement: None,
    });
    let sexpr = te.to_sexpr();
    let parsed = TechnicalElement::from_sexpr(&sexpr).unwrap();
    matches!(parsed, TechnicalElement::PullOff(_));
}

#[test]
fn test_technical_element_bend() {
    let te = TechnicalElement::Bend(Bend {
        bend_alter: Decimal::new(10, 1),
        pre_bend: false,
        release: None,
        with_bar: None,
    });
    let sexpr = te.to_sexpr();
    let parsed = TechnicalElement::from_sexpr(&sexpr).unwrap();
    matches!(parsed, TechnicalElement::Bend(_));
}

#[test]
fn test_technical_element_tap() {
    let te = TechnicalElement::Tap(Tap {
        value: "T".to_string(),
        hand: None,
    });
    let sexpr = te.to_sexpr();
    let parsed = TechnicalElement::from_sexpr(&sexpr).unwrap();
    matches!(parsed, TechnicalElement::Tap(_));
}

#[test]
fn test_technical_element_heel() {
    let te = TechnicalElement::Heel(HeelToe::default());
    let sexpr = te.to_sexpr();
    let parsed = TechnicalElement::from_sexpr(&sexpr).unwrap();
    matches!(parsed, TechnicalElement::Heel(_));
}

#[test]
fn test_technical_element_toe() {
    let te = TechnicalElement::Toe(HeelToe::default());
    let sexpr = te.to_sexpr();
    let parsed = TechnicalElement::from_sexpr(&sexpr).unwrap();
    matches!(parsed, TechnicalElement::Toe(_));
}

#[test]
fn test_technical_element_fingernails() {
    let te = TechnicalElement::Fingernails(EmptyPlacement::default());
    let sexpr = te.to_sexpr();
    let parsed = TechnicalElement::from_sexpr(&sexpr).unwrap();
    matches!(parsed, TechnicalElement::Fingernails(_));
}

#[test]
fn test_technical_element_hole() {
    let te = TechnicalElement::Hole(Hole {
        hole_type: None,
        hole_closed: HoleClosed {
            value: HoleClosedValue::Yes,
            location: None,
        },
        hole_shape: None,
    });
    let sexpr = te.to_sexpr();
    let parsed = TechnicalElement::from_sexpr(&sexpr).unwrap();
    matches!(parsed, TechnicalElement::Hole(_));
}

#[test]
fn test_technical_element_arrow() {
    let te = TechnicalElement::Arrow(Arrow::default());
    let sexpr = te.to_sexpr();
    let parsed = TechnicalElement::from_sexpr(&sexpr).unwrap();
    matches!(parsed, TechnicalElement::Arrow(_));
}

#[test]
fn test_technical_element_handbell() {
    let te = TechnicalElement::Handbell(Handbell {
        value: HandbellValue::Damp,
    });
    let sexpr = te.to_sexpr();
    let parsed = TechnicalElement::from_sexpr(&sexpr).unwrap();
    matches!(parsed, TechnicalElement::Handbell(_));
}

#[test]
fn test_technical_element_brass_bend() {
    let te = TechnicalElement::BrassBend(EmptyPlacement::default());
    let sexpr = te.to_sexpr();
    let parsed = TechnicalElement::from_sexpr(&sexpr).unwrap();
    matches!(parsed, TechnicalElement::BrassBend(_));
}

#[test]
fn test_technical_element_flip() {
    let te = TechnicalElement::Flip(EmptyPlacement::default());
    let sexpr = te.to_sexpr();
    let parsed = TechnicalElement::from_sexpr(&sexpr).unwrap();
    matches!(parsed, TechnicalElement::Flip(_));
}

#[test]
fn test_technical_element_smear() {
    let te = TechnicalElement::Smear(EmptyPlacement::default());
    let sexpr = te.to_sexpr();
    let parsed = TechnicalElement::from_sexpr(&sexpr).unwrap();
    matches!(parsed, TechnicalElement::Smear(_));
}

#[test]
fn test_technical_element_open() {
    let te = TechnicalElement::Open(EmptyPlacement::default());
    let sexpr = te.to_sexpr();
    let parsed = TechnicalElement::from_sexpr(&sexpr).unwrap();
    matches!(parsed, TechnicalElement::Open(_));
}

#[test]
fn test_technical_element_half_muted() {
    let te = TechnicalElement::HalfMuted(EmptyPlacement::default());
    let sexpr = te.to_sexpr();
    let parsed = TechnicalElement::from_sexpr(&sexpr).unwrap();
    matches!(parsed, TechnicalElement::HalfMuted(_));
}

#[test]
fn test_technical_element_harmon_mute() {
    let te = TechnicalElement::HarmonMute(HarmonMute::default());
    let sexpr = te.to_sexpr();
    let parsed = TechnicalElement::from_sexpr(&sexpr).unwrap();
    matches!(parsed, TechnicalElement::HarmonMute(_));
}

#[test]
fn test_technical_element_golpe() {
    let te = TechnicalElement::Golpe(EmptyPlacement::default());
    let sexpr = te.to_sexpr();
    let parsed = TechnicalElement::from_sexpr(&sexpr).unwrap();
    matches!(parsed, TechnicalElement::Golpe(_));
}

#[test]
fn test_technical_element_other() {
    let te = TechnicalElement::OtherTechnical(OtherTechnical {
        value: "custom".to_string(),
        placement: None,
        print_style: PrintStyle::default(),
    });
    let sexpr = te.to_sexpr();
    let parsed = TechnicalElement::from_sexpr(&sexpr).unwrap();
    matches!(parsed, TechnicalElement::OtherTechnical(_));
}

#[test]
fn test_technical_element_error_not_list() {
    let sexpr = Sexpr::symbol("not-a-list");
    assert!(TechnicalElement::from_sexpr(&sexpr).is_err());
}

#[test]
fn test_technical_element_error_unknown_variant() {
    let sexpr = Sexpr::list(vec![Sexpr::symbol("unknown-technical")]);
    assert!(TechnicalElement::from_sexpr(&sexpr).is_err());
}

#[test]
fn test_technical_empty() {
    let tech = Technical { content: vec![] };
    let sexpr = tech.to_sexpr();
    let parsed = Technical::from_sexpr(&sexpr).unwrap();
    assert!(parsed.content.is_empty());
}

#[test]
fn test_technical_multiple() {
    let tech = Technical {
        content: vec![
            TechnicalElement::UpBow(EmptyPlacement::default()),
            TechnicalElement::DownBow(EmptyPlacement::default()),
            TechnicalElement::OpenString(EmptyPlacement::default()),
        ],
    };
    let sexpr = tech.to_sexpr();
    let parsed = Technical::from_sexpr(&sexpr).unwrap();
    assert_eq!(3, parsed.content.len());
}

#[test]
fn test_technical_error_not_list() {
    let sexpr = Sexpr::symbol("not-a-list");
    assert!(Technical::from_sexpr(&sexpr).is_err());
}

#[test]
fn test_notation_content_tied() {
    let nc = NotationContent::Tied(Tied {
        type_: StartStopContinue::Start,
        number: None,
        line_type: None,
        position: Position::default(),
        placement: None,
        orientation: None,
        color: None,
    });
    let sexpr = nc.to_sexpr();
    let parsed = NotationContent::from_sexpr(&sexpr).unwrap();
    matches!(parsed, NotationContent::Tied(_));
}

#[test]
fn test_notation_content_slur() {
    let nc = NotationContent::Slur(Slur {
        type_: StartStopContinue::Start,
        number: 1,
        line_type: None,
        position: Position::default(),
        placement: None,
        orientation: None,
        color: None,
    });
    let sexpr = nc.to_sexpr();
    let parsed = NotationContent::from_sexpr(&sexpr).unwrap();
    matches!(parsed, NotationContent::Slur(_));
}

#[test]
fn test_notation_content_tuplet() {
    let nc = NotationContent::Tuplet(Box::new(Tuplet {
        type_: StartStop::Start,
        number: None,
        bracket: None,
        show_number: None,
        show_type: None,
        line_shape: None,
        position: Position::default(),
        placement: None,
        tuplet_actual: None,
        tuplet_normal: None,
    }));
    let sexpr = nc.to_sexpr();
    let parsed = NotationContent::from_sexpr(&sexpr).unwrap();
    matches!(parsed, NotationContent::Tuplet(_));
}

#[test]
fn test_notation_content_glissando() {
    let nc = NotationContent::Glissando(Glissando {
        type_: StartStop::Start,
        number: None,
        text: None,
        line_type: None,
        position: Position::default(),
    });
    let sexpr = nc.to_sexpr();
    let parsed = NotationContent::from_sexpr(&sexpr).unwrap();
    matches!(parsed, NotationContent::Glissando(_));
}

#[test]
fn test_notation_content_slide() {
    let nc = NotationContent::Slide(Slide {
        type_: StartStop::Start,
        number: None,
        text: None,
        line_type: None,
        position: Position::default(),
    });
    let sexpr = nc.to_sexpr();
    let parsed = NotationContent::from_sexpr(&sexpr).unwrap();
    matches!(parsed, NotationContent::Slide(_));
}

#[test]
fn test_notation_content_ornaments() {
    let nc = NotationContent::Ornaments(Box::new(Ornaments { content: vec![] }));
    let sexpr = nc.to_sexpr();
    let parsed = NotationContent::from_sexpr(&sexpr).unwrap();
    matches!(parsed, NotationContent::Ornaments(_));
}

#[test]
fn test_notation_content_technical() {
    let nc = NotationContent::Technical(Box::new(Technical { content: vec![] }));
    let sexpr = nc.to_sexpr();
    let parsed = NotationContent::from_sexpr(&sexpr).unwrap();
    matches!(parsed, NotationContent::Technical(_));
}

#[test]
fn test_notation_content_articulations() {
    let nc = NotationContent::Articulations(Box::new(Articulations { content: vec![] }));
    let sexpr = nc.to_sexpr();
    let parsed = NotationContent::from_sexpr(&sexpr).unwrap();
    matches!(parsed, NotationContent::Articulations(_));
}

#[test]
fn test_notation_content_dynamics() {
    let nc = NotationContent::Dynamics(Box::new(Dynamics::default()));
    let sexpr = nc.to_sexpr();
    let parsed = NotationContent::from_sexpr(&sexpr).unwrap();
    matches!(parsed, NotationContent::Dynamics(_));
}

#[test]
fn test_notation_content_fermata() {
    let nc = NotationContent::Fermata(Fermata::default());
    let sexpr = nc.to_sexpr();
    let parsed = NotationContent::from_sexpr(&sexpr).unwrap();
    matches!(parsed, NotationContent::Fermata(_));
}

#[test]
fn test_notation_content_arpeggiate() {
    let nc = NotationContent::Arpeggiate(Arpeggiate::default());
    let sexpr = nc.to_sexpr();
    let parsed = NotationContent::from_sexpr(&sexpr).unwrap();
    matches!(parsed, NotationContent::Arpeggiate(_));
}

#[test]
fn test_notation_content_non_arpeggiate() {
    let nc = NotationContent::NonArpeggiate(NonArpeggiate::default());
    let sexpr = nc.to_sexpr();
    let parsed = NotationContent::from_sexpr(&sexpr).unwrap();
    matches!(parsed, NotationContent::NonArpeggiate(_));
}

#[test]
fn test_notation_content_accidental_mark() {
    let nc = NotationContent::AccidentalMark(AccidentalMark {
        value: AccidentalValue::Natural,
        placement: None,
        print_style: PrintStyle::default(),
    });
    let sexpr = nc.to_sexpr();
    let parsed = NotationContent::from_sexpr(&sexpr).unwrap();
    matches!(parsed, NotationContent::AccidentalMark(_));
}

#[test]
fn test_notation_content_other_notation() {
    let nc = NotationContent::OtherNotation(OtherNotation {
        value: "custom".to_string(),
        type_: StartStopSingle::Single,
        number: None,
        print_object: None,
        print_style: PrintStyle::default(),
        placement: None,
    });
    let sexpr = nc.to_sexpr();
    let parsed = NotationContent::from_sexpr(&sexpr).unwrap();
    matches!(parsed, NotationContent::OtherNotation(_));
}

#[test]
fn test_notation_content_error_not_list() {
    let sexpr = Sexpr::symbol("not-a-list");
    assert!(NotationContent::from_sexpr(&sexpr).is_err());
}

#[test]
fn test_notation_content_error_unknown_variant() {
    let sexpr = Sexpr::list(vec![Sexpr::symbol("unknown-notation")]);
    assert!(NotationContent::from_sexpr(&sexpr).is_err());
}

#[test]
fn test_notations_empty() {
    let notations = Notations {
        print_object: None,
        content: vec![],
        editorial: Editorial::default(),
    };
    let sexpr = notations.to_sexpr();
    let parsed = Notations::from_sexpr(&sexpr).unwrap();
    assert!(parsed.content.is_empty());
}

#[test]
fn test_notations_multiple_content() {
    let notations = Notations {
        print_object: Some(YesNo::No),
        content: vec![
            NotationContent::Fermata(Fermata::default()),
            NotationContent::Arpeggiate(Arpeggiate::default()),
            NotationContent::Articulations(Box::new(Articulations { content: vec![] })),
        ],
        editorial: Editorial::default(),
    };
    let sexpr = notations.to_sexpr();
    let parsed = Notations::from_sexpr(&sexpr).unwrap();
    assert_eq!(3, parsed.content.len());
    assert_eq!(Some(YesNo::No), parsed.print_object);
}

#[test]
fn test_notations_error_not_list() {
    let sexpr = Sexpr::symbol("not-a-list");
    assert!(Notations::from_sexpr(&sexpr).is_err());
}
