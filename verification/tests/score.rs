use fermata::decimal::Decimal;
use fermata::ir::common::PrintStyle;
use fermata::ir::measure::Measure;
use fermata::ir::part::Part;
use fermata::ir::part::PartList;
use fermata::ir::part::PartListElement;
use fermata::ir::part::PartName;
use fermata::ir::part::ScorePart;
use fermata::ir::score::ScorePartwise;
use fermata::ir::score::Work;
use fermata::sexpr::print::print_sexpr;
use fermata::sexpr::traits::ToSexpr;

#[test]
fn test_score_basic() {
    let score = ScorePartwise {
        version: Some("4.0".to_string()),
        work: Some(Work {
            work_number: None,
            work_title: Some("Test Score".to_string()),
            opus: None,
        }),
        movement_number: None,
        movement_title: None,
        identification: None,
        defaults: None,
        credits: vec![],
        part_list: PartList { content: vec![] },
        parts: vec![],
    };

    let sexpr = score.to_sexpr();
    let output = print_sexpr(&sexpr);
    assert!(output.contains("score"));
    assert!(output.contains("Test Score"));
}

#[test]
fn test_part_basic() {
    let part = Part {
        id: "P1".to_string(),
        measures: vec![Measure {
            number: "1".to_string(),
            implicit: None,
            non_controlling: None,
            width: None,
            content: vec![],
        }],
    };

    let sexpr = part.to_sexpr();
    let output = print_sexpr(&sexpr);
    assert!(output.contains("part"));
    assert!(output.contains("P1"));
    assert!(output.contains("measure"));
}

#[test]
fn test_measure_basic() {
    let measure = Measure {
        number: "42".to_string(),
        implicit: None,
        non_controlling: None,
        width: Some(Decimal::new(2000, 1)),
        content: vec![],
    };

    let sexpr = measure.to_sexpr();
    let output = print_sexpr(&sexpr);
    assert!(output.contains("measure"));
    assert!(output.contains("42"));
    assert!(output.contains("200"));
}

#[test]
fn test_score_part_basic() {
    let sp = ScorePart {
        id: "P1".to_string(),
        identification: None,
        part_name: PartName {
            value: "Piano".to_string(),
            print_style: PrintStyle::default(),
            print_object: None,
            justify: None,
        },
        part_name_display: None,
        part_abbreviation: Some(PartName {
            value: "Pno.".to_string(),
            print_style: PrintStyle::default(),
            print_object: None,
            justify: None,
        }),
        part_abbreviation_display: None,
        group: vec![],
        score_instruments: vec![],
        midi_devices: vec![],
        midi_instruments: vec![],
    };

    let sexpr = sp.to_sexpr();
    let output = print_sexpr(&sexpr);
    assert!(output.contains("score-part"));
    assert!(output.contains("Piano"));
    assert!(output.contains("Pno."));
}

#[test]
fn test_part_list_basic() {
    let pl = PartList {
        content: vec![PartListElement::ScorePart(ScorePart {
            id: "P1".to_string(),
            identification: None,
            part_name: PartName {
                value: "Violin".to_string(),
                print_style: PrintStyle::default(),
                print_object: None,
                justify: None,
            },
            part_name_display: None,
            part_abbreviation: None,
            part_abbreviation_display: None,
            group: vec![],
            score_instruments: vec![],
            midi_devices: vec![],
            midi_instruments: vec![],
        })],
    };

    let sexpr = pl.to_sexpr();
    let output = print_sexpr(&sexpr);
    assert!(output.contains("part-list"));
    assert!(output.contains("Violin"));
}
