use fermata::decimal::Decimal;
use fermata::ir::common::PrintStyle;
use fermata::ir::common::StartStop;
use fermata::ir::common::YesNo;
use fermata::ir::measure::Measure;
use fermata::ir::part::Part;
use fermata::ir::part::PartList;
use fermata::ir::part::PartListElement;
use fermata::ir::part::PartName;
use fermata::ir::part::ScorePart;
use fermata::ir::score::ScorePartwise;
use fermata::sexpr::ast::Sexpr;
use fermata::sexpr::from_sexpr_str;
use fermata::sexpr::print::print_sexpr;
use fermata::sexpr::print::to_sexpr_string;
use fermata::sexpr::print_score;
use fermata::sexpr::print_score_with_options;
use fermata::sexpr::printer::PrintOptions;

fn minimal_score() -> ScorePartwise {
    ScorePartwise {
        version: Some("4.0".to_string()),
        work: None,
        movement_number: None,
        movement_title: None,
        identification: None,
        defaults: None,
        credits: vec![],
        part_list: PartList { content: vec![] },
        parts: vec![],
    }
}

fn score_with_part() -> ScorePartwise {
    ScorePartwise {
        version: Some("4.0".to_string()),
        work: None,
        movement_number: None,
        movement_title: None,
        identification: None,
        defaults: None,
        credits: vec![],
        part_list: PartList {
            content: vec![PartListElement::ScorePart(ScorePart {
                id: "P1".to_string(),
                identification: None,
                part_name: PartName {
                    value: "Piano".to_string(),
                    print_style: PrintStyle::default(),
                    print_object: None,
                    justify: None,
                },
                part_name_display: None,
                part_abbreviation: None,
                part_abbreviation_display: None,
                group: vec![],
                score_instruments: vec![],
                midi_devices: vec![],
                midi_instruments: vec![],
            })],
        },
        parts: vec![Part {
            id: "P1".to_string(),
            measures: vec![],
        }],
    }
}

fn score_with_measure() -> ScorePartwise {
    ScorePartwise {
        version: Some("4.0".to_string()),
        work: None,
        movement_number: None,
        movement_title: None,
        identification: None,
        defaults: None,
        credits: vec![],
        part_list: PartList {
            content: vec![PartListElement::ScorePart(ScorePart {
                id: "P1".to_string(),
                identification: None,
                part_name: PartName {
                    value: "Piano".to_string(),
                    print_style: PrintStyle::default(),
                    print_object: None,
                    justify: None,
                },
                part_name_display: None,
                part_abbreviation: None,
                part_abbreviation_display: None,
                group: vec![],
                score_instruments: vec![],
                midi_devices: vec![],
                midi_instruments: vec![],
            })],
        },
        parts: vec![Part {
            id: "P1".to_string(),
            measures: vec![Measure {
                number: "1".to_string(),
                implicit: None,
                non_controlling: None,
                width: None,
                content: vec![],
            }],
        }],
    }
}

#[test]
fn test_print_options_default() {
    let options = PrintOptions::default();
    assert_eq!(options.indent, "  ");
    assert_eq!(options.max_width, 80);
    assert!(!options.compact);
}

#[test]
fn test_print_options_clone() {
    let options = PrintOptions {
        indent: "\t".to_string(),
        max_width: 120,
        compact: true,
    };
    let cloned = options.clone();
    assert_eq!(options.indent, cloned.indent);
    assert_eq!(options.max_width, cloned.max_width);
    assert_eq!(options.compact, cloned.compact);
}

#[test]
fn test_print_options_debug() {
    let options = PrintOptions::default();
    let debug = format!("{:?}", options);
    assert!(debug.contains("PrintOptions"));
    assert!(debug.contains("indent"));
    assert!(debug.contains("max_width"));
    assert!(debug.contains("compact"));
}

#[test]
fn test_print_score_minimal() {
    let score = minimal_score();
    let sexpr = print_score(&score);

    assert!(sexpr.starts_with("(score-partwise"));
    assert!(sexpr.contains(":version \"4.0\""));
    assert!(sexpr.ends_with(')'));
}

#[test]
fn test_print_score_with_part_list() {
    let score = score_with_part();
    let sexpr = print_score(&score);

    assert!(sexpr.contains("(part-list"));
    assert!(sexpr.contains("(score-part :id \"P1\""));
    assert!(sexpr.contains("(part-name \"Piano\")"));
    assert!(sexpr.contains("(part :id \"P1\""));
}

#[test]
fn test_print_score_with_measure() {
    let score = score_with_measure();
    let sexpr = print_score(&score);

    assert!(sexpr.contains("(measure :number \"1\""));
}

#[test]
fn test_print_score_compact() {
    let score = score_with_part();

    let options = PrintOptions {
        compact: true,
        ..Default::default()
    };

    let sexpr = print_score_with_options(&score, &options);

    // Compact mode should not have newlines
    assert!(!sexpr.contains('\n'));
    // But should still have all the content
    assert!(sexpr.contains("(score-partwise"));
    assert!(sexpr.contains(":version \"4.0\""));
}

#[test]
fn test_print_score_pretty() {
    let score = score_with_part();

    let options = PrintOptions::default();
    let sexpr = print_score_with_options(&score, &options);

    // Pretty mode should have newlines
    assert!(sexpr.contains('\n'));
    // And proper indentation
    assert!(sexpr.contains("  (part-list"));
}

#[test]
fn test_print_score_custom_indent() {
    let score = score_with_part();

    let options = PrintOptions {
        indent: "\t".to_string(),
        ..Default::default()
    };

    let sexpr = print_score_with_options(&score, &options);

    // Should use tabs for indentation (printer uses both newline_indent + function indent)
    assert!(sexpr.contains("\t(part-list"));
    // Verify the output uses tabs, not spaces, for indentation
    assert!(sexpr.contains('\t'));
    assert!(!sexpr.lines().skip(1).any(|l| l.starts_with("  ")));
}

#[test]
fn test_balanced_parens_minimal() {
    let score = minimal_score();
    let sexpr = print_score(&score);

    let open = sexpr.chars().filter(|&c| c == '(').count();
    let close = sexpr.chars().filter(|&c| c == ')').count();
    assert_eq!(open, close, "Parentheses should be balanced");
}

#[test]
fn test_balanced_parens_with_content() {
    let score = score_with_measure();
    let sexpr = print_score(&score);

    let open = sexpr.chars().filter(|&c| c == '(').count();
    let close = sexpr.chars().filter(|&c| c == ')').count();
    assert_eq!(open, close, "Parentheses should be balanced");
}

#[test]
fn test_sexpr_reexport() {
    // Verify Sexpr is accessible through the module
    let sym = Sexpr::symbol("note");
    assert!(sym.is_symbol("note"));

    let kw = Sexpr::keyword("step");
    assert!(kw.is_keyword("step"));

    let list = Sexpr::list(vec![sym, kw]);
    assert!(list.is_list());
}

#[test]
fn test_print_sexpr_symbol() {
    let sexpr = Sexpr::symbol("foo");
    assert_eq!(print_sexpr(&sexpr), "foo");
}

#[test]
fn test_print_sexpr_keyword() {
    let sexpr = Sexpr::keyword("step");
    assert_eq!(print_sexpr(&sexpr), ":step");
}

#[test]
fn test_print_sexpr_string() {
    let sexpr = Sexpr::String("hello".to_string());
    assert_eq!(print_sexpr(&sexpr), "\"hello\"");
}

#[test]
fn test_print_sexpr_string_with_escapes() {
    let sexpr = Sexpr::String("line\nbreak".to_string());
    assert_eq!(print_sexpr(&sexpr), "\"line\\nbreak\"");
}

#[test]
fn test_print_sexpr_integer() {
    let sexpr = Sexpr::Integer(42);
    assert_eq!(print_sexpr(&sexpr), "42");
}

#[test]
fn test_print_sexpr_float() {
    let sexpr = Sexpr::Float(Decimal::new(314, 2));
    assert_eq!(print_sexpr(&sexpr), "3.14");
}

#[test]
fn test_print_sexpr_float_whole() {
    let sexpr = Sexpr::Float(Decimal::new(50, 1));
    assert_eq!(print_sexpr(&sexpr), "5.0");
}

#[test]
fn test_print_sexpr_bool_true() {
    let sexpr = Sexpr::Bool(true);
    assert_eq!(print_sexpr(&sexpr), "#t");
}

#[test]
fn test_print_sexpr_bool_false() {
    let sexpr = Sexpr::Bool(false);
    assert_eq!(print_sexpr(&sexpr), "#f");
}

#[test]
fn test_print_sexpr_nil() {
    let sexpr = Sexpr::Nil;
    assert_eq!(print_sexpr(&sexpr), "nil");
}

#[test]
fn test_print_sexpr_empty_list() {
    let sexpr = Sexpr::List(vec![]);
    assert_eq!(print_sexpr(&sexpr), "()");
}

#[test]
fn test_print_sexpr_simple_list() {
    let sexpr = Sexpr::list(vec![
        Sexpr::symbol("note"),
        Sexpr::keyword("pitch"),
        Sexpr::symbol("C4"),
    ]);
    assert_eq!(print_sexpr(&sexpr), "(note :pitch C4)");
}

#[test]
fn test_print_sexpr_nested_list() {
    let sexpr = Sexpr::list(vec![
        Sexpr::symbol("note"),
        Sexpr::keyword("pitch"),
        Sexpr::list(vec![
            Sexpr::symbol("pitch"),
            Sexpr::keyword("step"),
            Sexpr::symbol("C"),
        ]),
    ]);
    assert_eq!(print_sexpr(&sexpr), "(note :pitch (pitch :step C))");
}

#[test]
fn test_to_sexpr_string_yesno() {
    assert_eq!(to_sexpr_string(&YesNo::Yes), "yes");
    assert_eq!(to_sexpr_string(&YesNo::No), "no");
}

#[test]
fn test_from_sexpr_str_yesno() {
    let yes: YesNo = from_sexpr_str("yes").unwrap();
    assert_eq!(yes, YesNo::Yes);
}

#[test]
fn test_from_sexpr_str_parse_error() {
    let result: Result<YesNo, _> = from_sexpr_str("(unclosed");
    assert!(result.is_err());
}

#[test]
fn test_from_sexpr_str_convert_error() {
    let result: Result<YesNo, _> = from_sexpr_str("maybe");
    assert!(result.is_err());
}

#[test]
fn test_round_trip_via_string() {
    let original = StartStop::Start;
    let s = to_sexpr_string(&original);
    let parsed: StartStop = from_sexpr_str(&s).unwrap();
    assert_eq!(original, parsed);
}
