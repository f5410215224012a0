use fermata::decimal::Decimal;
use fermata::sexpr::ast::Sexpr;
use fermata::sexpr::error::ParseError;
use fermata::sexpr::parser::parse;
use fermata::sexpr::parser::parse_all;

#[test]
fn test_parse_symbol_simple() {
    let result = parse("foo").unwrap();
    assert_eq!(result, Sexpr::Symbol("foo".to_string()));
}

#[test]
fn test_parse_symbol_with_hyphen() {
    let result = parse("foo-bar").unwrap();
    assert_eq!(result, Sexpr::Symbol("foo-bar".to_string()));
}

#[test]
fn test_parse_symbol_with_underscore() {
    let result = parse("foo_bar").unwrap();
    assert_eq!(result, Sexpr::Symbol("foo_bar".to_string()));
}

#[test]
fn test_parse_symbol_alphanumeric() {
    let result = parse("C4").unwrap();
    assert_eq!(result, Sexpr::Symbol("C4".to_string()));
}

#[test]
fn test_parse_symbol_special_chars() {
    let result = parse("foo+bar").unwrap();
    assert_eq!(result, Sexpr::Symbol("foo+bar".to_string()));
}

#[test]
fn test_parse_keyword_simple() {
    let result = parse(":step").unwrap();
    assert_eq!(result, Sexpr::Keyword("step".to_string()));
}

#[test]
fn test_parse_keyword_with_hyphen() {
    let result = parse(":default-x").unwrap();
    assert_eq!(result, Sexpr::Keyword("default-x".to_string()));
}

#[test]
fn test_parse_keyword_with_underscore() {
    let result = parse(":some_key").unwrap();
    assert_eq!(result, Sexpr::Keyword("some_key".to_string()));
}

#[test]
fn test_parse_integer_positive() {
    let result = parse("42").unwrap();
    assert_eq!(result, Sexpr::Integer(42));
}

#[test]
fn test_parse_integer_negative() {
    let result = parse("-123").unwrap();
    assert_eq!(result, Sexpr::Integer(-123));
}

#[test]
fn test_parse_integer_zero() {
    let result = parse("0").unwrap();
    assert_eq!(result, Sexpr::Integer(0));
}

#[test]
fn test_parse_float_positive() {
    let result = parse("3.14").unwrap();
    assert_eq!(result, Sexpr::Float(Decimal::new(314, 2)));
}

#[test]
fn test_parse_float_negative() {
    let result = parse("-1.5").unwrap();
    assert_eq!(result, Sexpr::Float(Decimal::new(-15, 1)));
}

#[test]
fn test_parse_float_zero() {
    let result = parse("0.0").unwrap();
    assert_eq!(result, Sexpr::Float(Decimal::new(0, 1)));
}

#[test]
fn test_parse_float_trailing_zeros() {
    let result = parse("1.50").unwrap();
    assert_eq!(result, Sexpr::Float(Decimal::new(15, 1)));
}

#[test]
fn test_parse_boolean_true() {
    let result = parse("#t").unwrap();
    assert_eq!(result, Sexpr::Bool(true));
}

#[test]
fn test_parse_boolean_false() {
    let result = parse("#f").unwrap();
    assert_eq!(result, Sexpr::Bool(false));
}

#[test]
fn test_parse_nil() {
    let result = parse("nil").unwrap();
    assert_eq!(result, Sexpr::Nil);
}

#[test]
fn test_parse_nil_like_symbol() {
    // "nilly" should parse as a symbol, not nil + "ly"
    let result = parse("nilly").unwrap();
    assert_eq!(result, Sexpr::Symbol("nilly".to_string()));
}

#[test]
fn test_parse_string_simple() {
    let result = parse(r#""hello""#).unwrap();
    assert_eq!(result, Sexpr::String("hello".to_string()));
}

#[test]
fn test_parse_string_with_spaces() {
    let result = parse(r#""hello world""#).unwrap();
    assert_eq!(result, Sexpr::String("hello world".to_string()));
}

#[test]
fn test_parse_string_empty() {
    let result = parse(r#""""#).unwrap();
    assert_eq!(result, Sexpr::String(String::new()));
}

#[test]
fn test_parse_string_escape_newline() {
    let result = parse(r#""line\nbreak""#).unwrap();
    assert_eq!(result, Sexpr::String("line\nbreak".to_string()));
}

#[test]
fn test_parse_string_escape_tab() {
    let result = parse(r#""tab\there""#).unwrap();
    assert_eq!(result, Sexpr::String("tab\there".to_string()));
}

#[test]
fn test_parse_string_escape_quote() {
    let result = parse(r#""say \"hi\"""#).unwrap();
    assert_eq!(result, Sexpr::String("say \"hi\"".to_string()));
}

#[test]
fn test_parse_string_escape_backslash() {
    let result = parse(r#""path\\to\\file""#).unwrap();
    assert_eq!(result, Sexpr::String("path\\to\\file".to_string()));
}

#[test]
fn test_parse_list_empty() {
    let result = parse("()").unwrap();
    assert_eq!(result, Sexpr::List(vec![]));
}

#[test]
fn test_parse_list_single_symbol() {
    let result = parse("(foo)").unwrap();
    assert_eq!(result, Sexpr::List(vec![Sexpr::Symbol("foo".to_string())]));
}

#[test]
fn test_parse_list_multiple_symbols() {
    let result = parse("(foo bar baz)").unwrap();
    assert_eq!(
        result,
        Sexpr::List(vec![
            Sexpr::Symbol("foo".to_string()),
            Sexpr::Symbol("bar".to_string()),
            Sexpr::Symbol("baz".to_string()),
        ])
    );
}

#[test]
fn test_parse_list_mixed() {
    let result = parse("(note :pitch C4)").unwrap();
    assert_eq!(
        result,
        Sexpr::List(vec![
            Sexpr::Symbol("note".to_string()),
            Sexpr::Keyword("pitch".to_string()),
            Sexpr::Symbol("C4".to_string()),
        ])
    );
}

#[test]
fn test_parse_list_nested() {
    let result = parse("(outer (inner))").unwrap();
    assert_eq!(
        result,
        Sexpr::List(vec![
            Sexpr::Symbol("outer".to_string()),
            Sexpr::List(vec![Sexpr::Symbol("inner".to_string())]),
        ])
    );
}

#[test]
fn test_parse_list_deeply_nested() {
    let result = parse("(a (b (c d)))").unwrap();
    assert_eq!(
        result,
        Sexpr::List(vec![
            Sexpr::Symbol("a".to_string()),
            Sexpr::List(vec![
                Sexpr::Symbol("b".to_string()),
                Sexpr::List(vec![
                    Sexpr::Symbol("c".to_string()),
                    Sexpr::Symbol("d".to_string()),
                ]),
            ]),
        ])
    );
}

#[test]
fn test_parse_list_with_numbers() {
    let result = parse("(pos 10 -20.5)").unwrap();
    assert_eq!(
        result,
        Sexpr::List(vec![
            Sexpr::Symbol("pos".to_string()),
            Sexpr::Integer(10),
            Sexpr::Float(Decimal::new(-205, 1)),
        ])
    );
}

#[test]
fn test_parse_leading_whitespace() {
    let result = parse("   foo").unwrap();
    assert_eq!(result, Sexpr::Symbol("foo".to_string()));
}

#[test]
fn test_parse_trailing_whitespace() {
    let result = parse("foo   ").unwrap();
    assert_eq!(result, Sexpr::Symbol("foo".to_string()));
}

#[test]
fn test_parse_list_with_extra_whitespace() {
    let result = parse("(  foo   bar  )").unwrap();
    assert_eq!(
        result,
        Sexpr::List(vec![
            Sexpr::Symbol("foo".to_string()),
            Sexpr::Symbol("bar".to_string()),
        ])
    );
}

#[test]
fn test_parse_list_with_newlines() {
    let result = parse("(\n  foo\n  bar\n)").unwrap();
    assert_eq!(
        result,
        Sexpr::List(vec![
            Sexpr::Symbol("foo".to_string()),
            Sexpr::Symbol("bar".to_string()),
        ])
    );
}

#[test]
fn test_parse_with_comment_before() {
    let result = parse("; comment\nfoo").unwrap();
    assert_eq!(result, Sexpr::Symbol("foo".to_string()));
}

#[test]
fn test_parse_with_comment_after() {
    let result = parse("foo ; comment").unwrap();
    assert_eq!(result, Sexpr::Symbol("foo".to_string()));
}

#[test]
fn test_parse_list_with_comments() {
    let result = parse(
        "(foo ; first element
          bar ; second element
         )",
    )
    .unwrap();
    assert_eq!(
        result,
        Sexpr::List(vec![
            Sexpr::Symbol("foo".to_string()),
            Sexpr::Symbol("bar".to_string()),
        ])
    );
}

#[test]
fn test_parse_multiple_comments() {
    let result = parse("; line 1\n; line 2\nfoo").unwrap();
    assert_eq!(result, Sexpr::Symbol("foo".to_string()));
}

#[test]
fn test_parse_all_empty() {
    let result = parse_all("").unwrap();
    assert!(result.is_empty());
}

#[test]
fn test_parse_all_single() {
    let result = parse_all("(foo)").unwrap();
    assert_eq!(result.len(), 1);
}

#[test]
fn test_parse_all_multiple() {
    let result = parse_all("(a) (b) (c)").unwrap();
    assert_eq!(result.len(), 3);
}

#[test]
fn test_parse_all_with_comments() {
    let result = parse_all("; header\n(a)\n; middle\n(b)").unwrap();
    assert_eq!(result.len(), 2);
}

#[test]
fn test_parse_all_whitespace_only() {
    let result = parse_all("   \n   ").unwrap();
    assert!(result.is_empty());
}

#[test]
fn test_parse_all_comments_only() {
    let result = parse_all("; just comments\n; more comments").unwrap();
    assert!(result.is_empty());
}

#[test]
fn test_parse_trailing_content() {
    let err = parse("(a) (b)").unwrap_err();
    assert!(matches!(err, ParseError::TrailingContent(_)));
}

#[test]
fn test_parse_unclosed_list() {
    let err = parse("(foo bar").unwrap_err();
    assert!(matches!(err, ParseError::Nom(_)));
}

#[test]
fn test_parse_unclosed_string() {
    let err = parse(r#""unterminated"#).unwrap_err();
    assert!(matches!(err, ParseError::Nom(_)));
}

#[test]
fn test_parse_unexpected_close_paren() {
    // Just a close paren should fail
    let err = parse(")").unwrap_err();
    assert!(matches!(err, ParseError::Nom(_)));
}

#[test]
fn test_parse_score_example() {
    let input = r#"
        (score-partwise :version "Decimal::new(40, 1)"
          (part-list
            (score-part :id "P1"
              (part-name "Piano")))
          (part :id "P1"
            (measure :number "1")))
    "#;
    let result = parse(input).unwrap();
    assert!(result.is_list());
    let list = result.as_list().unwrap();
    assert!(list[0].is_symbol("score-partwise"));
}

#[test]
fn test_parse_note_example() {
    let input = r#"
        (note
          :pitch (pitch :step C :octave 4)
          :duration 1
          :type quarter)
    "#;
    let result = parse(input).unwrap();
    assert!(result.is_list());
}

#[test]
fn test_round_trip_symbol() {
    let input = "foo-bar";
    let parsed = parse(input).unwrap();
    let printed = format!("{:?}", parsed);
    assert!(printed.contains("foo-bar"));
}

#[test]
fn test_round_trip_keyword() {
    let input = ":default-x";
    let parsed = parse(input).unwrap();
    assert_eq!(parsed, Sexpr::Keyword("default-x".to_string()));
}

#[test]
fn test_round_trip_list() {
    let input = "(note :pitch (pitch :step C))";
    let parsed = parse(input).unwrap();
    assert!(parsed.is_list());
    let list = parsed.as_list().unwrap();
    assert_eq!(list.len(), 3);
}

#[test]
fn trailing_text_is_cut_at_a_character_boundary() {
    let input = format!("a x{}", "é".repeat(10));
    match parse(&input) {
        Err(ParseError::TrailingContent(t)) => assert_eq!(t, format!("x{}", "é".repeat(9))),
        other => panic!("expected trailing content, got {:?}", other),
    }
    let input = format!("(a) (b) ){}", "é".repeat(10));
    match parse_all(&input) {
        Err(ParseError::TrailingContent(t)) => assert_eq!(t, format!("){}", "é".repeat(9))),
        other => panic!("expected trailing content, got {:?}", other),
    }
}
