use fermata::decimal::Decimal;
use fermata::ir::pitch::Pitch;
use fermata::sexpr::ast::Sexpr;
use fermata::sexpr::error::ConvertError;
use fermata::sexpr::error::ParseError;
use fermata::ir::notation::TechnicalElement;
use fermata::sexpr::traits::FromSexpr;
use fermata::ir::common::YesNo;

#[test]
fn test_parse_error_unexpected_eof_display() {
    let err = ParseError::UnexpectedEof;
    assert_eq!(err.to_string(), "Unexpected end of input");
}

#[test]
fn test_parse_error_unexpected_char_display() {
    let err = ParseError::UnexpectedChar('@');
    assert_eq!(err.to_string(), "Unexpected character: '@'");
}

#[test]
fn test_parse_error_unclosed_string_display() {
    let err = ParseError::UnclosedString;
    assert_eq!(err.to_string(), "Unclosed string literal");
}

#[test]
fn test_parse_error_unclosed_list_display() {
    let err = ParseError::UnclosedList;
    assert_eq!(err.to_string(), "Unclosed list (missing ')')");
}

#[test]
fn test_parse_error_invalid_escape_display() {
    let err = ParseError::InvalidEscape('x');
    assert_eq!(err.to_string(), "Invalid escape sequence: \\x");
}

#[test]
fn test_parse_error_nom_display() {
    let err = ParseError::Nom("some nom error".to_string());
    assert_eq!(err.to_string(), "Parse error: some nom error");
}

#[test]
fn test_parse_error_trailing_content_display() {
    let err = ParseError::TrailingContent("extra stuff".to_string());
    assert_eq!(err.to_string(), "Unexpected trailing content: extra stuff");
}

#[test]
fn test_parse_error_clone() {
    let err = ParseError::UnexpectedChar('!');
    let cloned = err.clone();
    assert_eq!(err, cloned);
}

#[test]
fn test_convert_error_type_mismatch_symbol() {
    let sexpr = Sexpr::Symbol("foo".to_string());
    let err = ConvertError::type_mismatch("string", &sexpr);
    let msg = err.to_string();
    assert!(msg.contains("Expected string"));
    assert!(msg.contains("symbol 'foo'"));
}

#[test]
fn test_convert_error_type_mismatch_keyword() {
    let sexpr = Sexpr::Keyword("bar".to_string());
    let err = ConvertError::type_mismatch("list", &sexpr);
    let msg = err.to_string();
    assert!(msg.contains("keyword ':bar'"));
}

#[test]
fn test_convert_error_type_mismatch_string() {
    let sexpr = Sexpr::String("hello world".to_string());
    let err = ConvertError::type_mismatch("integer", &sexpr);
    let msg = err.to_string();
    assert!(msg.contains("string \"hello world\""));
}

#[test]
fn test_convert_error_type_mismatch_long_string() {
    let sexpr =
        Sexpr::String("this is a very long string that should be truncated".to_string());
    let err = ConvertError::type_mismatch("integer", &sexpr);
    let msg = err.to_string();
    assert!(msg.contains("..."));
}

#[test]
fn test_convert_error_type_mismatch_integer() {
    let sexpr = Sexpr::Integer(42);
    let err = ConvertError::type_mismatch("string", &sexpr);
    assert!(err.to_string().contains("integer 42"));
}

#[test]
fn test_convert_error_type_mismatch_float() {
    let sexpr = Sexpr::Float(Decimal::new(314, 2));
    let err = ConvertError::type_mismatch("string", &sexpr);
    assert!(err.to_string().contains("float 3.14"));
}

#[test]
fn test_convert_error_type_mismatch_bool_true() {
    let sexpr = Sexpr::Bool(true);
    let err = ConvertError::type_mismatch("string", &sexpr);
    assert!(err.to_string().contains("boolean #t"));
}

#[test]
fn test_convert_error_type_mismatch_bool_false() {
    let sexpr = Sexpr::Bool(false);
    let err = ConvertError::type_mismatch("string", &sexpr);
    assert!(err.to_string().contains("boolean #f"));
}

#[test]
fn test_convert_error_type_mismatch_nil() {
    let sexpr = Sexpr::Nil;
    let err = ConvertError::type_mismatch("string", &sexpr);
    assert!(err.to_string().contains("nil"));
}

#[test]
fn test_convert_error_type_mismatch_empty_list() {
    let sexpr = Sexpr::List(vec![]);
    let err = ConvertError::type_mismatch("string", &sexpr);
    assert!(err.to_string().contains("empty list ()"));
}

#[test]
fn test_convert_error_type_mismatch_list_with_head() {
    let sexpr = Sexpr::List(vec![Sexpr::Symbol("note".to_string())]);
    let err = ConvertError::type_mismatch("string", &sexpr);
    assert!(err.to_string().contains("list with head 'note'"));
}

#[test]
fn test_convert_error_type_mismatch_list_without_symbol_head() {
    let sexpr = Sexpr::List(vec![Sexpr::Integer(1), Sexpr::Integer(2)]);
    let err = ConvertError::type_mismatch("string", &sexpr);
    assert!(err.to_string().contains("list with 2 items"));
}

#[test]
fn test_convert_error_missing_field_display() {
    let err = ConvertError::MissingField("step");
    assert_eq!(err.to_string(), "Missing required field: step");
}

#[test]
fn test_convert_error_unknown_keyword_display() {
    let err = ConvertError::UnknownKeyword("foo".to_string());
    assert_eq!(err.to_string(), "Unknown keyword: :foo");
}

#[test]
fn test_convert_error_invalid_value_display() {
    let err = ConvertError::InvalidValue {
        field: "octave",
        value: "eleven".to_string(),
    };
    assert_eq!(err.to_string(), "Invalid value for octave: eleven");
}

#[test]
fn test_convert_error_invalid_value_helper() {
    let err = ConvertError::invalid_value("step", "X");
    assert_eq!(err.to_string(), "Invalid value for step: X");
}

#[test]
fn test_convert_error_expected_head_display() {
    let err = ConvertError::ExpectedHead("pitch");
    assert_eq!(err.to_string(), "Expected list with head 'pitch'");
}

#[test]
fn test_convert_error_invalid_variant_display() {
    let err = ConvertError::InvalidVariant("unknown".to_string());
    assert_eq!(err.to_string(), "Invalid enum variant: unknown");
}

#[test]
fn test_convert_error_with_context() {
    let inner = ConvertError::MissingField("step");
    let err = inner.with_context("parsing Pitch");
    let msg = err.to_string();
    assert!(msg.contains("parsing Pitch"));
    assert!(msg.contains("Missing required field: step"));
}

#[test]
fn test_convert_error_clone() {
    let err = ConvertError::MissingField("step");
    let cloned = err.clone();
    assert_eq!(err, cloned);
}

#[test]
fn test_convert_error_context_clone() {
    let inner = ConvertError::MissingField("step");
    let err = inner.with_context("test");
    let cloned = err.clone();
    assert_eq!(err, cloned);
}

#[test]
fn unknown_technical_with_long_text_is_a_type_mismatch() {
    let s = Sexpr::list(vec![Sexpr::symbol("unknown-technical"), Sexpr::string(&"é".repeat(15))]);
    match TechnicalElement::from_sexpr(&s) {
        Err(ConvertError::TypeMismatch { found, .. }) => {
            assert_eq!(found, "list with head 'unknown-technical'")
        }
        other => panic!("expected a type mismatch, got {:?}", other),
    }
}

#[test]
fn long_strings_are_described_by_their_first_bytes() {
    let s = Sexpr::string("abcdefghijklmnopqrstuvwxyz");
    match YesNo::from_sexpr(&s) {
        Err(ConvertError::TypeMismatch { found, .. }) => assert_eq!(found, "string \"abcdefghijklmnopq...\""),
        other => panic!("expected a type mismatch, got {:?}", other),
    }
}
