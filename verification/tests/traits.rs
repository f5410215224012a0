use fermata::ir::note::Note;
use fermata::sexpr::ast::Sexpr;
use fermata::sexpr::traits::FromSexpr;
use fermata::sexpr::traits::ToSexpr;

#[test]
fn test_string_to_sexpr() {
    let s = "hello".to_string();
    assert_eq!(s.to_sexpr(), Sexpr::String("hello".to_string()));
}

#[test]
fn test_str_to_sexpr() {
    let s: &str = "world";
    assert_eq!(s.to_sexpr(), Sexpr::String("world".to_string()));
}

#[test]
fn test_string_from_sexpr_string() {
    let sexpr = Sexpr::String("hello".to_string());
    assert_eq!(String::from_sexpr(&sexpr).unwrap(), "hello");
}

#[test]
fn test_string_from_sexpr_symbol() {
    let sexpr = Sexpr::Symbol("world".to_string());
    assert_eq!(String::from_sexpr(&sexpr).unwrap(), "world");
}

#[test]
fn test_string_from_sexpr_type_mismatch() {
    let sexpr = Sexpr::Integer(42);
    assert!(String::from_sexpr(&sexpr).is_err());
}

#[test]
fn test_bool_true_to_sexpr() {
    assert_eq!(true.to_sexpr(), Sexpr::Symbol("t".to_string()));
}

#[test]
fn test_bool_false_to_sexpr() {
    assert_eq!(false.to_sexpr(), Sexpr::Symbol("nil".to_string()));
}

#[test]
fn test_bool_from_sexpr_t() {
    let sexpr = Sexpr::Symbol("t".to_string());
    assert_eq!(bool::from_sexpr(&sexpr).unwrap(), true);
}

#[test]
fn test_bool_from_sexpr_true() {
    let sexpr = Sexpr::Symbol("true".to_string());
    assert_eq!(bool::from_sexpr(&sexpr).unwrap(), true);
}

#[test]
fn test_bool_from_sexpr_hash_t() {
    let sexpr = Sexpr::Symbol("#t".to_string());
    assert_eq!(bool::from_sexpr(&sexpr).unwrap(), true);
}

#[test]
fn test_bool_from_sexpr_nil() {
    let sexpr = Sexpr::Symbol("nil".to_string());
    assert_eq!(bool::from_sexpr(&sexpr).unwrap(), false);
}

#[test]
fn test_bool_from_sexpr_false() {
    let sexpr = Sexpr::Symbol("false".to_string());
    assert_eq!(bool::from_sexpr(&sexpr).unwrap(), false);
}

#[test]
fn test_bool_from_sexpr_hash_f() {
    let sexpr = Sexpr::Symbol("#f".to_string());
    assert_eq!(bool::from_sexpr(&sexpr).unwrap(), false);
}

#[test]
fn test_bool_from_sexpr_bool_variant() {
    assert_eq!(bool::from_sexpr(&Sexpr::Bool(true)).unwrap(), true);
    assert_eq!(bool::from_sexpr(&Sexpr::Bool(false)).unwrap(), false);
}

#[test]
fn test_bool_from_sexpr_type_mismatch() {
    let sexpr = Sexpr::Integer(1);
    assert!(bool::from_sexpr(&sexpr).is_err());
}

#[test]
fn test_i32_to_sexpr() {
    assert_eq!(42i32.to_sexpr(), Sexpr::Integer(42));
}

#[test]
fn test_i64_to_sexpr() {
    assert_eq!((-100i64).to_sexpr(), Sexpr::Integer(-100));
}

#[test]
fn test_u8_to_sexpr() {
    assert_eq!(255u8.to_sexpr(), Sexpr::Integer(255));
}

#[test]
fn test_i32_from_sexpr_integer() {
    let sexpr = Sexpr::Integer(42);
    assert_eq!(i32::from_sexpr(&sexpr).unwrap(), 42);
}

#[test]
fn test_i32_from_sexpr_symbol() {
    let sexpr = Sexpr::Symbol("-123".to_string());
    assert_eq!(i32::from_sexpr(&sexpr).unwrap(), -123);
}

#[test]
fn test_u8_from_sexpr_overflow() {
    let sexpr = Sexpr::Integer(256);
    assert!(u8::from_sexpr(&sexpr).is_err());
}

#[test]
fn test_i32_from_sexpr_type_mismatch() {
    let sexpr = Sexpr::String("not a number".to_string());
    assert!(i32::from_sexpr(&sexpr).is_err());
}

#[test]
fn test_i32_from_sexpr_invalid_symbol() {
    let sexpr = Sexpr::Symbol("abc".to_string());
    assert!(i32::from_sexpr(&sexpr).is_err());
}

#[test]
fn test_option_some_to_sexpr() {
    let opt: Option<i32> = Some(42);
    assert_eq!(opt.to_sexpr(), Sexpr::Integer(42));
}

#[test]
fn test_option_none_to_sexpr() {
    let opt: Option<i32> = None;
    assert_eq!(opt.to_sexpr(), Sexpr::Nil);
}

#[test]
fn test_option_from_sexpr_some() {
    let sexpr = Sexpr::Integer(42);
    assert_eq!(Option::<i32>::from_sexpr(&sexpr).unwrap(), Some(42));
}

#[test]
fn test_option_from_sexpr_nil() {
    let sexpr = Sexpr::Nil;
    assert_eq!(Option::<i32>::from_sexpr(&sexpr).unwrap(), None);
}

#[test]
fn test_option_from_sexpr_nil_symbol() {
    let sexpr = Sexpr::Symbol("nil".to_string());
    assert_eq!(Option::<i32>::from_sexpr(&sexpr).unwrap(), None);
}

#[test]
fn test_vec_to_sexpr() {
    let v = vec![1i32, 2, 3];
    assert_eq!(
        v.to_sexpr(),
        Sexpr::List(vec![Sexpr::Integer(1), Sexpr::Integer(2), Sexpr::Integer(3)])
    );
}

#[test]
fn test_vec_empty_to_sexpr() {
    let v: Vec<i32> = vec![];
    assert_eq!(v.to_sexpr(), Sexpr::List(vec![]));
}

#[test]
fn test_vec_from_sexpr() {
    let sexpr = Sexpr::List(vec![Sexpr::Integer(1), Sexpr::Integer(2), Sexpr::Integer(3)]);
    assert_eq!(Vec::<i32>::from_sexpr(&sexpr).unwrap(), vec![1, 2, 3]);
}

#[test]
fn test_vec_from_sexpr_empty() {
    let sexpr = Sexpr::List(vec![]);
    assert_eq!(Vec::<i32>::from_sexpr(&sexpr).unwrap(), Vec::<i32>::new());
}

#[test]
fn test_vec_from_sexpr_type_mismatch() {
    let sexpr = Sexpr::Integer(42);
    assert!(Vec::<i32>::from_sexpr(&sexpr).is_err());
}

#[test]
fn test_vec_from_sexpr_item_error() {
    let sexpr = Sexpr::List(vec![
        Sexpr::Integer(1),
        Sexpr::String("not a number".to_string()),
    ]);
    assert!(Vec::<i32>::from_sexpr(&sexpr).is_err());
}

#[test]
fn test_sexpr_to_sexpr() {
    let original = Sexpr::Symbol("test".to_string());
    assert_eq!(original.to_sexpr(), original);
}

#[test]
fn test_sexpr_from_sexpr() {
    let original = Sexpr::List(vec![Sexpr::Integer(1)]);
    assert_eq!(Sexpr::from_sexpr(&original).unwrap(), original);
}

#[test]
fn test_string_round_trip() {
    let original = "hello world".to_string();
    let sexpr = original.to_sexpr();
    let parsed = String::from_sexpr(&sexpr).unwrap();
    assert_eq!(original, parsed);
}

#[test]
fn test_i64_round_trip() {
    let original = -12345i64;
    let sexpr = original.to_sexpr();
    let parsed = i64::from_sexpr(&sexpr).unwrap();
    assert_eq!(original, parsed);
}

#[test]
fn test_bool_true_round_trip() {
    let original = true;
    let sexpr = original.to_sexpr();
    // Note: round trip requires parsing "t" symbol
    let parsed = bool::from_sexpr(&sexpr).unwrap();
    assert_eq!(original, parsed);
}

#[test]
fn test_vec_i32_round_trip() {
    let original = vec![1i32, 2, 3, 4, 5];
    let sexpr = original.to_sexpr();
    let parsed = Vec::<i32>::from_sexpr(&sexpr).unwrap();
    assert_eq!(original, parsed);
}
