//! Conversion between typed values and S-expressions, and the conversions
//! of strings, booleans, integers, decimals, optional values, vectors and
//! S-expressions themselves.

use vstd::prelude::*;
use crate::decimal::{Decimal, decimal_from_parts, decimal_of_digits};
use crate::text::{int_text, int_text_value, parse_int_text, chars_of, all_digits, is_digit};
use super::ast::{Sexpr, SexprV, views_of, lemma_views_of, lemma_views_of_push};
use super::error::{ConvertError, ConvertErrorV, error_describable, type_mismatch_v};
use super::parser::digits_end;

verus! {

/// Conversion of a value to an S-expression.
pub trait ToSexpr {
    /// The S-expression value that `to_sexpr` gives for this value.
    spec fn to_sexpr_spec(&self) -> SexprV;

    /// The S-expression of this value.
    fn to_sexpr(&self) -> (r: Sexpr)
        ensures
            r@ == self.to_sexpr_spec(),
    ;
}

/// Conversion of an S-expression to a value.
///
/// The conversion of `s` fails with `from_sexpr_error(s)` where that is
/// `Some`; where it is `None` it succeeds with the one value `v` for which
/// `from_sexpr_value(s, v)` holds.
pub trait FromSexpr: Sized {
    /// The error of converting `s`, or `None` when the conversion succeeds.
    spec fn from_sexpr_error(s: SexprV) -> Option<ConvertErrorV>;

    /// Whether `v` is the value that `s` converts to.
    spec fn from_sexpr_value(s: SexprV, v: Self) -> bool;

    /// Converts an S-expression to a value of this type.
    fn from_sexpr(sexpr: &Sexpr) -> (r: Result<Self, ConvertError>)
        requires
            error_describable(Self::from_sexpr_error(sexpr@)),
        ensures
            match r {
                Ok(v) => Self::from_sexpr_error(sexpr@) is None && Self::from_sexpr_value(sexpr@, v),
                Err(e) => Self::from_sexpr_error(sexpr@) == Some(e@),
            },
    ;
}

// === Strings ===

impl ToSexpr for String {
    open spec fn to_sexpr_spec(&self) -> SexprV {
        SexprV::Str(self@)
    }

    fn to_sexpr(&self) -> (r: Sexpr) {
        Sexpr::String(self.clone())
    }
}

impl<'a> ToSexpr for &'a str {
    open spec fn to_sexpr_spec(&self) -> SexprV {
        SexprV::Str((*self)@)
    }

    fn to_sexpr(&self) -> (r: Sexpr) {
        Sexpr::String((*self).to_owned())
    }
}

impl FromSexpr for String {
    /// A string or a symbol gives its text.
    open spec fn from_sexpr_error(s: SexprV) -> Option<ConvertErrorV> {
        match s {
            SexprV::Str(_) => None,
            SexprV::Symbol(_) => None,
            _ => Some(type_mismatch_v("string"@, s)),
        }
    }

    open spec fn from_sexpr_value(s: SexprV, v: String) -> bool {
        match s {
            SexprV::Str(t) => v@ == t,
            SexprV::Symbol(t) => v@ == t,
            _ => false,
        }
    }

    fn from_sexpr(sexpr: &Sexpr) -> (r: Result<String, ConvertError>) {
        match sexpr {
            Sexpr::String(s) => Ok(s.clone()),
            Sexpr::Symbol(s) => Ok(s.clone()),
            _ => Err(ConvertError::type_mismatch("string", sexpr)),
        }
    }
}

// === Booleans ===

impl ToSexpr for bool {
    /// `t` for true, `nil` for false.
    open spec fn to_sexpr_spec(&self) -> SexprV {
        SexprV::Symbol(if *self { "t"@ } else { "nil"@ })
    }

    fn to_sexpr(&self) -> (r: Sexpr) {
        Sexpr::symbol(if *self { "t" } else { "nil" })
    }
}

/// The symbols that stand for true.
pub open spec fn true_symbol(t: Seq<char>) -> bool {
    t == "t"@ || t == "true"@ || t == "#t"@
}

/// The symbols that stand for false.
pub open spec fn false_symbol(t: Seq<char>) -> bool {
    t == "nil"@ || t == "false"@ || t == "#f"@
}

impl FromSexpr for bool {
    /// A boolean, or one of the symbols `t`, `true`, `#t`, `nil`, `false`,
    /// `#f`.
    open spec fn from_sexpr_error(s: SexprV) -> Option<ConvertErrorV> {
        match s {
            SexprV::Bool(_) => None,
            SexprV::Symbol(t) => if true_symbol(t) || false_symbol(t) {
                None
            } else {
                Some(type_mismatch_v("boolean (t/nil)"@, s))
            },
            _ => Some(type_mismatch_v("boolean (t/nil)"@, s)),
        }
    }

    open spec fn from_sexpr_value(s: SexprV, v: bool) -> bool {
        match s {
            SexprV::Bool(b) => v == b,
            SexprV::Symbol(t) => if true_symbol(t) {
                v
            } else {
                false_symbol(t) && !v
            },
            _ => false,
        }
    }

    fn from_sexpr(sexpr: &Sexpr) -> (r: Result<bool, ConvertError>) {
        match sexpr {
            Sexpr::Bool(b) => Ok(*b),
            Sexpr::Symbol(s) => {
                let t = s.as_str();
                if crate::text::str_eq(t, "t") || crate::text::str_eq(t, "true") || crate::text::str_eq(t, "#t") {
                    Ok(true)
                } else if crate::text::str_eq(t, "nil") || crate::text::str_eq(t, "false") || crate::text::str_eq(t, "#f") {
                    Ok(false)
                } else {
                    Err(ConvertError::type_mismatch("boolean (t/nil)", sexpr))
                }
            },
            _ => Err(ConvertError::type_mismatch("boolean (t/nil)", sexpr)),
        }
    }
}

// === Integers ===

impl ToSexpr for i8 {
    /// The integer, as `i64` holds it.
    open spec fn to_sexpr_spec(&self) -> SexprV {
        SexprV::Integer((*self as i64) as int)
    }

    fn to_sexpr(&self) -> (r: Sexpr) {
        Sexpr::Integer(*self as i64)
    }
}

impl FromSexpr for i8 {
    /// An integer within the range of `i8`, or a symbol that `str::parse`
    /// reads as one.
    open spec fn from_sexpr_error(s: SexprV) -> Option<ConvertErrorV> {
        match s {
            SexprV::Integer(i) => if i8::MIN <= i <= i8::MAX {
                None
            } else {
                Some(ConvertErrorV::InvalidValue { field: "i8"@, value: int_text(i) })
            },
            SexprV::Symbol(x) => match int_text_value(x, true) {
                Some(i) => if i8::MIN <= i <= i8::MAX {
                    None
                } else {
                    Some(ConvertErrorV::InvalidValue { field: "i8"@, value: x })
                },
                None => Some(ConvertErrorV::InvalidValue { field: "i8"@, value: x }),
            },
            _ => Some(type_mismatch_v("i8"@, s)),
        }
    }

    open spec fn from_sexpr_value(s: SexprV, v: i8) -> bool {
        match s {
            SexprV::Integer(i) => v as int == i,
            SexprV::Symbol(x) => int_text_value(x, true) == Some(v as int),
            _ => false,
        }
    }

    fn from_sexpr(sexpr: &Sexpr) -> (r: Result<i8, ConvertError>) {
        match sexpr {
            Sexpr::Integer(i) => {
                if i8::MIN as i128 <= *i as i128 && *i as i128 <= i8::MAX as i128 {
                    Ok(*i as i8)
                } else {
                    let v = crate::text::i64_string(*i);
                    Err(ConvertError::InvalidValue { field: "i8", value: v })
                }
            },
            Sexpr::Symbol(x) => {
                let cs = chars_of(x.as_str());
                match parse_int_text(&cs, true) {
                    Some(i) => {
                        if i8::MIN as i128 <= i && i <= i8::MAX as i128 {
                            Ok(i as i8)
                        } else {
                            Err(ConvertError::InvalidValue { field: "i8", value: x.clone() })
                        }
                    },
                    None => Err(ConvertError::InvalidValue { field: "i8", value: x.clone() }),
                }
            },
            _ => Err(ConvertError::type_mismatch("i8", sexpr)),
        }
    }
}

impl ToSexpr for i16 {
    /// The integer, as `i64` holds it.
    open spec fn to_sexpr_spec(&self) -> SexprV {
        SexprV::Integer((*self as i64) as int)
    }

    fn to_sexpr(&self) -> (r: Sexpr) {
        Sexpr::Integer(*self as i64)
    }
}

impl FromSexpr for i16 {
    /// An integer within the range of `i16`, or a symbol that `str::parse`
    /// reads as one.
    open spec fn from_sexpr_error(s: SexprV) -> Option<ConvertErrorV> {
        match s {
            SexprV::Integer(i) => if i16::MIN <= i <= i16::MAX {
                None
            } else {
                Some(ConvertErrorV::InvalidValue { field: "i16"@, value: int_text(i) })
            },
            SexprV::Symbol(x) => match int_text_value(x, true) {
                Some(i) => if i16::MIN <= i <= i16::MAX {
                    None
                } else {
                    Some(ConvertErrorV::InvalidValue { field: "i16"@, value: x })
                },
                None => Some(ConvertErrorV::InvalidValue { field: "i16"@, value: x }),
            },
            _ => Some(type_mismatch_v("i16"@, s)),
        }
    }

    open spec fn from_sexpr_value(s: SexprV, v: i16) -> bool {
        match s {
            SexprV::Integer(i) => v as int == i,
            SexprV::Symbol(x) => int_text_value(x, true) == Some(v as int),
            _ => false,
        }
    }

    fn from_sexpr(sexpr: &Sexpr) -> (r: Result<i16, ConvertError>) {
        match sexpr {
            Sexpr::Integer(i) => {
                if i16::MIN as i128 <= *i as i128 && *i as i128 <= i16::MAX as i128 {
                    Ok(*i as i16)
                } else {
                    let v = crate::text::i64_string(*i);
                    Err(ConvertError::InvalidValue { field: "i16", value: v })
                }
            },
            Sexpr::Symbol(x) => {
                let cs = chars_of(x.as_str());
                match parse_int_text(&cs, true) {
                    Some(i) => {
                        if i16::MIN as i128 <= i && i <= i16::MAX as i128 {
                            Ok(i as i16)
                        } else {
                            Err(ConvertError::InvalidValue { field: "i16", value: x.clone() })
                        }
                    },
                    None => Err(ConvertError::InvalidValue { field: "i16", value: x.clone() }),
                }
            },
            _ => Err(ConvertError::type_mismatch("i16", sexpr)),
        }
    }
}

impl ToSexpr for i32 {
    /// The integer, as `i64` holds it.
    open spec fn to_sexpr_spec(&self) -> SexprV {
        SexprV::Integer((*self as i64) as int)
    }

    fn to_sexpr(&self) -> (r: Sexpr) {
        Sexpr::Integer(*self as i64)
    }
}

impl FromSexpr for i32 {
    /// An integer within the range of `i32`, or a symbol that `str::parse`
    /// reads as one.
    open spec fn from_sexpr_error(s: SexprV) -> Option<ConvertErrorV> {
        match s {
            SexprV::Integer(i) => if i32::MIN <= i <= i32::MAX {
                None
            } else {
                Some(ConvertErrorV::InvalidValue { field: "i32"@, value: int_text(i) })
            },
            SexprV::Symbol(x) => match int_text_value(x, true) {
                Some(i) => if i32::MIN <= i <= i32::MAX {
                    None
                } else {
                    Some(ConvertErrorV::InvalidValue { field: "i32"@, value: x })
                },
                None => Some(ConvertErrorV::InvalidValue { field: "i32"@, value: x }),
            },
            _ => Some(type_mismatch_v("i32"@, s)),
        }
    }

    open spec fn from_sexpr_value(s: SexprV, v: i32) -> bool {
        match s {
            SexprV::Integer(i) => v as int == i,
            SexprV::Symbol(x) => int_text_value(x, true) == Some(v as int),
            _ => false,
        }
    }

    fn from_sexpr(sexpr: &Sexpr) -> (r: Result<i32, ConvertError>) {
        match sexpr {
            Sexpr::Integer(i) => {
                if i32::MIN as i128 <= *i as i128 && *i as i128 <= i32::MAX as i128 {
                    Ok(*i as i32)
                } else {
                    let v = crate::text::i64_string(*i);
                    Err(ConvertError::InvalidValue { field: "i32", value: v })
                }
            },
            Sexpr::Symbol(x) => {
                let cs = chars_of(x.as_str());
                match parse_int_text(&cs, true) {
                    Some(i) => {
                        if i32::MIN as i128 <= i && i <= i32::MAX as i128 {
                            Ok(i as i32)
                        } else {
                            Err(ConvertError::InvalidValue { field: "i32", value: x.clone() })
                        }
                    },
                    None => Err(ConvertError::InvalidValue { field: "i32", value: x.clone() }),
                }
            },
            _ => Err(ConvertError::type_mismatch("i32", sexpr)),
        }
    }
}

impl ToSexpr for i64 {
    /// The integer, as `i64` holds it.
    open spec fn to_sexpr_spec(&self) -> SexprV {
        SexprV::Integer((*self as i64) as int)
    }

    fn to_sexpr(&self) -> (r: Sexpr) {
        Sexpr::Integer(*self as i64)
    }
}

impl FromSexpr for i64 {
    /// An integer within the range of `i64`, or a symbol that `str::parse`
    /// reads as one.
    open spec fn from_sexpr_error(s: SexprV) -> Option<ConvertErrorV> {
        match s {
            SexprV::Integer(i) => if i64::MIN <= i <= i64::MAX {
                None
            } else {
                Some(ConvertErrorV::InvalidValue { field: "i64"@, value: int_text(i) })
            },
            SexprV::Symbol(x) => match int_text_value(x, true) {
                Some(i) => if i64::MIN <= i <= i64::MAX {
                    None
                } else {
                    Some(ConvertErrorV::InvalidValue { field: "i64"@, value: x })
                },
                None => Some(ConvertErrorV::InvalidValue { field: "i64"@, value: x }),
            },
            _ => Some(type_mismatch_v("i64"@, s)),
        }
    }

    open spec fn from_sexpr_value(s: SexprV, v: i64) -> bool {
        match s {
            SexprV::Integer(i) => v as int == i,
            SexprV::Symbol(x) => int_text_value(x, true) == Some(v as int),
            _ => false,
        }
    }

    fn from_sexpr(sexpr: &Sexpr) -> (r: Result<i64, ConvertError>) {
        match sexpr {
            Sexpr::Integer(i) => {
                if i64::MIN as i128 <= *i as i128 && *i as i128 <= i64::MAX as i128 {
                    Ok(*i as i64)
                } else {
                    let v = crate::text::i64_string(*i);
                    Err(ConvertError::InvalidValue { field: "i64", value: v })
                }
            },
            Sexpr::Symbol(x) => {
                let cs = chars_of(x.as_str());
                match parse_int_text(&cs, true) {
                    Some(i) => {
                        if i64::MIN as i128 <= i && i <= i64::MAX as i128 {
                            Ok(i as i64)
                        } else {
                            Err(ConvertError::InvalidValue { field: "i64", value: x.clone() })
                        }
                    },
                    None => Err(ConvertError::InvalidValue { field: "i64", value: x.clone() }),
                }
            },
            _ => Err(ConvertError::type_mismatch("i64", sexpr)),
        }
    }
}

impl ToSexpr for isize {
    /// The integer, as `i64` holds it.
    open spec fn to_sexpr_spec(&self) -> SexprV {
        SexprV::Integer((*self as i64) as int)
    }

    fn to_sexpr(&self) -> (r: Sexpr) {
        Sexpr::Integer(*self as i64)
    }
}

impl FromSexpr for isize {
    /// An integer within the range of `isize`, or a symbol that `str::parse`
    /// reads as one.
    open spec fn from_sexpr_error(s: SexprV) -> Option<ConvertErrorV> {
        match s {
            SexprV::Integer(i) => if isize::MIN <= i <= isize::MAX {
                None
            } else {
                Some(ConvertErrorV::InvalidValue { field: "isize"@, value: int_text(i) })
            },
            SexprV::Symbol(x) => match int_text_value(x, true) {
                Some(i) => if isize::MIN <= i <= isize::MAX {
                    None
                } else {
                    Some(ConvertErrorV::InvalidValue { field: "isize"@, value: x })
                },
                None => Some(ConvertErrorV::InvalidValue { field: "isize"@, value: x }),
            },
            _ => Some(type_mismatch_v("isize"@, s)),
        }
    }

    open spec fn from_sexpr_value(s: SexprV, v: isize) -> bool {
        match s {
            SexprV::Integer(i) => v as int == i,
            SexprV::Symbol(x) => int_text_value(x, true) == Some(v as int),
            _ => false,
        }
    }

    fn from_sexpr(sexpr: &Sexpr) -> (r: Result<isize, ConvertError>) {
        match sexpr {
            Sexpr::Integer(i) => {
                if isize::MIN as i128 <= *i as i128 && *i as i128 <= isize::MAX as i128 {
                    Ok(*i as isize)
                } else {
                    let v = crate::text::i64_string(*i);
                    Err(ConvertError::InvalidValue { field: "isize", value: v })
                }
            },
            Sexpr::Symbol(x) => {
                let cs = chars_of(x.as_str());
                match parse_int_text(&cs, true) {
                    Some(i) => {
                        if isize::MIN as i128 <= i && i <= isize::MAX as i128 {
                            Ok(i as isize)
                        } else {
                            Err(ConvertError::InvalidValue { field: "isize", value: x.clone() })
                        }
                    },
                    None => Err(ConvertError::InvalidValue { field: "isize", value: x.clone() }),
                }
            },
            _ => Err(ConvertError::type_mismatch("isize", sexpr)),
        }
    }
}

impl ToSexpr for u8 {
    /// The integer, as `i64` holds it.
    open spec fn to_sexpr_spec(&self) -> SexprV {
        SexprV::Integer((*self as i64) as int)
    }

    fn to_sexpr(&self) -> (r: Sexpr) {
        Sexpr::Integer(*self as i64)
    }
}

impl FromSexpr for u8 {
    /// An integer within the range of `u8`, or a symbol that `str::parse`
    /// reads as one.
    open spec fn from_sexpr_error(s: SexprV) -> Option<ConvertErrorV> {
        match s {
            SexprV::Integer(i) => if u8::MIN <= i <= u8::MAX {
                None
            } else {
                Some(ConvertErrorV::InvalidValue { field: "u8"@, value: int_text(i) })
            },
            SexprV::Symbol(x) => match int_text_value(x, false) {
                Some(i) => if u8::MIN <= i <= u8::MAX {
                    None
                } else {
                    Some(ConvertErrorV::InvalidValue { field: "u8"@, value: x })
                },
                None => Some(ConvertErrorV::InvalidValue { field: "u8"@, value: x }),
            },
            _ => Some(type_mismatch_v("u8"@, s)),
        }
    }

    open spec fn from_sexpr_value(s: SexprV, v: u8) -> bool {
        match s {
            SexprV::Integer(i) => v as int == i,
            SexprV::Symbol(x) => int_text_value(x, false) == Some(v as int),
            _ => false,
        }
    }

    fn from_sexpr(sexpr: &Sexpr) -> (r: Result<u8, ConvertError>) {
        match sexpr {
            Sexpr::Integer(i) => {
                if u8::MIN as i128 <= *i as i128 && *i as i128 <= u8::MAX as i128 {
                    Ok(*i as u8)
                } else {
                    let v = crate::text::i64_string(*i);
                    Err(ConvertError::InvalidValue { field: "u8", value: v })
                }
            },
            Sexpr::Symbol(x) => {
                let cs = chars_of(x.as_str());
                match parse_int_text(&cs, false) {
                    Some(i) => {
                        if u8::MIN as i128 <= i && i <= u8::MAX as i128 {
                            Ok(i as u8)
                        } else {
                            Err(ConvertError::InvalidValue { field: "u8", value: x.clone() })
                        }
                    },
                    None => Err(ConvertError::InvalidValue { field: "u8", value: x.clone() }),
                }
            },
            _ => Err(ConvertError::type_mismatch("u8", sexpr)),
        }
    }
}

impl ToSexpr for u16 {
    /// The integer, as `i64` holds it.
    open spec fn to_sexpr_spec(&self) -> SexprV {
        SexprV::Integer((*self as i64) as int)
    }

    fn to_sexpr(&self) -> (r: Sexpr) {
        Sexpr::Integer(*self as i64)
    }
}

impl FromSexpr for u16 {
    /// An integer within the range of `u16`, or a symbol that `str::parse`
    /// reads as one.
    open spec fn from_sexpr_error(s: SexprV) -> Option<ConvertErrorV> {
        match s {
            SexprV::Integer(i) => if u16::MIN <= i <= u16::MAX {
                None
            } else {
                Some(ConvertErrorV::InvalidValue { field: "u16"@, value: int_text(i) })
            },
            SexprV::Symbol(x) => match int_text_value(x, false) {
                Some(i) => if u16::MIN <= i <= u16::MAX {
                    None
                } else {
                    Some(ConvertErrorV::InvalidValue { field: "u16"@, value: x })
                },
                None => Some(ConvertErrorV::InvalidValue { field: "u16"@, value: x }),
            },
            _ => Some(type_mismatch_v("u16"@, s)),
        }
    }

    open spec fn from_sexpr_value(s: SexprV, v: u16) -> bool {
        match s {
            SexprV::Integer(i) => v as int == i,
            SexprV::Symbol(x) => int_text_value(x, false) == Some(v as int),
            _ => false,
        }
    }

    fn from_sexpr(sexpr: &Sexpr) -> (r: Result<u16, ConvertError>) {
        match sexpr {
            Sexpr::Integer(i) => {
                if u16::MIN as i128 <= *i as i128 && *i as i128 <= u16::MAX as i128 {
                    Ok(*i as u16)
                } else {
                    let v = crate::text::i64_string(*i);
                    Err(ConvertError::InvalidValue { field: "u16", value: v })
                }
            },
            Sexpr::Symbol(x) => {
                let cs = chars_of(x.as_str());
                match parse_int_text(&cs, false) {
                    Some(i) => {
                        if u16::MIN as i128 <= i && i <= u16::MAX as i128 {
                            Ok(i as u16)
                        } else {
                            Err(ConvertError::InvalidValue { field: "u16", value: x.clone() })
                        }
                    },
                    None => Err(ConvertError::InvalidValue { field: "u16", value: x.clone() }),
                }
            },
            _ => Err(ConvertError::type_mismatch("u16", sexpr)),
        }
    }
}

impl ToSexpr for u32 {
    /// The integer, as `i64` holds it.
    open spec fn to_sexpr_spec(&self) -> SexprV {
        SexprV::Integer((*self as i64) as int)
    }

    fn to_sexpr(&self) -> (r: Sexpr) {
        Sexpr::Integer(*self as i64)
    }
}

impl FromSexpr for u32 {
    /// An integer within the range of `u32`, or a symbol that `str::parse`
    /// reads as one.
    open spec fn from_sexpr_error(s: SexprV) -> Option<ConvertErrorV> {
        match s {
            SexprV::Integer(i) => if u32::MIN <= i <= u32::MAX {
                None
            } else {
                Some(ConvertErrorV::InvalidValue { field: "u32"@, value: int_text(i) })
            },
            SexprV::Symbol(x) => match int_text_value(x, false) {
                Some(i) => if u32::MIN <= i <= u32::MAX {
                    None
                } else {
                    Some(ConvertErrorV::InvalidValue { field: "u32"@, value: x })
                },
                None => Some(ConvertErrorV::InvalidValue { field: "u32"@, value: x }),
            },
            _ => Some(type_mismatch_v("u32"@, s)),
        }
    }

    open spec fn from_sexpr_value(s: SexprV, v: u32) -> bool {
        match s {
            SexprV::Integer(i) => v as int == i,
            SexprV::Symbol(x) => int_text_value(x, false) == Some(v as int),
            _ => false,
        }
    }

    fn from_sexpr(sexpr: &Sexpr) -> (r: Result<u32, ConvertError>) {
        match sexpr {
            Sexpr::Integer(i) => {
                if u32::MIN as i128 <= *i as i128 && *i as i128 <= u32::MAX as i128 {
                    Ok(*i as u32)
                } else {
                    let v = crate::text::i64_string(*i);
                    Err(ConvertError::InvalidValue { field: "u32", value: v })
                }
            },
            Sexpr::Symbol(x) => {
                let cs = chars_of(x.as_str());
                match parse_int_text(&cs, false) {
                    Some(i) => {
                        if u32::MIN as i128 <= i && i <= u32::MAX as i128 {
                            Ok(i as u32)
                        } else {
                            Err(ConvertError::InvalidValue { field: "u32", value: x.clone() })
                        }
                    },
                    None => Err(ConvertError::InvalidValue { field: "u32", value: x.clone() }),
                }
            },
            _ => Err(ConvertError::type_mismatch("u32", sexpr)),
        }
    }
}

impl ToSexpr for u64 {
    /// The integer, as `i64` holds it.
    open spec fn to_sexpr_spec(&self) -> SexprV {
        SexprV::Integer((*self as i64) as int)
    }

    fn to_sexpr(&self) -> (r: Sexpr) {
        Sexpr::Integer(*self as i64)
    }
}

impl FromSexpr for u64 {
    /// An integer within the range of `u64`, or a symbol that `str::parse`
    /// reads as one.
    open spec fn from_sexpr_error(s: SexprV) -> Option<ConvertErrorV> {
        match s {
            SexprV::Integer(i) => if u64::MIN <= i <= u64::MAX {
                None
            } else {
                Some(ConvertErrorV::InvalidValue { field: "u64"@, value: int_text(i) })
            },
            SexprV::Symbol(x) => match int_text_value(x, false) {
                Some(i) => if u64::MIN <= i <= u64::MAX {
                    None
                } else {
                    Some(ConvertErrorV::InvalidValue { field: "u64"@, value: x })
                },
                None => Some(ConvertErrorV::InvalidValue { field: "u64"@, value: x }),
            },
            _ => Some(type_mismatch_v("u64"@, s)),
        }
    }

    open spec fn from_sexpr_value(s: SexprV, v: u64) -> bool {
        match s {
            SexprV::Integer(i) => v as int == i,
            SexprV::Symbol(x) => int_text_value(x, false) == Some(v as int),
            _ => false,
        }
    }

    fn from_sexpr(sexpr: &Sexpr) -> (r: Result<u64, ConvertError>) {
        match sexpr {
            Sexpr::Integer(i) => {
                if u64::MIN as i128 <= *i as i128 && *i as i128 <= u64::MAX as i128 {
                    Ok(*i as u64)
                } else {
                    let v = crate::text::i64_string(*i);
                    Err(ConvertError::InvalidValue { field: "u64", value: v })
                }
            },
            Sexpr::Symbol(x) => {
                let cs = chars_of(x.as_str());
                match parse_int_text(&cs, false) {
                    Some(i) => {
                        if u64::MIN as i128 <= i && i <= u64::MAX as i128 {
                            Ok(i as u64)
                        } else {
                            Err(ConvertError::InvalidValue { field: "u64", value: x.clone() })
                        }
                    },
                    None => Err(ConvertError::InvalidValue { field: "u64", value: x.clone() }),
                }
            },
            _ => Err(ConvertError::type_mismatch("u64", sexpr)),
        }
    }
}

impl ToSexpr for usize {
    /// The integer, as `i64` holds it.
    open spec fn to_sexpr_spec(&self) -> SexprV {
        SexprV::Integer((*self as i64) as int)
    }

    fn to_sexpr(&self) -> (r: Sexpr) {
        Sexpr::Integer(*self as i64)
    }
}

impl FromSexpr for usize {
    /// An integer within the range of `usize`, or a symbol that `str::parse`
    /// reads as one.
    open spec fn from_sexpr_error(s: SexprV) -> Option<ConvertErrorV> {
        match s {
            SexprV::Integer(i) => if usize::MIN <= i <= usize::MAX {
                None
            } else {
                Some(ConvertErrorV::InvalidValue { field: "usize"@, value: int_text(i) })
            },
            SexprV::Symbol(x) => match int_text_value(x, false) {
                Some(i) => if usize::MIN <= i <= usize::MAX {
                    None
                } else {
                    Some(ConvertErrorV::InvalidValue { field: "usize"@, value: x })
                },
                None => Some(ConvertErrorV::InvalidValue { field: "usize"@, value: x }),
            },
            _ => Some(type_mismatch_v("usize"@, s)),
        }
    }

    open spec fn from_sexpr_value(s: SexprV, v: usize) -> bool {
        match s {
            SexprV::Integer(i) => v as int == i,
            SexprV::Symbol(x) => int_text_value(x, false) == Some(v as int),
            _ => false,
        }
    }

    fn from_sexpr(sexpr: &Sexpr) -> (r: Result<usize, ConvertError>) {
        match sexpr {
            Sexpr::Integer(i) => {
                if usize::MIN as i128 <= *i as i128 && *i as i128 <= usize::MAX as i128 {
                    Ok(*i as usize)
                } else {
                    let v = crate::text::i64_string(*i);
                    Err(ConvertError::InvalidValue { field: "usize", value: v })
                }
            },
            Sexpr::Symbol(x) => {
                let cs = chars_of(x.as_str());
                match parse_int_text(&cs, false) {
                    Some(i) => {
                        if usize::MIN as i128 <= i && i <= usize::MAX as i128 {
                            Ok(i as usize)
                        } else {
                            Err(ConvertError::InvalidValue { field: "usize", value: x.clone() })
                        }
                    },
                    None => Err(ConvertError::InvalidValue { field: "usize", value: x.clone() }),
                }
            },
            _ => Err(ConvertError::type_mismatch("usize", sexpr)),
        }
    }
}

// === Decimals ===

/// The decimal that a symbol's text denotes: an optional sign, digits, and
/// optionally a point and more digits, with at least one digit in all;
/// `None` for other text and for decimals that do not fit.
pub open spec fn decimal_symbol_value(t: Seq<char>) -> Option<Decimal> {
    let neg = t.len() > 0 && t[0] == '-';
    let signed = t.len() > 0 && (t[0] == '-' || t[0] == '+');
    let b = if signed { t.drop_first() } else { t };
    let d = digits_end(b, 0);
    if d == b.len() {
        if d == 0 {
            None
        } else {
            decimal_from_parts(neg, b, Seq::empty())
        }
    } else if b[d] == '.' {
        let e = digits_end(b, d + 1);
        if e == b.len() && (d > 0 || e > d + 1) {
            decimal_from_parts(neg, b.take(d), b.subrange(d + 1, e))
        } else {
            None
        }
    } else {
        None
    }
}

/// Reads a symbol's text as `decimal_symbol_value` states.
fn decimal_of_symbol(x: &str) -> (r: Option<Decimal>)
    ensures
        r == decimal_symbol_value(x@),
{
    let t = chars_of(x);
    let n = t.len();
    let neg = n > 0 && t[0] == '-';
    let signed = n > 0 && (t[0] == '-' || t[0] == '+');
    let mut b: Vec<char> = Vec::new();
    let mut k: usize = if signed { 1 } else { 0 };
    assert(t@.skip(k as int) == if signed { t@.drop_first() } else { t@ });
    let start = k;
    while k < n
        invariant
            start <= k <= n,
            n == t.len(),
            b@ == t@.subrange(start as int, k as int),
        decreases n - k,
    {
        b.push(t[k]);
        k = k + 1;
        assert(t@.subrange(start as int, k as int) == t@.subrange(start as int, k - 1).push(t@[k - 1]));
    }
    assert(b@ == (if signed { t@.drop_first() } else { t@ }));
    let d = super::parser::digits_end_at(&b, 0);
    if d == b.len() {
        if d == 0 {
            None
        } else {
            let r = decimal_of_digits(neg, &b, 0, d, d, d);
            assert(b@.subrange(0, d as int) == b@);
            assert(b@.subrange(d as int, d as int) == Seq::<char>::empty());
            r
        }
    } else if b[d] == '.' {
        let e = super::parser::digits_end_at(&b, d + 1);
        if e == b.len() && (d > 0 || e > d + 1) {
            assert(b@.subrange(0, d as int) == b@.take(d as int));
            decimal_of_digits(neg, &b, 0, d, d + 1, e)
        } else {
            None
        }
    } else {
        None
    }
}

impl ToSexpr for Decimal {
    open spec fn to_sexpr_spec(&self) -> SexprV {
        SexprV::Float(*self)
    }

    fn to_sexpr(&self) -> (r: Sexpr) {
        Sexpr::Float(*self)
    }
}

impl FromSexpr for Decimal {
    /// A decimal, an integer, or a symbol whose text denotes a decimal.
    open spec fn from_sexpr_error(s: SexprV) -> Option<ConvertErrorV> {
        match s {
            SexprV::Float(_) => None,
            SexprV::Integer(i) => if i64::MIN <= i <= i64::MAX {
                None
            } else {
                Some(type_mismatch_v("decimal"@, s))
            },
            SexprV::Symbol(x) => if decimal_symbol_value(x) is Some {
                None
            } else {
                Some(ConvertErrorV::InvalidValue { field: "decimal"@, value: x })
            },
            _ => Some(type_mismatch_v("decimal"@, s)),
        }
    }

    open spec fn from_sexpr_value(s: SexprV, v: Decimal) -> bool {
        match s {
            SexprV::Float(d) => v == d,
            SexprV::Integer(i) => v == Decimal { mantissa: i as i64, scale: 0 },
            SexprV::Symbol(x) => decimal_symbol_value(x) == Some(v),
            _ => false,
        }
    }

    fn from_sexpr(sexpr: &Sexpr) -> (r: Result<Decimal, ConvertError>) {
        match sexpr {
            Sexpr::Float(d) => Ok(*d),
            Sexpr::Integer(i) => Ok(Decimal::from_int(*i)),
            Sexpr::Symbol(x) => match decimal_of_symbol(x.as_str()) {
                Some(d) => Ok(d),
                None => Err(ConvertError::InvalidValue { field: "decimal", value: x.clone() }),
            },
            _ => Err(ConvertError::type_mismatch("decimal", sexpr)),
        }
    }
}

// === Optional values ===

impl<T: ToSexpr> ToSexpr for Option<T> {
    /// The value's S-expression, or `nil`.
    open spec fn to_sexpr_spec(&self) -> SexprV {
        match self {
            Some(v) => v.to_sexpr_spec(),
            None => SexprV::Nil,
        }
    }

    fn to_sexpr(&self) -> (r: Sexpr) {
        match self {
            Some(v) => v.to_sexpr(),
            None => Sexpr::Nil,
        }
    }
}

/// Whether `s` stands for an absent value: `nil` or the symbol `nil`.
pub open spec fn is_nil_value(s: SexprV) -> bool {
    s is Nil || s == SexprV::Symbol("nil"@)
}

impl<T: FromSexpr> FromSexpr for Option<T> {
    /// `nil` or the symbol `nil` is absent; anything else converts to a
    /// present value.
    open spec fn from_sexpr_error(s: SexprV) -> Option<ConvertErrorV> {
        if is_nil_value(s) {
            None
        } else {
            T::from_sexpr_error(s)
        }
    }

    open spec fn from_sexpr_value(s: SexprV, v: Option<T>) -> bool {
        if is_nil_value(s) {
            v is None
        } else {
            v matches Some(x) && T::from_sexpr_value(s, x)
        }
    }

    fn from_sexpr(sexpr: &Sexpr) -> (r: Result<Option<T>, ConvertError>) {
        if sexpr.is_nil() || sexpr.is_symbol("nil") {
            Ok(None)
        } else {
            match T::from_sexpr(sexpr) {
                Ok(v) => Ok(Some(v)),
                Err(e) => Err(e),
            }
        }
    }
}

// === Vectors ===

/// The S-expressions of a sequence of values.
pub open spec fn to_sexpr_seq<T: ToSexpr>(v: Seq<T>) -> Seq<SexprV> {
    Seq::new(v.len(), |i: int| v[i].to_sexpr_spec())
}

impl<T: ToSexpr> ToSexpr for Vec<T> {
    /// The list of the items' S-expressions.
    open spec fn to_sexpr_spec(&self) -> SexprV {
        SexprV::List(to_sexpr_seq(self@))
    }

    fn to_sexpr(&self) -> (r: Sexpr) {
        let mut out: Vec<Sexpr> = Vec::new();
        let mut i: usize = 0;
        while i < self.len()
            invariant
                i <= self.len(),
                views_of(out@) == to_sexpr_seq(self@.take(i as int)),
            decreases self.len() - i,
        {
            let x = self[i].to_sexpr();
            proof {
                lemma_views_of_push(out@, x);
                assert(to_sexpr_seq(self@.take(i + 1)) =~= to_sexpr_seq(self@.take(i as int)).push(
                    self@[i as int].to_sexpr_spec(),
                ));
            }
            out.push(x);
            i = i + 1;
        }
        assert(self@.take(self.len() as int) == self@);
        Sexpr::List(out)
    }
}

/// The error of converting the first item of `items` that fails, or `None`.
pub open spec fn first_error<T: FromSexpr>(items: Seq<SexprV>) -> Option<ConvertErrorV>
    decreases items.len(),
{
    if items.len() == 0 {
        None
    } else if first_error::<T>(items.drop_last()) is Some {
        first_error::<T>(items.drop_last())
    } else {
        T::from_sexpr_error(items.last())
    }
}

/// An error in a prefix is the first error of the whole sequence.
proof fn lemma_first_error_prefix<T: FromSexpr>(items: Seq<SexprV>, k: int)
    requires
        0 <= k <= items.len(),
        first_error::<T>(items.take(k)) is Some,
    ensures
        first_error::<T>(items) == first_error::<T>(items.take(k)),
    decreases items.len() - k,
{
    if k < items.len() {
        assert(items.take(k + 1).drop_last() == items.take(k));
        lemma_first_error_prefix::<T>(items, k + 1);
    } else {
        assert(items.take(k) == items);
    }
}

impl<T: FromSexpr> FromSexpr for Vec<T> {
    /// A list whose items all convert gives the vector of their values; the
    /// first item that fails gives its error.
    open spec fn from_sexpr_error(s: SexprV) -> Option<ConvertErrorV> {
        match s {
            SexprV::List(items) => first_error::<T>(items),
            _ => Some(type_mismatch_v("list"@, s)),
        }
    }

    open spec fn from_sexpr_value(s: SexprV, v: Vec<T>) -> bool {
        match s {
            SexprV::List(items) => v.len() == items.len() && forall|i: int|
                0 <= i < items.len() ==> T::from_sexpr_value(items[i], #[trigger] v@[i]),
            _ => false,
        }
    }

    fn from_sexpr(sexpr: &Sexpr) -> (r: Result<Vec<T>, ConvertError>) {
        match sexpr {
            Sexpr::List(items) => {
                proof {
                    lemma_views_of(items@);
                }
                let ghost vs = views_of(items@);
                let mut out: Vec<T> = Vec::new();
                let mut i: usize = 0;
                while i < items.len()
                    invariant
                        i <= items.len(),
                        vs == views_of(items@),
                        sexpr@ == SexprV::List(vs),
                        vs.len() == items.len(),
                        forall|j: int| 0 <= j < items.len() ==> #[trigger] vs[j] == items@[j]@,
                        error_describable(first_error::<T>(vs)),
                        out.len() == i,
                        first_error::<T>(vs.take(i as int)) is None,
                        forall|j: int| 0 <= j < i ==> T::from_sexpr_value(vs[j], #[trigger] out@[j]),
                    decreases items.len() - i,
                {
                    proof {
                        assert(vs.take(i + 1).drop_last() == vs.take(i as int));
                        assert(vs.take(i + 1).last() == vs[i as int]);
                        if T::from_sexpr_error(vs[i as int]) is Some {
                            assert(first_error::<T>(vs.take(i + 1)) is Some);
                            lemma_first_error_prefix::<T>(vs, i + 1);
                        }
                    }
                    match T::from_sexpr(&items[i]) {
                        Ok(v) => {
                            out.push(v);
                            i = i + 1;
                        },
                        Err(e) => {
                            proof {
                                assert(T::from_sexpr_error(vs[i as int]) == Some(e@));
                                assert(first_error::<T>(vs.take(i + 1)) == Some(e@));
                                lemma_first_error_prefix::<T>(vs, i + 1);
                            }
                            return Err(e);
                        },
                    }
                }
                assert(vs.take(items.len() as int) == vs);
                Ok(out)
            },
            _ => Err(ConvertError::type_mismatch("list", sexpr)),
        }
    }
}

// === Boxed values ===

impl<T: ToSexpr> ToSexpr for Box<T> {
    /// The S-expression of the boxed value.
    open spec fn to_sexpr_spec(&self) -> SexprV {
        (**self).to_sexpr_spec()
    }

    fn to_sexpr(&self) -> (r: Sexpr) {
        (**self).to_sexpr()
    }
}

impl<T: FromSexpr> FromSexpr for Box<T> {
    /// Converts as the boxed type does.
    open spec fn from_sexpr_error(s: SexprV) -> Option<ConvertErrorV> {
        T::from_sexpr_error(s)
    }

    open spec fn from_sexpr_value(s: SexprV, v: Box<T>) -> bool {
        T::from_sexpr_value(s, *v)
    }

    fn from_sexpr(sexpr: &Sexpr) -> (r: Result<Box<T>, ConvertError>) {
        match T::from_sexpr(sexpr) {
            Ok(v) => Ok(Box::new(v)),
            Err(e) => Err(e),
        }
    }
}

// === S-expressions ===

impl ToSexpr for Sexpr {
    /// The S-expression itself.
    open spec fn to_sexpr_spec(&self) -> SexprV {
        self@
    }

    fn to_sexpr(&self) -> (r: Sexpr) {
        self.duplicate()
    }
}

impl FromSexpr for Sexpr {
    /// Every S-expression converts to itself.
    open spec fn from_sexpr_error(s: SexprV) -> Option<ConvertErrorV> {
        None
    }

    open spec fn from_sexpr_value(s: SexprV, v: Sexpr) -> bool {
        v@ == s
    }

    fn from_sexpr(sexpr: &Sexpr) -> (r: Result<Sexpr, ConvertError>) {
        Ok(sexpr.duplicate())
    }
}

} // verus!
