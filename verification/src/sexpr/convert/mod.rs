//! Conversions of the score representation to and from S-expressions, and
//! the helpers that read tagged lists with keyword arguments.

use vstd::prelude::*;
use super::ast::{Sexpr, SexprV, views_of, lemma_views_of};
use super::error::{ConvertError, ConvertErrorV, error_describable};
use super::traits::FromSexpr;

pub mod attributes;
pub mod common;
pub mod direction;
pub mod notation;
pub mod note;
pub mod pitch;
pub mod score;
pub mod voice;
pub mod names;

verus! {

/// The first of two errors that is present.
pub open spec fn either(a: Option<ConvertErrorV>, b: Option<ConvertErrorV>) -> Option<ConvertErrorV> {
    if a is Some {
        a
    } else {
        b
    }
}

/// The value after the first keyword `:key` at or after position `i`; `None`
/// when there is no such keyword, or when it is the last item.
pub open spec fn find_from(items: Seq<SexprV>, key: Seq<char>, i: int) -> Option<SexprV>
    decreases items.len() - i,
{
    if 0 <= i < items.len() {
        if items[i] == SexprV::Keyword(key) {
            if i + 1 < items.len() {
                Some(items[i + 1])
            } else {
                None
            }
        } else {
            find_from(items, key, i + 1)
        }
    } else {
        None
    }
}

/// The value of the keyword argument `:key` of a list: the item after the
/// first keyword `:key`.
pub open spec fn find_kwarg_spec(items: Seq<SexprV>, key: Seq<char>) -> Option<SexprV> {
    find_from(items, key, 0)
}

/// The error of `expect_head`.
pub open spec fn head_error(items: Seq<SexprV>, head: Seq<char>) -> Option<ConvertErrorV> {
    if items.len() > 0 && items[0] == SexprV::Symbol(head) {
        None
    } else {
        Some(ConvertErrorV::ExpectedHead(head))
    }
}

/// The error of `require_kwarg`: the argument is missing, or its value does
/// not convert.
pub open spec fn kwarg_error<T: FromSexpr>(items: Seq<SexprV>, key: Seq<char>) -> Option<ConvertErrorV> {
    match find_kwarg_spec(items, key) {
        Some(v) => T::from_sexpr_error(v),
        None => Some(ConvertErrorV::MissingField(key)),
    }
}

/// The value of `require_kwarg`.
pub open spec fn kwarg_value<T: FromSexpr>(items: Seq<SexprV>, key: Seq<char>, x: T) -> bool {
    match find_kwarg_spec(items, key) {
        Some(v) => T::from_sexpr_value(v, x),
        None => false,
    }
}

/// The error of `optional_kwarg`: the argument's value does not convert.
pub open spec fn opt_kwarg_error<T: FromSexpr>(items: Seq<SexprV>, key: Seq<char>) -> Option<ConvertErrorV> {
    match find_kwarg_spec(items, key) {
        Some(v) => Option::<T>::from_sexpr_error(v),
        None => None,
    }
}

/// The value of `optional_kwarg`: absent when the argument is missing.
pub open spec fn opt_kwarg_value<T: FromSexpr>(items: Seq<SexprV>, key: Seq<char>, x: Option<T>) -> bool {
    match find_kwarg_spec(items, key) {
        Some(v) => Option::<T>::from_sexpr_value(v, x),
        None => x is None,
    }
}

/// `find_from` gives an item of the list.
pub proof fn lemma_find_from_item(items: Seq<SexprV>, key: Seq<char>, i: int)
    requires
        0 <= i,
    ensures
        find_from(items, key, i) matches Some(v) ==> exists|j: int|
            0 <= j < items.len() && items[j] == v,
    decreases items.len() - i,
{
    if 0 <= i < items.len() {
        if items[i] == SexprV::Keyword(key) {
            if i + 1 < items.len() {
                assert(items[i + 1] == items[i + 1]);
            }
        } else {
            lemma_find_from_item(items, key, i + 1);
        }
    }
}

/// The value of the keyword argument `:key` of a list, as `find_kwarg_spec`
/// states.
pub fn find_kwarg<'a>(list: &'a Vec<Sexpr>, key: &str) -> (r: Option<&'a Sexpr>)
    ensures
        match r {
            Some(x) => find_kwarg_spec(views_of(list@), key@) == Some(x@),
            None => find_kwarg_spec(views_of(list@), key@) is None,
        },
{
    proof {
        lemma_views_of(list@);
    }
    let ghost vs = views_of(list@);
    let mut i: usize = 0;
    while i < list.len()
        invariant
            i <= list.len(),
            vs == views_of(list@),
            vs.len() == list.len(),
            forall|j: int| 0 <= j < list.len() ==> #[trigger] vs[j] == list@[j]@,
            find_kwarg_spec(vs, key@) == find_from(vs, key@, i as int),
        decreases list.len() - i,
    {
        if list[i].is_keyword(key) {
            if i + 1 < list.len() {
                return Some(&list[i + 1]);
            } else {
                return None;
            }
        }
        i = i + 1;
    }
    None
}

/// Checks that a list starts with the symbol `head`.
pub fn expect_head(list: &Vec<Sexpr>, head: &'static str) -> (r: Result<(), ConvertError>)
    ensures
        match r {
            Ok(_) => head_error(views_of(list@), head@) is None,
            Err(e) => head_error(views_of(list@), head@) == Some(e@),
        },
{
    proof {
        lemma_views_of(list@);
    }
    if list.len() > 0 && list[0].is_symbol(head) {
        Ok(())
    } else {
        Err(ConvertError::ExpectedHead(head))
    }
}

/// The head symbol of a list.
pub fn get_head(list: &Vec<Sexpr>) -> (r: Result<&str, ConvertError>)
    ensures
        match r {
            Ok(h) => list.len() > 0 && views_of(list@)[0] == SexprV::Symbol(h@),
            Err(e) => !(list.len() > 0 && views_of(list@)[0] is Symbol) && e@
                == ConvertErrorV::ExpectedHead("symbol"@),
        },
{
    proof {
        lemma_views_of(list@);
    }
    if list.len() > 0 {
        match list[0].as_symbol() {
            Some(h) => Ok(h),
            None => Err(ConvertError::ExpectedHead("symbol")),
        }
    } else {
        Err(ConvertError::ExpectedHead("symbol"))
    }
}

/// Converts the value of the keyword argument `:key`, which must be present.
pub fn require_kwarg<T: FromSexpr>(list: &Vec<Sexpr>, key: &'static str) -> (r: Result<T, ConvertError>)
    requires
        error_describable(kwarg_error::<T>(views_of(list@), key@)),
    ensures
        match r {
            Ok(v) => kwarg_error::<T>(views_of(list@), key@) is None && kwarg_value::<T>(
                views_of(list@),
                key@,
                v,
            ),
            Err(e) => kwarg_error::<T>(views_of(list@), key@) == Some(e@),
        },
{
    match find_kwarg(list, key) {
        Some(v) => T::from_sexpr(v),
        None => Err(ConvertError::MissingField(key)),
    }
}

/// Converts the value of the keyword argument `:key` when it is present.
pub fn optional_kwarg<T: FromSexpr>(list: &Vec<Sexpr>, key: &str) -> (r: Result<Option<T>, ConvertError>)
    requires
        error_describable(opt_kwarg_error::<T>(views_of(list@), key@)),
    ensures
        match r {
            Ok(v) => opt_kwarg_error::<T>(views_of(list@), key@) is None && opt_kwarg_value::<T>(
                views_of(list@),
                key@,
                v,
            ),
            Err(e) => opt_kwarg_error::<T>(views_of(list@), key@) == Some(e@),
        },
{
    match find_kwarg(list, key) {
        Some(v) => Option::<T>::from_sexpr(v),
        None => Ok(None),
    }
}


/// The error of `object_kwarg`: the argument's value does not convert.
pub open spec fn obj_kwarg_error<T: FromSexpr>(items: Seq<SexprV>, key: Seq<char>) -> Option<ConvertErrorV> {
    match find_kwarg_spec(items, key) {
        Some(v) => T::from_sexpr_error(v),
        None => None,
    }
}

/// The value of `object_kwarg`: `default` when the argument is missing.
pub open spec fn obj_kwarg_value<T: FromSexpr>(items: Seq<SexprV>, key: Seq<char>, x: T, default: T) -> bool {
    match find_kwarg_spec(items, key) {
        Some(v) => T::from_sexpr_value(v, x),
        None => x == default,
    }
}

/// The value of `flag_kwarg`: false when the argument is missing or `nil`.
pub open spec fn flag_kwarg_value(items: Seq<SexprV>, key: Seq<char>, x: bool) -> bool {
    match find_kwarg_spec(items, key) {
        Some(v) => if crate::sexpr::traits::is_nil_value(v) {
            !x
        } else {
            bool::from_sexpr_value(v, x)
        },
        None => !x,
    }
}

/// The value of `list_kwarg`: empty when the argument is missing or `nil`.
pub open spec fn list_kwarg_value<T: FromSexpr>(items: Seq<SexprV>, key: Seq<char>, x: Vec<T>) -> bool {
    match find_kwarg_spec(items, key) {
        Some(v) => if crate::sexpr::traits::is_nil_value(v) {
            x@.len() == 0
        } else {
            Vec::<T>::from_sexpr_value(v, x)
        },
        None => x@.len() == 0,
    }
}

/// Converts the value of the keyword argument `:key` when it is present;
/// gives `default` when it is missing.
pub fn object_kwarg<T: FromSexpr>(list: &Vec<Sexpr>, key: &str, default: T) -> (r: Result<T, ConvertError>)
    requires
        error_describable(obj_kwarg_error::<T>(views_of(list@), key@)),
    ensures
        match r {
            Ok(v) => obj_kwarg_error::<T>(views_of(list@), key@) is None && obj_kwarg_value::<T>(
                views_of(list@),
                key@,
                v,
                default,
            ),
            Err(e) => obj_kwarg_error::<T>(views_of(list@), key@) == Some(e@),
        },
{
    match find_kwarg(list, key) {
        Some(v) => T::from_sexpr(v),
        None => Ok(default),
    }
}

/// Converts the boolean keyword argument `:key`; false when it is missing.
pub fn flag_kwarg(list: &Vec<Sexpr>, key: &str) -> (r: Result<bool, ConvertError>)
    requires
        error_describable(opt_kwarg_error::<bool>(views_of(list@), key@)),
    ensures
        match r {
            Ok(v) => opt_kwarg_error::<bool>(views_of(list@), key@) is None && flag_kwarg_value(
                views_of(list@),
                key@,
                v,
            ),
            Err(e) => opt_kwarg_error::<bool>(views_of(list@), key@) == Some(e@),
        },
{
    match optional_kwarg::<bool>(list, key)? {
        Some(b) => Ok(b),
        None => Ok(false),
    }
}

/// Converts the list keyword argument `:key`; empty when it is missing.
pub fn list_kwarg<T: FromSexpr>(list: &Vec<Sexpr>, key: &str) -> (r: Result<Vec<T>, ConvertError>)
    requires
        error_describable(opt_kwarg_error::<Vec<T>>(views_of(list@), key@)),
    ensures
        match r {
            Ok(v) => opt_kwarg_error::<Vec<T>>(views_of(list@), key@) is None && list_kwarg_value::<T>(
                views_of(list@),
                key@,
                v,
            ),
            Err(e) => opt_kwarg_error::<Vec<T>>(views_of(list@), key@) == Some(e@),
        },
{
    match optional_kwarg::<Vec<T>>(list, key)? {
        Some(v) => Ok(v),
        None => Ok(Vec::new()),
    }
}

/// The head symbol's name of a list, when it has one.
pub open spec fn head_name(items: Seq<SexprV>) -> Option<Seq<char>> {
    if items.len() > 0 && items[0] is Symbol {
        Some(items[0]->Symbol_0)
    } else {
        None
    }
}

} // verus!
