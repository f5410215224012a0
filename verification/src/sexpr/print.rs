//! Printing S-expressions as text.

use vstd::prelude::*;
use crate::text::{push_chars, i64_chars, int_text, string_of_chars};
use super::ast::{Sexpr, SexprV, views_of, lemma_views_of};
use super::traits::ToSexpr;

verus! {

/// How a character of a string is written between quotes.
pub open spec fn escape_char(c: char) -> Seq<char> {
    if c == '"' {
        seq!['\\', '"']
    } else if c == '\\' {
        seq!['\\', '\\']
    } else if c == '\n' {
        seq!['\\', 'n']
    } else if c == '\r' {
        seq!['\\', 'r']
    } else if c == '\t' {
        seq!['\\', 't']
    } else {
        seq![c]
    }
}

/// A string is written with its double quotes and backslashes escaped by a
/// backslash, and its line feeds, carriage returns and tabs as `\n`, `\r`
/// and `\t`; every other character stands as it is.
pub proof fn law_escaped_characters(c: char)
    ensures
        escape_char('"') == seq!['\\', '"'],
        escape_char('\\') == seq!['\\', '\\'],
        escape_char('\n') == seq!['\\', 'n'],
        escape_char('\r') == seq!['\\', 'r'],
        escape_char('\t') == seq!['\\', 't'],
        !(c == '"' || c == '\\' || c == '\n' || c == '\r' || c == '\t') ==> escape_char(c) == seq![c],
{
}

/// How a string's characters are written between quotes.
pub open spec fn escape_text(s: Seq<char>) -> Seq<char>
    decreases s.len(),
{
    if s.len() == 0 {
        Seq::empty()
    } else {
        escape_text(s.drop_last()) + escape_char(s.last())
    }
}

/// The text of an S-expression: atoms as they are written, lists in
/// parentheses with their items separated by single spaces.
pub open spec fn print_text(s: SexprV) -> Seq<char>
    decreases s,
{
    match s {
        SexprV::Symbol(t) => t,
        SexprV::Keyword(k) => seq![':'] + k,
        SexprV::Str(t) => seq!['"'] + escape_text(t) + seq!['"'],
        SexprV::Integer(i) => int_text(i),
        SexprV::Float(d) => d.float_text(),
        SexprV::Bool(b) => if b {
            seq!['#', 't']
        } else {
            seq!['#', 'f']
        },
        SexprV::Nil => seq!['n', 'i', 'l'],
        SexprV::List(items) => if items.len() == 0 {
            seq!['(', ')']
        } else {
            seq!['('] + print_items(items) + seq![')']
        },
    }
}

/// The texts of a non-empty sequence of S-expressions, separated by single
/// spaces.
pub open spec fn print_items(items: Seq<SexprV>) -> Seq<char>
    decreases items,
{
    if items.len() <= 1 {
        if items.len() == 1 {
            print_text(items[0])
        } else {
            Seq::empty()
        }
    } else {
        print_items(items.subrange(0, items.len() - 1)) + seq![' '] + print_text(
            items[items.len() - 1],
        )
    }
}

/// Appends the escaped characters of `s`.
fn write_escaped(s: &str, out: &mut Vec<char>)
    ensures
        final(out)@ == old(out)@ + escape_text(s@),
{
    let cs = crate::text::chars_of(s);
    let ghost start = out@;
    let mut i: usize = 0;
    while i < cs.len()
        invariant
            i <= cs.len(),
            cs@ == s@,
            out@ == start + escape_text(cs@.take(i as int)),
        decreases cs.len() - i,
    {
        let c = cs[i];
        if c == '"' {
            out.push('\\');
            out.push('"');
        } else if c == '\\' {
            out.push('\\');
            out.push('\\');
        } else if c == '\n' {
            out.push('\\');
            out.push('n');
        } else if c == '\r' {
            out.push('\\');
            out.push('r');
        } else if c == '\t' {
            out.push('\\');
            out.push('t');
        } else {
            out.push(c);
        }
        assert(cs@.take(i + 1).drop_last() == cs@.take(i as int));
        i = i + 1;
        assert(out@ =~= start + escape_text(cs@.take(i as int)));
    }
    assert(cs@.take(cs.len() as int) == cs@);
}

/// Escapes a string for writing between quotes, as `escape_text` states.
pub fn escape_string(s: &str) -> (r: String)
    ensures
        r@ == escape_text(s@),
{
    let mut v = Vec::new();
    write_escaped(s, &mut v);
    string_of_chars(&v)
}

/// Appends the text of `sexpr`.
#[verifier::loop_isolation(false)]
fn write_sexpr(sexpr: &Sexpr, out: &mut Vec<char>)
    ensures
        final(out)@ == old(out)@ + print_text(sexpr@),
    decreases sexpr,
{
    let ghost start = out@;
    match sexpr {
        Sexpr::Symbol(s) => {
            let cs = crate::text::chars_of(s.as_str());
            extend(out, &cs);
        },
        Sexpr::Keyword(k) => {
            out.push(':');
            let cs = crate::text::chars_of(k.as_str());
            extend(out, &cs);
            assert(out@ =~= start + (seq![':'] + k@));
        },
        Sexpr::String(s) => {
            out.push('"');
            write_escaped(s.as_str(), out);
            out.push('"');
            assert(out@ =~= start + (seq!['"'] + escape_text(s@) + seq!['"']));
        },
        Sexpr::Integer(i) => {
            let cs = i64_chars(*i);
            extend(out, &cs);
        },
        Sexpr::Float(d) => {
            let cs = d.float_chars();
            extend(out, &cs);
        },
        Sexpr::Bool(b) => {
            out.push('#');
            if *b {
                out.push('t');
            } else {
                out.push('f');
            }
            assert(out@ =~= start + print_text(sexpr@));
        },
        Sexpr::Nil => {
            out.push('n');
            out.push('i');
            out.push('l');
            assert(out@ =~= start + print_text(sexpr@));
        },
        Sexpr::List(items) => {
            proof {
                lemma_views_of(items@);
            }
            out.push('(');
            let mut i: usize = 0;
            while i < items.len()
                invariant
                    i <= items.len(),
                    views_of(items@).len() == items.len(),
                    forall|j: int| 0 <= j < items.len() ==> #[trigger] views_of(items@)[j]
                        == items@[j]@,
                    i == 0 ==> out@ == start.push('('),
                    i > 0 ==> out@ == start.push('(') + print_items(
                        views_of(items@).take(i as int),
                    ),
                decreases items.len() - i,
            {
                let ghost before = out@;
                if i > 0 {
                    out.push(' ');
                }
                assert(decreases_to!(*sexpr => sexpr->List_0));
                assert(decreases_to!(sexpr->List_0 => sexpr->List_0@));
                assert(decreases_to!(sexpr->List_0@ => sexpr->List_0@[i as int]));
                write_sexpr(&items[i], out);
                proof {
                    let vs = views_of(items@);
                    assert(vs.take(i + 1).subrange(0, i as int) == vs.take(i as int));
                    assert(vs.take(i + 1)[i as int] == items@[i as int]@);
                    if i == 0 {
                        assert(print_items(vs.take(1)) == print_text(vs.take(1)[0]));
                    }
                }
                i = i + 1;
            }
            out.push(')');
            proof {
                let vs = views_of(items@);
                assert(vs.take(items.len() as int) == vs);
            }
            assert(out@ =~= start + print_text(sexpr@));
        },
    }
}

/// Appends all of `v`.
fn extend(out: &mut Vec<char>, v: &Vec<char>)
    ensures
        final(out)@ == old(out)@ + v@,
{
    let ghost start = out@;
    let mut i: usize = 0;
    while i < v.len()
        invariant
            i <= v.len(),
            out@ == start + v@.take(i as int),
        decreases v.len() - i,
    {
        out.push(v[i]);
        i = i + 1;
        assert(v@.take(i as int) == v@.take((i - 1) as int).push(v@[i - 1]));
    }
    assert(v@.take(v.len() as int) == v@);
}

/// The text of an S-expression, as `print_text` states.
pub fn print_sexpr(sexpr: &Sexpr) -> (r: String)
    ensures
        r@ == print_text(sexpr@),
{
    let mut v = Vec::new();
    write_sexpr(sexpr, &mut v);
    assert(v@ =~= Seq::<char>::empty() + print_text(sexpr@));
    string_of_chars(&v)
}

/// The text of a value's S-expression.
pub fn to_sexpr_string<T: ToSexpr>(value: &T) -> (r: String)
    ensures
        r@ == print_text(value.to_sexpr_spec()),
{
    print_sexpr(&value.to_sexpr())
}

} // verus!
