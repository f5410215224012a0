//! Reading printed text back: the text that `print_sexpr` writes reads back
//! as the S-expression that was written.

use vstd::prelude::*;
use crate::decimal::{Decimal, MAX_SCALE, decimal_from_parts, strip_zeros, fraction_text, zeros};
use crate::text::{
    unicode_alphanumeric, ascii_alphanumeric, is_alphanumeric, is_digit, all_digits, digits_value, digit_val,
    digit_char, nat_digits, int_text, int_text_value, lemma_digits_value_push,
};
use super::ast::SexprV;
use super::{SexprErrorV, from_sexpr_str_holds};
use super::round_trip::{RoundTrip, law_round_trip};
use super::print::{print_text, print_items, escape_text, escape_char};
use super::parser::{
    is_ws, symbol_char, keyword_char, skip, skip_comment, digits_end, symbol_end, keyword_end,
    string_end, unescape, unescape_char, p_bool, true_at, false_at, p_nil, p_string, p_number, p_keyword, p_symbol,
    p_atom, p_expr, p_items, parse_spec,
};

verus! {

/// `char::is_alphanumeric` classifies each ASCII character as an ASCII
/// letter or digit, as its documentation states (and as the wrapper that
/// calls it states of each call).
pub open spec fn ascii_classified() -> bool {
    forall|c: char| (c as u32) < 0x80 ==> #[trigger] unicode_alphanumeric(c) == ascii_alphanumeric(c)
}

/// Whether a text has the shape of a number: an optional `-`, one or more
/// digits, and then either nothing, a `.`, or a `.` with digits followed by
/// nothing or another `.`.
pub open spec fn number_shaped(t: Seq<char>) -> bool {
    let j: int = if t.len() > 0 && t[0] == '-' { 1 } else { 0 };
    let d = digits_end(t, j);
    let e = if d < t.len() && t[d] == '.' { digits_end(t, d + 1) } else { d };
    d > j && (e == t.len() || t[e] == '.')
}

/// Whether a text reads as a boolean: it starts with `#t` or `#f`, or it is
/// the word `true` or `false`.
pub open spec fn bool_shaped(t: Seq<char>) -> bool {
    ||| t.len() >= 2 && t[0] == '#' && (t[1] == 't' || t[1] == 'f')
    ||| t == seq!['t', 'r', 'u', 'e']
    ||| t == seq!['f', 'a', 'l', 's', 'e']
}

/// Asks `char::is_alphanumeric` about each ASCII character. Afterwards
/// `ascii_classified()` is known: the premise of the laws below, which a
/// caller meets by this one call.
pub fn confirm_ascii_classified()
    ensures
        ascii_classified(),
{
    let mut k: u8 = 0;
    while k < 128
        invariant
            k <= 128,
            forall|c: char| (c as u32) < k ==> #[trigger] unicode_alphanumeric(c) == ascii_alphanumeric(c),
        decreases 128 - k,
    {
        let c = k as char;
        let _ = is_alphanumeric(c);
        assert(c as u32 == k);
        assert forall|d: char| (d as u32) < k + 1 implies #[trigger] unicode_alphanumeric(d) == ascii_alphanumeric(d) by {
            if d as u32 == k {
                vstd::utf8::char_u32_cast(d, k as u32);
                vstd::utf8::char_u32_cast(c, k as u32);
            }
        }
        k = k + 1;
    }
}

/// A symbol that reads back as a symbol: symbol characters only, and
/// neither `nil`, nor shaped like a number or a boolean.
pub open spec fn readable_symbol(t: Seq<char>) -> bool {
    &&& t.len() > 0
    &&& forall|j: int| 0 <= j < t.len() ==> symbol_char(#[trigger] t[j])
    &&& !number_shaped(t)
    &&& !bool_shaped(t)
    &&& t != seq!['n', 'i', 'l']
}

/// A keyword that reads back: one or more keyword characters.
pub open spec fn readable_keyword(k: Seq<char>) -> bool {
    k.len() > 0 && forall|j: int| 0 <= j < k.len() ==> keyword_char(#[trigger] k[j])
}

/// An S-expression whose printed text reads back as it: readable symbols
/// and keywords, integers of 64 bits, decimals in normalized form, and lists
/// of such.
pub open spec fn readable(s: SexprV) -> bool
    decreases s,
{
    match s {
        SexprV::Symbol(t) => readable_symbol(t),
        SexprV::Keyword(k) => readable_keyword(k),
        SexprV::Str(_) => true,
        SexprV::Integer(i) => i64::MIN <= i <= i64::MAX,
        SexprV::Float(d) => d.wf(),
        SexprV::Bool(_) => true,
        SexprV::Nil => true,
        SexprV::List(items) => forall|j: int| 0 <= j < items.len() ==> readable(#[trigger] items[j]),
    }
}

/// Printing a readable S-expression and reading the text gives it back.
pub proof fn law_print_parse(s: SexprV)
    requires
        ascii_classified(),
        readable(s),
    ensures
        parse_spec(print_text(s)) == Ok::<SexprV, super::error::ParseErrorV>(s),
{
    let c = print_text(s);
    lemma_first_char(s);
    assert(c.subrange(0, c.len() as int) == c);
    lemma_read_at(c, 0, s);
    assert(skip(c, 0) == 0);
    assert(skip(c, c.len() as int) == c.len());
}

/// Writing a value as text and reading the text back gives the same value:
/// for a writable value whose S-expression is readable, what
/// `from_sexpr_str` gives for the text that `to_sexpr_string` writes is `Ok`
/// of a value that is the same.
pub proof fn law_text_round_trip<T: RoundTrip>(x: T, r: Result<T, SexprErrorV>)
    requires
        ascii_classified(),
        x.writable(),
        readable(x.to_sexpr_spec()),
        from_sexpr_str_holds::<T>(print_text(x.to_sexpr_spec()), r),
    ensures
        r matches Ok(v) && v.same(&x),
{
    law_print_parse(x.to_sexpr_spec());
    law_round_trip(x, x);
    if let Ok(v) = r {
        law_round_trip(x, v);
    }
}

// === Character facts ===

/// The characters that delimit printed atoms are not symbol characters.
proof fn lemma_delimiters()
    requires
        ascii_classified(),
    ensures
        !symbol_char(' '),
        !symbol_char(')'),
        !symbol_char('('),
        !symbol_char('"'),
        !symbol_char(':'),
        !symbol_char(';'),
        !symbol_char('\t'),
        !symbol_char('\r'),
        !symbol_char('\n'),
        !keyword_char(' '),
        !keyword_char(')'),
{
    assert(unicode_alphanumeric(' ') == ascii_alphanumeric(' '));
    assert(unicode_alphanumeric(')') == ascii_alphanumeric(')'));
    assert(unicode_alphanumeric('(') == ascii_alphanumeric('('));
    assert(unicode_alphanumeric('"') == ascii_alphanumeric('"'));
    assert(unicode_alphanumeric(':') == ascii_alphanumeric(':'));
    assert(unicode_alphanumeric(';') == ascii_alphanumeric(';'));
    assert(unicode_alphanumeric('\t') == ascii_alphanumeric('\t'));
    assert(unicode_alphanumeric('\r') == ascii_alphanumeric('\r'));
    assert(unicode_alphanumeric('\n') == ascii_alphanumeric('\n'));
}

/// Position `e` of `c` ends a printed atom: the end of the text, a space or
/// a closing parenthesis.
pub open spec fn delimited(c: Seq<char>, e: int) -> bool {
    e == c.len() || (0 <= e < c.len() && (c[e] == ' ' || c[e] == ')'))
}

/// `c` holds `t` at position `i`.
pub open spec fn holds_at(c: Seq<char>, i: int, t: Seq<char>) -> bool {
    0 <= i && i + t.len() <= c.len() && c.subrange(i, i + t.len()) == t
}

/// The text of a readable S-expression is not empty, and its first character
/// is neither whitespace, nor `;`, nor `)`.
proof fn lemma_first_char(s: SexprV)
    requires
        ascii_classified(),
        readable(s),
    ensures
        print_text(s).len() > 0,
        !is_ws(print_text(s)[0]),
        print_text(s)[0] != ';',
        print_text(s)[0] != ')',
{
    lemma_delimiters();
    match s {
        SexprV::Symbol(t) => {
            assert(symbol_char(t[0]));
        },
        SexprV::Integer(i) => {
            lemma_nat_digits_shape(if i < 0 { (-i) as nat } else { i as nat });
        },
        SexprV::Float(d) => {
            lemma_float_text_first(d);
        },
        SexprV::List(items) => {
            if items.len() > 0 {
                assert((seq!['('] + print_items(items) + seq![')'])[0] == '(');
            }
        },
        _ => {},
    }
}

// === Digits ===

/// The digits of a natural number: not empty, all digits, with the value
/// of the number, and ending in the digit of its last place.
proof fn lemma_nat_digits_shape(n: nat)
    ensures
        nat_digits(n).len() > 0,
        all_digits(nat_digits(n)),
        digits_value(nat_digits(n)) == n,
        nat_digits(n).last() == digit_char((n % 10) as int),
    decreases n,
{
    let k = (n % 10) as int;
    lemma_digit_char_zero(k);
    lemma_digit_char_val(k);
    if n >= 10 {
        lemma_nat_digits_shape(n / 10);
        let t = nat_digits(n / 10);
        assert(nat_digits(n) == t.push(digit_char(k)));
        lemma_digits_value_push(t, digit_char(k));
        assert(digits_value(t) == n / 10);
        assert(n == (n / 10) * 10 + k);
    } else {
        assert(k == n);
        assert(nat_digits(n) == seq![digit_char(k)]);
        assert(nat_digits(n).drop_last() =~= Seq::<char>::empty());
        assert(digits_value(Seq::<char>::empty()) == 0);
    }
}

/// `digits_end` stops at the end of a run of digits followed by a
/// non-digit or the end of the text.
proof fn lemma_digits_end(c: Seq<char>, i: int, t: Seq<char>)
    requires
        holds_at(c, i, t),
        all_digits(t),
        i + t.len() == c.len() || !is_digit(c[i + t.len()]),
    ensures
        digits_end(c, i) == i + t.len(),
    decreases t.len(),
{
    if t.len() > 0 {
        assert(c[i] == t[0]);
        assert(is_digit(t[0]));
        let u = t.drop_first();
        assert(c.subrange(i + 1, i + 1 + u.len()) =~= u);
        lemma_digits_end(c, i + 1, u);
    }
}

/// The value of a run of digits does not change for leading zeros.
proof fn lemma_digits_value_leading_zeros(k: nat, t: Seq<char>)
    requires
        all_digits(t),
    ensures
        digits_value(zeros(k) + t) == digits_value(t),
    decreases t.len(),
{
    if t.len() == 0 {
        lemma_digits_value_zeros(k);
        assert(zeros(k) + t =~= zeros(k));
    } else {
        lemma_digits_value_leading_zeros(k, t.drop_last());
        assert((zeros(k) + t).drop_last() =~= zeros(k) + t.drop_last());
    }
}

/// A run of zeros has value zero.
proof fn lemma_digits_value_zeros(k: nat)
    ensures
        digits_value(zeros(k)) == 0,
    decreases k,
{
    if k > 0 {
        assert(zeros(k).drop_last() =~= zeros((k - 1) as nat));
        lemma_digits_value_zeros((k - 1) as nat);
    }
}

/// Digits that do not end in zero lose nothing to `strip_zeros`.
proof fn lemma_strip_none(f: Seq<char>)
    requires
        f.len() > 0,
        f.last() != '0',
    ensures
        strip_zeros(f) == f,
{
}

// === Integers and decimals ===

/// The text of an integer reads as it.
proof fn lemma_int_text_value(v: int)
    ensures
        int_text_value(int_text(v), true) == Some(v),
{
    let n = if v < 0 { (-v) as nat } else { v as nat };
    lemma_nat_digits_shape(n);
    if v < 0 {
        assert((seq!['-'] + nat_digits(n)).drop_first() =~= nat_digits(n));
    } else {
        assert(nat_digits(n)[0] != '-');
        assert(is_digit(nat_digits(n)[0]));
    }
}

/// The first character of a decimal's text is a digit or `-`.
proof fn lemma_float_text_first(d: Decimal)
    ensures
        d.float_text().len() > 0,
        is_digit(d.float_text()[0]) || d.float_text()[0] == '-',
{
    let m = d.mantissa as int;
    let n = if m < 0 { (-m) as nat } else { m as nat };
    lemma_nat_digits_shape(n);
    assert(is_digit(nat_digits(n)[0]));
}

// === Atoms ===

/// A readable symbol at `i`, followed by a delimiter, reads as itself.
proof fn lemma_read_symbol(c: Seq<char>, i: int, t: Seq<char>)
    requires
        ascii_classified(),
        readable_symbol(t),
        holds_at(c, i, t),
        delimited(c, i + t.len()),
    ensures
        p_atom(c, i) == Some((SexprV::Symbol(t), i + t.len())),
{
    lemma_delimiters();
    lemma_symbol_end(c, i, t);
    assert(c[i] == t[0]);
    lemma_symbol_not_word(c, i, t);
    assert(p_bool(c, i) is None);
    if t.len() >= 3 && c[i] == 'n' && c[i + 1] == 'i' && c[i + 2] == 'l' {
        assert(c[i + 1] == t[1] && c[i + 2] == t[2]);
        if t.len() == 3 {
            assert(t =~= seq!['n', 'i', 'l']);
        } else {
            assert(c[i + 3] == t[3]);
        }
    }
    if t.len() < 3 && c[i] == 'n' && i + 2 < c.len() {
        if t.len() == 1 {
            assert(c[i + 1] == ' ' || c[i + 1] == ')');
        } else {
            assert(c[i + 2] == ' ' || c[i + 2] == ')');
        }
    }
    assert(p_nil(c, i) is None);
    assert(p_string(c, i) is None);
    lemma_symbol_not_number(c, i, t);
    assert(p_keyword(c, i) is None);
    assert(c.subrange(i, i + t.len()) == t);
}

/// Where a symbol that is not shaped like a number stands, no number is
/// read.
proof fn lemma_symbol_not_number(c: Seq<char>, i: int, t: Seq<char>)
    requires
        ascii_classified(),
        t.len() > 0,
        forall|j: int| 0 <= j < t.len() ==> symbol_char(#[trigger] t[j]),
        !number_shaped(t),
        holds_at(c, i, t),
        delimited(c, i + t.len()),
    ensures
        p_number(c, i) is None,
{
    lemma_delimiters();
    lemma_holds_part(c, i, t, 0, t.len() as int);
    let j0: int = if t[0] == '-' { 1 } else { 0 };
    assert(c[i] == t[0]);
    lemma_digits_end_shift(c, i, t, j0);
    lemma_digits_end_props(t, j0);
    let dt = digits_end(t, j0);
    if dt > j0 {
        assert(dt < t.len());
        assert(c[i + dt] == t[dt]);
        if t[dt] == '.' {
            lemma_digits_end_shift(c, i, t, dt + 1);
            lemma_digits_end_props(t, dt + 1);
            let et = digits_end(t, dt + 1);
            assert(et < t.len() && t[et] != '.');
            assert(c[i + et] == t[et]);
        }
    }
}

/// `digits_end` over a text that `c` holds at `i`, followed by a delimiter,
/// is `digits_end` over the text, moved by `i`.
proof fn lemma_digits_end_shift(c: Seq<char>, i: int, t: Seq<char>, k: int)
    requires
        ascii_classified(),
        0 <= k <= t.len(),
        holds_at(c, i, t),
        delimited(c, i + t.len()),
    ensures
        digits_end(c, i + k) == i + digits_end(t, k),
    decreases t.len() - k,
{
    if k < t.len() {
        assert(c.subrange(i, i + t.len())[k] == t[k]);
        assert(c[i + k] == t[k]);
        if is_digit(t[k]) {
            lemma_digits_end_shift(c, i, t, k + 1);
        }
    }
}

/// `digits_end` stops within the text, after digits only, at a non-digit or
/// at the end.
proof fn lemma_digits_end_props(t: Seq<char>, k: int)
    requires
        0 <= k <= t.len(),
    ensures
        k <= digits_end(t, k) <= t.len(),
        digits_end(t, k) < t.len() ==> !is_digit(t[digits_end(t, k)]),
    decreases t.len() - k,
{
    if k < t.len() && is_digit(t[k]) {
        lemma_digits_end_props(t, k + 1);
    }
}

/// A symbol other than `true` and `false`, followed by a delimiter, is
/// neither word.
proof fn lemma_symbol_not_word(c: Seq<char>, i: int, t: Seq<char>)
    requires
        ascii_classified(),
        t.len() > 0,
        forall|j: int| 0 <= j < t.len() ==> symbol_char(#[trigger] t[j]),
        t != seq!['t', 'r', 'u', 'e'],
        t != seq!['f', 'a', 'l', 's', 'e'],
        holds_at(c, i, t),
        delimited(c, i + t.len()),
    ensures
        !true_at(c, i),
        !false_at(c, i),
{
    lemma_delimiters();
    lemma_holds_part(c, i, t, 0, t.len() as int);
    let e = i + t.len();
    if true_at(c, i) {
        if t.len() < 4 {
            assert(c[e] == ' ' || c[e] == ')');
        } else if t.len() == 4 {
            assert(t =~= seq!['t', 'r', 'u', 'e']);
        } else {
            assert(c[i + 4] == t[4]);
        }
    }
    if false_at(c, i) {
        if t.len() < 5 {
            assert(c[e] == ' ' || c[e] == ')');
        } else if t.len() == 5 {
            assert(t =~= seq!['f', 'a', 'l', 's', 'e']);
        } else {
            assert(c[i + 5] == t[5]);
        }
    }
}

/// Symbol characters from `i` up to a delimiter end where the symbol ends.
proof fn lemma_symbol_end(c: Seq<char>, i: int, t: Seq<char>)
    requires
        ascii_classified(),
        forall|j: int| 0 <= j < t.len() ==> symbol_char(#[trigger] t[j]),
        holds_at(c, i, t),
        delimited(c, i + t.len()),
    ensures
        symbol_end(c, i) == i + t.len(),
    decreases t.len(),
{
    lemma_delimiters();
    if t.len() > 0 {
        assert(c[i] == t[0]);
        let u = t.drop_first();
        assert(c.subrange(i + 1, i + 1 + u.len()) =~= u);
        assert forall|j: int| 0 <= j < u.len() implies symbol_char(#[trigger] u[j]) by {
            assert(u[j] == t[j + 1]);
        }
        lemma_symbol_end(c, i + 1, u);
    }
}

/// Keyword characters from `i` up to a delimiter end where the keyword
/// ends.
proof fn lemma_keyword_end(c: Seq<char>, i: int, k: Seq<char>)
    requires
        ascii_classified(),
        forall|j: int| 0 <= j < k.len() ==> keyword_char(#[trigger] k[j]),
        holds_at(c, i, k),
        delimited(c, i + k.len()),
    ensures
        keyword_end(c, i) == i + k.len(),
    decreases k.len(),
{
    lemma_delimiters();
    if k.len() > 0 {
        assert(c[i] == k[0]);
        let u = k.drop_first();
        assert(c.subrange(i + 1, i + 1 + u.len()) =~= u);
        assert forall|j: int| 0 <= j < u.len() implies keyword_char(#[trigger] u[j]) by {
            assert(u[j] == k[j + 1]);
        }
        lemma_keyword_end(c, i + 1, u);
    }
}

/// A readable keyword's text at `i` reads as the keyword.
proof fn lemma_read_keyword(c: Seq<char>, i: int, k: Seq<char>)
    requires
        ascii_classified(),
        readable_keyword(k),
        holds_at(c, i, seq![':'] + k),
        delimited(c, i + 1 + k.len()),
    ensures
        p_atom(c, i) == Some((SexprV::Keyword(k), i + 1 + k.len())),
{
    lemma_delimiters();
    assert(c[i] == (seq![':'] + k)[0]);
    assert(c.subrange(i + 1, i + 1 + k.len()) =~= k) by {
        assert forall|j: int| 0 <= j < k.len() implies c.subrange(i + 1, i + 1 + k.len())[j] == k[j] by {
            assert(c.subrange(i, i + 1 + k.len())[j + 1] == (seq![':'] + k)[j + 1]);
        }
    }
    lemma_keyword_end(c, i + 1, k);
    assert(digits_end(c, i) == i);
    assert(p_bool(c, i) is None);
    assert(p_nil(c, i) is None);
    assert(p_string(c, i) is None);
    assert(p_number(c, i) is None);
}

/// Escaped text is read up to the closing quote.
proof fn lemma_string_end(c: Seq<char>, i: int, t: Seq<char>)
    requires
        holds_at(c, i, escape_text(t) + seq!['"']),
    ensures
        string_end(c, i) == Some(i + escape_text(t).len()),
        unescape(escape_text(t)) == t,
    decreases t.len(),
{
    if t.len() == 0 {
        assert(c[i] == (escape_text(t) + seq!['"'])[0]);
    } else {
        lemma_escape_front(t);
        let x = t[0];
        let u = t.drop_first();
        let e = escape_char(x);
        assert(escape_text(t) == e + escape_text(u));
        let w = escape_text(u) + seq!['"'];
        assert(escape_text(t) + seq!['"'] =~= e + w);
        assert(c.subrange(i + e.len(), i + e.len() + w.len()) =~= w) by {
            assert forall|j: int| 0 <= j < w.len() implies c.subrange(i + e.len(), i + e.len() + w.len())[j] == w[j] by {
                assert(c.subrange(i, i + (e + w).len())[e.len() + j] == (e + w)[e.len() + j]);
            }
        }
        lemma_string_end(c, i + e.len(), u);
        assert(c[i] == (e + w)[0]);
        if e.len() == 2 {
            assert(c[i + 1] == (e + w)[1]);
            assert((e + escape_text(u)).skip(2) =~= escape_text(u));
        } else {
            assert((e + escape_text(u)).drop_first() =~= escape_text(u));
        }
    }
}

/// Unescaping the escaped text of a string gives the string back.
pub proof fn law_unescape_escape(t: Seq<char>)
    ensures
        unescape(escape_text(t)) == t,
{
    let c = escape_text(t) + seq!['"'];
    assert(c.subrange(0, c.len() as int) =~= c);
    lemma_string_end(c, 0, t);
}

/// The escaped text of a non-empty text is that of its first character, then
/// that of the rest.
proof fn lemma_escape_front(t: Seq<char>)
    requires
        t.len() > 0,
    ensures
        escape_text(t) == escape_char(t[0]) + escape_text(t.drop_first()),
    decreases t.len(),
{
    if t.len() == 1 {
        assert(t.drop_last() =~= Seq::<char>::empty());
        assert(t.drop_first() =~= Seq::<char>::empty());
        assert(escape_text(t.drop_last()) =~= Seq::<char>::empty());
        assert(t.last() == t[0]);
        assert(escape_text(t) =~= escape_char(t[0]));
    } else {
        lemma_escape_front(t.drop_last());
        assert(t.drop_last().drop_first() =~= t.drop_first().drop_last());
        assert(t.drop_first().last() == t.last());
        assert(escape_text(t) =~= escape_char(t[0]) + escape_text(t.drop_first()));
    }
}

/// A string's text at `i` reads as the string.
proof fn lemma_read_string(c: Seq<char>, i: int, t: Seq<char>)
    requires
        holds_at(c, i, seq!['"'] + escape_text(t) + seq!['"']),
    ensures
        p_atom(c, i) == Some((SexprV::Str(t), i + escape_text(t).len() + 2)),
{
    let q = seq!['"'] + escape_text(t) + seq!['"'];
    let w = escape_text(t) + seq!['"'];
    assert(q =~= seq!['"'] + w);
    assert(c.subrange(i + 1, i + 1 + w.len()) =~= w) by {
        assert forall|j: int| 0 <= j < w.len() implies c.subrange(i + 1, i + 1 + w.len())[j] == w[j] by {
            assert(c.subrange(i, i + q.len())[j + 1] == q[j + 1]);
        }
    }
    lemma_string_end(c, i + 1, t);
    assert(c[i] == q[0]);
    assert(p_bool(c, i) is None);
    assert(p_nil(c, i) is None);
    if t.len() == 0 {
        assert(escape_text(t).len() == 0);
        assert(c[i + 1] == q[1]);
    } else {
        lemma_escape_front(t);
        assert(c[i + 1] == q[1]);
        assert(escape_char(t[0])[0] != '"');
        assert(c.subrange(i + 1, i + 1 + escape_text(t).len()) =~= escape_text(t));
    }
}

/// An integer's text at `i` reads as the integer.
proof fn lemma_read_integer(c: Seq<char>, i: int, v: int)
    requires
        ascii_classified(),
        i64::MIN <= v <= i64::MAX,
        holds_at(c, i, int_text(v)),
        delimited(c, i + int_text(v).len()),
    ensures
        p_atom(c, i) == Some((SexprV::Integer(v), i + int_text(v).len())),
{
    lemma_delimiters();
    let n = if v < 0 { (-v) as nat } else { v as nat };
    lemma_nat_digits_shape(n);
    lemma_int_text_value(v);
    let t = int_text(v);
    let ds = nat_digits(n);
    let j = if v < 0 { i + 1 } else { i };
    assert(c[i] == t[0]);
    assert(c.subrange(j, j + ds.len()) =~= ds) by {
        assert forall|x: int| 0 <= x < ds.len() implies c.subrange(j, j + ds.len())[x] == ds[x] by {
            assert(c.subrange(i, i + t.len())[(j - i) + x] == t[(j - i) + x]);
        }
    }
    assert(j + ds.len() == i + t.len());
    lemma_digits_end(c, j, ds);
    assert(is_digit(ds[0]));
    assert(p_bool(c, i) is None);
    assert(p_nil(c, i) is None);
    assert(p_string(c, i) is None);
    assert(c.subrange(i, i + t.len()) == t);
}


/// A part of a text held at `i` is held at the corresponding position.
proof fn lemma_holds_part(c: Seq<char>, i: int, t: Seq<char>, a: int, b: int)
    requires
        holds_at(c, i, t),
        0 <= a <= b <= t.len(),
    ensures
        holds_at(c, i + a, t.subrange(a, b)),
        forall|x: int| a <= x < b ==> c[i + x] == #[trigger] t[x],
{
    assert forall|x: int| a <= x < b implies c[i + x] == #[trigger] t[x] by {
        assert(c.subrange(i, i + t.len())[x] == t[x]);
    }
    assert(c.subrange(i + a, i + b) =~= t.subrange(a, b));
}

/// The value of the digit character of `k` is `k`.
proof fn lemma_digit_char_val(k: int)
    requires
        0 <= k < 10,
    ensures
        digit_val(digit_char(k)) == k,
{
    if k == 0 { } else if k == 1 { } else if k == 2 { } else if k == 3 { } else if k == 4 { }
    else if k == 5 { } else if k == 6 { } else if k == 7 { } else if k == 8 { } else { }
}

/// A digit character is `'0'` only for the value zero.
proof fn lemma_digit_char_zero(k: int)
    requires
        0 <= k < 10,
    ensures
        (digit_char(k) == '0') == (k == 0),
        is_digit(digit_char(k)),
{
}

/// The sign that starts the text of a number: `-` for a negative one.
pub open spec fn sign_text(neg: bool) -> Seq<char> {
    if neg { seq!['-'] } else { Seq::<char>::empty() }
}

/// The text of a decimal with sign `neg`, integral digits `ip` and
/// fractional digits `fp`.
pub open spec fn number_text(neg: bool, ip: Seq<char>, fp: Seq<char>) -> Seq<char> {
    sign_text(neg) + ip + seq!['.'] + fp
}

/// Number text at `i`, followed by a delimiter, reads as the decimal that its
/// parts denote.
proof fn lemma_read_number_text(c: Seq<char>, i: int, neg: bool, ip: Seq<char>, fp: Seq<char>, d: Decimal)
    requires
        ascii_classified(),
        ip.len() > 0,
        fp.len() > 0,
        all_digits(ip),
        all_digits(fp),
        holds_at(c, i, number_text(neg, ip, fp)),
        delimited(c, i + number_text(neg, ip, fp).len()),
        decimal_from_parts(neg, ip, fp) == Some(d),
    ensures
        p_atom(c, i) == Some((SexprV::Float(d), i + number_text(neg, ip, fp).len())),
{
    lemma_delimiters();
    let t = number_text(neg, ip, fp);
    let sign = sign_text(neg);
    let j = i + sign.len();
    let dot = j + ip.len();
    let end = i + t.len();
    assert(end == dot + 1 + fp.len());
    lemma_holds_part(c, i, t, 0, t.len() as int);
    assert(t.subrange(sign.len() as int, (sign.len() + ip.len()) as int) =~= ip);
    lemma_holds_part(c, i, t, sign.len() as int, (sign.len() + ip.len()) as int);
    assert(t.subrange((sign.len() + ip.len() + 1) as int, t.len() as int) =~= fp);
    lemma_holds_part(c, i, t, (sign.len() + ip.len() + 1) as int, t.len() as int);
    assert(t[(sign.len() + ip.len()) as int] == '.');
    assert(c[dot] == '.');
    lemma_digits_end(c, j, ip);
    lemma_digits_end(c, dot + 1, fp);
    assert(c.subrange(j, dot) == ip);
    assert(c.subrange(dot + 1, end) == fp);
    if neg {
        assert(t[0] == '-');
        assert(c[i] == '-');
    } else {
        assert(t[0] == ip[0]);
        assert(is_digit(ip[0]));
        assert(c[i] == ip[0]);
    }
    assert(p_bool(c, i) is None);
    assert(p_nil(c, i) is None);
    assert(p_string(c, i) is None);
}

/// The text of a decimal in normalized form is number text, with parts that
/// read back as the decimal.
proof fn lemma_float_text_parts(d: Decimal) -> (r: (Seq<char>, Seq<char>))
    requires
        d.wf(),
    ensures
        r.0.len() > 0,
        r.1.len() > 0,
        all_digits(r.0),
        all_digits(r.1),
        d.float_text() == number_text(d.mantissa < 0, r.0, r.1),
        decimal_from_parts(d.mantissa < 0, r.0, r.1) == Some(d),
{
    let m = d.mantissa as int;
    let neg = m < 0;
    let n = if neg { (-m) as nat } else { m as nat };
    lemma_nat_digits_shape(n);
    let ds = nat_digits(n);
    if d.scale == 0 {
        lemma_float_parts_whole(d)
    } else if ds.len() > d.scale {
        lemma_float_parts_long(d)
    } else {
        lemma_float_parts_short(d)
    }
}

/// `lemma_float_text_parts` for a decimal without fractional digits.
proof fn lemma_float_parts_whole(d: Decimal) -> (r: (Seq<char>, Seq<char>))
    requires
        d.wf(),
        d.scale == 0,
    ensures
        r.0.len() > 0,
        r.1.len() > 0,
        all_digits(r.0),
        all_digits(r.1),
        d.float_text() == number_text(d.mantissa < 0, r.0, r.1),
        decimal_from_parts(d.mantissa < 0, r.0, r.1) == Some(d),
{
    let m = d.mantissa as int;
    let neg = m < 0;
    let n = if neg { (-m) as nat } else { m as nat };
    lemma_nat_digits_shape(n);
    let ds = nat_digits(n);
    let z = seq!['0'];
    assert(d.float_text() =~= number_text(neg, ds, z));
    assert(strip_zeros(z) =~= Seq::<char>::empty()) by {
        assert(z.drop_last() =~= Seq::<char>::empty());
        reveal_with_fuel(strip_zeros, 2);
    }
    assert(ds + Seq::<char>::empty() =~= ds);
    (ds, z)
}

/// `lemma_float_text_parts` for a decimal with more digits than its scale.
proof fn lemma_float_parts_long(d: Decimal) -> (r: (Seq<char>, Seq<char>))
    requires
        d.wf(),
        d.scale > 0,
        nat_digits(if d.mantissa < 0 { (-d.mantissa) as nat } else { d.mantissa as nat }).len() > d.scale,
    ensures
        r.0.len() > 0,
        r.1.len() > 0,
        all_digits(r.0),
        all_digits(r.1),
        d.float_text() == number_text(d.mantissa < 0, r.0, r.1),
        decimal_from_parts(d.mantissa < 0, r.0, r.1) == Some(d),
{
    let m = d.mantissa as int;
    let neg = m < 0;
    let n = if neg { (-m) as nat } else { m as nat };
    lemma_nat_digits_shape(n);
    let ds = nat_digits(n);
    let s = d.scale as nat;
    assert(n % 10 != 0);
    lemma_digit_char_zero((n % 10) as int);
    let ip = ds.take(ds.len() - s);
    let fp = ds.skip(ds.len() - s);
    assert(d.float_text() =~= number_text(neg, ip, fp));
    assert(all_digits(ip));
    assert(all_digits(fp));
    assert(fp.last() == ds.last());
    lemma_strip_none(fp);
    assert(ip + fp =~= ds);
    (ip, fp)
}

/// `lemma_float_text_parts` for a decimal with no more digits than its scale.
proof fn lemma_float_parts_short(d: Decimal) -> (r: (Seq<char>, Seq<char>))
    requires
        d.wf(),
        d.scale > 0,
        nat_digits(if d.mantissa < 0 { (-d.mantissa) as nat } else { d.mantissa as nat }).len() <= d.scale,
    ensures
        r.0.len() > 0,
        r.1.len() > 0,
        all_digits(r.0),
        all_digits(r.1),
        d.float_text() == number_text(d.mantissa < 0, r.0, r.1),
        decimal_from_parts(d.mantissa < 0, r.0, r.1) == Some(d),
{
    let m = d.mantissa as int;
    let neg = m < 0;
    let n = if neg { (-m) as nat } else { m as nat };
    lemma_nat_digits_shape(n);
    let ds = nat_digits(n);
    let s = d.scale as nat;
    assert(n % 10 != 0);
    lemma_digit_char_zero((n % 10) as int);
    let ip = seq!['0'];
    let fp = zeros((s - ds.len()) as nat) + ds;
    assert(d.float_text() =~= number_text(neg, ip, fp));
    assert(all_digits(fp));
    assert(fp.last() == ds.last());
    lemma_strip_none(fp);
    lemma_digits_value_leading_zeros((s - ds.len() + 1) as nat, ds);
    assert(ip + fp =~= zeros((s - ds.len() + 1) as nat) + ds);
    (ip, fp)
}

/// A decimal's text at `i` reads as the decimal, for a decimal in normalized
/// form.
proof fn lemma_read_float(c: Seq<char>, i: int, d: Decimal)
    requires
        ascii_classified(),
        d.wf(),
        holds_at(c, i, d.float_text()),
        delimited(c, i + d.float_text().len()),
    ensures
        p_atom(c, i) == Some((SexprV::Float(d), i + d.float_text().len())),
{
    let (ip, fp) = lemma_float_text_parts(d);
    lemma_read_number_text(c, i, d.mantissa < 0, ip, fp, d);
}

// === Expressions ===

/// The position of item `j` of a list whose text starts at `i`.
pub open spec fn item_pos(i: int, items: Seq<SexprV>, j: int) -> int {
    if j == 0 {
        i + 1
    } else {
        i + 2 + print_items(items.take(j)).len()
    }
}

/// The texts of the first `j + 1` items: those of the first `j`, a space,
/// and that of item `j`.
proof fn lemma_print_items_step(items: Seq<SexprV>, j: int)
    requires
        0 <= j < items.len(),
    ensures
        print_items(items.take(j + 1)) == if j == 0 {
            print_text(items[0])
        } else {
            print_items(items.take(j)) + seq![' '] + print_text(items[j])
        },
{
    if j > 0 {
        assert(items.take(j + 1).subrange(0, j) =~= items.take(j));
    }
}

/// The texts of the first `m` items begin the texts of all items.
proof fn lemma_print_items_prefix(items: Seq<SexprV>, m: int)
    requires
        1 <= m <= items.len(),
    ensures
        print_items(items).subrange(0, print_items(items.take(m)).len() as int) == print_items(items.take(m)),
        print_items(items.take(m)).len() <= print_items(items).len(),
    decreases items.len() - m,
{
    if m == items.len() {
        assert(items.take(m) =~= items);
    } else {
        lemma_print_items_prefix(items, m + 1);
        lemma_print_items_step(items, m);
        let a = print_items(items.take(m));
        let b = print_items(items.take(m + 1));
        assert(b.subrange(0, a.len() as int) =~= a);
    }
}

/// Reading the rest of a list from the end of item `k - 1` (or from its
/// opening parenthesis for `k == 0`) reads the remaining items and the
/// closing parenthesis.
proof fn lemma_read_items(c: Seq<char>, i: int, items: Seq<SexprV>, k: int)
    requires
        ascii_classified(),
        items.len() > 0,
        0 <= k <= items.len(),
        holds_at(c, i, print_text(SexprV::List(items))),
        forall|j: int| 0 <= j < items.len() ==> readable(#[trigger] items[j]),
        forall|j: int| 0 <= j < items.len() ==> p_expr(c, item_pos(i, items, j)) == Ok::<(SexprV, int), int>(
            (items[j], item_pos(i, items, j) + print_text(items[j]).len()),
        ),
    ensures
        p_items(c, if k == 0 { i + 1 } else { i + 1 + print_items(items.take(k)).len() }, items.take(k))
            == Ok::<(SexprV, int), int>(
            (SexprV::List(items), i + print_text(SexprV::List(items)).len()),
        ),
    decreases items.len() - k,
{
    lemma_delimiters();
    let t = print_text(SexprV::List(items));
    let pi = print_items(items);
    assert(t == seq!['('] + pi + seq![')']);
    lemma_holds_part(c, i, t, 0, t.len() as int);
    let jpos = if k == 0 { i + 1 } else { i + 1 + print_items(items.take(k)).len() };
    if k > 0 {
        lemma_print_items_prefix(items, k);
    }
    if k == items.len() {
        assert(items.take(k) =~= items);
        assert(c[jpos] == t[(1 + pi.len()) as int]);
        assert(c[jpos] == ')');
        assert(skip(c, jpos) == jpos);
    } else {
        let p = item_pos(i, items, k);
        lemma_first_char(items[k]);
        lemma_print_items_step(items, k);
        lemma_print_items_prefix(items, k + 1);
        let tk = print_text(items[k]);
        let before = print_items(items.take(k + 1));
        assert(pi.subrange(0, before.len() as int) == before);
        if k == 0 {
            assert(before == tk);
            assert(c[p] == t[1]);
            assert(t[1] == pi[0]);
            assert(pi[0] == tk[0]);
            assert(skip(c, jpos) == jpos);
        } else {
            let a = print_items(items.take(k));
            assert(before == a + seq![' '] + tk);
            assert(c[jpos] == t[(1 + a.len()) as int]);
            assert(t[(1 + a.len()) as int] == pi[a.len() as int]);
            assert(pi[a.len() as int] == before[a.len() as int]);
            assert(c[jpos] == ' ');
            assert(c[p] == t[(2 + a.len()) as int]);
            assert(t[(2 + a.len()) as int] == before[(a.len() + 1) as int]);
            assert(c[p] == tk[0]);
            assert(skip(c, jpos + 1) == jpos + 1);
            assert(skip(c, jpos) == jpos + 1);
        }
        assert(c[p] != ')');
        lemma_read_items(c, i, items, k + 1);
        assert(items.take(k).push(items[k]) =~= items.take(k + 1));
        assert(p + tk.len() == i + 1 + before.len());
    }
}

/// Reading at `i`, where the text of a readable S-expression stands, ended
/// by a delimiter, gives the S-expression and the position after its text.
#[verifier::rlimit(40)]
proof fn lemma_read_at(c: Seq<char>, i: int, s: SexprV)
    requires
        ascii_classified(),
        readable(s),
        holds_at(c, i, print_text(s)),
        delimited(c, i + print_text(s).len()),
    ensures
        p_expr(c, i) == Ok::<(SexprV, int), int>((s, i + print_text(s).len())),
    decreases s,
{
    lemma_delimiters();
    let t = print_text(s);
    lemma_holds_part(c, i, t, 0, t.len() as int);
    match s {
        SexprV::Symbol(x) => lemma_read_symbol(c, i, x),
        SexprV::Keyword(k) => lemma_read_keyword(c, i, k),
        SexprV::Str(x) => lemma_read_string(c, i, x),
        SexprV::Integer(v) => lemma_read_integer(c, i, v),
        SexprV::Float(d) => lemma_read_float(c, i, d),
        SexprV::Bool(b) => {
            assert(t[0] == '#');
            assert(c[i] == t[0]);
            assert(c[i + 1] == t[1]);
        },
        SexprV::Nil => {
            assert(c[i] == t[0]);
            assert(c[i + 1] == t[1]);
            assert(c[i + 2] == t[2]);
            assert(p_bool(c, i) is None);
        },
        SexprV::List(items) => {
            assert(t[0] == '(');
            assert(c[i] == t[0]);
            assert(p_bool(c, i) is None);
            assert(p_nil(c, i) is None);
            assert(p_string(c, i) is None);
            assert(digits_end(c, i) == i);
            assert(p_number(c, i) is None);
            assert(p_keyword(c, i) is None);
            assert(symbol_end(c, i) == i);
            assert(p_symbol(c, i) is None);
            if items.len() == 0 {
                assert(c[i + 1] == t[1]);
                assert(c[i + 1] == ')');
                assert(skip(c, i + 1) == i + 1);
                assert(items =~= Seq::<SexprV>::empty());
                assert(p_items(c, i + 1, Seq::<SexprV>::empty()) == Ok::<(SexprV, int), int>((s, i + 2)));
            } else {
                let pi = print_items(items);
                assert(t == seq!['('] + pi + seq![')']);
                assert forall|j: int| 0 <= j < items.len() implies p_expr(c, item_pos(i, items, j))
                    == Ok::<(SexprV, int), int>(
                    (items[j], item_pos(i, items, j) + print_text(items[j]).len()),
                ) by {
                    let tj = print_text(items[j]);
                    let p = item_pos(i, items, j);
                    lemma_print_items_step(items, j);
                    lemma_print_items_prefix(items, j + 1);
                    let upto = print_items(items.take(j + 1));
                    let off: int = if j == 0 { 0int } else { print_items(items.take(j)).len() + 1int };
                    assert(upto.subrange(off, upto.len() as int) =~= tj);
                    assert(pi.subrange(0, upto.len() as int) == upto);
                    assert(t.subrange(1 + off, (1 + upto.len()) as int) =~= tj);
                    lemma_holds_part(c, i, t, 1 + off, (1 + upto.len()) as int);
                    assert(p == i + 1 + off);
                    let e = p + tj.len();
                    if j + 1 < items.len() {
                        lemma_print_items_step(items, j + 1);
                        lemma_print_items_prefix(items, j + 2);
                        let next = print_items(items.take(j + 2));
                        assert(next[upto.len() as int] == ' ');
                        assert(pi.subrange(0, next.len() as int) == next);
                        assert(c[e] == t[(1 + upto.len()) as int]);
                    } else {
                        assert(items.take(j + 1) =~= items);
                        assert(c[e] == t[(1 + pi.len()) as int]);
                    }
                    lemma_read_at(c, p, items[j]);
                }
                lemma_read_items(c, i, items, 0);
                assert(items.take(0) =~= Seq::<SexprV>::empty());
                assert(p_items(c, i + 1, Seq::<SexprV>::empty()) == Ok::<(SexprV, int), int>((s, i + t.len())));
            }
        },
    }
}

} // verus!
