//! Reading S-expression text.
//!
//! The grammar: whitespace (space, tab, carriage return, newline) and
//! comments (`;` to the end of the line) may stand before any expression and
//! before a closing parenthesis. An expression is the first of these that
//! matches at its position:
//!
//! - a boolean: `#t` or `#f`, or the word `true` or `false` unless a
//!   symbol character follows it;
//! - `nil`, unless a symbol character follows it;
//! - a string: `""`, or a double quote, one or more characters other than
//!   `"` and `\` or escapes `\"`, `\\`, `\n`, `\r`, `\t`, and a double quote;
//! - a number: an optional `-`, digits, and optionally `.` and more digits,
//!   not followed by a symbol character other than a digit or `.`; with a
//!   point it is a decimal, without one an integer, and one that does not fit
//!   is no number;
//! - a keyword: `:` and one or more alphanumeric, `-` or `_` characters;
//! - a symbol: one or more alphanumeric characters or `-_+*/=<>!?.#@$%^&~`;
//! - a list: `(`, expressions, and `)`.

use vstd::prelude::*;
use crate::decimal::{Decimal, decimal_from_parts, decimal_of_digits};
use crate::text::{
    is_digit, all_digits, int_text_value, parse_int_text, is_alphanumeric, unicode_alphanumeric,
    string_of_range, string_of_chars, chars_of, utf8_len, byte_prefix,
    utf8_len_exceeds, byte_prefix_of, push_char,
};
use super::ast::{Sexpr, SexprV, views_of, lemma_views_of_push};
use super::error::{ParseError, ParseErrorV};

verus! {

// === Character classes ===

/// Whitespace between expressions.
pub open spec fn is_ws(c: char) -> bool {
    c == ' ' || c == '\t' || c == '\r' || c == '\n'
}

/// A character that may stand in a symbol.
pub open spec fn symbol_char(c: char) -> bool {
    unicode_alphanumeric(c) || c == '-' || c == '_' || c == '+' || c == '*' || c == '/' || c
        == '=' || c == '<' || c == '>' || c == '!' || c == '?' || c == '.' || c == '#' || c == '@'
        || c == '$' || c == '%' || c == '^' || c == '&' || c == '~'
}

/// A character that may stand in a keyword after the colon.
pub open spec fn keyword_char(c: char) -> bool {
    unicode_alphanumeric(c) || c == '-' || c == '_'
}

/// A character that may follow a backslash in a string.
pub open spec fn escapable(c: char) -> bool {
    c == '"' || c == '\\' || c == 'n' || c == 'r' || c == 't'
}

/// Whether `c` may stand in a symbol.
pub fn is_symbol_char(c: char) -> (r: bool)
    ensures
        r == symbol_char(c),
{
    is_alphanumeric(c) || c == '-' || c == '_' || c == '+' || c == '*' || c == '/' || c == '='
        || c == '<' || c == '>' || c == '!' || c == '?' || c == '.' || c == '#' || c == '@' || c
        == '$' || c == '%' || c == '^' || c == '&' || c == '~'
}

/// Whether `c` may stand in a keyword after the colon.
pub fn is_keyword_char(c: char) -> (r: bool)
    ensures
        r == keyword_char(c),
{
    is_alphanumeric(c) || c == '-' || c == '_'
}

// === Positions ===

/// The position after the whitespace and comments that start at `i`.
pub open spec fn skip(s: Seq<char>, i: int) -> int
    decreases s.len() - i,
{
    if 0 <= i < s.len() && is_ws(s[i]) {
        skip(s, i + 1)
    } else if 0 <= i < s.len() && s[i] == ';' {
        skip_comment(s, i + 1)
    } else {
        i
    }
}

/// The characters that may stand in a symbol are the letters and digits and
/// `- _ + * / = < > ! ? . # @ $ % ^ & ~`; those that may stand in a keyword
/// after its colon are the letters and digits, `-` and `_`.
pub proof fn law_name_characters(c: char)
    ensures
        symbol_char(c) <==> (unicode_alphanumeric(c) || c == '-' || c == '_' || c == '+' || c == '*'
            || c == '/' || c == '=' || c == '<' || c == '>' || c == '!' || c == '?' || c == '.' || c
            == '#' || c == '@' || c == '$' || c == '%' || c == '^' || c == '&' || c == '~'),
        keyword_char(c) <==> (unicode_alphanumeric(c) || c == '-' || c == '_'),
{
}

/// The escapes of a string: `\n`, `\r` and `\t` stand for a line feed, a
/// carriage return and a tab, `\"` and `\\` for a double quote and a
/// backslash; a backslash before any other character stays as it is.
pub proof fn law_string_escapes(c: char)
    ensures
        unescape_char('n') == seq!['\n'],
        unescape_char('r') == seq!['\r'],
        unescape_char('t') == seq!['\t'],
        unescape_char('"') == seq!['"'],
        unescape_char('\\') == seq!['\\'],
        !(c == 'n' || c == 'r' || c == 't' || c == '"' || c == '\\') ==> unescape_char(c) == seq![
            '\\',
            c,
        ],
{
}

/// Every whitespace character separates items alike: skipping from a space,
/// a tab, a carriage return or a line feed reaches the same position as
/// skipping from the character after it.
pub proof fn law_whitespace_skipped(s: Seq<char>, i: int)
    requires
        0 <= i < s.len(),
        s[i] == ' ' || s[i] == '\t' || s[i] == '\r' || s[i] == '\n',
    ensures
        skip(s, i) == skip(s, i + 1),
{
}

/// The position after the rest of a comment line that reaches `i`, and the
/// whitespace and comments that follow it.
pub open spec fn skip_comment(s: Seq<char>, i: int) -> int
    decreases s.len() - i,
{
    if 0 <= i < s.len() {
        if s[i] == '\n' {
            skip(s, i + 1)
        } else {
            skip_comment(s, i + 1)
        }
    } else {
        s.len() as int
    }
}

/// `skip` moves forward and stays within the text.
pub proof fn lemma_skip_bounds(s: Seq<char>, i: int)
    requires
        0 <= i <= s.len(),
    ensures
        i <= skip(s, i) <= s.len(),
    decreases s.len() - i,
{
    if i < s.len() && is_ws(s[i]) {
        lemma_skip_bounds(s, i + 1);
    } else if i < s.len() && s[i] == ';' {
        lemma_skip_comment_bounds(s, i + 1);
    }
}

/// `skip_comment` moves forward and stays within the text.
pub proof fn lemma_skip_comment_bounds(s: Seq<char>, i: int)
    requires
        0 <= i <= s.len(),
    ensures
        i <= skip_comment(s, i) <= s.len(),
    decreases s.len() - i,
{
    if i < s.len() {
        if s[i] == '\n' {
            lemma_skip_bounds(s, i + 1);
        } else {
            lemma_skip_comment_bounds(s, i + 1);
        }
    }
}

/// The end of the run of digits that starts at `i`.
pub open spec fn digits_end(s: Seq<char>, i: int) -> int
    decreases s.len() - i,
{
    if 0 <= i < s.len() && is_digit(s[i]) {
        digits_end(s, i + 1)
    } else {
        i
    }
}

/// The end of the run of symbol characters that starts at `i`.
pub open spec fn symbol_end(s: Seq<char>, i: int) -> int
    decreases s.len() - i,
{
    if 0 <= i < s.len() && symbol_char(s[i]) {
        symbol_end(s, i + 1)
    } else {
        i
    }
}

/// The end of the run of keyword characters that starts at `i`.
pub open spec fn keyword_end(s: Seq<char>, i: int) -> int
    decreases s.len() - i,
{
    if 0 <= i < s.len() && keyword_char(s[i]) {
        keyword_end(s, i + 1)
    } else {
        i
    }
}

/// The end of the contents of a string literal that start at `i`: the
/// position of the closing quote, or the end of the text; `None` at a
/// backslash that does not start an escape.
pub open spec fn string_end(s: Seq<char>, i: int) -> Option<int>
    decreases s.len() - i,
{
    if 0 <= i < s.len() {
        if s[i] == '"' {
            Some(i)
        } else if s[i] == '\\' {
            if i + 1 < s.len() && escapable(s[i + 1]) {
                string_end(s, i + 2)
            } else {
                None
            }
        } else {
            string_end(s, i + 1)
        }
    } else {
        Some(s.len() as int)
    }
}

/// The character that an escape `\c` stands for.
pub open spec fn unescape_char(c: char) -> Seq<char> {
    if c == 'n' {
        seq!['\n']
    } else if c == 'r' {
        seq!['\r']
    } else if c == 't' {
        seq!['\t']
    } else if c == '"' {
        seq!['"']
    } else if c == '\\' {
        seq!['\\']
    } else {
        seq!['\\', c]
    }
}

/// The characters that string contents `t` stand for: each escape is
/// replaced by the character it stands for; a backslash before another
/// character, or at the end, stays.
pub open spec fn unescape(t: Seq<char>) -> Seq<char>
    decreases t.len(),
{
    if t.len() == 0 {
        Seq::empty()
    } else if t[0] == '\\' {
        if t.len() == 1 {
            seq!['\\']
        } else {
            unescape_char(t[1]) + unescape(t.skip(2))
        }
    } else {
        seq![t[0]] + unescape(t.drop_first())
    }
}

// === Atoms ===

/// Position `e` ends a word: the end of the text, or a character that
/// cannot stand in a symbol.
pub open spec fn word_ends(s: Seq<char>, e: int) -> bool {
    e == s.len() || !symbol_char(s[e])
}

/// The word `true` at `i`, not followed by a symbol character.
pub open spec fn true_at(s: Seq<char>, i: int) -> bool {
    0 <= i && i + 4 <= s.len() && s[i] == 't' && s[i + 1] == 'r' && s[i + 2] == 'u' && s[i + 3] == 'e'
        && word_ends(s, i + 4)
}

/// The word `false` at `i`, not followed by a symbol character.
pub open spec fn false_at(s: Seq<char>, i: int) -> bool {
    0 <= i && i + 5 <= s.len() && s[i] == 'f' && s[i + 1] == 'a' && s[i + 2] == 'l' && s[i + 3] == 's'
        && s[i + 4] == 'e' && word_ends(s, i + 5)
}

/// A boolean at `i`: `#t`, `#f`, or the word `true` or `false`.
pub open spec fn p_bool(s: Seq<char>, i: int) -> Option<(SexprV, int)> {
    if 0 <= i && i + 1 < s.len() && s[i] == '#' && s[i + 1] == 't' {
        Some((SexprV::Bool(true), i + 2))
    } else if 0 <= i && i + 1 < s.len() && s[i] == '#' && s[i + 1] == 'f' {
        Some((SexprV::Bool(false), i + 2))
    } else if true_at(s, i) {
        Some((SexprV::Bool(true), i + 4))
    } else if false_at(s, i) {
        Some((SexprV::Bool(false), i + 5))
    } else {
        None
    }
}

/// `nil` at `i`.
pub open spec fn p_nil(s: Seq<char>, i: int) -> Option<(SexprV, int)> {
    if 0 <= i && i + 2 < s.len() && s[i] == 'n' && s[i + 1] == 'i' && s[i + 2] == 'l' && (i + 3
        == s.len() || !symbol_char(s[i + 3])) {
        Some((SexprV::Nil, i + 3))
    } else {
        None
    }
}

/// A string literal at `i`.
pub open spec fn p_string(s: Seq<char>, i: int) -> Option<(SexprV, int)> {
    if 0 <= i && i + 1 < s.len() && s[i] == '"' && s[i + 1] == '"' {
        Some((SexprV::Str(Seq::empty()), i + 2))
    } else if 0 <= i < s.len() && s[i] == '"' {
        match string_end(s, i + 1) {
            Some(k) => if k < s.len() {
                Some((SexprV::Str(unescape(s.subrange(i + 1, k))), k + 1))
            } else {
                None
            },
            None => None,
        }
    } else {
        None
    }
}

/// A number at `i`.
pub open spec fn p_number(s: Seq<char>, i: int) -> Option<(SexprV, int)> {
    let neg = 0 <= i < s.len() && s[i] == '-';
    let j = if neg { i + 1 } else { i };
    let d = digits_end(s, j);
    if i < 0 || d == j {
        None
    } else {
        let has_dot = d < s.len() && s[d] == '.';
        let e = if has_dot { digits_end(s, d + 1) } else { d };
        if e < s.len() && symbol_char(s[e]) && !is_digit(s[e]) && s[e] != '.' {
            None
        } else if has_dot {
            match decimal_from_parts(neg, s.subrange(j, d), s.subrange(d + 1, e)) {
                Some(x) => Some((SexprV::Float(x), e)),
                None => None,
            }
        } else {
            match int_text_value(s.subrange(i, e), true) {
                Some(v) => if i64::MIN <= v <= i64::MAX {
                    Some((SexprV::Integer(v), e))
                } else {
                    None
                },
                None => None,
            }
        }
    }
}

/// A keyword at `i`.
pub open spec fn p_keyword(s: Seq<char>, i: int) -> Option<(SexprV, int)> {
    if 0 <= i < s.len() && s[i] == ':' && keyword_end(s, i + 1) > i + 1 {
        Some((SexprV::Keyword(s.subrange(i + 1, keyword_end(s, i + 1))), keyword_end(s, i + 1)))
    } else {
        None
    }
}

/// A symbol at `i`.
pub open spec fn p_symbol(s: Seq<char>, i: int) -> Option<(SexprV, int)> {
    if 0 <= i && symbol_end(s, i) > i {
        Some((SexprV::Symbol(s.subrange(i, symbol_end(s, i))), symbol_end(s, i)))
    } else {
        None
    }
}

/// An atom at `i`: the first of boolean, `nil`, string, number, keyword and
/// symbol that matches there.
pub open spec fn p_atom(s: Seq<char>, i: int) -> Option<(SexprV, int)> {
    if p_bool(s, i) is Some {
        p_bool(s, i)
    } else if p_nil(s, i) is Some {
        p_nil(s, i)
    } else if p_string(s, i) is Some {
        p_string(s, i)
    } else if p_number(s, i) is Some {
        p_number(s, i)
    } else if p_keyword(s, i) is Some {
        p_keyword(s, i)
    } else {
        p_symbol(s, i)
    }
}


/// `#t` reads as true and `#f` as false, wherever they stand.
pub proof fn law_boolean_marks(s: Seq<char>, i: int)
    requires
        0 <= i,
        i + 1 < s.len(),
        s[i] == '#',
    ensures
        s[i + 1] == 't' ==> p_atom(s, i) == Some((SexprV::Bool(true), i + 2)),
        s[i + 1] == 'f' ==> p_atom(s, i) == Some((SexprV::Bool(false), i + 2)),
{
}

// === Expressions and lists ===

/// An expression at `i`: an atom, or a list. The error is the position at
/// which the reading failed: `i` itself, or for a list the position of the
/// first item that could not be read (where `)` was expected).
pub open spec fn p_expr(s: Seq<char>, i: int) -> Result<(SexprV, int), int>
    decreases s.len() - i, 1int,
{
    match p_atom(s, i) {
        Some((v, e)) => Ok((v, e)),
        None => if 0 <= i < s.len() && s[i] == '(' {
            p_items(s, i + 1, Seq::empty())
        } else {
            Err(i)
        },
    }
}

/// The rest of a list from `j`, after the items `acc`: whitespace and
/// comments, then `)` or another item.
pub open spec fn p_items(s: Seq<char>, j: int, acc: Seq<SexprV>) -> Result<(SexprV, int), int>
    decreases s.len() - j, 2int,
{
    if 0 <= j <= s.len() {
        let k = skip(s, j);
        proof {
            lemma_skip_bounds(s, j);
        }
        if k < s.len() && s[k] == ')' {
            Ok((SexprV::List(acc), k + 1))
        } else {
            match p_expr(s, k) {
                Ok((v, e)) => if k < e <= s.len() {
                    p_items(s, e, acc.push(v))
                } else {
                    Err(k)
                },
                Err(_) => Err(k),
            }
        }
    } else {
        Err(j)
    }
}

/// What `char::escape_debug` writes for a character.
pub uninterp spec fn escape_debug_text(c: char) -> Seq<char>;

/// A character as a `str`'s `Debug` text writes it: as `char::escape_debug`
/// does, but for a single quote, which stands as it is.
pub open spec fn debug_char(c: char) -> Seq<char> {
    if c == '\'' {
        seq!['\'']
    } else {
        escape_debug_text(c)
    }
}

/// The characters of a text between the quotes of its `Debug` text.
pub open spec fn debug_text(t: Seq<char>) -> Seq<char>
    decreases t.len(),
{
    if t.len() == 0 {
        Seq::empty()
    } else {
        debug_text(t.drop_last()) + debug_char(t.last())
    }
}

/// The text of a reading failure at the start of `rest`: the `Debug` text of
/// the reader's error, which holds the rest of the input and the kind of the
/// step that failed, the closing parenthesis of a list being the last one
/// tried.
pub open spec fn failure_message(rest: Seq<char>) -> Seq<char> {
    "Error { input: \""@ + debug_text(rest) + "\", code: Char }"@
}

/// The start of trailing text, as `parse` reports it: the longest run of its
/// first characters that takes at most 20 bytes.
pub open spec fn trailing_text(rest: Seq<char>) -> Seq<char> {
    if utf8_len(rest) <= 20 {
        rest
    } else {
        byte_prefix(rest, 20)
    }
}

/// The result of reading one expression from the whole text `s`.
pub open spec fn parse_spec(s: Seq<char>) -> Result<SexprV, ParseErrorV> {
    let i = skip(s, 0);
    match p_expr(s, i) {
        Err(pos) => Err(ParseErrorV::Nom(failure_message(s.skip(pos)))),
        Ok((v, e)) => {
            let r = skip(s, e);
            if r < s.len() {
                Err(ParseErrorV::TrailingContent(trailing_text(s.skip(r))))
            } else {
                Ok(v)
            }
        },
    }
}

/// The expressions read from position `p` on, after `acc`, and the position
/// where reading stopped.
pub open spec fn p_all(s: Seq<char>, p: int, acc: Seq<SexprV>) -> (Seq<SexprV>, int)
    decreases s.len() - p,
{
    if 0 <= p <= s.len() {
        let k = skip(s, p);
        match p_expr(s, k) {
            Ok((v, e)) => if p < e <= s.len() {
                p_all(s, e, acc.push(v))
            } else {
                (acc, p)
            },
            Err(_) => (acc, p),
        }
    } else {
        (acc, p)
    }
}

/// The result of reading all expressions of the text `s`.
pub open spec fn parse_all_spec(s: Seq<char>) -> Result<Seq<SexprV>, ParseErrorV> {
    let (items, p) = p_all(s, 0, Seq::empty());
    let r = skip(s, p);
    if 0 <= p <= s.len() && r < s.len() {
        Err(ParseErrorV::TrailingContent(trailing_text(s.skip(r))))
    } else {
        Ok(items)
    }
}

// === Reading positions ===

/// The position after the whitespace and comments that start at `i`, as
/// `skip` states.
pub fn skip_ws_and_comments(s: &Vec<char>, i: usize) -> (r: usize)
    requires
        i <= s.len(),
    ensures
        r == skip(s@, i as int),
        i <= r <= s.len(),
{
    let mut k = i;
    let mut in_comment = false;
    proof {
        lemma_skip_bounds(s@, i as int);
    }
    while k < s.len()
        invariant
            i <= k <= s.len(),
            !in_comment ==> skip(s@, i as int) == skip(s@, k as int),
            in_comment ==> skip(s@, i as int) == skip_comment(s@, k as int),
            i <= skip(s@, i as int) <= s.len(),
        decreases s.len() - k,
    {
        let c = s[k];
        if in_comment {
            if c == '\n' {
                in_comment = false;
            }
            k = k + 1;
        } else if c == ' ' || c == '\t' || c == '\r' || c == '\n' {
            k = k + 1;
        } else if c == ';' {
            in_comment = true;
            k = k + 1;
        } else {
            return k;
        }
    }
    if in_comment {
        s.len()
    } else {
        k
    }
}

/// The end of the run of digits that starts at `i`.
pub fn digits_end_at(s: &Vec<char>, i: usize) -> (r: usize)
    requires
        i <= s.len(),
    ensures
        r == digits_end(s@, i as int),
        i <= r <= s.len(),
        all_digits(s@.subrange(i as int, r as int)),
{
    digits_end_of(s, i)
}

/// The end of the run of digits that starts at `i`.
fn digits_end_of(s: &Vec<char>, i: usize) -> (r: usize)
    requires
        i <= s.len(),
    ensures
        r == digits_end(s@, i as int),
        i <= r <= s.len(),
        all_digits(s@.subrange(i as int, r as int)),
{
    let mut k = i;
    while k < s.len() && '0' <= s[k] && s[k] <= '9'
        invariant
            i <= k <= s.len(),
            digits_end(s@, i as int) == digits_end(s@, k as int),
            forall|j: int| i <= j < k ==> is_digit(#[trigger] s@[j]),
        decreases s.len() - k,
    {
        k = k + 1;
    }
    assert forall|j: int| 0 <= j < k - i implies is_digit(#[trigger] s@.subrange(i as int, k as int)[j]) by {
        assert(s@.subrange(i as int, k as int)[j] == s@[i + j]);
    }
    k
}

/// The end of the run of symbol characters that starts at `i`.
fn symbol_end_of(s: &Vec<char>, i: usize) -> (r: usize)
    requires
        i <= s.len(),
    ensures
        r == symbol_end(s@, i as int),
        i <= r <= s.len(),
{
    let mut k = i;
    while k < s.len() && is_symbol_char(s[k])
        invariant
            i <= k <= s.len(),
            symbol_end(s@, i as int) == symbol_end(s@, k as int),
        decreases s.len() - k,
    {
        k = k + 1;
    }
    k
}

/// The end of the run of keyword characters that starts at `i`.
fn keyword_end_of(s: &Vec<char>, i: usize) -> (r: usize)
    requires
        i <= s.len(),
    ensures
        r == keyword_end(s@, i as int),
        i <= r <= s.len(),
{
    let mut k = i;
    while k < s.len() && is_keyword_char(s[k])
        invariant
            i <= k <= s.len(),
            keyword_end(s@, i as int) == keyword_end(s@, k as int),
        decreases s.len() - k,
    {
        k = k + 1;
    }
    k
}

/// The end of string contents that start at `i`, as `string_end` states.
fn string_end_of(s: &Vec<char>, i: usize) -> (r: Option<usize>)
    requires
        i <= s.len(),
    ensures
        match r {
            Some(k) => string_end(s@, i as int) == Some(k as int) && i <= k <= s.len(),
            None => string_end(s@, i as int) is None,
        },
{
    let mut k = i;
    while k < s.len()
        invariant
            i <= k <= s.len(),
            string_end(s@, i as int) == string_end(s@, k as int),
        decreases s.len() - k,
    {
        let c = s[k];
        if c == '"' {
            return Some(k);
        } else if c == '\\' {
            if k + 1 < s.len() {
                let n = s[k + 1];
                if n == '"' || n == '\\' || n == 'n' || n == 'r' || n == 't' {
                    k = k + 2;
                } else {
                    return None;
                }
            } else {
                return None;
            }
        } else {
            k = k + 1;
        }
    }
    Some(s.len())
}

/// The characters that the string contents `s[from..to]` stand for, as
/// `unescape` states.
fn unescape_range(s: &Vec<char>, from: usize, to: usize) -> (r: Vec<char>)
    requires
        from <= to <= s.len(),
    ensures
        r@ == unescape(s@.subrange(from as int, to as int)),
{
    let ghost t = s@.subrange(from as int, to as int);
    let mut out: Vec<char> = Vec::new();
    let mut k = from;
    assert(t.skip(0) == t);
    while k < to
        invariant
            from <= k <= to <= s.len(),
            t == s@.subrange(from as int, to as int),
            unescape(t) == out@ + unescape(t.skip(k - from)),
        decreases to - k,
    {
        let ghost u = t.skip(k - from);
        assert(u[0] == s@[k as int]);
        let c = s[k];
        if c == '\\' {
            if k + 1 < to {
                let n = s[k + 1];
                assert(u[1] == n);
                assert(u.skip(2) == t.skip(k + 2 - from));
                if n == 'n' {
                    out.push('\n');
                } else if n == 'r' {
                    out.push('\r');
                } else if n == 't' {
                    out.push('\t');
                } else if n == '"' {
                    out.push('"');
                } else if n == '\\' {
                    out.push('\\');
                } else {
                    out.push('\\');
                    out.push(n);
                }
                k = k + 2;
            } else {
                out.push('\\');
                k = k + 1;
                assert(t.skip(k - from).len() == 0);
            }
        } else {
            out.push(c);
            k = k + 1;
            assert(u.drop_first() == t.skip(k - from));
        }
        assert(unescape(t) == out@ + unescape(t.skip(k - from)));
    }
    assert(t.skip(to - from).len() == 0);
    out
}

/// Resolves the escapes of string contents, as `unescape` states.
pub fn unescape_string(s: &str) -> (r: String)
    ensures
        r@ == unescape(s@),
{
    let cs = chars_of(s);
    let v = unescape_range(&cs, 0, cs.len());
    assert(cs@.subrange(0, cs.len() as int) == cs@);
    string_of_chars(&v)
}

// === Reading atoms ===

/// Reads a boolean at `i`.
fn read_bool(s: &Vec<char>, i: usize) -> (r: Option<(Sexpr, usize)>)
    requires
        i <= s.len(),
    ensures
        match r {
            Some((v, e)) => p_bool(s@, i as int) == Some((v@, e as int)),
            None => p_bool(s@, i as int) is None,
        },
{
    if i < s.len() && i + 1 < s.len() && s[i] == '#' && s[i + 1] == 't' {
        Some((Sexpr::Bool(true), i + 2))
    } else if i < s.len() && i + 1 < s.len() && s[i] == '#' && s[i + 1] == 'f' {
        Some((Sexpr::Bool(false), i + 2))
    } else if 4 <= s.len() - i && s[i] == 't' && s[i + 1] == 'r' && s[i + 2] == 'u' && s[i + 3] == 'e'
        && (i + 4 == s.len() || !is_symbol_char(s[i + 4])) {
        Some((Sexpr::Bool(true), i + 4))
    } else if 5 <= s.len() - i && s[i] == 'f' && s[i + 1] == 'a' && s[i + 2] == 'l' && s[i + 3] == 's'
        && s[i + 4] == 'e' && (i + 5 == s.len() || !is_symbol_char(s[i + 5])) {
        Some((Sexpr::Bool(false), i + 5))
    } else {
        None
    }
}

/// Reads `nil` at `i`.
fn read_nil(s: &Vec<char>, i: usize) -> (r: Option<(Sexpr, usize)>)
    requires
        i <= s.len(),
    ensures
        match r {
            Some((v, e)) => p_nil(s@, i as int) == Some((v@, e as int)),
            None => p_nil(s@, i as int) is None,
        },
{
    if i < s.len() && i + 1 < s.len() && i + 2 < s.len() && s[i] == 'n' && s[i + 1] == 'i' && s[i + 2] == 'l' {
        if i + 3 == s.len() || !is_symbol_char(s[i + 3]) {
            return Some((Sexpr::Nil, i + 3));
        }
    }
    None
}

/// Reads a string literal at `i`.
fn read_string(s: &Vec<char>, i: usize) -> (r: Option<(Sexpr, usize)>)
    requires
        i <= s.len(),
    ensures
        match r {
            Some((v, e)) => p_string(s@, i as int) == Some((v@, e as int)),
            None => p_string(s@, i as int) is None,
        },
{
    if i < s.len() && i + 1 < s.len() && s[i] == '"' && s[i + 1] == '"' {
        Some((Sexpr::String(String::new()), i + 2))
    } else if i < s.len() && s[i] == '"' {
        match string_end_of(s, i + 1) {
            Some(k) => {
                if k < s.len() {
                    let v = unescape_range(s, i + 1, k);
                    Some((Sexpr::String(string_of_chars(&v)), k + 1))
                } else {
                    None
                }
            },
            None => None,
        }
    } else {
        None
    }
}

/// Reads a number at `i`.
fn read_number(s: &Vec<char>, i: usize) -> (r: Option<(Sexpr, usize)>)
    requires
        i <= s.len(),
    ensures
        match r {
            Some((v, e)) => p_number(s@, i as int) == Some((v@, e as int)),
            None => p_number(s@, i as int) is None,
        },
{
    let neg = i < s.len() && s[i] == '-';
    let j = if neg { i + 1 } else { i };
    let d = digits_end_of(s, j);
    if d == j {
        return None;
    }
    let has_dot = d < s.len() && s[d] == '.';
    let e = if has_dot { digits_end_of(s, d + 1) } else { d };
    if e < s.len() {
        let c = s[e];
        if is_symbol_char(c) && !('0' <= c && c <= '9') && c != '.' {
            return None;
        }
    }
    if has_dot {
        match decimal_of_digits(neg, s, j, d, d + 1, e) {
            Some(x) => Some((Sexpr::Float(x), e)),
            None => None,
        }
    } else {
        let mut t: Vec<char> = Vec::new();
        let mut k = i;
        while k < e
            invariant
                i <= k <= e <= s.len(),
                t@ == s@.subrange(i as int, k as int),
            decreases e - k,
        {
            t.push(s[k]);
            k = k + 1;
            assert(s@.subrange(i as int, k as int) == s@.subrange(i as int, k - 1).push(s@[k - 1]));
        }
        match parse_int_text(&t, true) {
            Some(v) => {
                if -9223372036854775808i128 <= v && v <= 9223372036854775807i128 {
                    Some((Sexpr::Integer(v as i64), e))
                } else {
                    None
                }
            },
            None => None,
        }
    }
}

/// Reads a keyword at `i`.
fn read_keyword(s: &Vec<char>, i: usize) -> (r: Option<(Sexpr, usize)>)
    requires
        i <= s.len(),
    ensures
        match r {
            Some((v, e)) => p_keyword(s@, i as int) == Some((v@, e as int)),
            None => p_keyword(s@, i as int) is None,
        },
{
    if i < s.len() && s[i] == ':' {
        let k = keyword_end_of(s, i + 1);
        if k > i + 1 {
            return Some((Sexpr::Keyword(string_of_range(s, i + 1, k)), k));
        }
    }
    None
}

/// Reads a symbol at `i`.
fn read_symbol(s: &Vec<char>, i: usize) -> (r: Option<(Sexpr, usize)>)
    requires
        i <= s.len(),
    ensures
        match r {
            Some((v, e)) => p_symbol(s@, i as int) == Some((v@, e as int)),
            None => p_symbol(s@, i as int) is None,
        },
{
    let k = symbol_end_of(s, i);
    if k > i {
        Some((Sexpr::Symbol(string_of_range(s, i, k)), k))
    } else {
        None
    }
}

/// Reads an atom at `i`, as `p_atom` states.
fn read_atom(s: &Vec<char>, i: usize) -> (r: Option<(Sexpr, usize)>)
    requires
        i <= s.len(),
    ensures
        match r {
            Some((v, e)) => p_atom(s@, i as int) == Some((v@, e as int)),
            None => p_atom(s@, i as int) is None,
        },
{
    let b = read_bool(s, i);
    if b.is_some() {
        return b;
    }
    let n = read_nil(s, i);
    if n.is_some() {
        return n;
    }
    let st = read_string(s, i);
    if st.is_some() {
        return st;
    }
    let num = read_number(s, i);
    if num.is_some() {
        return num;
    }
    let k = read_keyword(s, i);
    if k.is_some() {
        return k;
    }
    read_symbol(s, i)
}


// === Reading expressions ===

/// Reads an expression at `i`, as `p_expr` states.
fn read_expr(s: &Vec<char>, i: usize) -> (r: Result<(Sexpr, usize), usize>)
    requires
        i <= s.len(),
    ensures
        match r {
            Ok((v, e)) => p_expr(s@, i as int) == Ok::<(SexprV, int), int>((v@, e as int)),
            Err(pos) => p_expr(s@, i as int) == Err::<(SexprV, int), int>(pos as int),
        },
    decreases s.len() - i, 1int,
{
    match read_atom(s, i) {
        Some((v, e)) => Ok((v, e)),
        None => {
            if i < s.len() && s[i] == '(' {
                let acc: Vec<Sexpr> = Vec::new();
                proof {
                    assert(views_of(acc@) == Seq::<SexprV>::empty());
                }
                read_items(s, i + 1, acc)
            } else {
                Err(i)
            }
        },
    }
}

/// Reads the rest of a list from `j`, after the items `acc`, as `p_items`
/// states.
fn read_items(s: &Vec<char>, j: usize, acc: Vec<Sexpr>) -> (r: Result<(Sexpr, usize), usize>)
    requires
        j <= s.len(),
    ensures
        match r {
            Ok((v, e)) => p_items(s@, j as int, views_of(acc@)) == Ok::<(SexprV, int), int>(
                (v@, e as int),
            ),
            Err(pos) => p_items(s@, j as int, views_of(acc@)) == Err::<(SexprV, int), int>(
                pos as int,
            ),
        },
    decreases s.len() - j, 2int,
{
    let k = skip_ws_and_comments(s, j);
    if k < s.len() && s[k] == ')' {
        return Ok((Sexpr::List(acc), k + 1));
    }
    match read_expr(s, k) {
        Ok((v, e)) => {
            if k < e && e <= s.len() {
                let mut acc = acc;
                proof {
                    lemma_views_of_push(acc@, v);
                }
                acc.push(v);
                read_items(s, e, acc)
            } else {
                Err(k)
            }
        },
        Err(_) => Err(k),
    }
}

/// The characters of `trailing_text(s[r..])`.
fn trailing_of(s: &Vec<char>, r: usize) -> (t: String)
    requires
        r <= s.len(),
    ensures
        t@ == trailing_text(s@.skip(r as int)),
{
    if utf8_len_exceeds(s, r, 20) {
        let (prefix, _) = byte_prefix_of(s, r, 20);
        string_of_chars(&prefix)
    } else {
        string_of_range(s, r, s.len())
    }
}

/// The message of a reading failure at position `pos`.
fn failure_at(s: &Vec<char>, pos: usize) -> (m: String)
    requires
        pos <= s.len(),
    ensures
        m@ == failure_message(s@.skip(pos as int)),
{
    let ghost rest = s@.skip(pos as int);
    let mut m = String::new();
    m.append("Error { input: \"");
    let ghost start = m@;
    let mut i: usize = pos;
    while i < s.len()
        invariant
            pos <= i <= s.len(),
            rest == s@.skip(pos as int),
            m@ == start + debug_text(rest.take(i - pos)),
        decreases s.len() - i,
    {
        let c = s[i];
        if c == '\'' {
            push_char(&mut m, c);
        } else {
            let e = escape_debug(c);
            m.append(e.as_str());
        }
        assert(rest.take(i + 1 - pos).drop_last() =~= rest.take(i - pos));
        assert(rest.take(i + 1 - pos).last() == c);
        assert(m@ =~= start + debug_text(rest.take(i + 1 - pos)));
        i = i + 1;
    }
    assert(rest.take(s.len() - pos) =~= rest);
    m.append("\", code: Char }");
    m
}

/// `char::escape_debug`: the escape text of a character, as its `Debug`
/// text shows it between quotes. The result is named, not stated: it rests
/// on Unicode's tables of printable and combining characters.
#[verifier::external_body]
fn escape_debug(c: char) -> (r: String)
    ensures
        r@ == escape_debug_text(c),
{
    c.escape_debug().to_string()
}

/// Reads one S-expression from the whole of `input`. Whitespace and comments
/// may stand before and after it; any other text after it is an error.
pub fn parse(input: &str) -> (r: Result<Sexpr, ParseError>)
    ensures
        match r {
            Ok(v) => parse_spec(input@) == Ok::<SexprV, ParseErrorV>(v@),
            Err(e) => parse_spec(input@) == Err::<SexprV, ParseErrorV>(e@),
        },
{
    let s = chars_of(input);
    let i = skip_ws_and_comments(&s, 0);
    match read_expr(&s, i) {
        Err(pos) => {
            proof {
                lemma_p_expr_err_bound(s@, i as int);
            }
            Err(ParseError::Nom(failure_at(&s, pos)))
        },
        Ok((v, e)) => {
            proof {
                lemma_p_expr_ok_bound(s@, i as int);
            }
            let r = skip_ws_and_comments(&s, e);
            if r < s.len() {
                Err(ParseError::TrailingContent(trailing_of(&s, r)))
            } else {
                Ok(v)
            }
        },
    }
}

/// Reads all S-expressions of `input`, in order. Reading stops at the first
/// text that is no expression; any text left there is an error.
pub fn parse_all(input: &str) -> (r: Result<Vec<Sexpr>, ParseError>)
    ensures
        match r {
            Ok(v) => parse_all_spec(input@) == Ok::<Seq<SexprV>, ParseErrorV>(views_of(v@)),
            Err(e) => parse_all_spec(input@) == Err::<Seq<SexprV>, ParseErrorV>(e@),
        },
{
    let s = chars_of(input);
    let mut items: Vec<Sexpr> = Vec::new();
    let mut p: usize = 0;
    assert(views_of(items@) == Seq::<SexprV>::empty());
    loop
        invariant
            p <= s.len(),
            s@ == input@,
            p_all(s@, 0, Seq::empty()) == p_all(s@, p as int, views_of(items@)),
        ensures
            p <= s.len(),
            p_all(s@, 0, Seq::empty()) == (views_of(items@), p as int),
        decreases s.len() - p,
    {
        let k = skip_ws_and_comments(&s, p);
        match read_expr(&s, k) {
            Ok((v, e)) => {
                if p < e && e <= s.len() {
                    proof {
                        lemma_views_of_push(items@, v);
                    }
                    items.push(v);
                    p = e;
                } else {
                    break;
                }
            },
            Err(_) => {
                break;
            },
        }
    }
    let r = skip_ws_and_comments(&s, p);
    if r < s.len() {
        Err(ParseError::TrailingContent(trailing_of(&s, r)))
    } else {
        Ok(items)
    }
}

/// A successful reading ends after its start and within the text.
pub proof fn lemma_p_expr_ok_bound(s: Seq<char>, i: int)
    requires
        0 <= i <= s.len(),
    ensures
        p_expr(s, i) matches Ok((v, e)) ==> i < e <= s.len(),
    decreases s.len() - i, 1int,
{
    lemma_p_atom_bound(s, i);
    if p_atom(s, i) is None && i < s.len() && s[i] == '(' {
        lemma_p_items_bound(s, i + 1, Seq::empty());
    }
}

/// A failed reading fails within the text.
pub proof fn lemma_p_expr_err_bound(s: Seq<char>, i: int)
    requires
        0 <= i <= s.len(),
    ensures
        p_expr(s, i) matches Err(pos) ==> 0 <= pos <= s.len(),
    decreases s.len() - i, 1int,
{
    if p_atom(s, i) is None && i < s.len() && s[i] == '(' {
        lemma_p_items_bound(s, i + 1, Seq::empty());
    }
}

/// The rest of a list ends after its start and within the text, or fails
/// within the text.
pub proof fn lemma_p_items_bound(s: Seq<char>, j: int, acc: Seq<SexprV>)
    requires
        0 <= j <= s.len(),
    ensures
        p_items(s, j, acc) matches Ok((v, e)) ==> j < e <= s.len(),
        p_items(s, j, acc) matches Err(pos) ==> 0 <= pos <= s.len(),
    decreases s.len() - j, 2int,
{
    let k = skip(s, j);
    lemma_skip_bounds(s, j);
    if !(k < s.len() && s[k] == ')') {
        lemma_p_expr_ok_bound(s, k);
        if let Ok((v, e)) = p_expr(s, k) {
            if k < e <= s.len() {
                lemma_p_items_bound(s, e, acc.push(v));
            }
        }
    }
}

/// An atom ends after its start and within the text.
pub proof fn lemma_p_atom_bound(s: Seq<char>, i: int)
    requires
        0 <= i <= s.len(),
    ensures
        p_atom(s, i) matches Some((v, e)) ==> i < e <= s.len(),
{
    lemma_digits_end_bound(s, i);
    if i < s.len() {
        lemma_digits_end_bound(s, i + 1);
    }
    if p_number(s, i) is Some {
        let neg = 0 <= i < s.len() && s[i] == '-';
        let j = if neg { i + 1 } else { i };
        let d = digits_end(s, j);
        lemma_digits_end_bound(s, j);
        if d < s.len() && s[d] == '.' {
            lemma_digits_end_bound(s, d + 1);
        }
    }
    lemma_symbol_end_bound(s, i);
    if i < s.len() {
        lemma_keyword_end_bound(s, i + 1);
        if p_string(s, i) is Some {
            lemma_string_end_bound(s, i + 1);
        }
    }
}

/// `digits_end` stays within the text.
pub proof fn lemma_digits_end_bound(s: Seq<char>, i: int)
    requires
        0 <= i <= s.len(),
    ensures
        i <= digits_end(s, i) <= s.len(),
    decreases s.len() - i,
{
    if i < s.len() && is_digit(s[i]) {
        lemma_digits_end_bound(s, i + 1);
    }
}

/// `symbol_end` stays within the text.
pub proof fn lemma_symbol_end_bound(s: Seq<char>, i: int)
    requires
        0 <= i <= s.len(),
    ensures
        i <= symbol_end(s, i) <= s.len(),
    decreases s.len() - i,
{
    if i < s.len() && symbol_char(s[i]) {
        lemma_symbol_end_bound(s, i + 1);
    }
}

/// `keyword_end` stays within the text.
pub proof fn lemma_keyword_end_bound(s: Seq<char>, i: int)
    requires
        0 <= i <= s.len(),
    ensures
        i <= keyword_end(s, i) <= s.len(),
    decreases s.len() - i,
{
    if i < s.len() && keyword_char(s[i]) {
        lemma_keyword_end_bound(s, i + 1);
    }
}

/// `string_end` stays within the text.
pub proof fn lemma_string_end_bound(s: Seq<char>, i: int)
    requires
        0 <= i <= s.len(),
    ensures
        string_end(s, i) matches Some(k) ==> i <= k <= s.len(),
    decreases s.len() - i,
{
    if i < s.len() && s[i] != '"' {
        if s[i] == '\\' {
            if i + 1 < s.len() && escapable(s[i + 1]) {
                lemma_string_end_bound(s, i + 2);
            }
        } else {
            lemma_string_end_bound(s, i + 1);
        }
    }
}

} // verus!
