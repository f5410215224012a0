//! Text helpers: decimal digits of integers and character-level string
//! building.

use vstd::prelude::*;

verus! {

/// The ASCII digit character for a value in `0..10`.
pub open spec fn digit_char(d: int) -> char {
    if d == 0 { '0' }
    else if d == 1 { '1' }
    else if d == 2 { '2' }
    else if d == 3 { '3' }
    else if d == 4 { '4' }
    else if d == 5 { '5' }
    else if d == 6 { '6' }
    else if d == 7 { '7' }
    else if d == 8 { '8' }
    else { '9' }
}

/// The decimal digits of a natural number, most significant first, without
/// leading zeros (`0` is written `"0"`).
pub open spec fn nat_digits(n: nat) -> Seq<char>
    decreases n,
{
    if n < 10 {
        seq![digit_char(n as int)]
    } else {
        nat_digits(n / 10).push(digit_char((n % 10) as int))
    }
}

/// The decimal text of an integer: a `-` sign for negative values, then the
/// digits of its magnitude.
pub open spec fn int_text(i: int) -> Seq<char> {
    if i < 0 {
        seq!['-'] + nat_digits((-i) as nat)
    } else {
        nat_digits(i as nat)
    }
}

/// Appends a character to a string (`String::push`).
#[verifier::external_body]
pub(crate) fn push_char(s: &mut String, c: char)
    ensures
        final(s)@ == old(s)@.push(c),
{
    s.push(c);
}

/// Appends every character of `v` to `s`, in order.
pub fn push_chars(s: &mut String, v: &Vec<char>)
    ensures
        final(s)@ == old(s)@ + v@,
{
    let ghost start = s@;
    let mut i: usize = 0;
    while i < v.len()
        invariant
            i <= v.len(),
            s@ == start + v@.take(i as int),
        decreases v.len() - i,
    {
        push_char(s, v[i]);
        i = i + 1;
        assert(v@.take(i as int) == v@.take((i - 1) as int).push(v@[i - 1]));
    }
    assert(v@.take(v.len() as int) == v@);
}

/// A string holding exactly the characters of `v`.
pub fn string_of_chars(v: &Vec<char>) -> (s: String)
    ensures
        s@ == v@,
{
    let mut s = String::new();
    push_chars(&mut s, v);
    s
}

/// The characters of a string slice, in order.
pub fn chars_of(s: &str) -> (v: Vec<char>)
    ensures
        v@ == s@,
{
    let mut v: Vec<char> = Vec::new();
    for c in it: s.chars()
        invariant
            v@ == it.seq().take(it.index() as int),
            it.seq() == s@,
    {
        v.push(c);
    }
    v
}

/// The ASCII digit character for a value below ten.
pub fn digit_of(d: u64) -> (c: char)
    requires
        d < 10,
    ensures
        c == digit_char(d as int),
{
    if d == 0 { '0' }
    else if d == 1 { '1' }
    else if d == 2 { '2' }
    else if d == 3 { '3' }
    else if d == 4 { '4' }
    else if d == 5 { '5' }
    else if d == 6 { '6' }
    else if d == 7 { '7' }
    else if d == 8 { '8' }
    else { '9' }
}

/// The decimal digits of `n`.
pub fn u64_digits(n: u64) -> (v: Vec<char>)
    ensures
        v@ == nat_digits(n as nat),
    decreases n,
{
    if n < 10 {
        let mut v = Vec::new();
        v.push(digit_of(n));
        v
    } else {
        let mut v = u64_digits(n / 10);
        v.push(digit_of(n % 10));
        v
    }
}

/// The decimal text of `i`, as `i64`'s `Display` writes it.
pub fn i64_chars(i: i64) -> (v: Vec<char>)
    ensures
        v@ == int_text(i as int),
{
    if i < 0 {
        let mag: u64 = if i == i64::MIN { 9223372036854775808u64 } else { (-i) as u64 };
        let d = u64_digits(mag);
        let mut v = Vec::new();
        v.push('-');
        let mut k: usize = 0;
        while k < d.len()
            invariant
                k <= d.len(),
                v@ == seq!['-'] + d@.take(k as int),
            decreases d.len() - k,
        {
            v.push(d[k]);
            k = k + 1;
            assert(d@.take(k as int) == d@.take((k - 1) as int).push(d@[k - 1]));
        }
        assert(d@.take(d.len() as int) == d@);
        v
    } else {
        u64_digits(i as u64)
    }
}

/// The decimal text of `i` as a `String`.
pub fn i64_string(i: i64) -> (s: String)
    ensures
        s@ == int_text(i as int),
{
    let v = i64_chars(i);
    string_of_chars(&v)
}


/// Whether `c` is an ASCII decimal digit.
pub open spec fn is_digit(c: char) -> bool {
    '0' <= c && c <= '9'
}

/// The value of an ASCII digit character.
pub open spec fn digit_val(c: char) -> int {
    (c as int) - ('0' as int)
}

/// Whether every character of `t` is an ASCII digit.
pub open spec fn all_digits(t: Seq<char>) -> bool {
    forall|i: int| 0 <= i < t.len() ==> is_digit(#[trigger] t[i])
}

/// The number that a string of ASCII digits denotes in base ten.
pub open spec fn digits_value(t: Seq<char>) -> nat
    decreases t.len(),
{
    if t.len() == 0 {
        0
    } else {
        (digits_value(t.drop_last()) * 10 + digit_val(t.last())) as nat
    }
}

/// The value of a digit string only grows as digits are appended.
pub proof fn lemma_digits_value_prefix(t: Seq<char>, k: int)
    requires
        0 <= k <= t.len(),
        all_digits(t),
    ensures
        digits_value(t.take(k)) <= digits_value(t),
    decreases t.len() - k,
{
    if k < t.len() {
        lemma_digits_value_prefix(t, k + 1);
        assert(t.take(k + 1).drop_last() == t.take(k));
        assert(is_digit(t[k]));
    } else {
        assert(t.take(k) == t);
    }
}

/// The value of a digit string is not changed by a digit string that it ends
/// with after a split: `value(a + b) == value(a) * 10^|b| + value(b)` is not
/// needed; only the one-step form is: appending one digit.
pub proof fn lemma_digits_value_push(t: Seq<char>, c: char)
    requires
        is_digit(c),
    ensures
        digits_value(t.push(c)) == digits_value(t) * 10 + digit_val(c),
{
    assert(t.push(c).drop_last() == t);
}

/// The text of an integer in the form that `str::parse` accepts for integer
/// types: an optional sign (`-` only where `signed`), then one or more ASCII
/// digits. `None` where the text has another form.
pub open spec fn int_text_value(t: Seq<char>, signed: bool) -> Option<int> {
    if t.len() > 0 && t[0] == '-' {
        if signed && t.len() > 1 && all_digits(t.drop_first()) {
            Some(-(digits_value(t.drop_first()) as int))
        } else {
            None
        }
    } else if t.len() > 0 && t[0] == '+' {
        if t.len() > 1 && all_digits(t.drop_first()) {
            Some(digits_value(t.drop_first()) as int)
        } else {
            None
        }
    } else if t.len() > 0 && all_digits(t) {
        Some(digits_value(t) as int)
    } else {
        None
    }
}

/// The value of an all-digit slice `t[from..]`, or `None` when it exceeds
/// `2^64`.
pub fn digits_value_capped(t: &Vec<char>, from: usize) -> (r: Option<u128>)
    requires
        from <= t.len(),
        all_digits(t@.skip(from as int)),
    ensures
        r matches Some(v) ==> v == digits_value(t@.skip(from as int)) && v <= 0x1_0000_0000_0000_0000,
        r is None ==> digits_value(t@.skip(from as int)) > 0x1_0000_0000_0000_0000,
{
    let ghost u = t@.skip(from as int);
    let mut acc: u128 = 0;
    let mut i: usize = from;
    while i < t.len()
        invariant
            from <= i <= t.len(),
            u == t@.skip(from as int),
            all_digits(u),
            acc == digits_value(u.take(i - from)),
            acc <= 0x1_0000_0000_0000_0000,
        decreases t.len() - i,
    {
        let c = t[i];
        assert(u[i - from] == c);
        assert(is_digit(c));
        let d: u128 = (c as u32 - '0' as u32) as u128;
        proof {
            lemma_digits_value_push(u.take(i - from), c);
            assert(u.take(i - from).push(c) == u.take(i - from + 1));
        }
        let next: u128 = acc * 10 + d;
        if next > 0x1_0000_0000_0000_0000 {
            proof {
                lemma_digits_value_prefix(u, i - from + 1);
            }
            return None;
        }
        acc = next;
        i = i + 1;
    }
    assert(u.take(t.len() - from) == u);
    Some(acc)
}

/// Reads an integer written as `int_text_value` describes. The result is
/// `None` where the text has another form or the magnitude exceeds `2^64`.
pub fn parse_int_text(t: &Vec<char>, signed: bool) -> (r: Option<i128>)
    ensures
        r matches Some(v) ==> int_text_value(t@, signed) == Some(v as int),
        r is None ==> (int_text_value(t@, signed) matches Some(v) ==> v < -0x1_0000_0000_0000_0000
            || v > 0x1_0000_0000_0000_0000),
{
    let n = t.len();
    if n == 0 {
        return None;
    }
    let first = t[0];
    let from: usize = if first == '-' || first == '+' { 1 } else { 0 };
    if first == '-' && !signed {
        return None;
    }
    if from == 1 && n == 1 {
        return None;
    }
    let mut i: usize = from;
    while i < n
        invariant
            from <= i <= n,
            n == t.len(),
            n > 0,
            first == t@[0],
            from == (if first == '-' || first == '+' { 1usize } else { 0usize }),
            forall|j: int| from <= j < i ==> is_digit(#[trigger] t@[j]),
        decreases n - i,
    {
        let c = t[i];
        if !('0' <= c && c <= '9') {
            proof {
                if from == 1 {
                    assert(t@.drop_first()[i - 1] == c);
                    assert(!is_digit(t@.drop_first()[i - 1]));
                    assert(!all_digits(t@.drop_first()));
                } else {
                    assert(t@[i as int] == c);
                    assert(!is_digit(t@[i as int]));
                    assert(!all_digits(t@));
                }
            }
            return None;
        }
        i = i + 1;
    }
    assert(all_digits(t@.skip(from as int)));
    proof {
        if from == 1 {
            assert(t@.skip(1) == t@.drop_first());
        } else {
            assert(t@.skip(0) == t@);
        }
    }
    match digits_value_capped(t, from) {
        Some(v) => {
            if first == '-' {
                Some(-(v as i128))
            } else {
                Some(v as i128)
            }
        },
        None => None,
    }
}


/// Whether two string slices hold the same characters (`str` equality).
#[verifier::external_body]
pub(crate) fn str_eq(a: &str, b: &str) -> (r: bool)
    ensures
        r == (a@ == b@),
{
    a == b
}


/// The number of bytes that UTF-8 takes for `c`.
pub open spec fn utf8_width(c: char) -> int {
    if (c as u32) < 0x80 {
        1
    } else if (c as u32) < 0x800 {
        2
    } else if (c as u32) < 0x10000 {
        3
    } else {
        4
    }
}

/// The number of bytes that UTF-8 takes for `s`.
pub open spec fn utf8_len(s: Seq<char>) -> int
    decreases s.len(),
{
    if s.len() == 0 {
        0
    } else {
        utf8_width(s[0]) + utf8_len(s.drop_first())
    }
}

/// Whether the byte offset `n` of the UTF-8 encoding of `s` falls between
/// two characters (or at either end).
pub open spec fn is_char_boundary(s: Seq<char>, n: int) -> bool
    decreases s.len(),
{
    if n == 0 {
        true
    } else if n < 0 || s.len() == 0 {
        false
    } else {
        is_char_boundary(s.drop_first(), n - utf8_width(s[0]))
    }
}

/// The longest prefix of `s` whose UTF-8 encoding takes at most `n` bytes.
pub open spec fn byte_prefix(s: Seq<char>, n: int) -> Seq<char>
    decreases s.len(),
{
    if s.len() == 0 || utf8_width(s[0]) > n {
        Seq::empty()
    } else {
        seq![s[0]] + byte_prefix(s.drop_first(), n - utf8_width(s[0]))
    }
}

/// The number of bytes that UTF-8 takes for `c`.
pub fn utf8_width_of(c: char) -> (w: usize)
    ensures
        w == utf8_width(c),
{
    let u = c as u32;
    if u < 0x80 {
        1
    } else if u < 0x800 {
        2
    } else if u < 0x10000 {
        3
    } else {
        4
    }
}

/// Whether the UTF-8 encoding of `s[from..]` takes more than `n` bytes.
pub fn utf8_len_exceeds(s: &Vec<char>, from: usize, n: usize) -> (r: bool)
    requires
        from <= s.len(),
    ensures
        r == (utf8_len(s@.skip(from as int)) > n),
    decreases s.len() - from,
{
    if from == s.len() {
        assert(s@.skip(from as int).len() == 0);
        false
    } else {
        let w = utf8_width_of(s[from]);
        assert(s@.skip(from as int)[0] == s@[from as int]);
        assert(s@.skip(from as int).drop_first() == s@.skip(from + 1));
        if w > n {
            proof {
                lemma_utf8_len_nonneg(s@.skip(from + 1));
            }
            true
        } else {
            utf8_len_exceeds(s, from + 1, n - w)
        }
    }
}

/// UTF-8 lengths are never negative.
pub proof fn lemma_utf8_len_nonneg(s: Seq<char>)
    ensures
        utf8_len(s) >= 0,
    decreases s.len(),
{
    if s.len() > 0 {
        lemma_utf8_len_nonneg(s.drop_first());
    }
}

/// The characters of `byte_prefix(s[from..], n)`, and whether the byte offset
/// `n` is a character boundary of `s[from..]`.
pub fn byte_prefix_of(s: &Vec<char>, from: usize, n: usize) -> (r: (Vec<char>, bool))
    requires
        from <= s.len(),
    ensures
        r.0@ == byte_prefix(s@.skip(from as int), n as int),
        r.1 == is_char_boundary(s@.skip(from as int), n as int),
{
    let mut out: Vec<char> = Vec::new();
    let mut i = from;
    let mut budget = n;
    while i < s.len() && utf8_width_of(s[i]) <= budget
        invariant
            from <= i <= s.len(),
            budget <= n,
            byte_prefix(s@.skip(from as int), n as int) == out@ + byte_prefix(
                s@.skip(i as int),
                budget as int,
            ),
            is_char_boundary(s@.skip(from as int), n as int) == is_char_boundary(
                s@.skip(i as int),
                budget as int,
            ),
        decreases s.len() - i,
    {
        let c = s[i];
        let w = utf8_width_of(c);
        assert(s@.skip(i as int)[0] == c);
        assert(s@.skip(i as int).drop_first() == s@.skip(i + 1));
        out.push(c);
        i = i + 1;
        budget = budget - w;
        assert(byte_prefix(s@.skip(from as int), n as int) == out@ + byte_prefix(
            s@.skip(i as int),
            budget as int,
        ));
    }
    if i < s.len() {
        assert(s@.skip(i as int)[0] == s@[i as int]);
        assert(s@.skip(i as int).drop_first() == s@.skip(i + 1));
        if budget > 0 {
            assert(!is_char_boundary(s@.skip(i + 1), budget - utf8_width(s@[i as int])));
        }
    } else {
        assert(s@.skip(i as int).len() == 0);
    }
    let boundary = budget == 0;
    (out, boundary)
}


/// Whether `c` is alphabetic or numeric in Unicode (`char::is_alphanumeric`).
pub uninterp spec fn unicode_alphanumeric(c: char) -> bool;

/// Whether `c` is an ASCII letter or digit.
pub open spec fn ascii_alphanumeric(c: char) -> bool {
    ('a' <= c && c <= 'z') || ('A' <= c && c <= 'Z') || ('0' <= c && c <= '9')
}

/// `char::is_alphanumeric`: whether `c` is alphabetic or numeric. Its
/// documentation defines this as `is_alphabetic() || is_numeric()`; for
/// ASCII characters that is exactly the letters and the digits, which is
/// the one fact stated beyond the name.
#[verifier::external_body]
pub(crate) fn is_alphanumeric(c: char) -> (r: bool)
    ensures
        r == unicode_alphanumeric(c),
        (c as u32) < 0x80 ==> r == ascii_alphanumeric(c),
{
    c.is_alphanumeric()
}

/// A string holding `v[from..to]`.
pub fn string_of_range(v: &Vec<char>, from: usize, to: usize) -> (s: String)
    requires
        from <= to <= v.len(),
    ensures
        s@ == v@.subrange(from as int, to as int),
{
    let mut s = String::new();
    let mut i = from;
    while i < to
        invariant
            from <= i <= to <= v.len(),
            s@ == v@.subrange(from as int, i as int),
        decreases to - i,
    {
        push_char(&mut s, v[i]);
        i = i + 1;
        assert(v@.subrange(from as int, i as int) == v@.subrange(from as int, i - 1).push(
            v@[i - 1],
        ));
    }
    s
}

} // verus!
