//! Fixed-point decimal numbers.
//!
//! Quantities that a score writes with a fractional part (alterations of a
//! pitch in semitones, positions in tenths) are held as a decimal mantissa
//! and a count of decimal places: `Decimal { mantissa: 314, scale: 2 }` is
//! `3.14`. A normalized decimal has no trailing zero digit after the point,
//! so each number has exactly one normalized form.

use vstd::prelude::*;
use crate::text::{int_text, nat_digits, i64_chars, u64_digits, digits_value, all_digits, digits_value_capped};

verus! {

/// A decimal number `mantissa / 10^scale`.
#[derive(Clone, Copy, Debug, Default, PartialEq, Eq, Structural)]
pub struct Decimal {
    /// The digits of the number, with its sign.
    pub mantissa: i64,
    /// How many of the mantissa's digits stand after the decimal point.
    pub scale: u32,
}

/// The largest number of decimal places that a `Decimal` holds.
pub const MAX_SCALE: u32 = 18;

/// A mantissa and scale in normalized form: the scale is within bounds, and
/// when there is a fractional part its last digit is not zero.
pub open spec fn normalized(m: int, s: nat) -> bool {
    s <= MAX_SCALE && (s == 0 || m % 10 != 0)
}

/// Removes trailing zero digits after the decimal point.
pub open spec fn normalize(m: int, s: nat) -> (int, nat)
    decreases s,
{
    if s > 0 && m % 10 == 0 {
        normalize(m / 10, (s - 1) as nat)
    } else {
        (m, s)
    }
}

/// `digits` padded on the left with zeros to at least `width` characters.
pub open spec fn zeros(n: nat) -> Seq<char> {
    Seq::new(n, |i: int| '0')
}

/// The text of `m / 10^s` for a positive scale: a sign, the integral digits
/// (`0` when there are none), a point, and exactly `s` fractional digits.
pub open spec fn fraction_text(m: int, s: nat) -> Seq<char> {
    let sign = if m < 0 { seq!['-'] } else { Seq::<char>::empty() };
    let digits = nat_digits(if m < 0 { (-m) as nat } else { m as nat });
    if digits.len() > s {
        sign + digits.take(digits.len() - s) + seq!['.'] + digits.skip(digits.len() - s)
    } else {
        sign + seq!['0', '.'] + zeros((s - digits.len()) as nat) + digits
    }
}

impl Decimal {
    /// This decimal is in normalized form.
    pub open spec fn wf(self) -> bool {
        normalized(self.mantissa as int, self.scale as nat)
    }

    /// The text that S-expression output uses: a number without fractional
    /// part is written with `.0` (`5.0`); others with their digits (`3.14`).
    pub open spec fn float_text(self) -> Seq<char> {
        if self.scale == 0 {
            int_text(self.mantissa as int) + seq!['.', '0']
        } else {
            fraction_text(self.mantissa as int, self.scale as nat)
        }
    }

    /// The plain text of the number: an integral number has no point (`5`);
    /// others are written with their digits (`3.14`).
    pub open spec fn plain_text(self) -> Seq<char> {
        if self.scale == 0 {
            int_text(self.mantissa as int)
        } else {
            fraction_text(self.mantissa as int, self.scale as nat)
        }
    }

    /// The decimal `mantissa / 10^scale`, normalized.
    pub fn new(mantissa: i64, scale: u32) -> (d: Decimal)
        requires
            scale <= MAX_SCALE,
        ensures
            d.wf(),
            (d.mantissa as int, d.scale as nat) == normalize(mantissa as int, scale as nat),
    {
        let mut m = mantissa;
        let mut s = scale;
        while s > 0 && m % 10 == 0
            invariant
                s <= MAX_SCALE,
                normalize(m as int, s as nat) == normalize(mantissa as int, scale as nat),
            decreases s,
        {
            m = m / 10;
            s = s - 1;
        }
        Decimal { mantissa: m, scale: s }
    }

    /// The integral number `i`.
    pub fn from_int(i: i64) -> (d: Decimal)
        ensures
            d.wf(),
            d.mantissa == i,
            d.scale == 0,
    {
        Decimal { mantissa: i, scale: 0 }
    }
}

/// `zeros(n)` as characters.
fn zero_chars(n: usize) -> (v: Vec<char>)
    ensures
        v@ == zeros(n as nat),
{
    let mut v = Vec::new();
    let mut i: usize = 0;
    while i < n
        invariant
            i <= n,
            v@ == zeros(i as nat),
        decreases n - i,
    {
        v.push('0');
        i = i + 1;
        assert(v@ =~= zeros(i as nat));
    }
    v
}

/// Appends `src[from..to]` to `dst`.
fn extend_range(dst: &mut Vec<char>, src: &Vec<char>, from: usize, to: usize)
    requires
        from <= to <= src.len(),
    ensures
        final(dst)@ == old(dst)@ + src@.subrange(from as int, to as int),
{
    let ghost start = dst@;
    let mut i = from;
    while i < to
        invariant
            from <= i <= to <= src.len(),
            dst@ == start + src@.subrange(from as int, i as int),
        decreases to - i,
    {
        dst.push(src[i]);
        i = i + 1;
        assert(src@.subrange(from as int, i as int) == src@.subrange(from as int, i - 1).push(
            src@[i - 1],
        ));
    }
}

/// The text of `m / 10^s` for a positive scale, as `fraction_text` states.
fn fraction_chars(m: i64, s: u32) -> (v: Vec<char>)
    ensures
        v@ == fraction_text(m as int, s as nat),
{
    let mag: u64 = if m >= 0 { m as u64 } else if m == i64::MIN { 9223372036854775808u64 } else { (-m) as u64 };
    let digits = u64_digits(mag);
    let mut v: Vec<char> = Vec::new();
    if m < 0 {
        v.push('-');
    }
    let n = digits.len();
    let su = s as usize;
    if n > su {
        extend_range(&mut v, &digits, 0, n - su);
        v.push('.');
        extend_range(&mut v, &digits, n - su, n);
        assert(digits@.subrange(0, (n - su) as int) == digits@.take(n - su));
        assert(digits@.subrange((n - su) as int, n as int) == digits@.skip(n - su));
    } else {
        v.push('0');
        v.push('.');
        let z = zero_chars(su - n);
        extend_range(&mut v, &z, 0, z.len());
        extend_range(&mut v, &digits, 0, n);
        assert(z@.subrange(0, z.len() as int) == z@);
        assert(digits@.subrange(0, n as int) == digits@);
    }
    assert(v@ =~= fraction_text(m as int, s as nat));
    v
}

impl Decimal {
    /// The characters of `float_text`.
    pub fn float_chars(&self) -> (v: Vec<char>)
        ensures
            v@ == self.float_text(),
    {
        if self.scale == 0 {
            let mut v = i64_chars(self.mantissa);
            v.push('.');
            v.push('0');
            assert(v@ =~= int_text(self.mantissa as int) + seq!['.', '0']);
            v
        } else {
            fraction_chars(self.mantissa, self.scale)
        }
    }

    /// The characters of `plain_text`.
    pub fn plain_chars(&self) -> (v: Vec<char>)
        ensures
            v@ == self.plain_text(),
    {
        if self.scale == 0 {
            i64_chars(self.mantissa)
        } else {
            fraction_chars(self.mantissa, self.scale)
        }
    }
}


/// `f` without its trailing `0` characters.
pub open spec fn strip_zeros(f: Seq<char>) -> Seq<char>
    decreases f.len(),
{
    if f.len() > 0 && f.last() == '0' {
        strip_zeros(f.drop_last())
    } else {
        f
    }
}

/// The decimal written with the sign `neg`, the integral digits `int_digits`
/// and the fractional digits `frac_digits`; `None` when it does not fit: more
/// than `MAX_SCALE` significant fractional digits, or a mantissa out of the
/// range of `i64`.
pub open spec fn decimal_from_parts(neg: bool, int_digits: Seq<char>, frac_digits: Seq<char>) -> Option<Decimal> {
    let f = strip_zeros(frac_digits);
    let m = digits_value(int_digits + f) as int;
    let v = if neg { -m } else { m };
    if f.len() <= MAX_SCALE && i64::MIN <= v && v <= i64::MAX {
        Some(Decimal { mantissa: v as i64, scale: f.len() as u32 })
    } else {
        None
    }
}

/// Reads the decimal with sign `neg`, integral digits `s[a..b]` and
/// fractional digits `s[c..d]`, as `decimal_from_parts` states.
pub fn decimal_of_digits(neg: bool, s: &Vec<char>, a: usize, b: usize, c: usize, d: usize) -> (r: Option<Decimal>)
    requires
        a <= b <= s.len(),
        c <= d <= s.len(),
        all_digits(s@.subrange(a as int, b as int)),
        all_digits(s@.subrange(c as int, d as int)),
    ensures
        r == decimal_from_parts(neg, s@.subrange(a as int, b as int), s@.subrange(c as int, d as int)),
{
    let mut e = d;
    while e > c && s[e - 1] == '0'
        invariant
            c <= e <= d <= s.len(),
            strip_zeros(s@.subrange(c as int, d as int)) == strip_zeros(s@.subrange(c as int, e as int)),
        decreases e,
    {
        assert(s@.subrange(c as int, e as int).drop_last() == s@.subrange(c as int, e - 1));
        e = e - 1;
    }
    assert(strip_zeros(s@.subrange(c as int, e as int)) == s@.subrange(c as int, e as int));
    let ghost f = s@.subrange(c as int, e as int);
    if e - c > 18 {
        return None;
    }
    let mut w: Vec<char> = Vec::new();
    let mut i = a;
    while i < b
        invariant
            a <= i <= b <= s.len(),
            c <= e <= d <= s.len(),
            w@ == s@.subrange(a as int, i as int),
        decreases b - i,
    {
        w.push(s[i]);
        i = i + 1;
        assert(s@.subrange(a as int, i as int) == s@.subrange(a as int, i - 1).push(s@[i - 1]));
    }
    let mut j = c;
    while j < e
        invariant
            c <= j <= e <= d <= s.len(),
            a <= b <= s.len(),
            w@ == s@.subrange(a as int, b as int) + s@.subrange(c as int, j as int),
        decreases e - j,
    {
        w.push(s[j]);
        j = j + 1;
        assert(s@.subrange(c as int, j as int) == s@.subrange(c as int, j - 1).push(s@[j - 1]));
    }
    assert(w@ == s@.subrange(a as int, b as int) + f);
    assert forall|k: int| 0 <= k < w@.len() implies crate::text::is_digit(#[trigger] w@[k]) by {
        if k < b - a {
            assert(w@[k] == s@.subrange(a as int, b as int)[k]);
        } else {
            assert(w@[k] == s@.subrange(c as int, d as int)[k - (b - a)]);
        }
    }
    assert(w@.skip(0) == w@);
    match digits_value_capped(&w, 0) {
        None => None,
        Some(m) => {
            if neg {
                if m <= 9223372036854775808u128 {
                    let v: i128 = -(m as i128);
                    Some(Decimal { mantissa: v as i64, scale: (e - c) as u32 })
                } else {
                    None
                }
            } else {
                if m <= 9223372036854775807u128 {
                    Some(Decimal { mantissa: m as i64, scale: (e - c) as u32 })
                } else {
                    None
                }
            }
        },
    }
}

} // verus!
