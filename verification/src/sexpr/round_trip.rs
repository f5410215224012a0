//! Reading back what was written: the S-expression of a value converts back
//! to the same value.

use vstd::prelude::*;
use crate::decimal::Decimal;
use crate::text::{int_text_value};
use super::ast::{Sexpr, SexprV, kw_pair, kw_opt, kw_if};
use super::convert::{find_from, find_kwarg_spec};
use super::traits::{FromSexpr, ToSexpr, is_nil_value, true_symbol, false_symbol, to_sexpr_seq, first_error};

verus! {

/// Values whose S-expressions convert back to them.
pub trait RoundTrip: ToSexpr + FromSexpr {
    /// Whether the value is one that its S-expression gives back: every value
    /// but those that the writing loses (an integer too large for the
    /// S-expression integer, a present `false` that is written as `nil`,
    /// parts that are not written).
    spec fn writable(&self) -> bool;

    /// Whether two values are the same: equal, with texts and lists compared
    /// by their contents.
    spec fn same(&self, other: &Self) -> bool;

    /// The S-expression of a value is not a keyword (except for a
    /// non-writable S-expression).
    proof fn lemma_not_keyword(&self)
        requires
            self.writable(),
        ensures
            !(self.to_sexpr_spec() is Keyword),
    ;

    /// The S-expression of a writable value converts without error and is
    /// not a keyword.
    proof fn lemma_no_error(&self)
        requires
            self.writable(),
        ensures
            Self::from_sexpr_error(self.to_sexpr_spec()) is None,
            !(self.to_sexpr_spec() is Keyword),
    ;

    /// What the S-expression of a writable value converts to is the same as
    /// the value.
    proof fn lemma_value(&self, v: Self)
        requires
            self.writable(),
            Self::from_sexpr_value(self.to_sexpr_spec(), v),
        ensures
            v.same(self),
    ;
}

/// Converting the S-expression of a writable value does not fail, and gives
/// a value that is the same as it.
pub proof fn law_round_trip<T: RoundTrip>(x: T, v: T)
    requires
        x.writable(),
    ensures
        T::from_sexpr_error(x.to_sexpr_spec()) is None,
        T::from_sexpr_value(x.to_sexpr_spec(), v) ==> v.same(&x),
{
    x.lemma_no_error();
    if T::from_sexpr_value(x.to_sexpr_spec(), v) {
        x.lemma_value(v);
    }
}

// === Finding keyword arguments in written lists ===

/// Reading from the second part of a concatenation reads from that part.
proof fn lemma_find_from_shift(a: Seq<SexprV>, b: Seq<SexprV>, k: Seq<char>, j: int)
    requires
        0 <= j,
    ensures
        find_from(a + b, k, a.len() + j) == find_from(b, k, j),
    decreases b.len() - j,
{
    if j < b.len() {
        lemma_find_from_shift(a, b, k, j + 1);
    }
}

/// Reading a concatenation whose first part does not end in a keyword reads
/// the first part, and the second where the first has nothing.
proof fn lemma_find_from_append(a: Seq<SexprV>, b: Seq<SexprV>, k: Seq<char>, i: int)
    requires
        0 <= i <= a.len(),
        a.len() > 0,
        !(a.last() is Keyword),
    ensures
        find_from(a + b, k, i) == match find_from(a, k, i) {
            Some(x) => Some(x),
            None => find_from(b, k, 0),
        },
    decreases a.len() - i,
{
    if i < a.len() {
        lemma_find_from_append(a, b, k, i + 1);
    } else {
        lemma_find_from_shift(a, b, k, 0);
    }
}

/// Whether `p` is a piece that a writer appends: nothing, or a keyword and a
/// value that is not a keyword.
pub open spec fn clean_piece(p: Seq<SexprV>) -> bool {
    p.len() == 0 || (p.len() == 2 && p[0] is Keyword && !(p[1] is Keyword))
}

/// Appending a piece to a list that does not end in a keyword: each keyword
/// argument is found where it was, or else in the piece.
pub proof fn lemma_find_after(a: Seq<SexprV>, p: Seq<SexprV>)
    requires
        a.len() > 0,
        !(a.last() is Keyword),
        clean_piece(p),
    ensures
        forall|k: Seq<char>| #[trigger] find_kwarg_spec(a + p, k) == match find_kwarg_spec(a, k) {
            Some(x) => Some(x),
            None => if p.len() == 2 && p[0] == SexprV::Keyword(k) {
                Some(p[1])
            } else {
                None
            },
        },
        (a + p).len() > 0,
        !((a + p).last() is Keyword),
{
    assert forall|k: Seq<char>| #[trigger] find_kwarg_spec(a + p, k) == match find_kwarg_spec(a, k) {
        Some(x) => Some(x),
        None => if p.len() == 2 && p[0] == SexprV::Keyword(k) {
            Some(p[1])
        } else {
            None
        },
    } by {
        lemma_find_from_append(a, p, k, 0);
        if p.len() == 2 {
            assert(find_from(p, k, 2) is None);
            assert(p[1] != SexprV::Keyword(k));
            assert(find_from(p, k, 1) is None);
            if p[0] == SexprV::Keyword(k) {
                assert(find_from(p, k, 0) == Some(p[1]));
            } else {
                assert(find_from(p, k, 0) is None);
            }
        } else {
            assert(find_from(p, k, 0) is None);
        }
    }
    if p.len() == 0 {
        assert(a + p =~= a);
    }
}

/// A list of just a head symbol has no keyword arguments.
pub proof fn lemma_find_head(h: Seq<char>)
    ensures
        forall|k: Seq<char>| #[trigger] find_kwarg_spec(seq![SexprV::Symbol(h)], k) is None,
{
    assert forall|k: Seq<char>| #[trigger] find_kwarg_spec(seq![SexprV::Symbol(h)], k) is None by {
        assert(find_from(seq![SexprV::Symbol(h)], k, 1) is None);
    }
}

/// Appending a piece to a list that does not end in a keyword: the keyword
/// argument `:k` is found where it was, or else in the piece.
pub proof fn lemma_find_after_key(a: Seq<SexprV>, p: Seq<SexprV>, k: Seq<char>)
    requires
        a.len() > 0,
        !(a.last() is Keyword),
        clean_piece(p),
    ensures
        find_kwarg_spec(a + p, k) == match find_kwarg_spec(a, k) {
            Some(x) => Some(x),
            None => if p.len() == 2 && p[0] == SexprV::Keyword(k) {
                Some(p[1])
            } else {
                None
            },
        },
        (a + p).len() > 0,
        !((a + p).last() is Keyword),
{
    lemma_find_from_append(a, p, k, 0);
    if p.len() == 2 {
        assert(find_from(p, k, 2) is None);
        assert(p[1] != SexprV::Keyword(k));
        assert(find_from(p, k, 1) is None);
        if p[0] == SexprV::Keyword(k) {
            assert(find_from(p, k, 0) == Some(p[1]));
        } else {
            assert(find_from(p, k, 0) is None);
        }
    } else {
        assert(find_from(p, k, 0) is None);
        assert(a + p =~= a);
    }
}

/// Whether a list is not empty and does not end in a keyword.
pub open spec fn ends_clean(a: Seq<SexprV>) -> bool {
    a.len() > 0 && !(a.last() is Keyword)
}

/// Appending a clean piece to a list that ends clean gives a list that ends
/// clean.
pub proof fn lemma_ends_clean(a: Seq<SexprV>, p: Seq<SexprV>)
    requires
        ends_clean(a),
        clean_piece(p),
    ensures
        ends_clean(a + p),
{
    if p.len() == 0 {
        assert(a + p =~= a);
    }
}

/// Appending a piece without the keyword `:k` leaves what is found for `:k`.
pub proof fn lemma_find_skip(a: Seq<SexprV>, p: Seq<SexprV>, k: Seq<char>)
    requires
        ends_clean(a),
        clean_piece(p),
        !(p.len() == 2 && p[0] == SexprV::Keyword(k)),
    ensures
        find_kwarg_spec(a + p, k) == find_kwarg_spec(a, k),
{
    lemma_find_after_key(a, p, k);
}

/// Appending the keyword `:k` and a value to a list without `:k` makes the
/// value the one found for `:k`.
pub proof fn lemma_find_hit(a: Seq<SexprV>, p: Seq<SexprV>, k: Seq<char>)
    requires
        ends_clean(a),
        clean_piece(p),
        p.len() == 2,
        p[0] == SexprV::Keyword(k),
        find_kwarg_spec(a, k) is None,
    ensures
        find_kwarg_spec(a + p, k) == Some(p[1]),
{
    lemma_find_after_key(a, p, k);
}

/// A list of just a head symbol has no keyword argument `:k`.
pub proof fn lemma_find_head_key(h: Seq<char>, k: Seq<char>)
    ensures
        find_kwarg_spec(seq![SexprV::Symbol(h)], k) is None,
{
    assert(find_from(seq![SexprV::Symbol(h)], k, 1) is None);
}

/// A keyword argument with a value that is not a keyword is a clean piece.
pub proof fn lemma_pair_piece(key: Seq<char>, v: SexprV)
    requires
        !(v is Keyword),
    ensures
        clean_piece(kw_pair(key, v)),
        kw_pair(key, v).len() == 2,
        kw_pair(key, v)[0] == SexprV::Keyword(key),
        kw_pair(key, v)[1] == v,
{
}

/// An optional keyword argument of a writable value is a clean piece: the
/// keyword and the value where there is one.
pub proof fn lemma_opt_piece<T: RoundTrip>(key: Seq<char>, o: Option<T>)
    requires
        o.writable(),
    ensures
        clean_piece(kw_opt(key, o)),
        (kw_opt(key, o).len() == 2) == (o is Some),
        kw_opt(key, o).len() == 2 ==> kw_opt(key, o)[0] == SexprV::Keyword(key),
        o matches Some(y) ==> kw_opt(key, o)[1] == y.to_sexpr_spec(),
{
    match o {
        Some(y) => {
            y.lemma_not_keyword();
            lemma_pair_piece(key, y.to_sexpr_spec());
        },
        None => {},
    }
}

/// A keyword argument written under a condition is a clean piece.
pub proof fn lemma_if_piece(cond: bool, key: Seq<char>, v: SexprV)
    requires
        !(v is Keyword),
    ensures
        clean_piece(kw_if(cond, key, v)),
        (kw_if(cond, key, v).len() == 2) == cond,
        cond ==> kw_if(cond, key, v)[0] == SexprV::Keyword(key) && kw_if(cond, key, v)[1] == v,
{
    if cond {
        lemma_pair_piece(key, v);
    }
}

// === Strings, booleans, decimals ===

impl RoundTrip for String {
    /// Every string.
    open spec fn writable(&self) -> bool {
        true
    }

    open spec fn same(&self, other: &Self) -> bool {
        self@ == other@
    }

    proof fn lemma_not_keyword(&self) {
    }

    proof fn lemma_no_error(&self) {
    }

    proof fn lemma_value(&self, v: Self) {
    }
}

impl RoundTrip for bool {
    /// Every boolean.
    open spec fn writable(&self) -> bool {
        true
    }

    open spec fn same(&self, other: &Self) -> bool {
        *self == *other
    }

    proof fn lemma_value(&self, v: Self) {
        reveal_strlit("t");
        reveal_strlit("nil");
        reveal_strlit("true");
        reveal_strlit("#t");
        reveal_strlit("false");
        reveal_strlit("#f");
        assert("nil"@.len() == 3);
        assert("t"@.len() == 1);
        assert("true"@.len() == 4);
        assert("#t"@.len() == 2);
        assert(true_symbol("t"@));
        assert(!true_symbol("nil"@));
        assert(false_symbol("nil"@));
    }

    proof fn lemma_not_keyword(&self) {
    }

    proof fn lemma_no_error(&self) {
        reveal_strlit("t");
        reveal_strlit("nil");
        reveal_strlit("true");
        reveal_strlit("#t");
        reveal_strlit("false");
        reveal_strlit("#f");
        assert("nil"@.len() == 3);
        assert("t"@.len() == 1);
        assert("true"@.len() == 4);
        assert("#t"@.len() == 2);
        assert(true_symbol("t"@));
        assert(!true_symbol("nil"@));
        assert(false_symbol("nil"@));
    }
}

impl RoundTrip for Decimal {
    /// Every decimal.
    open spec fn writable(&self) -> bool {
        true
    }

    open spec fn same(&self, other: &Self) -> bool {
        *self == *other
    }

    proof fn lemma_not_keyword(&self) {
    }

    proof fn lemma_no_error(&self) {
    }

    proof fn lemma_value(&self, v: Self) {
    }
}

impl RoundTrip for Sexpr {
    /// Every S-expression but a keyword, which cannot stand as a keyword
    /// argument's value.
    open spec fn writable(&self) -> bool {
        !(self@ is Keyword)
    }

    open spec fn same(&self, other: &Self) -> bool {
        self@ == other@
    }

    proof fn lemma_not_keyword(&self) {
    }

    proof fn lemma_no_error(&self) {
    }

    proof fn lemma_value(&self, v: Self) {
    }
}


// === Integers ===

impl RoundTrip for i8 {
    /// Every integer.
    open spec fn writable(&self) -> bool {
        true
    }

    open spec fn same(&self, other: &Self) -> bool {
        *self == *other
    }

    proof fn lemma_not_keyword(&self) {
    }

    proof fn lemma_no_error(&self) {
    }

    proof fn lemma_value(&self, v: Self) {
    }
}

impl RoundTrip for i16 {
    /// Every integer.
    open spec fn writable(&self) -> bool {
        true
    }

    open spec fn same(&self, other: &Self) -> bool {
        *self == *other
    }

    proof fn lemma_not_keyword(&self) {
    }

    proof fn lemma_no_error(&self) {
    }

    proof fn lemma_value(&self, v: Self) {
    }
}

impl RoundTrip for i32 {
    /// Every integer.
    open spec fn writable(&self) -> bool {
        true
    }

    open spec fn same(&self, other: &Self) -> bool {
        *self == *other
    }

    proof fn lemma_not_keyword(&self) {
    }

    proof fn lemma_no_error(&self) {
    }

    proof fn lemma_value(&self, v: Self) {
    }
}

impl RoundTrip for i64 {
    /// Every integer.
    open spec fn writable(&self) -> bool {
        true
    }

    open spec fn same(&self, other: &Self) -> bool {
        *self == *other
    }

    proof fn lemma_not_keyword(&self) {
    }

    proof fn lemma_no_error(&self) {
    }

    proof fn lemma_value(&self, v: Self) {
    }
}

impl RoundTrip for isize {
    /// Every integer.
    open spec fn writable(&self) -> bool {
        true
    }

    open spec fn same(&self, other: &Self) -> bool {
        *self == *other
    }

    proof fn lemma_not_keyword(&self) {
    }

    proof fn lemma_no_error(&self) {
    }

    proof fn lemma_value(&self, v: Self) {
    }
}

impl RoundTrip for u8 {
    /// Every integer.
    open spec fn writable(&self) -> bool {
        true
    }

    open spec fn same(&self, other: &Self) -> bool {
        *self == *other
    }

    proof fn lemma_not_keyword(&self) {
    }

    proof fn lemma_no_error(&self) {
    }

    proof fn lemma_value(&self, v: Self) {
    }
}

impl RoundTrip for u16 {
    /// Every integer.
    open spec fn writable(&self) -> bool {
        true
    }

    open spec fn same(&self, other: &Self) -> bool {
        *self == *other
    }

    proof fn lemma_not_keyword(&self) {
    }

    proof fn lemma_no_error(&self) {
    }

    proof fn lemma_value(&self, v: Self) {
    }
}

impl RoundTrip for u32 {
    /// Every integer.
    open spec fn writable(&self) -> bool {
        true
    }

    open spec fn same(&self, other: &Self) -> bool {
        *self == *other
    }

    proof fn lemma_not_keyword(&self) {
    }

    proof fn lemma_no_error(&self) {
    }

    proof fn lemma_value(&self, v: Self) {
    }
}

impl RoundTrip for u64 {
    /// An integer that the S-expression integer holds.
    open spec fn writable(&self) -> bool {
        *self <= i64::MAX
    }

    open spec fn same(&self, other: &Self) -> bool {
        *self == *other
    }

    proof fn lemma_not_keyword(&self) {
    }

    proof fn lemma_no_error(&self) {
    }

    proof fn lemma_value(&self, v: Self) {
    }
}

impl RoundTrip for usize {
    /// An integer that the S-expression integer holds.
    open spec fn writable(&self) -> bool {
        *self <= i64::MAX
    }

    open spec fn same(&self, other: &Self) -> bool {
        *self == *other
    }

    proof fn lemma_not_keyword(&self) {
    }

    proof fn lemma_no_error(&self) {
    }

    proof fn lemma_value(&self, v: Self) {
    }
}

// === Optional values, vectors, boxes ===

impl<T: RoundTrip> RoundTrip for Option<T> {
    /// Nothing, or a writable value whose S-expression does not read as
    /// absent.
    open spec fn writable(&self) -> bool {
        match self {
            Some(x) => x.writable() && !is_nil_value(x.to_sexpr_spec()),
            None => true,
        }
    }

    open spec fn same(&self, other: &Self) -> bool {
        match (self, other) {
            (Some(a), Some(b)) => a.same(b),
            (None, None) => true,
            _ => false,
        }
    }

    proof fn lemma_not_keyword(&self) {
        match self {
            Some(x) => x.lemma_not_keyword(),
            None => {},
        }
    }

    proof fn lemma_no_error(&self) {
        match self {
            Some(x) => {
                x.lemma_no_error();
            },
            None => {},
        }
    }

    proof fn lemma_value(&self, v: Self) {
        match self {
            Some(x) => {
                x.lemma_value(v->0);
            },
            None => {},
        }
    }
}

/// No item of a sequence of written values fails to convert.
proof fn lemma_first_error_none<T: RoundTrip>(v: Seq<T>)
    requires
        forall|i: int| 0 <= i < v.len() ==> #[trigger] v[i].writable(),
    ensures
        first_error::<T>(to_sexpr_seq(v)) is None,
    decreases v.len(),
{
    if v.len() > 0 {
        let w = v.drop_last();
        assert(to_sexpr_seq(v).drop_last() =~= to_sexpr_seq(w));
        lemma_first_error_none(w);
        v[v.len() - 1].lemma_no_error();
    }
}

impl<T: RoundTrip> RoundTrip for Vec<T> {
    /// A vector of writable values.
    open spec fn writable(&self) -> bool {
        forall|i: int| 0 <= i < self@.len() ==> #[trigger] self@[i].writable()
    }

    open spec fn same(&self, other: &Self) -> bool {
        self@.len() == other@.len() && forall|i: int|
            0 <= i < self@.len() ==> #[trigger] self@[i].same(&other@[i])
    }

    proof fn lemma_not_keyword(&self) {
    }

    proof fn lemma_no_error(&self) {
        lemma_first_error_none(self@);
    }

    proof fn lemma_value(&self, v: Self) {
        assert forall|i: int| 0 <= i < v@.len() implies #[trigger] v@[i].same(&self@[i]) by {
            assert(T::from_sexpr_value(to_sexpr_seq(self@)[i], v@[i]));
            self@[i].lemma_value(v@[i]);
        }
    }
}

impl<T: RoundTrip> RoundTrip for Box<T> {
    /// A box of a writable value.
    open spec fn writable(&self) -> bool {
        (**self).writable()
    }

    open spec fn same(&self, other: &Self) -> bool {
        (**self).same(&**other)
    }

    proof fn lemma_not_keyword(&self) {
        (**self).lemma_not_keyword();
    }

    proof fn lemma_no_error(&self) {
        (**self).lemma_no_error();
    }

    proof fn lemma_value(&self, v: Self) {
        (**self).lemma_value(*v);
    }
}

} // verus!
