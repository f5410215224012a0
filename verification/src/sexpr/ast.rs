//! The untyped S-expression tree and a builder for tagged lists.

use vstd::prelude::*;
use crate::decimal::Decimal;
use crate::text::str_eq;
use super::traits::{ToSexpr, to_sexpr_seq};

verus! {

/// An S-expression.
#[derive(Debug, PartialEq)]
pub enum Sexpr {
    /// An unquoted identifier such as `note` or `C4`.
    Symbol(String),
    /// A colon-prefixed identifier such as `:pitch`, held without the colon.
    Keyword(String),
    /// A double-quoted string, held without quotes and with escapes resolved.
    String(String),
    /// An integer.
    Integer(i64),
    /// A number with a decimal point.
    Float(Decimal),
    /// `#t` or `#f`.
    Bool(bool),
    /// `nil`.
    Nil,
    /// A parenthesized list.
    List(Vec<Sexpr>),
}

/// The mathematical value of an S-expression: its text as character
/// sequences and its lists as sequences.
pub enum SexprV {
    Symbol(Seq<char>),
    Keyword(Seq<char>),
    Str(Seq<char>),
    Integer(int),
    Float(Decimal),
    Bool(bool),
    Nil,
    List(Seq<SexprV>),
}

/// The value of an S-expression.
pub open spec fn view_of(s: Sexpr) -> SexprV
    decreases s,
{
    match s {
        Sexpr::Symbol(t) => SexprV::Symbol(t@),
        Sexpr::Keyword(t) => SexprV::Keyword(t@),
        Sexpr::String(t) => SexprV::Str(t@),
        Sexpr::Integer(i) => SexprV::Integer(i as int),
        Sexpr::Float(d) => SexprV::Float(d),
        Sexpr::Bool(b) => SexprV::Bool(b),
        Sexpr::Nil => SexprV::Nil,
        Sexpr::List(items) => SexprV::List(views_of(items@)),
    }
}

/// The values of a sequence of S-expressions.
pub open spec fn views_of(s: Seq<Sexpr>) -> Seq<SexprV>
    decreases s,
{
    if s.len() == 0 {
        Seq::empty()
    } else {
        views_of(s.subrange(0, s.len() - 1)).push(view_of(s[s.len() - 1]))
    }
}

impl View for Sexpr {
    type V = SexprV;

    open spec fn view(&self) -> SexprV {
        view_of(*self)
    }
}

/// `views_of` is taken element by element.
pub proof fn lemma_views_of(s: Seq<Sexpr>)
    ensures
        views_of(s).len() == s.len(),
        forall|i: int| 0 <= i < s.len() ==> #[trigger] views_of(s)[i] == view_of(s[i]),
    decreases s.len(),
{
    if s.len() > 0 {
        lemma_views_of(s.subrange(0, s.len() - 1));
    }
}

/// Appending one element appends its value.
pub proof fn lemma_views_of_push(s: Seq<Sexpr>, x: Sexpr)
    ensures
        views_of(s.push(x)) == views_of(s).push(view_of(x)),
{
    assert(s.push(x).subrange(0, s.len() as int) == s);
}

impl Sexpr {
    /// The symbol `name`.
    pub fn symbol(name: &str) -> (r: Sexpr)
        ensures
            r@ == SexprV::Symbol(name@),
    {
        Sexpr::Symbol(name.to_owned())
    }

    /// The keyword `:name`.
    pub fn keyword(name: &str) -> (r: Sexpr)
        ensures
            r@ == SexprV::Keyword(name@),
    {
        Sexpr::Keyword(name.to_owned())
    }

    /// The string `text`.
    pub fn string(text: &str) -> (r: Sexpr)
        ensures
            r@ == SexprV::Str(text@),
    {
        Sexpr::String(text.to_owned())
    }

    /// The list of `items`.
    pub fn list(items: Vec<Sexpr>) -> (r: Sexpr)
        ensures
            r@ == SexprV::List(views_of(items@)),
    {
        Sexpr::List(items)
    }

    /// Whether this is a list.
    pub fn is_list(&self) -> (r: bool)
        ensures
            r == (self@ is List),
    {
        match self {
            Sexpr::List(_) => true,
            _ => false,
        }
    }

    /// The items of a list, or `None` for another S-expression.
    pub fn as_list(&self) -> (r: Option<&Vec<Sexpr>>)
        ensures
            self is List ==> r == Some(&self->List_0),
            !(self is List) ==> r is None,
            r is Some <==> self@ is List,
    {
        match self {
            Sexpr::List(items) => Some(items),
            _ => None,
        }
    }

    /// The name of a symbol, or `None` for another S-expression.
    pub fn as_symbol(&self) -> (r: Option<&str>)
        ensures
            match self@ {
                SexprV::Symbol(t) => r matches Some(x) && x@ == t,
                _ => r is None,
            },
    {
        match self {
            Sexpr::Symbol(s) => Some(s.as_str()),
            _ => None,
        }
    }

    /// The name of a keyword (without the colon), or `None` for another
    /// S-expression.
    pub fn as_keyword(&self) -> (r: Option<&str>)
        ensures
            match self@ {
                SexprV::Keyword(t) => r matches Some(x) && x@ == t,
                _ => r is None,
            },
    {
        match self {
            Sexpr::Keyword(s) => Some(s.as_str()),
            _ => None,
        }
    }

    /// The text of a string, or `None` for another S-expression.
    pub fn as_string(&self) -> (r: Option<&str>)
        ensures
            match self@ {
                SexprV::Str(t) => r matches Some(x) && x@ == t,
                _ => r is None,
            },
    {
        match self {
            Sexpr::String(s) => Some(s.as_str()),
            _ => None,
        }
    }

    /// The value of an integer, or `None` for another S-expression.
    pub fn as_integer(&self) -> (r: Option<i64>)
        ensures
            match self@ {
                SexprV::Integer(i) => r == Some(i as i64),
                _ => r is None,
            },
    {
        match self {
            Sexpr::Integer(i) => Some(*i),
            _ => None,
        }
    }

    /// Whether this is the symbol `name`.
    pub fn is_symbol(&self, name: &str) -> (r: bool)
        ensures
            r == (self@ == SexprV::Symbol(name@)),
    {
        match self {
            Sexpr::Symbol(s) => str_eq(s.as_str(), name),
            _ => false,
        }
    }

    /// Whether this is the keyword `:name`.
    pub fn is_keyword(&self, name: &str) -> (r: bool)
        ensures
            r == (self@ == SexprV::Keyword(name@)),
    {
        match self {
            Sexpr::Keyword(s) => str_eq(s.as_str(), name),
            _ => false,
        }
    }

    /// Whether this is `nil`.
    pub fn is_nil(&self) -> (r: bool)
        ensures
            r == (self@ is Nil),
    {
        match self {
            Sexpr::Nil => true,
            _ => false,
        }
    }

    /// A copy of this S-expression with the same value.
    #[verifier::loop_isolation(false)]
    pub fn duplicate(&self) -> (r: Sexpr)
        ensures
            r@ == self@,
        decreases self,
    {
        match self {
            Sexpr::Symbol(s) => Sexpr::Symbol(s.clone()),
            Sexpr::Keyword(s) => Sexpr::Keyword(s.clone()),
            Sexpr::String(s) => Sexpr::String(s.clone()),
            Sexpr::Integer(i) => Sexpr::Integer(*i),
            Sexpr::Float(d) => Sexpr::Float(*d),
            Sexpr::Bool(b) => Sexpr::Bool(*b),
            Sexpr::Nil => Sexpr::Nil,
            Sexpr::List(items) => {
                let mut out: Vec<Sexpr> = Vec::new();
                let mut i: usize = 0;
                while i < items.len()
                    invariant
                        i <= items.len(),
                        views_of(out@) == views_of(items@.take(i as int)),
                    decreases items.len() - i,
                {
                    assert(decreases_to!(*self => self->List_0));
                    assert(decreases_to!(self->List_0 => self->List_0@));
                    assert(decreases_to!(self->List_0@ => self->List_0@[i as int]));
                    assert(decreases_to!(*self => items@[i as int]));
                    let x = items[i].duplicate();
                    proof {
                        lemma_views_of_push(out@, x);
                        lemma_views_of_push(items@.take(i as int), items@[i as int]);
                        assert(items@.take(i + 1) == items@.take(i as int).push(items@[i as int]));
                    }
                    out.push(x);
                    i = i + 1;
                }
                assert(items@.take(items.len() as int) == items@);
                Sexpr::List(out)
            },
        }
    }
}

impl Clone for Sexpr {
    fn clone(&self) -> (r: Sexpr)
        ensures
            r@ == self@,
    {
        self.duplicate()
    }
}

/// A keyword `:key` followed by its value.
pub open spec fn kw_pair(key: Seq<char>, value: SexprV) -> Seq<SexprV> {
    seq![SexprV::Keyword(key), value]
}

/// A keyword `:key` followed by the S-expression of the value, or nothing
/// when there is no value.
pub open spec fn kw_opt<T: ToSexpr>(key: Seq<char>, value: Option<T>) -> Seq<SexprV> {
    match value {
        Some(v) => kw_pair(key, v.to_sexpr_spec()),
        None => Seq::empty(),
    }
}

/// A keyword `:key` followed by `value` when `cond` holds, or nothing.
pub open spec fn kw_if(cond: bool, key: Seq<char>, value: SexprV) -> Seq<SexprV> {
    if cond {
        kw_pair(key, value)
    } else {
        Seq::empty()
    }
}

/// The S-expression of the value as a positional argument, or nothing.
pub open spec fn opt_arg<T: ToSexpr>(item: Option<T>) -> Seq<SexprV> {
    match item {
        Some(v) => seq![v.to_sexpr_spec()],
        None => Seq::empty(),
    }
}

/// A builder for tagged lists: a head symbol, then keyword arguments and
/// positional arguments in the order they are added.
pub struct ListBuilder {
    items: Vec<Sexpr>,
}

impl View for ListBuilder {
    type V = Seq<SexprV>;

    closed spec fn view(&self) -> Seq<SexprV> {
        views_of(self.items@)
    }
}

impl ListBuilder {
    /// A builder whose list starts with the symbol `head`.
    pub fn new(head: &str) -> (r: ListBuilder)
        ensures
            r@ == seq![SexprV::Symbol(head@)],
    {
        let mut items = Vec::new();
        let h = Sexpr::symbol(head);
        items.push(h);
        proof {
            lemma_views_of_push(Seq::empty(), h);
            assert(Seq::<Sexpr>::empty().push(h) == items@);
        }
        ListBuilder { items }
    }

    /// Appends a positional argument.
    pub fn arg(self, item: Sexpr) -> (r: ListBuilder)
        ensures
            r@ == self@.push(item@),
    {
        let mut items = self.items;
        proof {
            lemma_views_of_push(items@, item);
        }
        items.push(item);
        ListBuilder { items }
    }

    /// Appends the keyword `:key` and then `value`.
    pub fn kwarg_raw(self, key: &str, value: Sexpr) -> (r: ListBuilder)
        ensures
            r@ == self@ + kw_pair(key@, value@),
    {
        let r = self.arg(Sexpr::keyword(key)).arg(value);
        assert(r@ =~= self@ + kw_pair(key@, value@));
        r
    }

    /// Appends the keyword `:key` and then the S-expression of `value`.
    pub fn kwarg<T: ToSexpr>(self, key: &str, value: &T) -> (r: ListBuilder)
        ensures
            r@ == self@ + kw_pair(key@, value.to_sexpr_spec()),
    {
        let v = value.to_sexpr();
        self.kwarg_raw(key, v)
    }

    /// Appends the keyword `:key` and the S-expression of the value when
    /// there is one; appends nothing for `None`.
    pub fn kwarg_opt<T: ToSexpr>(self, key: &str, value: &Option<T>) -> (r: ListBuilder)
        ensures
            r@ == self@ + kw_opt(key@, *value),
    {
        match value {
            Some(v) => self.kwarg(key, v),
            None => {
                assert(self@ + kw_opt(key@, *value) =~= self@);
                self
            },
        }
    }

    /// Appends the keyword `:key` and the S-expression of `value` when `cond`
    /// holds; appends nothing otherwise.
    pub fn kwarg_when<T: ToSexpr>(self, cond: bool, key: &str, value: &T) -> (r: ListBuilder)
        ensures
            r@ == self@ + kw_if(cond, key@, value.to_sexpr_spec()),
    {
        if cond {
            self.kwarg(key, value)
        } else {
            assert(self@ + kw_if(cond, key@, value.to_sexpr_spec()) =~= self@);
            self
        }
    }

    /// Appends the keyword `:key` and the list of the items' S-expressions.
    pub fn kwarg_list<T: ToSexpr>(self, key: &str, items: &Vec<T>) -> (r: ListBuilder)
        ensures
            r@ == self@ + kw_pair(key@, items.to_sexpr_spec()),
    {
        self.kwarg(key, items)
    }

    /// Appends the S-expression of each item as a positional argument.
    pub fn args<T: ToSexpr>(self, items: &Vec<T>) -> (r: ListBuilder)
        ensures
            r@ == self@ + to_sexpr_seq(items@),
    {
        let mut b = self;
        let ghost start = b@;
        let mut i: usize = 0;
        while i < items.len()
            invariant
                i <= items.len(),
                b@ == start + to_sexpr_seq(items@.take(i as int)),
            decreases items.len() - i,
        {
            let x = items[i].to_sexpr();
            b = b.arg(x);
            assert(to_sexpr_seq(items@.take(i + 1)) =~= to_sexpr_seq(items@.take(i as int)).push(
                items@[i as int].to_sexpr_spec(),
            ));
            i = i + 1;
        }
        assert(items@.take(items.len() as int) == items@);
        b
    }

    /// Appends the S-expression of the value as a positional argument when
    /// there is one.
    pub fn arg_opt<T: ToSexpr>(self, item: &Option<T>) -> (r: ListBuilder)
        ensures
            r@ == self@ + opt_arg(*item),
    {
        match item {
            Some(v) => {
                let x = v.to_sexpr();
                self.arg(x)
            },
            None => {
                assert(self@ + opt_arg(*item) =~= self@);
                self
            },
        }
    }

    /// The built list.
    pub fn build(self) -> (r: Sexpr)
        ensures
            r@ == SexprV::List(self@),
    {
        Sexpr::List(self.items)
    }
}

} // verus!
