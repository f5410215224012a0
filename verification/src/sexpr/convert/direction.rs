//! Conversions of directions.

use vstd::prelude::*;
use crate::sexpr::round_trip::{RoundTrip, lemma_find_after, lemma_find_head, lemma_find_after_key, lemma_find_head_key, lemma_find_skip, lemma_find_hit, lemma_ends_clean, ends_clean, clean_piece, lemma_pair_piece, lemma_opt_piece, lemma_if_piece};
use super::find_kwarg_spec;
use crate::decimal::Decimal;
use crate::text::str_eq;
use crate::sexpr::ast::{ListBuilder, Sexpr, SexprV, kw_pair, kw_opt, kw_if};
use crate::sexpr::error::{ConvertError, ConvertErrorV, type_mismatch_v};
use crate::sexpr::traits::{FromSexpr, ToSexpr};
use super::{
    expect_head, get_head, require_kwarg, optional_kwarg, object_kwarg, flag_kwarg, list_kwarg,
    head_error, head_name, kwarg_error, kwarg_value, opt_kwarg_error, opt_kwarg_value,
    obj_kwarg_error, obj_kwarg_value, flag_kwarg_value, list_kwarg_value, either,
};
use crate::ir::common::AboveBelow;
use crate::ir::direction::{
    DynamicElement, Dynamics, Direction, DirectionType, DirectionTypeContent, Rehearsal, Words, Wedge,
    Metronome, MetronomeContent, PerMinute, BeatEquation, OctaveShift, Pedal, OtherDirection, WedgeType,
    PedalType, UpDownStopContinue,
};

verus! {

// === DynamicElement ===

/// The symbol of each `DynamicElement`.
pub open spec fn dynamic_element_name(v: DynamicElement) -> Seq<char> {
    match v {
        DynamicElement::P => "p"@,
        DynamicElement::PP => "pp"@,
        DynamicElement::PPP => "ppp"@,
        DynamicElement::PPPP => "pppp"@,
        DynamicElement::PPPPP => "ppppp"@,
        DynamicElement::PPPPPP => "pppppp"@,
        DynamicElement::F => "f"@,
        DynamicElement::FF => "ff"@,
        DynamicElement::FFF => "fff"@,
        DynamicElement::FFFF => "ffff"@,
        DynamicElement::FFFFF => "fffff"@,
        DynamicElement::FFFFFF => "ffffff"@,
        DynamicElement::MP => "mp"@,
        DynamicElement::MF => "mf"@,
        DynamicElement::SF => "sf"@,
        DynamicElement::SFP => "sfp"@,
        DynamicElement::SFPP => "sfpp"@,
        DynamicElement::FP => "fp"@,
        DynamicElement::RF => "rf"@,
        DynamicElement::RFZ => "rfz"@,
        DynamicElement::SFZ => "sfz"@,
        DynamicElement::SFFZ => "sffz"@,
        DynamicElement::FZ => "fz"@,
        DynamicElement::N => "n"@,
        DynamicElement::PF => "pf"@,
        DynamicElement::SFZP => "sfzp"@,
    }
}

/// The `DynamicElement` that a symbol names.
pub open spec fn dynamic_element_of_name(t: Seq<char>) -> Option<DynamicElement> {
    if t == "p"@ {
        Some(DynamicElement::P)
    } else if t == "pp"@ {
        Some(DynamicElement::PP)
    } else if t == "ppp"@ {
        Some(DynamicElement::PPP)
    } else if t == "pppp"@ {
        Some(DynamicElement::PPPP)
    } else if t == "ppppp"@ {
        Some(DynamicElement::PPPPP)
    } else if t == "pppppp"@ {
        Some(DynamicElement::PPPPPP)
    } else if t == "f"@ {
        Some(DynamicElement::F)
    } else if t == "ff"@ {
        Some(DynamicElement::FF)
    } else if t == "fff"@ {
        Some(DynamicElement::FFF)
    } else if t == "ffff"@ {
        Some(DynamicElement::FFFF)
    } else if t == "fffff"@ {
        Some(DynamicElement::FFFFF)
    } else if t == "ffffff"@ {
        Some(DynamicElement::FFFFFF)
    } else if t == "mp"@ {
        Some(DynamicElement::MP)
    } else if t == "mf"@ {
        Some(DynamicElement::MF)
    } else if t == "sf"@ {
        Some(DynamicElement::SF)
    } else if t == "sfp"@ {
        Some(DynamicElement::SFP)
    } else if t == "sfpp"@ {
        Some(DynamicElement::SFPP)
    } else if t == "fp"@ {
        Some(DynamicElement::FP)
    } else if t == "rf"@ {
        Some(DynamicElement::RF)
    } else if t == "rfz"@ {
        Some(DynamicElement::RFZ)
    } else if t == "sfz"@ {
        Some(DynamicElement::SFZ)
    } else if t == "sffz"@ {
        Some(DynamicElement::SFFZ)
    } else if t == "fz"@ {
        Some(DynamicElement::FZ)
    } else if t == "n"@ {
        Some(DynamicElement::N)
    } else if t == "pf"@ {
        Some(DynamicElement::PF)
    } else if t == "sfzp"@ {
        Some(DynamicElement::SFZP)
    } else {
        None
    }
}

impl DynamicElement {
    /// The symbol of the value, as `dynamic_element_name` states.
    pub fn symbol(&self) -> (r: &'static str)
        ensures
            r@ == dynamic_element_name(*self),
    {
        match self {
            DynamicElement::P => "p",
            DynamicElement::PP => "pp",
            DynamicElement::PPP => "ppp",
            DynamicElement::PPPP => "pppp",
            DynamicElement::PPPPP => "ppppp",
            DynamicElement::PPPPPP => "pppppp",
            DynamicElement::F => "f",
            DynamicElement::FF => "ff",
            DynamicElement::FFF => "fff",
            DynamicElement::FFFF => "ffff",
            DynamicElement::FFFFF => "fffff",
            DynamicElement::FFFFFF => "ffffff",
            DynamicElement::MP => "mp",
            DynamicElement::MF => "mf",
            DynamicElement::SF => "sf",
            DynamicElement::SFP => "sfp",
            DynamicElement::SFPP => "sfpp",
            DynamicElement::FP => "fp",
            DynamicElement::RF => "rf",
            DynamicElement::RFZ => "rfz",
            DynamicElement::SFZ => "sfz",
            DynamicElement::SFFZ => "sffz",
            DynamicElement::FZ => "fz",
            DynamicElement::N => "n",
            DynamicElement::PF => "pf",
            DynamicElement::SFZP => "sfzp",
        }
    }
}

impl ToSexpr for DynamicElement {
    /// The symbol of the value.
    open spec fn to_sexpr_spec(&self) -> SexprV {
        SexprV::Symbol(dynamic_element_name(*self))
    }

    fn to_sexpr(&self) -> (r: Sexpr) {
        Sexpr::symbol(self.symbol())
    }
}

impl FromSexpr for DynamicElement {
    /// A symbol that names a value.
    open spec fn from_sexpr_error(s: SexprV) -> Option<ConvertErrorV> {
        match s {
            SexprV::Symbol(t) => if dynamic_element_of_name(t) is Some {
                None
            } else {
                Some(type_mismatch_v("dynamic-element"@, s))
            },
            _ => Some(type_mismatch_v("dynamic-element"@, s)),
        }
    }

    open spec fn from_sexpr_value(s: SexprV, v: DynamicElement) -> bool {
        match s {
            SexprV::Symbol(t) => dynamic_element_of_name(t) == Some(v),
            _ => false,
        }
    }

    fn from_sexpr(sexpr: &Sexpr) -> (r: Result<DynamicElement, ConvertError>) {
        match sexpr.as_symbol() {
            Some(t) => {
                if str_eq(t, "p") {
                    Ok(DynamicElement::P)
                } else if str_eq(t, "pp") {
                    Ok(DynamicElement::PP)
                } else if str_eq(t, "ppp") {
                    Ok(DynamicElement::PPP)
                } else if str_eq(t, "pppp") {
                    Ok(DynamicElement::PPPP)
                } else if str_eq(t, "ppppp") {
                    Ok(DynamicElement::PPPPP)
                } else if str_eq(t, "pppppp") {
                    Ok(DynamicElement::PPPPPP)
                } else if str_eq(t, "f") {
                    Ok(DynamicElement::F)
                } else if str_eq(t, "ff") {
                    Ok(DynamicElement::FF)
                } else if str_eq(t, "fff") {
                    Ok(DynamicElement::FFF)
                } else if str_eq(t, "ffff") {
                    Ok(DynamicElement::FFFF)
                } else if str_eq(t, "fffff") {
                    Ok(DynamicElement::FFFFF)
                } else if str_eq(t, "ffffff") {
                    Ok(DynamicElement::FFFFFF)
                } else if str_eq(t, "mp") {
                    Ok(DynamicElement::MP)
                } else if str_eq(t, "mf") {
                    Ok(DynamicElement::MF)
                } else if str_eq(t, "sf") {
                    Ok(DynamicElement::SF)
                } else if str_eq(t, "sfp") {
                    Ok(DynamicElement::SFP)
                } else if str_eq(t, "sfpp") {
                    Ok(DynamicElement::SFPP)
                } else if str_eq(t, "fp") {
                    Ok(DynamicElement::FP)
                } else if str_eq(t, "rf") {
                    Ok(DynamicElement::RF)
                } else if str_eq(t, "rfz") {
                    Ok(DynamicElement::RFZ)
                } else if str_eq(t, "sfz") {
                    Ok(DynamicElement::SFZ)
                } else if str_eq(t, "sffz") {
                    Ok(DynamicElement::SFFZ)
                } else if str_eq(t, "fz") {
                    Ok(DynamicElement::FZ)
                } else if str_eq(t, "n") {
                    Ok(DynamicElement::N)
                } else if str_eq(t, "pf") {
                    Ok(DynamicElement::PF)
                } else if str_eq(t, "sfzp") {
                    Ok(DynamicElement::SFZP)
                } else {
                    Err(ConvertError::type_mismatch("dynamic-element", sexpr))
                }
            },
            None => Err(ConvertError::type_mismatch("dynamic-element", sexpr)),
        }
    }
}

// === Dynamics ===

impl ToSexpr for Dynamics {
    /// `(dynamics ...)` with the keyword arguments that the value has.
    open spec fn to_sexpr_spec(&self) -> SexprV {
        SexprV::List(seq![SexprV::Symbol("dynamics"@)] + kw_if(self.content@.len() > 0, "content"@, self.content.to_sexpr_spec()) + kw_opt("placement"@, self.placement))
    }

    fn to_sexpr(&self) -> (r: Sexpr) {
        ListBuilder::new("dynamics").kwarg_when(self.content.len() > 0, "content", &self.content).kwarg_opt("placement", &self.placement).build()
    }
}

impl FromSexpr for Dynamics {
    /// A list headed `dynamics` whose keyword arguments convert.
    open spec fn from_sexpr_error(s: SexprV) -> Option<ConvertErrorV> {
        match s {
            SexprV::List(items) => either(head_error(items, "dynamics"@), either(opt_kwarg_error::<Vec<DynamicElement>>(items, "content"@), opt_kwarg_error::<AboveBelow>(items, "placement"@))),
            _ => Some(type_mismatch_v("dynamics list"@, s)),
        }
    }

    open spec fn from_sexpr_value(s: SexprV, v: Dynamics) -> bool {
        match s {
            SexprV::List(items) => list_kwarg_value::<DynamicElement>(items, "content"@, v.content)
                && opt_kwarg_value::<AboveBelow>(items, "placement"@, v.placement),
            _ => false,
        }
    }

    fn from_sexpr(sexpr: &Sexpr) -> (r: Result<Dynamics, ConvertError>) {
        let list = match sexpr.as_list() {
            Some(l) => l,
            None => return Err(ConvertError::type_mismatch("dynamics list", sexpr)),
        };
        expect_head(list, "dynamics")?;
        let content: Vec<DynamicElement> = list_kwarg(list, "content")?;
        let placement: Option<AboveBelow> = optional_kwarg(list, "placement")?;
        Ok(Dynamics { content, placement })
    }
}

// === Reading back ===

impl RoundTrip for DynamicElement {
    /// Every value.
    open spec fn writable(&self) -> bool {
        true
    }

    open spec fn same(&self, other: &Self) -> bool {
        *self == *other
    }

    proof fn lemma_not_keyword(&self) {
    }

    proof fn lemma_no_error(&self) {
        reveal_strlit("p");
        assert("p"@.len() == 1);
        reveal_strlit("pp");
        assert("pp"@.len() == 2);
        reveal_strlit("ppp");
        assert("ppp"@.len() == 3);
        reveal_strlit("pppp");
        assert("pppp"@.len() == 4);
        reveal_strlit("ppppp");
        assert("ppppp"@.len() == 5);
        reveal_strlit("pppppp");
        assert("pppppp"@.len() == 6);
        reveal_strlit("f");
        assert("f"@.len() == 1);
        reveal_strlit("ff");
        assert("ff"@.len() == 2);
        reveal_strlit("fff");
        assert("fff"@.len() == 3);
        reveal_strlit("ffff");
        assert("ffff"@.len() == 4);
        reveal_strlit("fffff");
        assert("fffff"@.len() == 5);
        reveal_strlit("ffffff");
        assert("ffffff"@.len() == 6);
        reveal_strlit("mp");
        assert("mp"@.len() == 2);
        reveal_strlit("mf");
        assert("mf"@.len() == 2);
        reveal_strlit("sf");
        assert("sf"@.len() == 2);
        reveal_strlit("sfp");
        assert("sfp"@.len() == 3);
        reveal_strlit("sfpp");
        assert("sfpp"@.len() == 4);
        reveal_strlit("fp");
        assert("fp"@.len() == 2);
        reveal_strlit("rf");
        assert("rf"@.len() == 2);
        reveal_strlit("rfz");
        assert("rfz"@.len() == 3);
        reveal_strlit("sfz");
        assert("sfz"@.len() == 3);
        reveal_strlit("sffz");
        assert("sffz"@.len() == 4);
        reveal_strlit("fz");
        assert("fz"@.len() == 2);
        reveal_strlit("n");
        assert("n"@.len() == 1);
        reveal_strlit("pf");
        assert("pf"@.len() == 2);
        reveal_strlit("sfzp");
        assert("sfzp"@.len() == 4);
        assert("p"@[0] == 'p');
        assert("f"@[0] == 'f');
        assert("n"@[0] == 'n');
        assert("pp"@[0] == 'p');
        assert("ff"@[0] == 'f');
        assert("mp"@[0] == 'm');
        assert("mf"@[0] == 'm');
        assert("sf"@[0] == 's');
        assert("fp"@[0] == 'f');
        assert("rf"@[0] == 'r');
        assert("fz"@[0] == 'f');
        assert("pp"@[1] == 'p');
        assert("pf"@[1] == 'f');
        assert("ppp"@[0] == 'p');
        assert("fff"@[0] == 'f');
        assert("sfp"@[0] == 's');
        assert("rfz"@[0] == 'r');
        assert("sfz"@[0] == 's');
        assert("pppp"@[0] == 'p');
        assert("ffff"@[0] == 'f');
        assert("sfpp"@[0] == 's');
        assert("sffz"@[0] == 's');
        assert("sfzp"@[0] == 's');
        assert("ppppp"@[0] == 'p');
        assert("fffff"@[0] == 'f');
        assert("pppppp"@[0] == 'p');
        assert("ffffff"@[0] == 'f');
        assert("ff"@[1] == 'f');
        assert("fp"@[1] == 'p');
        assert("fz"@[1] == 'z');
        assert("pf"@[0] == 'p');
        assert("mp"@[1] == 'p');
        assert("mf"@[1] == 'f');
        assert("sfp"@[2] == 'p');
        assert("sfz"@[2] == 'z');
        assert("sfpp"@[2] == 'p');
        assert("sffz"@[2] == 'f');
        assert("sfzp"@[2] == 'z');
    }

    proof fn lemma_value(&self, v: Self) {
        reveal_strlit("p");
        assert("p"@.len() == 1);
        reveal_strlit("pp");
        assert("pp"@.len() == 2);
        reveal_strlit("ppp");
        assert("ppp"@.len() == 3);
        reveal_strlit("pppp");
        assert("pppp"@.len() == 4);
        reveal_strlit("ppppp");
        assert("ppppp"@.len() == 5);
        reveal_strlit("pppppp");
        assert("pppppp"@.len() == 6);
        reveal_strlit("f");
        assert("f"@.len() == 1);
        reveal_strlit("ff");
        assert("ff"@.len() == 2);
        reveal_strlit("fff");
        assert("fff"@.len() == 3);
        reveal_strlit("ffff");
        assert("ffff"@.len() == 4);
        reveal_strlit("fffff");
        assert("fffff"@.len() == 5);
        reveal_strlit("ffffff");
        assert("ffffff"@.len() == 6);
        reveal_strlit("mp");
        assert("mp"@.len() == 2);
        reveal_strlit("mf");
        assert("mf"@.len() == 2);
        reveal_strlit("sf");
        assert("sf"@.len() == 2);
        reveal_strlit("sfp");
        assert("sfp"@.len() == 3);
        reveal_strlit("sfpp");
        assert("sfpp"@.len() == 4);
        reveal_strlit("fp");
        assert("fp"@.len() == 2);
        reveal_strlit("rf");
        assert("rf"@.len() == 2);
        reveal_strlit("rfz");
        assert("rfz"@.len() == 3);
        reveal_strlit("sfz");
        assert("sfz"@.len() == 3);
        reveal_strlit("sffz");
        assert("sffz"@.len() == 4);
        reveal_strlit("fz");
        assert("fz"@.len() == 2);
        reveal_strlit("n");
        assert("n"@.len() == 1);
        reveal_strlit("pf");
        assert("pf"@.len() == 2);
        reveal_strlit("sfzp");
        assert("sfzp"@.len() == 4);
        assert("p"@[0] == 'p');
        assert("f"@[0] == 'f');
        assert("n"@[0] == 'n');
        assert("pp"@[0] == 'p');
        assert("ff"@[0] == 'f');
        assert("mp"@[0] == 'm');
        assert("mf"@[0] == 'm');
        assert("sf"@[0] == 's');
        assert("fp"@[0] == 'f');
        assert("rf"@[0] == 'r');
        assert("fz"@[0] == 'f');
        assert("pp"@[1] == 'p');
        assert("pf"@[1] == 'f');
        assert("ppp"@[0] == 'p');
        assert("fff"@[0] == 'f');
        assert("sfp"@[0] == 's');
        assert("rfz"@[0] == 'r');
        assert("sfz"@[0] == 's');
        assert("pppp"@[0] == 'p');
        assert("ffff"@[0] == 'f');
        assert("sfpp"@[0] == 's');
        assert("sffz"@[0] == 's');
        assert("sfzp"@[0] == 's');
        assert("ppppp"@[0] == 'p');
        assert("fffff"@[0] == 'f');
        assert("pppppp"@[0] == 'p');
        assert("ffffff"@[0] == 'f');
        assert("ff"@[1] == 'f');
        assert("fp"@[1] == 'p');
        assert("fz"@[1] == 'z');
        assert("pf"@[0] == 'p');
        assert("mp"@[1] == 'p');
        assert("mf"@[1] == 'f');
        assert("sfp"@[2] == 'p');
        assert("sfz"@[2] == 'z');
        assert("sfpp"@[2] == 'p');
        assert("sffz"@[2] == 'f');
        assert("sfzp"@[2] == 'z');
    }
}

/// The head and keyword arguments of the S-expression of a `Dynamics`.
pub proof fn lemma_dynamics_items(x: Dynamics)
    requires
        x.writable(),
    ensures
        x.to_sexpr_spec() matches SexprV::List(items) && items.len() > 0 && items[0] == SexprV::Symbol("dynamics"@)
            && find_kwarg_spec(items, "content"@) == (if x.content@.len() > 0 { Some(x.content.to_sexpr_spec()) } else { None })
            && find_kwarg_spec(items, "placement"@) == (match x.placement { Some(y) => Some(y.to_sexpr_spec()), None => None }),
{
        assert("placement"@ != "content"@) by {
            reveal_strlit("placement");
            assert("placement"@.len() == 9);
            reveal_strlit("content");
            assert("content"@.len() == 7);
        }
        let ghost s0 = seq![SexprV::Symbol("dynamics"@)];
        assert(ends_clean(s0));
        let ghost p1 = kw_if(x.content@.len() > 0, "content"@, x.content.to_sexpr_spec());
        x.content.lemma_not_keyword();
        lemma_if_piece(x.content@.len() > 0, "content"@, x.content.to_sexpr_spec());
        let ghost s1 = s0 + p1;
        lemma_ends_clean(s0, p1);
        let ghost p2 = kw_opt("placement"@, x.placement);
        lemma_opt_piece("placement"@, x.placement);
        let ghost s2 = s1 + p2;
        lemma_ends_clean(s1, p2);
        assert(x.to_sexpr_spec() == SexprV::List(s2));
        assert(s2[0] == SexprV::Symbol("dynamics"@)) by {
            assert(s1[0] == s0[0]);
            assert(s2[0] == s1[0]);
        }
        assert(find_kwarg_spec(s2, "content"@) == (if x.content@.len() > 0 { Some(x.content.to_sexpr_spec()) } else { None })) by {
            lemma_find_head_key("dynamics"@, "content"@);
            if p1.len() == 2 { lemma_find_hit(s0, p1, "content"@); } else { lemma_find_skip(s0, p1, "content"@); }
            lemma_find_skip(s1, p2, "content"@);
        }
        assert(find_kwarg_spec(s2, "placement"@) == (match x.placement { Some(y) => Some(y.to_sexpr_spec()), None => None })) by {
            lemma_find_head_key("dynamics"@, "placement"@);
            lemma_find_skip(s0, p1, "placement"@);
            if p2.len() == 2 { lemma_find_hit(s1, p2, "placement"@); } else { lemma_find_skip(s1, p2, "placement"@); }
        }
}

impl RoundTrip for Dynamics {
    /// A value whose parts are writable.
    open spec fn writable(&self) -> bool {
        self.content.writable()
            && self.placement.writable()
    }

    open spec fn same(&self, other: &Self) -> bool {
        self.content.same(&other.content)
            && self.placement.same(&other.placement)
    }

    proof fn lemma_not_keyword(&self) {
    }

    proof fn lemma_no_error(&self) {
        lemma_dynamics_items(*self);
        self.content.lemma_no_error();
        self.placement.lemma_no_error();
    }

    proof fn lemma_value(&self, v: Self) {
        lemma_dynamics_items(*self);
        if self.content@.len() > 0 {
            self.content.lemma_value(v.content);
        }
        self.placement.lemma_value(v.placement);
    }
}

/// The symbol of each `WedgeType`.
pub open spec fn wedge_type_name(v: WedgeType) -> Seq<char> {
    match v {
        WedgeType::Crescendo => "crescendo"@,
        WedgeType::Diminuendo => "diminuendo"@,
        WedgeType::Stop => "stop"@,
        WedgeType::Continue => "continue"@,
    }
}

impl WedgeType {
    /// The symbol of the value, as `wedge_type_name` states.
    pub fn symbol(&self) -> (r: &'static str)
        ensures
            r@ == wedge_type_name(*self),
    {
        match self {
            WedgeType::Crescendo => "crescendo",
            WedgeType::Diminuendo => "diminuendo",
            WedgeType::Stop => "stop",
            WedgeType::Continue => "continue",
        }
    }
}

impl ToSexpr for WedgeType {
    /// The symbol of the value.
    open spec fn to_sexpr_spec(&self) -> SexprV {
        SexprV::Symbol(wedge_type_name(*self))
    }

    fn to_sexpr(&self) -> (r: Sexpr) {
        Sexpr::symbol(self.symbol())
    }
}

/// The symbol of each `PedalType`.
pub open spec fn pedal_type_name(v: PedalType) -> Seq<char> {
    match v {
        PedalType::Start => "start"@,
        PedalType::Stop => "stop"@,
        PedalType::Sostenuto => "sostenuto"@,
        PedalType::Change => "change"@,
        PedalType::Continue => "continue"@,
        PedalType::Discontinue => "discontinue"@,
        PedalType::Resume => "resume"@,
    }
}

impl PedalType {
    /// The symbol of the value, as `pedal_type_name` states.
    pub fn symbol(&self) -> (r: &'static str)
        ensures
            r@ == pedal_type_name(*self),
    {
        match self {
            PedalType::Start => "start",
            PedalType::Stop => "stop",
            PedalType::Sostenuto => "sostenuto",
            PedalType::Change => "change",
            PedalType::Continue => "continue",
            PedalType::Discontinue => "discontinue",
            PedalType::Resume => "resume",
        }
    }
}

impl ToSexpr for PedalType {
    /// The symbol of the value.
    open spec fn to_sexpr_spec(&self) -> SexprV {
        SexprV::Symbol(pedal_type_name(*self))
    }

    fn to_sexpr(&self) -> (r: Sexpr) {
        Sexpr::symbol(self.symbol())
    }
}

/// The symbol of each `UpDownStopContinue`.
pub open spec fn up_down_stop_continue_name(v: UpDownStopContinue) -> Seq<char> {
    match v {
        UpDownStopContinue::Up => "up"@,
        UpDownStopContinue::Down => "down"@,
        UpDownStopContinue::Stop => "stop"@,
        UpDownStopContinue::Continue => "continue"@,
    }
}

impl UpDownStopContinue {
    /// The symbol of the value, as `up_down_stop_continue_name` states.
    pub fn symbol(&self) -> (r: &'static str)
        ensures
            r@ == up_down_stop_continue_name(*self),
    {
        match self {
            UpDownStopContinue::Up => "up",
            UpDownStopContinue::Down => "down",
            UpDownStopContinue::Stop => "stop",
            UpDownStopContinue::Continue => "continue",
        }
    }
}

impl ToSexpr for UpDownStopContinue {
    /// The symbol of the value.
    open spec fn to_sexpr_spec(&self) -> SexprV {
        SexprV::Symbol(up_down_stop_continue_name(*self))
    }

    fn to_sexpr(&self) -> (r: Sexpr) {
        Sexpr::symbol(self.symbol())
    }
}

impl ToSexpr for Direction {
    /// `(direction ...)` with the keyword arguments that the value has.
    open spec fn to_sexpr_spec(&self) -> SexprV {
        SexprV::List(seq![SexprV::Symbol("direction"@)] + kw_opt("placement"@, self.placement) + kw_if(self.direction_types@.len() > 0, "direction-types"@, self.direction_types.to_sexpr_spec()) + kw_opt("staff"@, self.staff) + kw_opt("voice"@, self.voice))
    }

    fn to_sexpr(&self) -> (r: Sexpr) {
        ListBuilder::new("direction").kwarg_opt("placement", &self.placement).kwarg_when(self.direction_types.len() > 0, "direction-types", &self.direction_types).kwarg_opt("staff", &self.staff).kwarg_opt("voice", &self.voice).build()
    }
}

impl ToSexpr for DirectionType {
    /// `(direction-type ...)` with the keyword arguments that the value has.
    open spec fn to_sexpr_spec(&self) -> SexprV {
        SexprV::List(seq![SexprV::Symbol("direction-type"@)] + kw_pair("content"@, self.content.to_sexpr_spec()))
    }

    fn to_sexpr(&self) -> (r: Sexpr) {
        ListBuilder::new("direction-type").kwarg("content", &self.content).build()
    }
}

impl ToSexpr for Rehearsal {
    /// `(rehearsal ...)` with the keyword arguments that the value has.
    open spec fn to_sexpr_spec(&self) -> SexprV {
        SexprV::List(seq![SexprV::Symbol("rehearsal"@)] + kw_pair("value"@, self.value.to_sexpr_spec()))
    }

    fn to_sexpr(&self) -> (r: Sexpr) {
        ListBuilder::new("rehearsal").kwarg("value", &self.value).build()
    }
}

impl ToSexpr for Words {
    /// `(words ...)` with the keyword arguments that the value has.
    open spec fn to_sexpr_spec(&self) -> SexprV {
        SexprV::List(seq![SexprV::Symbol("words"@)] + kw_pair("value"@, self.value.to_sexpr_spec()) + kw_opt("lang"@, self.lang))
    }

    fn to_sexpr(&self) -> (r: Sexpr) {
        ListBuilder::new("words").kwarg("value", &self.value).kwarg_opt("lang", &self.lang).build()
    }
}

impl ToSexpr for Wedge {
    /// `(wedge ...)` with the keyword arguments that the value has.
    open spec fn to_sexpr_spec(&self) -> SexprV {
        SexprV::List(seq![SexprV::Symbol("wedge"@)] + kw_pair("type"@, self.type_.to_sexpr_spec()))
    }

    fn to_sexpr(&self) -> (r: Sexpr) {
        ListBuilder::new("wedge").kwarg("type", &self.type_).build()
    }
}

impl ToSexpr for Metronome {
    /// `(metronome ...)` with the keyword arguments that the value has.
    open spec fn to_sexpr_spec(&self) -> SexprV {
        SexprV::List(seq![SexprV::Symbol("metronome"@)] + kw_opt("parentheses"@, self.parentheses) + kw_pair("content"@, self.content.to_sexpr_spec()))
    }

    fn to_sexpr(&self) -> (r: Sexpr) {
        ListBuilder::new("metronome").kwarg_opt("parentheses", &self.parentheses).kwarg("content", &self.content).build()
    }
}

impl ToSexpr for PerMinute {
    /// `(per-minute ...)` with the keyword arguments that the value has.
    open spec fn to_sexpr_spec(&self) -> SexprV {
        SexprV::List(seq![SexprV::Symbol("per-minute"@)] + kw_pair("beat-unit"@, self.beat_unit.to_sexpr_spec()) + kw_pair("beat-unit-dots"@, self.beat_unit_dots.to_sexpr_spec()) + kw_pair("per-minute"@, self.per_minute.to_sexpr_spec()))
    }

    fn to_sexpr(&self) -> (r: Sexpr) {
        ListBuilder::new("per-minute").kwarg("beat-unit", &self.beat_unit).kwarg("beat-unit-dots", &self.beat_unit_dots).kwarg("per-minute", &self.per_minute).build()
    }
}

impl ToSexpr for BeatEquation {
    /// `(beat-equation ...)` with the keyword arguments that the value has.
    open spec fn to_sexpr_spec(&self) -> SexprV {
        SexprV::List(seq![SexprV::Symbol("beat-equation"@)] + kw_pair("left-unit"@, self.left_unit.to_sexpr_spec()) + kw_pair("left-dots"@, self.left_dots.to_sexpr_spec()) + kw_pair("right-unit"@, self.right_unit.to_sexpr_spec()) + kw_pair("right-dots"@, self.right_dots.to_sexpr_spec()))
    }

    fn to_sexpr(&self) -> (r: Sexpr) {
        ListBuilder::new("beat-equation").kwarg("left-unit", &self.left_unit).kwarg("left-dots", &self.left_dots).kwarg("right-unit", &self.right_unit).kwarg("right-dots", &self.right_dots).build()
    }
}

impl ToSexpr for OctaveShift {
    /// `(octave-shift ...)` with the keyword arguments that the value has.
    open spec fn to_sexpr_spec(&self) -> SexprV {
        SexprV::List(seq![SexprV::Symbol("octave-shift"@)] + kw_pair("type"@, self.type_.to_sexpr_spec()) + kw_opt("number"@, self.number) + kw_opt("size"@, self.size))
    }

    fn to_sexpr(&self) -> (r: Sexpr) {
        ListBuilder::new("octave-shift").kwarg("type", &self.type_).kwarg_opt("number", &self.number).kwarg_opt("size", &self.size).build()
    }
}

impl ToSexpr for Pedal {
    /// `(pedal ...)` with the keyword arguments that the value has.
    open spec fn to_sexpr_spec(&self) -> SexprV {
        SexprV::List(seq![SexprV::Symbol("pedal"@)] + kw_pair("type"@, self.type_.to_sexpr_spec()) + kw_opt("line"@, self.line) + kw_opt("sign"@, self.sign))
    }

    fn to_sexpr(&self) -> (r: Sexpr) {
        ListBuilder::new("pedal").kwarg("type", &self.type_).kwarg_opt("line", &self.line).kwarg_opt("sign", &self.sign).build()
    }
}

impl ToSexpr for OtherDirection {
    /// `(other-direction ...)` with the keyword arguments that the value has.
    open spec fn to_sexpr_spec(&self) -> SexprV {
        SexprV::List(seq![SexprV::Symbol("other-direction"@)] + kw_pair("value"@, self.value.to_sexpr_spec()))
    }

    fn to_sexpr(&self) -> (r: Sexpr) {
        ListBuilder::new("other-direction").kwarg("value", &self.value).build()
    }
}

impl ToSexpr for MetronomeContent {
    /// The S-expression of the variant's value; a variant without one is its
    /// symbol, and one holding a text or a list is tagged with its name.
    open spec fn to_sexpr_spec(&self) -> SexprV {
        match self {
            MetronomeContent::PerMinute(x) => x.to_sexpr_spec(),
            MetronomeContent::BeatEquation(x) => x.to_sexpr_spec(),
            MetronomeContent::MetricModulation => SexprV::Symbol("metric-modulation"@),
        }
    }

    fn to_sexpr(&self) -> (r: Sexpr) {
        match self {
            MetronomeContent::PerMinute(x) => x.to_sexpr(),
            MetronomeContent::BeatEquation(x) => x.to_sexpr(),
            MetronomeContent::MetricModulation => Sexpr::symbol("metric-modulation"),
        }
    }
}

impl ToSexpr for DirectionTypeContent {
    /// The S-expression of the variant's value; a variant without one is its
    /// symbol, and one holding a text or a list is tagged with its name.
    open spec fn to_sexpr_spec(&self) -> SexprV {
        match self {
            DirectionTypeContent::Rehearsal(x) => SexprV::List(seq![SexprV::Symbol("rehearsal"@)] + kw_pair("value"@, x.to_sexpr_spec())),
            DirectionTypeContent::Segno => SexprV::Symbol("segno"@),
            DirectionTypeContent::Coda => SexprV::Symbol("coda"@),
            DirectionTypeContent::Words(x) => SexprV::List(seq![SexprV::Symbol("words"@)] + kw_pair("value"@, x.to_sexpr_spec())),
            DirectionTypeContent::Dynamics(x) => x.to_sexpr_spec(),
            DirectionTypeContent::Wedge(x) => x.to_sexpr_spec(),
            DirectionTypeContent::Dashes => SexprV::Symbol("dashes"@),
            DirectionTypeContent::Bracket => SexprV::Symbol("bracket"@),
            DirectionTypeContent::Metronome(x) => x.to_sexpr_spec(),
            DirectionTypeContent::OctaveShift(x) => x.to_sexpr_spec(),
            DirectionTypeContent::Pedal(x) => x.to_sexpr_spec(),
            DirectionTypeContent::Damp => SexprV::Symbol("damp"@),
            DirectionTypeContent::DampAll => SexprV::Symbol("damp-all"@),
            DirectionTypeContent::Eyeglasses => SexprV::Symbol("eyeglasses"@),
            DirectionTypeContent::OtherDirection(x) => x.to_sexpr_spec(),
        }
    }

    fn to_sexpr(&self) -> (r: Sexpr) {
        match self {
            DirectionTypeContent::Rehearsal(x) => ListBuilder::new("rehearsal").kwarg("value", x).build(),
            DirectionTypeContent::Segno => Sexpr::symbol("segno"),
            DirectionTypeContent::Coda => Sexpr::symbol("coda"),
            DirectionTypeContent::Words(x) => ListBuilder::new("words").kwarg("value", x).build(),
            DirectionTypeContent::Dynamics(x) => x.to_sexpr(),
            DirectionTypeContent::Wedge(x) => x.to_sexpr(),
            DirectionTypeContent::Dashes => Sexpr::symbol("dashes"),
            DirectionTypeContent::Bracket => Sexpr::symbol("bracket"),
            DirectionTypeContent::Metronome(x) => x.to_sexpr(),
            DirectionTypeContent::OctaveShift(x) => x.to_sexpr(),
            DirectionTypeContent::Pedal(x) => x.to_sexpr(),
            DirectionTypeContent::Damp => Sexpr::symbol("damp"),
            DirectionTypeContent::DampAll => Sexpr::symbol("damp-all"),
            DirectionTypeContent::Eyeglasses => Sexpr::symbol("eyeglasses"),
            DirectionTypeContent::OtherDirection(x) => x.to_sexpr(),
        }
    }
}

} // verus!
