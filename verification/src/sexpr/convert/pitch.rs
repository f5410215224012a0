//! Conversions of pitches.

use vstd::prelude::*;
use crate::sexpr::round_trip::{RoundTrip, lemma_find_after, lemma_find_head, lemma_find_after_key, lemma_find_head_key, lemma_find_skip, lemma_find_hit, lemma_ends_clean, ends_clean, clean_piece, lemma_pair_piece, lemma_opt_piece, lemma_if_piece};
use super::find_kwarg_spec;
use crate::decimal::Decimal;
use crate::ir::pitch::{Pitch, Step, Unpitched};
use crate::text::str_eq;
use crate::sexpr::ast::{ListBuilder, Sexpr, SexprV, kw_pair, kw_opt};
use crate::sexpr::error::{ConvertError, ConvertErrorV, type_mismatch_v};
use crate::sexpr::traits::{FromSexpr, ToSexpr};
use super::{
    expect_head, require_kwarg, optional_kwarg, head_error, kwarg_error, kwarg_value,
    opt_kwarg_error, opt_kwarg_value, either,
};

verus! {

// === Step ===

/// The symbol of a step.
pub open spec fn step_name(s: Step) -> Seq<char> {
    match s {
        Step::A => "A"@,
        Step::B => "B"@,
        Step::C => "C"@,
        Step::D => "D"@,
        Step::E => "E"@,
        Step::F => "F"@,
        Step::G => "G"@,
    }
}

/// The step that a symbol names, in upper or lower case.
pub open spec fn step_of_name(t: Seq<char>) -> Option<Step> {
    if t == "A"@ || t == "a"@ {
        Some(Step::A)
    } else if t == "B"@ || t == "b"@ {
        Some(Step::B)
    } else if t == "C"@ || t == "c"@ {
        Some(Step::C)
    } else if t == "D"@ || t == "d"@ {
        Some(Step::D)
    } else if t == "E"@ || t == "e"@ {
        Some(Step::E)
    } else if t == "F"@ || t == "f"@ {
        Some(Step::F)
    } else if t == "G"@ || t == "g"@ {
        Some(Step::G)
    } else {
        None
    }
}

impl Step {
    /// The upper-case letter of the step, as `step_name` states.
    pub fn symbol(&self) -> (r: &'static str)
        ensures
            r@ == step_name(*self),
    {
        match self {
            Step::A => "A",
            Step::B => "B",
            Step::C => "C",
            Step::D => "D",
            Step::E => "E",
            Step::F => "F",
            Step::G => "G",
        }
    }
}

impl ToSexpr for Step {
    /// The upper-case letter of the step, as a symbol.
    open spec fn to_sexpr_spec(&self) -> SexprV {
        SexprV::Symbol(step_name(*self))
    }

    fn to_sexpr(&self) -> (r: Sexpr) {
        Sexpr::symbol(self.symbol())
    }
}

impl FromSexpr for Step {
    /// A symbol naming a step in upper or lower case.
    open spec fn from_sexpr_error(s: SexprV) -> Option<ConvertErrorV> {
        match s {
            SexprV::Symbol(t) => if step_of_name(t) is Some {
                None
            } else {
                Some(type_mismatch_v("step (A-G)"@, s))
            },
            _ => Some(type_mismatch_v("step (A-G)"@, s)),
        }
    }

    open spec fn from_sexpr_value(s: SexprV, v: Step) -> bool {
        match s {
            SexprV::Symbol(t) => step_of_name(t) == Some(v),
            _ => false,
        }
    }

    fn from_sexpr(sexpr: &Sexpr) -> (r: Result<Step, ConvertError>) {
        match sexpr.as_symbol() {
            Some(t) => {
                if str_eq(t, "A") || str_eq(t, "a") {
                    Ok(Step::A)
                } else if str_eq(t, "B") || str_eq(t, "b") {
                    Ok(Step::B)
                } else if str_eq(t, "C") || str_eq(t, "c") {
                    Ok(Step::C)
                } else if str_eq(t, "D") || str_eq(t, "d") {
                    Ok(Step::D)
                } else if str_eq(t, "E") || str_eq(t, "e") {
                    Ok(Step::E)
                } else if str_eq(t, "F") || str_eq(t, "f") {
                    Ok(Step::F)
                } else if str_eq(t, "G") || str_eq(t, "g") {
                    Ok(Step::G)
                } else {
                    Err(ConvertError::type_mismatch("step (A-G)", sexpr))
                }
            },
            None => Err(ConvertError::type_mismatch("step (A-G)", sexpr)),
        }
    }
}

// === Pitch ===

impl ToSexpr for Pitch {
    /// `(pitch :step S [:alter A] :octave O)`.
    open spec fn to_sexpr_spec(&self) -> SexprV {
        SexprV::List(
            seq![SexprV::Symbol("pitch"@)] + kw_pair("step"@, self.step.to_sexpr_spec()) + kw_opt(
                "alter"@,
                self.alter,
            ) + kw_pair("octave"@, self.octave.to_sexpr_spec()),
        )
    }

    fn to_sexpr(&self) -> (r: Sexpr) {
        ListBuilder::new("pitch").kwarg("step", &self.step).kwarg_opt("alter", &self.alter).kwarg(
            "octave",
            &self.octave,
        ).build()
    }
}

impl FromSexpr for Pitch {
    /// A list headed `pitch` with a step, an optional alteration and an
    /// octave.
    open spec fn from_sexpr_error(s: SexprV) -> Option<ConvertErrorV> {
        match s {
            SexprV::List(items) => either(
                head_error(items, "pitch"@),
                either(
                    kwarg_error::<Step>(items, "step"@),
                    either(
                        opt_kwarg_error::<Decimal>(items, "alter"@),
                        kwarg_error::<u8>(items, "octave"@),
                    ),
                ),
            ),
            _ => Some(type_mismatch_v("pitch list"@, s)),
        }
    }

    open spec fn from_sexpr_value(s: SexprV, v: Pitch) -> bool {
        match s {
            SexprV::List(items) => kwarg_value::<Step>(items, "step"@, v.step) && opt_kwarg_value::<
                Decimal,
            >(items, "alter"@, v.alter) && kwarg_value::<u8>(items, "octave"@, v.octave),
            _ => false,
        }
    }

    fn from_sexpr(sexpr: &Sexpr) -> (r: Result<Pitch, ConvertError>) {
        let list = match sexpr.as_list() {
            Some(l) => l,
            None => return Err(ConvertError::type_mismatch("pitch list", sexpr)),
        };
        expect_head(list, "pitch")?;
        let step = require_kwarg(list, "step")?;
        let alter = optional_kwarg(list, "alter")?;
        let octave = require_kwarg(list, "octave")?;
        Ok(Pitch { step, alter, octave })
    }
}

// === Unpitched ===

impl ToSexpr for Unpitched {
    /// `(unpitched ...)` with the keyword arguments that the value has.
    open spec fn to_sexpr_spec(&self) -> SexprV {
        SexprV::List(seq![SexprV::Symbol("unpitched"@)] + kw_opt("display-step"@, self.display_step) + kw_opt("display-octave"@, self.display_octave))
    }

    fn to_sexpr(&self) -> (r: Sexpr) {
        ListBuilder::new("unpitched").kwarg_opt("display-step", &self.display_step).kwarg_opt("display-octave", &self.display_octave).build()
    }
}

impl FromSexpr for Unpitched {
    /// A list headed `unpitched` whose keyword arguments convert.
    open spec fn from_sexpr_error(s: SexprV) -> Option<ConvertErrorV> {
        match s {
            SexprV::List(items) => either(head_error(items, "unpitched"@), either(opt_kwarg_error::<Step>(items, "display-step"@), opt_kwarg_error::<u8>(items, "display-octave"@))),
            _ => Some(type_mismatch_v("unpitched list"@, s)),
        }
    }

    open spec fn from_sexpr_value(s: SexprV, v: Unpitched) -> bool {
        match s {
            SexprV::List(items) => opt_kwarg_value::<Step>(items, "display-step"@, v.display_step)
                && opt_kwarg_value::<u8>(items, "display-octave"@, v.display_octave),
            _ => false,
        }
    }

    fn from_sexpr(sexpr: &Sexpr) -> (r: Result<Unpitched, ConvertError>) {
        let list = match sexpr.as_list() {
            Some(l) => l,
            None => return Err(ConvertError::type_mismatch("unpitched list", sexpr)),
        };
        expect_head(list, "unpitched")?;
        let display_step: Option<Step> = optional_kwarg(list, "display-step")?;
        let display_octave: Option<u8> = optional_kwarg(list, "display-octave")?;
        Ok(Unpitched { display_step, display_octave })
    }
}

// === Reading back ===

impl RoundTrip for Step {
    /// Every step.
    open spec fn writable(&self) -> bool {
        true
    }

    open spec fn same(&self, other: &Self) -> bool {
        *self == *other
    }

    proof fn lemma_not_keyword(&self) {
    }

    proof fn lemma_no_error(&self) {
        reveal_strlit("A");
        assert("A"@.len() == 1);
        reveal_strlit("B");
        assert("B"@.len() == 1);
        reveal_strlit("C");
        assert("C"@.len() == 1);
        reveal_strlit("D");
        assert("D"@.len() == 1);
        reveal_strlit("E");
        assert("E"@.len() == 1);
        reveal_strlit("F");
        assert("F"@.len() == 1);
        reveal_strlit("G");
        assert("G"@.len() == 1);
        reveal_strlit("a");
        assert("a"@.len() == 1);
        reveal_strlit("b");
        assert("b"@.len() == 1);
        reveal_strlit("c");
        assert("c"@.len() == 1);
        reveal_strlit("d");
        assert("d"@.len() == 1);
        reveal_strlit("e");
        assert("e"@.len() == 1);
        reveal_strlit("f");
        assert("f"@.len() == 1);
        reveal_strlit("g");
        assert("g"@.len() == 1);
        assert("A"@[0] == 'A');
        assert("B"@[0] == 'B');
        assert("C"@[0] == 'C');
        assert("D"@[0] == 'D');
        assert("E"@[0] == 'E');
        assert("F"@[0] == 'F');
        assert("G"@[0] == 'G');
        assert("a"@[0] == 'a');
        assert("b"@[0] == 'b');
        assert("c"@[0] == 'c');
        assert("d"@[0] == 'd');
        assert("e"@[0] == 'e');
        assert("f"@[0] == 'f');
        assert("g"@[0] == 'g');
    }

    proof fn lemma_value(&self, v: Self) {
        reveal_strlit("A");
        assert("A"@.len() == 1);
        reveal_strlit("B");
        assert("B"@.len() == 1);
        reveal_strlit("C");
        assert("C"@.len() == 1);
        reveal_strlit("D");
        assert("D"@.len() == 1);
        reveal_strlit("E");
        assert("E"@.len() == 1);
        reveal_strlit("F");
        assert("F"@.len() == 1);
        reveal_strlit("G");
        assert("G"@.len() == 1);
        reveal_strlit("a");
        assert("a"@.len() == 1);
        reveal_strlit("b");
        assert("b"@.len() == 1);
        reveal_strlit("c");
        assert("c"@.len() == 1);
        reveal_strlit("d");
        assert("d"@.len() == 1);
        reveal_strlit("e");
        assert("e"@.len() == 1);
        reveal_strlit("f");
        assert("f"@.len() == 1);
        reveal_strlit("g");
        assert("g"@.len() == 1);
        assert("A"@[0] == 'A');
        assert("B"@[0] == 'B');
        assert("C"@[0] == 'C');
        assert("D"@[0] == 'D');
        assert("E"@[0] == 'E');
        assert("F"@[0] == 'F');
        assert("G"@[0] == 'G');
        assert("a"@[0] == 'a');
        assert("b"@[0] == 'b');
        assert("c"@[0] == 'c');
        assert("d"@[0] == 'd');
        assert("e"@[0] == 'e');
        assert("f"@[0] == 'f');
        assert("g"@[0] == 'g');
    }
}

/// The head and keyword arguments of the S-expression of a `Pitch`.
pub proof fn lemma_pitch_items(x: Pitch)
    requires
        x.writable(),
    ensures
        x.to_sexpr_spec() matches SexprV::List(items) && items.len() > 0 && items[0] == SexprV::Symbol("pitch"@)
            && find_kwarg_spec(items, "step"@) == (Some(x.step.to_sexpr_spec()))
            && find_kwarg_spec(items, "alter"@) == (match x.alter { Some(y) => Some(y.to_sexpr_spec()), None => None })
            && find_kwarg_spec(items, "octave"@) == (Some(x.octave.to_sexpr_spec())),
{
        assert("alter"@ != "step"@) by {
            reveal_strlit("alter");
            assert("alter"@.len() == 5);
            reveal_strlit("step");
            assert("step"@.len() == 4);
        }
        assert("octave"@ != "step"@) by {
            reveal_strlit("octave");
            assert("octave"@.len() == 6);
            reveal_strlit("step");
            assert("step"@.len() == 4);
        }
        assert("octave"@ != "alter"@) by {
            reveal_strlit("octave");
            assert("octave"@.len() == 6);
            reveal_strlit("alter");
            assert("alter"@.len() == 5);
        }
        let ghost s0 = seq![SexprV::Symbol("pitch"@)];
        assert(ends_clean(s0));
        let ghost p1 = kw_pair("step"@, x.step.to_sexpr_spec());
        x.step.lemma_not_keyword();
        lemma_pair_piece("step"@, x.step.to_sexpr_spec());
        let ghost s1 = s0 + p1;
        lemma_ends_clean(s0, p1);
        let ghost p2 = kw_opt("alter"@, x.alter);
        lemma_opt_piece("alter"@, x.alter);
        let ghost s2 = s1 + p2;
        lemma_ends_clean(s1, p2);
        let ghost p3 = kw_pair("octave"@, x.octave.to_sexpr_spec());
        x.octave.lemma_not_keyword();
        lemma_pair_piece("octave"@, x.octave.to_sexpr_spec());
        let ghost s3 = s2 + p3;
        lemma_ends_clean(s2, p3);
        assert(x.to_sexpr_spec() == SexprV::List(s3));
        assert(s3[0] == SexprV::Symbol("pitch"@)) by {
            assert(s1[0] == s0[0]);
            assert(s2[0] == s1[0]);
            assert(s3[0] == s2[0]);
        }
        assert(find_kwarg_spec(s3, "step"@) == (Some(x.step.to_sexpr_spec()))) by {
            lemma_find_head_key("pitch"@, "step"@);
            if p1.len() == 2 { lemma_find_hit(s0, p1, "step"@); } else { lemma_find_skip(s0, p1, "step"@); }
            lemma_find_skip(s1, p2, "step"@);
            lemma_find_skip(s2, p3, "step"@);
        }
        assert(find_kwarg_spec(s3, "alter"@) == (match x.alter { Some(y) => Some(y.to_sexpr_spec()), None => None })) by {
            lemma_find_head_key("pitch"@, "alter"@);
            lemma_find_skip(s0, p1, "alter"@);
            if p2.len() == 2 { lemma_find_hit(s1, p2, "alter"@); } else { lemma_find_skip(s1, p2, "alter"@); }
            lemma_find_skip(s2, p3, "alter"@);
        }
        assert(find_kwarg_spec(s3, "octave"@) == (Some(x.octave.to_sexpr_spec()))) by {
            lemma_find_head_key("pitch"@, "octave"@);
            lemma_find_skip(s0, p1, "octave"@);
            lemma_find_skip(s1, p2, "octave"@);
            if p3.len() == 2 { lemma_find_hit(s2, p3, "octave"@); } else { lemma_find_skip(s2, p3, "octave"@); }
        }
}

impl RoundTrip for Pitch {
    /// A value whose parts are writable.
    open spec fn writable(&self) -> bool {
        self.step.writable()
            && self.alter.writable()
            && self.octave.writable()
    }

    open spec fn same(&self, other: &Self) -> bool {
        self.step.same(&other.step)
            && self.alter.same(&other.alter)
            && self.octave.same(&other.octave)
    }

    proof fn lemma_not_keyword(&self) {
    }

    proof fn lemma_no_error(&self) {
        lemma_pitch_items(*self);
        self.step.lemma_no_error();
        self.alter.lemma_no_error();
        self.octave.lemma_no_error();
    }

    proof fn lemma_value(&self, v: Self) {
        lemma_pitch_items(*self);
        self.step.lemma_value(v.step);
        self.alter.lemma_value(v.alter);
        self.octave.lemma_value(v.octave);
    }
}

/// The head and keyword arguments of the S-expression of a `Unpitched`.
pub proof fn lemma_unpitched_items(x: Unpitched)
    requires
        x.writable(),
    ensures
        x.to_sexpr_spec() matches SexprV::List(items) && items.len() > 0 && items[0] == SexprV::Symbol("unpitched"@)
            && find_kwarg_spec(items, "display-step"@) == (match x.display_step { Some(y) => Some(y.to_sexpr_spec()), None => None })
            && find_kwarg_spec(items, "display-octave"@) == (match x.display_octave { Some(y) => Some(y.to_sexpr_spec()), None => None }),
{
        assert("display-octave"@ != "display-step"@) by {
            reveal_strlit("display-octave");
            assert("display-octave"@.len() == 14);
            reveal_strlit("display-step");
            assert("display-step"@.len() == 12);
        }
        let ghost s0 = seq![SexprV::Symbol("unpitched"@)];
        assert(ends_clean(s0));
        let ghost p1 = kw_opt("display-step"@, x.display_step);
        lemma_opt_piece("display-step"@, x.display_step);
        let ghost s1 = s0 + p1;
        lemma_ends_clean(s0, p1);
        let ghost p2 = kw_opt("display-octave"@, x.display_octave);
        lemma_opt_piece("display-octave"@, x.display_octave);
        let ghost s2 = s1 + p2;
        lemma_ends_clean(s1, p2);
        assert(x.to_sexpr_spec() == SexprV::List(s2));
        assert(s2[0] == SexprV::Symbol("unpitched"@)) by {
            assert(s1[0] == s0[0]);
            assert(s2[0] == s1[0]);
        }
        assert(find_kwarg_spec(s2, "display-step"@) == (match x.display_step { Some(y) => Some(y.to_sexpr_spec()), None => None })) by {
            lemma_find_head_key("unpitched"@, "display-step"@);
            if p1.len() == 2 { lemma_find_hit(s0, p1, "display-step"@); } else { lemma_find_skip(s0, p1, "display-step"@); }
            lemma_find_skip(s1, p2, "display-step"@);
        }
        assert(find_kwarg_spec(s2, "display-octave"@) == (match x.display_octave { Some(y) => Some(y.to_sexpr_spec()), None => None })) by {
            lemma_find_head_key("unpitched"@, "display-octave"@);
            lemma_find_skip(s0, p1, "display-octave"@);
            if p2.len() == 2 { lemma_find_hit(s1, p2, "display-octave"@); } else { lemma_find_skip(s1, p2, "display-octave"@); }
        }
}

impl RoundTrip for Unpitched {
    /// A value whose parts are writable.
    open spec fn writable(&self) -> bool {
        self.display_step.writable()
            && self.display_octave.writable()
    }

    open spec fn same(&self, other: &Self) -> bool {
        self.display_step.same(&other.display_step)
            && self.display_octave.same(&other.display_octave)
    }

    proof fn lemma_not_keyword(&self) {
    }

    proof fn lemma_no_error(&self) {
        lemma_unpitched_items(*self);
        self.display_step.lemma_no_error();
        self.display_octave.lemma_no_error();
    }

    proof fn lemma_value(&self, v: Self) {
        lemma_unpitched_items(*self);
        self.display_step.lemma_value(v.display_step);
        self.display_octave.lemma_value(v.display_octave);
    }
}

} // verus!
