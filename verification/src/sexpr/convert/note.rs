//! Conversions of notes, and of their beams, stems, noteheads, types and dots.

use vstd::prelude::*;
use crate::sexpr::round_trip::{RoundTrip, lemma_find_after, lemma_find_head, lemma_find_after_key, lemma_find_head_key, lemma_find_skip, lemma_find_hit, lemma_ends_clean, ends_clean, clean_piece, lemma_pair_piece, lemma_opt_piece, lemma_if_piece};
use super::find_kwarg_spec;
use super::pitch::{lemma_pitch_items, lemma_unpitched_items};
use crate::decimal::Decimal;
use crate::text::str_eq;
use crate::sexpr::ast::{ListBuilder, Sexpr, SexprV, kw_pair, kw_opt, kw_if};
use crate::sexpr::error::{ConvertError, ConvertErrorV, type_mismatch_v};
use crate::sexpr::traits::{FromSexpr, ToSexpr};
use super::{
    expect_head, get_head, require_kwarg, optional_kwarg, object_kwarg, flag_kwarg, list_kwarg,
    head_error, head_name, kwarg_error, kwarg_value, opt_kwarg_error, opt_kwarg_value,
    obj_kwarg_error, obj_kwarg_value, flag_kwarg_value, list_kwarg_value, either,
};
use crate::ir::beam::{Beam, BeamValue, Fan, Notehead, NoteheadValue, Stem, StemValue};
use crate::ir::common::{
    AboveBelow, AccidentalValue, Font, Position, StartStop, SymbolSize, YesNo, position_none,
    font_none,
};
use crate::ir::duration::{Dot, NoteType, NoteTypeValue, TimeModification};
use crate::ir::note::{
    Accidental, FullNote, Grace, Instrument, Note, NoteContent, PitchRestUnpitched, Rest, Tie,
};
use crate::ir::pitch::{Pitch, Step, Unpitched};

verus! {

// === BeamValue ===

/// The symbol of each `BeamValue`.
pub open spec fn beam_value_name(v: BeamValue) -> Seq<char> {
    match v {
        BeamValue::Begin => "begin"@,
        BeamValue::Continue => "continue"@,
        BeamValue::End => "end"@,
        BeamValue::ForwardHook => "forward-hook"@,
        BeamValue::BackwardHook => "backward-hook"@,
    }
}

/// The `BeamValue` that a symbol names.
pub open spec fn beam_value_of_name(t: Seq<char>) -> Option<BeamValue> {
    if t == "begin"@ {
        Some(BeamValue::Begin)
    } else if t == "continue"@ {
        Some(BeamValue::Continue)
    } else if t == "end"@ {
        Some(BeamValue::End)
    } else if t == "forward-hook"@ {
        Some(BeamValue::ForwardHook)
    } else if t == "backward-hook"@ {
        Some(BeamValue::BackwardHook)
    } else {
        None
    }
}

impl BeamValue {
    /// The symbol of the value, as `beam_value_name` states.
    pub fn symbol(&self) -> (r: &'static str)
        ensures
            r@ == beam_value_name(*self),
    {
        match self {
            BeamValue::Begin => "begin",
            BeamValue::Continue => "continue",
            BeamValue::End => "end",
            BeamValue::ForwardHook => "forward-hook",
            BeamValue::BackwardHook => "backward-hook",
        }
    }
}

impl ToSexpr for BeamValue {
    /// The symbol of the value.
    open spec fn to_sexpr_spec(&self) -> SexprV {
        SexprV::Symbol(beam_value_name(*self))
    }

    fn to_sexpr(&self) -> (r: Sexpr) {
        Sexpr::symbol(self.symbol())
    }
}

impl FromSexpr for BeamValue {
    /// A symbol that names a value.
    open spec fn from_sexpr_error(s: SexprV) -> Option<ConvertErrorV> {
        match s {
            SexprV::Symbol(t) => if beam_value_of_name(t) is Some {
                None
            } else {
                Some(type_mismatch_v("beam-value"@, s))
            },
            _ => Some(type_mismatch_v("beam-value"@, s)),
        }
    }

    open spec fn from_sexpr_value(s: SexprV, v: BeamValue) -> bool {
        match s {
            SexprV::Symbol(t) => beam_value_of_name(t) == Some(v),
            _ => false,
        }
    }

    fn from_sexpr(sexpr: &Sexpr) -> (r: Result<BeamValue, ConvertError>) {
        match sexpr.as_symbol() {
            Some(t) => {
                if str_eq(t, "begin") {
                    Ok(BeamValue::Begin)
                } else if str_eq(t, "continue") {
                    Ok(BeamValue::Continue)
                } else if str_eq(t, "end") {
                    Ok(BeamValue::End)
                } else if str_eq(t, "forward-hook") {
                    Ok(BeamValue::ForwardHook)
                } else if str_eq(t, "backward-hook") {
                    Ok(BeamValue::BackwardHook)
                } else {
                    Err(ConvertError::type_mismatch("beam-value", sexpr))
                }
            },
            None => Err(ConvertError::type_mismatch("beam-value", sexpr)),
        }
    }
}

// === Fan ===

/// The symbol of each `Fan`.
pub open spec fn fan_name(v: Fan) -> Seq<char> {
    match v {
        Fan::Accel => "accel"@,
        Fan::Rit => "rit"@,
        Fan::Steady => "none"@,
    }
}

/// The `Fan` that a symbol names.
pub open spec fn fan_of_name(t: Seq<char>) -> Option<Fan> {
    if t == "accel"@ {
        Some(Fan::Accel)
    } else if t == "rit"@ {
        Some(Fan::Rit)
    } else if t == "none"@ {
        Some(Fan::Steady)
    } else {
        None
    }
}

impl Fan {
    /// The symbol of the value, as `fan_name` states.
    pub fn symbol(&self) -> (r: &'static str)
        ensures
            r@ == fan_name(*self),
    {
        match self {
            Fan::Accel => "accel",
            Fan::Rit => "rit",
            Fan::Steady => "none",
        }
    }
}

impl ToSexpr for Fan {
    /// The symbol of the value.
    open spec fn to_sexpr_spec(&self) -> SexprV {
        SexprV::Symbol(fan_name(*self))
    }

    fn to_sexpr(&self) -> (r: Sexpr) {
        Sexpr::symbol(self.symbol())
    }
}

impl FromSexpr for Fan {
    /// A symbol that names a value.
    open spec fn from_sexpr_error(s: SexprV) -> Option<ConvertErrorV> {
        match s {
            SexprV::Symbol(t) => if fan_of_name(t) is Some {
                None
            } else {
                Some(type_mismatch_v("fan"@, s))
            },
            _ => Some(type_mismatch_v("fan"@, s)),
        }
    }

    open spec fn from_sexpr_value(s: SexprV, v: Fan) -> bool {
        match s {
            SexprV::Symbol(t) => fan_of_name(t) == Some(v),
            _ => false,
        }
    }

    fn from_sexpr(sexpr: &Sexpr) -> (r: Result<Fan, ConvertError>) {
        match sexpr.as_symbol() {
            Some(t) => {
                if str_eq(t, "accel") {
                    Ok(Fan::Accel)
                } else if str_eq(t, "rit") {
                    Ok(Fan::Rit)
                } else if str_eq(t, "none") {
                    Ok(Fan::Steady)
                } else {
                    Err(ConvertError::type_mismatch("fan", sexpr))
                }
            },
            None => Err(ConvertError::type_mismatch("fan", sexpr)),
        }
    }
}

// === StemValue ===

/// The symbol of each `StemValue`.
pub open spec fn stem_value_name(v: StemValue) -> Seq<char> {
    match v {
        StemValue::Down => "down"@,
        StemValue::Up => "up"@,
        StemValue::Double => "double"@,
        StemValue::NoStem => "none"@,
    }
}

/// The `StemValue` that a symbol names.
pub open spec fn stem_value_of_name(t: Seq<char>) -> Option<StemValue> {
    if t == "down"@ {
        Some(StemValue::Down)
    } else if t == "up"@ {
        Some(StemValue::Up)
    } else if t == "double"@ {
        Some(StemValue::Double)
    } else if t == "none"@ {
        Some(StemValue::NoStem)
    } else {
        None
    }
}

impl StemValue {
    /// The symbol of the value, as `stem_value_name` states.
    pub fn symbol(&self) -> (r: &'static str)
        ensures
            r@ == stem_value_name(*self),
    {
        match self {
            StemValue::Down => "down",
            StemValue::Up => "up",
            StemValue::Double => "double",
            StemValue::NoStem => "none",
        }
    }
}

impl ToSexpr for StemValue {
    /// The symbol of the value.
    open spec fn to_sexpr_spec(&self) -> SexprV {
        SexprV::Symbol(stem_value_name(*self))
    }

    fn to_sexpr(&self) -> (r: Sexpr) {
        Sexpr::symbol(self.symbol())
    }
}

impl FromSexpr for StemValue {
    /// A symbol that names a value.
    open spec fn from_sexpr_error(s: SexprV) -> Option<ConvertErrorV> {
        match s {
            SexprV::Symbol(t) => if stem_value_of_name(t) is Some {
                None
            } else {
                Some(type_mismatch_v("stem-value"@, s))
            },
            _ => Some(type_mismatch_v("stem-value"@, s)),
        }
    }

    open spec fn from_sexpr_value(s: SexprV, v: StemValue) -> bool {
        match s {
            SexprV::Symbol(t) => stem_value_of_name(t) == Some(v),
            _ => false,
        }
    }

    fn from_sexpr(sexpr: &Sexpr) -> (r: Result<StemValue, ConvertError>) {
        match sexpr.as_symbol() {
            Some(t) => {
                if str_eq(t, "down") {
                    Ok(StemValue::Down)
                } else if str_eq(t, "up") {
                    Ok(StemValue::Up)
                } else if str_eq(t, "double") {
                    Ok(StemValue::Double)
                } else if str_eq(t, "none") {
                    Ok(StemValue::NoStem)
                } else {
                    Err(ConvertError::type_mismatch("stem-value", sexpr))
                }
            },
            None => Err(ConvertError::type_mismatch("stem-value", sexpr)),
        }
    }
}

// === NoteheadValue ===

/// The symbol of each `NoteheadValue`.
pub open spec fn notehead_value_name(v: NoteheadValue) -> Seq<char> {
    match v {
        NoteheadValue::Slash => "slash"@,
        NoteheadValue::Triangle => "triangle"@,
        NoteheadValue::Diamond => "diamond"@,
        NoteheadValue::Square => "square"@,
        NoteheadValue::Cross => "cross"@,
        NoteheadValue::X => "x"@,
        NoteheadValue::CircleX => "circle-x"@,
        NoteheadValue::InvertedTriangle => "inverted-triangle"@,
        NoteheadValue::ArrowDown => "arrow-down"@,
        NoteheadValue::ArrowUp => "arrow-up"@,
        NoteheadValue::Circled => "circled"@,
        NoteheadValue::Slashed => "slashed"@,
        NoteheadValue::BackSlashed => "back-slashed"@,
        NoteheadValue::Normal => "normal"@,
        NoteheadValue::Cluster => "cluster"@,
        NoteheadValue::CircleDot => "circle-dot"@,
        NoteheadValue::LeftTriangle => "left-triangle"@,
        NoteheadValue::Rectangle => "rectangle"@,
        NoteheadValue::NoNotehead => "none"@,
        NoteheadValue::Do => "do"@,
        NoteheadValue::Re => "re"@,
        NoteheadValue::Mi => "mi"@,
        NoteheadValue::Fa => "fa"@,
        NoteheadValue::FaUp => "fa-up"@,
        NoteheadValue::So => "so"@,
        NoteheadValue::La => "la"@,
        NoteheadValue::Ti => "ti"@,
        NoteheadValue::Other => "other"@,
    }
}

/// The `NoteheadValue` that a symbol names.
pub open spec fn notehead_value_of_name(t: Seq<char>) -> Option<NoteheadValue> {
    if t == "slash"@ {
        Some(NoteheadValue::Slash)
    } else if t == "triangle"@ {
        Some(NoteheadValue::Triangle)
    } else if t == "diamond"@ {
        Some(NoteheadValue::Diamond)
    } else if t == "square"@ {
        Some(NoteheadValue::Square)
    } else if t == "cross"@ {
        Some(NoteheadValue::Cross)
    } else if t == "x"@ {
        Some(NoteheadValue::X)
    } else if t == "circle-x"@ {
        Some(NoteheadValue::CircleX)
    } else if t == "inverted-triangle"@ {
        Some(NoteheadValue::InvertedTriangle)
    } else if t == "arrow-down"@ {
        Some(NoteheadValue::ArrowDown)
    } else if t == "arrow-up"@ {
        Some(NoteheadValue::ArrowUp)
    } else if t == "circled"@ {
        Some(NoteheadValue::Circled)
    } else if t == "slashed"@ {
        Some(NoteheadValue::Slashed)
    } else if t == "back-slashed"@ {
        Some(NoteheadValue::BackSlashed)
    } else if t == "normal"@ {
        Some(NoteheadValue::Normal)
    } else if t == "cluster"@ {
        Some(NoteheadValue::Cluster)
    } else if t == "circle-dot"@ {
        Some(NoteheadValue::CircleDot)
    } else if t == "left-triangle"@ {
        Some(NoteheadValue::LeftTriangle)
    } else if t == "rectangle"@ {
        Some(NoteheadValue::Rectangle)
    } else if t == "none"@ {
        Some(NoteheadValue::NoNotehead)
    } else if t == "do"@ {
        Some(NoteheadValue::Do)
    } else if t == "re"@ {
        Some(NoteheadValue::Re)
    } else if t == "mi"@ {
        Some(NoteheadValue::Mi)
    } else if t == "fa"@ {
        Some(NoteheadValue::Fa)
    } else if t == "fa-up"@ {
        Some(NoteheadValue::FaUp)
    } else if t == "so"@ {
        Some(NoteheadValue::So)
    } else if t == "la"@ {
        Some(NoteheadValue::La)
    } else if t == "ti"@ {
        Some(NoteheadValue::Ti)
    } else if t == "other"@ {
        Some(NoteheadValue::Other)
    } else {
        None
    }
}

impl NoteheadValue {
    /// The symbol of the value, as `notehead_value_name` states.
    pub fn symbol(&self) -> (r: &'static str)
        ensures
            r@ == notehead_value_name(*self),
    {
        match self {
            NoteheadValue::Slash => "slash",
            NoteheadValue::Triangle => "triangle",
            NoteheadValue::Diamond => "diamond",
            NoteheadValue::Square => "square",
            NoteheadValue::Cross => "cross",
            NoteheadValue::X => "x",
            NoteheadValue::CircleX => "circle-x",
            NoteheadValue::InvertedTriangle => "inverted-triangle",
            NoteheadValue::ArrowDown => "arrow-down",
            NoteheadValue::ArrowUp => "arrow-up",
            NoteheadValue::Circled => "circled",
            NoteheadValue::Slashed => "slashed",
            NoteheadValue::BackSlashed => "back-slashed",
            NoteheadValue::Normal => "normal",
            NoteheadValue::Cluster => "cluster",
            NoteheadValue::CircleDot => "circle-dot",
            NoteheadValue::LeftTriangle => "left-triangle",
            NoteheadValue::Rectangle => "rectangle",
            NoteheadValue::NoNotehead => "none",
            NoteheadValue::Do => "do",
            NoteheadValue::Re => "re",
            NoteheadValue::Mi => "mi",
            NoteheadValue::Fa => "fa",
            NoteheadValue::FaUp => "fa-up",
            NoteheadValue::So => "so",
            NoteheadValue::La => "la",
            NoteheadValue::Ti => "ti",
            NoteheadValue::Other => "other",
        }
    }
}

impl ToSexpr for NoteheadValue {
    /// The symbol of the value.
    open spec fn to_sexpr_spec(&self) -> SexprV {
        SexprV::Symbol(notehead_value_name(*self))
    }

    fn to_sexpr(&self) -> (r: Sexpr) {
        Sexpr::symbol(self.symbol())
    }
}

impl FromSexpr for NoteheadValue {
    /// A symbol that names a value.
    open spec fn from_sexpr_error(s: SexprV) -> Option<ConvertErrorV> {
        match s {
            SexprV::Symbol(t) => if notehead_value_of_name(t) is Some {
                None
            } else {
                Some(type_mismatch_v("notehead-value"@, s))
            },
            _ => Some(type_mismatch_v("notehead-value"@, s)),
        }
    }

    open spec fn from_sexpr_value(s: SexprV, v: NoteheadValue) -> bool {
        match s {
            SexprV::Symbol(t) => notehead_value_of_name(t) == Some(v),
            _ => false,
        }
    }

    fn from_sexpr(sexpr: &Sexpr) -> (r: Result<NoteheadValue, ConvertError>) {
        match sexpr.as_symbol() {
            Some(t) => {
                if str_eq(t, "slash") {
                    Ok(NoteheadValue::Slash)
                } else if str_eq(t, "triangle") {
                    Ok(NoteheadValue::Triangle)
                } else if str_eq(t, "diamond") {
                    Ok(NoteheadValue::Diamond)
                } else if str_eq(t, "square") {
                    Ok(NoteheadValue::Square)
                } else if str_eq(t, "cross") {
                    Ok(NoteheadValue::Cross)
                } else if str_eq(t, "x") {
                    Ok(NoteheadValue::X)
                } else if str_eq(t, "circle-x") {
                    Ok(NoteheadValue::CircleX)
                } else if str_eq(t, "inverted-triangle") {
                    Ok(NoteheadValue::InvertedTriangle)
                } else if str_eq(t, "arrow-down") {
                    Ok(NoteheadValue::ArrowDown)
                } else if str_eq(t, "arrow-up") {
                    Ok(NoteheadValue::ArrowUp)
                } else if str_eq(t, "circled") {
                    Ok(NoteheadValue::Circled)
                } else if str_eq(t, "slashed") {
                    Ok(NoteheadValue::Slashed)
                } else if str_eq(t, "back-slashed") {
                    Ok(NoteheadValue::BackSlashed)
                } else if str_eq(t, "normal") {
                    Ok(NoteheadValue::Normal)
                } else if str_eq(t, "cluster") {
                    Ok(NoteheadValue::Cluster)
                } else if str_eq(t, "circle-dot") {
                    Ok(NoteheadValue::CircleDot)
                } else if str_eq(t, "left-triangle") {
                    Ok(NoteheadValue::LeftTriangle)
                } else if str_eq(t, "rectangle") {
                    Ok(NoteheadValue::Rectangle)
                } else if str_eq(t, "none") {
                    Ok(NoteheadValue::NoNotehead)
                } else if str_eq(t, "do") {
                    Ok(NoteheadValue::Do)
                } else if str_eq(t, "re") {
                    Ok(NoteheadValue::Re)
                } else if str_eq(t, "mi") {
                    Ok(NoteheadValue::Mi)
                } else if str_eq(t, "fa") {
                    Ok(NoteheadValue::Fa)
                } else if str_eq(t, "fa-up") {
                    Ok(NoteheadValue::FaUp)
                } else if str_eq(t, "so") {
                    Ok(NoteheadValue::So)
                } else if str_eq(t, "la") {
                    Ok(NoteheadValue::La)
                } else if str_eq(t, "ti") {
                    Ok(NoteheadValue::Ti)
                } else if str_eq(t, "other") {
                    Ok(NoteheadValue::Other)
                } else {
                    Err(ConvertError::type_mismatch("notehead-value", sexpr))
                }
            },
            None => Err(ConvertError::type_mismatch("notehead-value", sexpr)),
        }
    }
}

// === Beam ===

impl ToSexpr for Beam {
    /// `(beam ...)` with the keyword arguments that the value has.
    open spec fn to_sexpr_spec(&self) -> SexprV {
        SexprV::List(seq![SexprV::Symbol("beam"@)] + kw_pair("value"@, self.value.to_sexpr_spec()) + kw_pair("number"@, self.number.to_sexpr_spec()) + kw_opt("fan"@, self.fan) + kw_opt("color"@, self.color))
    }

    fn to_sexpr(&self) -> (r: Sexpr) {
        ListBuilder::new("beam").kwarg("value", &self.value).kwarg("number", &self.number).kwarg_opt("fan", &self.fan).kwarg_opt("color", &self.color).build()
    }
}

impl FromSexpr for Beam {
    /// A list headed `beam` whose keyword arguments convert.
    open spec fn from_sexpr_error(s: SexprV) -> Option<ConvertErrorV> {
        match s {
            SexprV::List(items) => either(head_error(items, "beam"@), either(kwarg_error::<BeamValue>(items, "value"@), either(kwarg_error::<u8>(items, "number"@), either(opt_kwarg_error::<Fan>(items, "fan"@), opt_kwarg_error::<String>(items, "color"@))))),
            _ => Some(type_mismatch_v("beam list"@, s)),
        }
    }

    open spec fn from_sexpr_value(s: SexprV, v: Beam) -> bool {
        match s {
            SexprV::List(items) => kwarg_value::<BeamValue>(items, "value"@, v.value)
                && kwarg_value::<u8>(items, "number"@, v.number)
                && opt_kwarg_value::<Fan>(items, "fan"@, v.fan)
                && opt_kwarg_value::<String>(items, "color"@, v.color),
            _ => false,
        }
    }

    fn from_sexpr(sexpr: &Sexpr) -> (r: Result<Beam, ConvertError>) {
        let list = match sexpr.as_list() {
            Some(l) => l,
            None => return Err(ConvertError::type_mismatch("beam list", sexpr)),
        };
        expect_head(list, "beam")?;
        let value: BeamValue = require_kwarg(list, "value")?;
        let number: u8 = require_kwarg(list, "number")?;
        let fan: Option<Fan> = optional_kwarg(list, "fan")?;
        let color: Option<String> = optional_kwarg(list, "color")?;
        Ok(Beam { value, number, fan, color })
    }
}

// === Stem ===

impl ToSexpr for Stem {
    /// `(stem ...)` with the keyword arguments that the value has.
    open spec fn to_sexpr_spec(&self) -> SexprV {
        SexprV::List(seq![SexprV::Symbol("stem"@)] + kw_pair("value"@, self.value.to_sexpr_spec()) + kw_opt("default-y"@, self.default_y) + kw_opt("color"@, self.color))
    }

    fn to_sexpr(&self) -> (r: Sexpr) {
        ListBuilder::new("stem").kwarg("value", &self.value).kwarg_opt("default-y", &self.default_y).kwarg_opt("color", &self.color).build()
    }
}

impl FromSexpr for Stem {
    /// A list headed `stem` whose keyword arguments convert.
    open spec fn from_sexpr_error(s: SexprV) -> Option<ConvertErrorV> {
        match s {
            SexprV::List(items) => either(head_error(items, "stem"@), either(kwarg_error::<StemValue>(items, "value"@), either(opt_kwarg_error::<Decimal>(items, "default-y"@), opt_kwarg_error::<String>(items, "color"@)))),
            _ => Some(type_mismatch_v("stem list"@, s)),
        }
    }

    open spec fn from_sexpr_value(s: SexprV, v: Stem) -> bool {
        match s {
            SexprV::List(items) => kwarg_value::<StemValue>(items, "value"@, v.value)
                && opt_kwarg_value::<Decimal>(items, "default-y"@, v.default_y)
                && opt_kwarg_value::<String>(items, "color"@, v.color),
            _ => false,
        }
    }

    fn from_sexpr(sexpr: &Sexpr) -> (r: Result<Stem, ConvertError>) {
        let list = match sexpr.as_list() {
            Some(l) => l,
            None => return Err(ConvertError::type_mismatch("stem list", sexpr)),
        };
        expect_head(list, "stem")?;
        let value: StemValue = require_kwarg(list, "value")?;
        let default_y: Option<Decimal> = optional_kwarg(list, "default-y")?;
        let color: Option<String> = optional_kwarg(list, "color")?;
        Ok(Stem { value, default_y, color })
    }
}

// === Notehead ===

impl ToSexpr for Notehead {
    /// `(notehead ...)` with the keyword arguments that the value has.
    open spec fn to_sexpr_spec(&self) -> SexprV {
        SexprV::List(seq![SexprV::Symbol("notehead"@)] + kw_pair("value"@, self.value.to_sexpr_spec()) + kw_opt("filled"@, self.filled) + kw_opt("parentheses"@, self.parentheses) + kw_if(self.font.is_set(), "font"@, self.font.to_sexpr_spec()) + kw_opt("color"@, self.color))
    }

    fn to_sexpr(&self) -> (r: Sexpr) {
        ListBuilder::new("notehead").kwarg("value", &self.value).kwarg_opt("filled", &self.filled).kwarg_opt("parentheses", &self.parentheses).kwarg_when(self.font.has_any(), "font", &self.font).kwarg_opt("color", &self.color).build()
    }
}

impl FromSexpr for Notehead {
    /// A list headed `notehead` whose keyword arguments convert.
    open spec fn from_sexpr_error(s: SexprV) -> Option<ConvertErrorV> {
        match s {
            SexprV::List(items) => either(head_error(items, "notehead"@), either(obj_kwarg_error::<Font>(items, "font"@), either(kwarg_error::<NoteheadValue>(items, "value"@), either(opt_kwarg_error::<YesNo>(items, "filled"@), either(opt_kwarg_error::<YesNo>(items, "parentheses"@), opt_kwarg_error::<String>(items, "color"@)))))),
            _ => Some(type_mismatch_v("notehead list"@, s)),
        }
    }

    open spec fn from_sexpr_value(s: SexprV, v: Notehead) -> bool {
        match s {
            SexprV::List(items) => obj_kwarg_value::<Font>(items, "font"@, v.font, font_none())
                && kwarg_value::<NoteheadValue>(items, "value"@, v.value)
                && opt_kwarg_value::<YesNo>(items, "filled"@, v.filled)
                && opt_kwarg_value::<YesNo>(items, "parentheses"@, v.parentheses)
                && opt_kwarg_value::<String>(items, "color"@, v.color),
            _ => false,
        }
    }

    fn from_sexpr(sexpr: &Sexpr) -> (r: Result<Notehead, ConvertError>) {
        let list = match sexpr.as_list() {
            Some(l) => l,
            None => return Err(ConvertError::type_mismatch("notehead list", sexpr)),
        };
        expect_head(list, "notehead")?;
        let font: Font = object_kwarg(list, "font", Font::empty())?;
        let value: NoteheadValue = require_kwarg(list, "value")?;
        let filled: Option<YesNo> = optional_kwarg(list, "filled")?;
        let parentheses: Option<YesNo> = optional_kwarg(list, "parentheses")?;
        let color: Option<String> = optional_kwarg(list, "color")?;
        Ok(Notehead { value, filled, parentheses, font, color })
    }
}

// === NoteType ===

impl ToSexpr for NoteType {
    /// `(note-type ...)` with the keyword arguments that the value has.
    open spec fn to_sexpr_spec(&self) -> SexprV {
        SexprV::List(seq![SexprV::Symbol("note-type"@)] + kw_pair("value"@, self.value.to_sexpr_spec()) + kw_opt("size"@, self.size))
    }

    fn to_sexpr(&self) -> (r: Sexpr) {
        ListBuilder::new("note-type").kwarg("value", &self.value).kwarg_opt("size", &self.size).build()
    }
}

impl FromSexpr for NoteType {
    /// A list headed `note-type` whose keyword arguments convert.
    open spec fn from_sexpr_error(s: SexprV) -> Option<ConvertErrorV> {
        match s {
            SexprV::List(items) => either(head_error(items, "note-type"@), either(kwarg_error::<NoteTypeValue>(items, "value"@), opt_kwarg_error::<SymbolSize>(items, "size"@))),
            _ => Some(type_mismatch_v("note-type list"@, s)),
        }
    }

    open spec fn from_sexpr_value(s: SexprV, v: NoteType) -> bool {
        match s {
            SexprV::List(items) => kwarg_value::<NoteTypeValue>(items, "value"@, v.value)
                && opt_kwarg_value::<SymbolSize>(items, "size"@, v.size),
            _ => false,
        }
    }

    fn from_sexpr(sexpr: &Sexpr) -> (r: Result<NoteType, ConvertError>) {
        let list = match sexpr.as_list() {
            Some(l) => l,
            None => return Err(ConvertError::type_mismatch("note-type list", sexpr)),
        };
        expect_head(list, "note-type")?;
        let value: NoteTypeValue = require_kwarg(list, "value")?;
        let size: Option<SymbolSize> = optional_kwarg(list, "size")?;
        Ok(NoteType { value, size })
    }
}

// === Dot ===

impl ToSexpr for Dot {
    /// `(dot ...)` with the keyword arguments that the value has.
    open spec fn to_sexpr_spec(&self) -> SexprV {
        SexprV::List(seq![SexprV::Symbol("dot"@)] + kw_opt("placement"@, self.placement) + kw_if(self.position.is_set(), "position"@, self.position.to_sexpr_spec()))
    }

    fn to_sexpr(&self) -> (r: Sexpr) {
        ListBuilder::new("dot").kwarg_opt("placement", &self.placement).kwarg_when(self.position.has_any(), "position", &self.position).build()
    }
}

impl FromSexpr for Dot {
    /// A list headed `dot` whose keyword arguments convert.
    open spec fn from_sexpr_error(s: SexprV) -> Option<ConvertErrorV> {
        match s {
            SexprV::List(items) => either(head_error(items, "dot"@), either(obj_kwarg_error::<Position>(items, "position"@), opt_kwarg_error::<AboveBelow>(items, "placement"@))),
            _ => Some(type_mismatch_v("dot list"@, s)),
        }
    }

    open spec fn from_sexpr_value(s: SexprV, v: Dot) -> bool {
        match s {
            SexprV::List(items) => obj_kwarg_value::<Position>(items, "position"@, v.position, position_none())
                && opt_kwarg_value::<AboveBelow>(items, "placement"@, v.placement),
            _ => false,
        }
    }

    fn from_sexpr(sexpr: &Sexpr) -> (r: Result<Dot, ConvertError>) {
        let list = match sexpr.as_list() {
            Some(l) => l,
            None => return Err(ConvertError::type_mismatch("dot list", sexpr)),
        };
        expect_head(list, "dot")?;
        let position: Position = object_kwarg(list, "position", Position::empty())?;
        let placement: Option<AboveBelow> = optional_kwarg(list, "placement")?;
        Ok(Dot { placement, position })
    }
}

// === TimeModification ===

impl ToSexpr for TimeModification {
    /// `(time-modification ...)` with the keyword arguments that the value has.
    open spec fn to_sexpr_spec(&self) -> SexprV {
        SexprV::List(seq![SexprV::Symbol("time-modification"@)] + kw_pair("actual-notes"@, self.actual_notes.to_sexpr_spec()) + kw_pair("normal-notes"@, self.normal_notes.to_sexpr_spec()) + kw_opt("normal-type"@, self.normal_type) + kw_if(self.normal_dots > 0, "normal-dots"@, self.normal_dots.to_sexpr_spec()))
    }

    fn to_sexpr(&self) -> (r: Sexpr) {
        ListBuilder::new("time-modification").kwarg("actual-notes", &self.actual_notes).kwarg("normal-notes", &self.normal_notes).kwarg_opt("normal-type", &self.normal_type).kwarg_when(self.normal_dots > 0, "normal-dots", &self.normal_dots).build()
    }
}

impl FromSexpr for TimeModification {
    /// A list headed `time-modification` whose keyword arguments convert.
    open spec fn from_sexpr_error(s: SexprV) -> Option<ConvertErrorV> {
        match s {
            SexprV::List(items) => either(head_error(items, "time-modification"@), either(kwarg_error::<u32>(items, "actual-notes"@), either(kwarg_error::<u32>(items, "normal-notes"@), either(opt_kwarg_error::<NoteTypeValue>(items, "normal-type"@), obj_kwarg_error::<u32>(items, "normal-dots"@))))),
            _ => Some(type_mismatch_v("time-modification list"@, s)),
        }
    }

    open spec fn from_sexpr_value(s: SexprV, v: TimeModification) -> bool {
        match s {
            SexprV::List(items) => kwarg_value::<u32>(items, "actual-notes"@, v.actual_notes)
                && kwarg_value::<u32>(items, "normal-notes"@, v.normal_notes)
                && opt_kwarg_value::<NoteTypeValue>(items, "normal-type"@, v.normal_type)
                && obj_kwarg_value::<u32>(items, "normal-dots"@, v.normal_dots, 0u32),
            _ => false,
        }
    }

    fn from_sexpr(sexpr: &Sexpr) -> (r: Result<TimeModification, ConvertError>) {
        let list = match sexpr.as_list() {
            Some(l) => l,
            None => return Err(ConvertError::type_mismatch("time-modification list", sexpr)),
        };
        expect_head(list, "time-modification")?;
        let actual_notes: u32 = require_kwarg(list, "actual-notes")?;
        let normal_notes: u32 = require_kwarg(list, "normal-notes")?;
        let normal_type: Option<NoteTypeValue> = optional_kwarg(list, "normal-type")?;
        let normal_dots: u32 = object_kwarg(list, "normal-dots", 0)?;
        Ok(TimeModification { actual_notes, normal_notes, normal_type, normal_dots })
    }
}

// === Rest ===

impl ToSexpr for Rest {
    /// `(rest ...)` with the keyword arguments that the value has.
    open spec fn to_sexpr_spec(&self) -> SexprV {
        SexprV::List(seq![SexprV::Symbol("rest"@)] + kw_opt("measure"@, self.measure) + kw_opt("display-step"@, self.display_step) + kw_opt("display-octave"@, self.display_octave))
    }

    fn to_sexpr(&self) -> (r: Sexpr) {
        ListBuilder::new("rest").kwarg_opt("measure", &self.measure).kwarg_opt("display-step", &self.display_step).kwarg_opt("display-octave", &self.display_octave).build()
    }
}

impl FromSexpr for Rest {
    /// A list headed `rest` whose keyword arguments convert.
    open spec fn from_sexpr_error(s: SexprV) -> Option<ConvertErrorV> {
        match s {
            SexprV::List(items) => either(head_error(items, "rest"@), either(opt_kwarg_error::<YesNo>(items, "measure"@), either(opt_kwarg_error::<Step>(items, "display-step"@), opt_kwarg_error::<u8>(items, "display-octave"@)))),
            _ => Some(type_mismatch_v("rest list"@, s)),
        }
    }

    open spec fn from_sexpr_value(s: SexprV, v: Rest) -> bool {
        match s {
            SexprV::List(items) => opt_kwarg_value::<YesNo>(items, "measure"@, v.measure)
                && opt_kwarg_value::<Step>(items, "display-step"@, v.display_step)
                && opt_kwarg_value::<u8>(items, "display-octave"@, v.display_octave),
            _ => false,
        }
    }

    fn from_sexpr(sexpr: &Sexpr) -> (r: Result<Rest, ConvertError>) {
        let list = match sexpr.as_list() {
            Some(l) => l,
            None => return Err(ConvertError::type_mismatch("rest list", sexpr)),
        };
        expect_head(list, "rest")?;
        let measure: Option<YesNo> = optional_kwarg(list, "measure")?;
        let display_step: Option<Step> = optional_kwarg(list, "display-step")?;
        let display_octave: Option<u8> = optional_kwarg(list, "display-octave")?;
        Ok(Rest { measure, display_step, display_octave })
    }
}

// === FullNote ===

impl ToSexpr for FullNote {
    /// `(full-note ...)` with the keyword arguments that the value has.
    open spec fn to_sexpr_spec(&self) -> SexprV {
        SexprV::List(seq![SexprV::Symbol("full-note"@)] + kw_if(self.chord, "chord"@, SexprV::Symbol("t"@)) + kw_pair("content"@, self.content.to_sexpr_spec()))
    }

    fn to_sexpr(&self) -> (r: Sexpr) {
        ListBuilder::new("full-note").kwarg_when(self.chord, "chord", &true).kwarg("content", &self.content).build()
    }
}

impl FromSexpr for FullNote {
    /// A list headed `full-note` whose keyword arguments convert.
    open spec fn from_sexpr_error(s: SexprV) -> Option<ConvertErrorV> {
        match s {
            SexprV::List(items) => either(head_error(items, "full-note"@), either(opt_kwarg_error::<bool>(items, "chord"@), kwarg_error::<PitchRestUnpitched>(items, "content"@))),
            _ => Some(type_mismatch_v("full-note list"@, s)),
        }
    }

    open spec fn from_sexpr_value(s: SexprV, v: FullNote) -> bool {
        match s {
            SexprV::List(items) => flag_kwarg_value(items, "chord"@, v.chord)
                && kwarg_value::<PitchRestUnpitched>(items, "content"@, v.content),
            _ => false,
        }
    }

    fn from_sexpr(sexpr: &Sexpr) -> (r: Result<FullNote, ConvertError>) {
        let list = match sexpr.as_list() {
            Some(l) => l,
            None => return Err(ConvertError::type_mismatch("full-note list", sexpr)),
        };
        expect_head(list, "full-note")?;
        let chord: bool = flag_kwarg(list, "chord")?;
        let content: PitchRestUnpitched = require_kwarg(list, "content")?;
        Ok(FullNote { chord, content })
    }
}

// === Tie ===

impl ToSexpr for Tie {
    /// `(tie ...)` with the keyword arguments that the value has.
    open spec fn to_sexpr_spec(&self) -> SexprV {
        SexprV::List(seq![SexprV::Symbol("tie"@)] + kw_pair("type"@, self.type_.to_sexpr_spec()) + kw_opt("time-only"@, self.time_only))
    }

    fn to_sexpr(&self) -> (r: Sexpr) {
        ListBuilder::new("tie").kwarg("type", &self.type_).kwarg_opt("time-only", &self.time_only).build()
    }
}

impl FromSexpr for Tie {
    /// A list headed `tie` whose keyword arguments convert.
    open spec fn from_sexpr_error(s: SexprV) -> Option<ConvertErrorV> {
        match s {
            SexprV::List(items) => either(head_error(items, "tie"@), either(kwarg_error::<StartStop>(items, "type"@), opt_kwarg_error::<String>(items, "time-only"@))),
            _ => Some(type_mismatch_v("tie list"@, s)),
        }
    }

    open spec fn from_sexpr_value(s: SexprV, v: Tie) -> bool {
        match s {
            SexprV::List(items) => kwarg_value::<StartStop>(items, "type"@, v.type_)
                && opt_kwarg_value::<String>(items, "time-only"@, v.time_only),
            _ => false,
        }
    }

    fn from_sexpr(sexpr: &Sexpr) -> (r: Result<Tie, ConvertError>) {
        let list = match sexpr.as_list() {
            Some(l) => l,
            None => return Err(ConvertError::type_mismatch("tie list", sexpr)),
        };
        expect_head(list, "tie")?;
        let type_: StartStop = require_kwarg(list, "type")?;
        let time_only: Option<String> = optional_kwarg(list, "time-only")?;
        Ok(Tie { type_, time_only })
    }
}

// === Grace ===

impl ToSexpr for Grace {
    /// `(grace ...)` with the keyword arguments that the value has.
    open spec fn to_sexpr_spec(&self) -> SexprV {
        SexprV::List(seq![SexprV::Symbol("grace"@)] + kw_opt("steal-time-previous"@, self.steal_time_previous) + kw_opt("steal-time-following"@, self.steal_time_following) + kw_opt("make-time"@, self.make_time) + kw_opt("slash"@, self.slash))
    }

    fn to_sexpr(&self) -> (r: Sexpr) {
        ListBuilder::new("grace").kwarg_opt("steal-time-previous", &self.steal_time_previous).kwarg_opt("steal-time-following", &self.steal_time_following).kwarg_opt("make-time", &self.make_time).kwarg_opt("slash", &self.slash).build()
    }
}

impl FromSexpr for Grace {
    /// A list headed `grace` whose keyword arguments convert.
    open spec fn from_sexpr_error(s: SexprV) -> Option<ConvertErrorV> {
        match s {
            SexprV::List(items) => either(head_error(items, "grace"@), either(opt_kwarg_error::<Decimal>(items, "steal-time-previous"@), either(opt_kwarg_error::<Decimal>(items, "steal-time-following"@), either(opt_kwarg_error::<i32>(items, "make-time"@), opt_kwarg_error::<YesNo>(items, "slash"@))))),
            _ => Some(type_mismatch_v("grace list"@, s)),
        }
    }

    open spec fn from_sexpr_value(s: SexprV, v: Grace) -> bool {
        match s {
            SexprV::List(items) => opt_kwarg_value::<Decimal>(items, "steal-time-previous"@, v.steal_time_previous)
                && opt_kwarg_value::<Decimal>(items, "steal-time-following"@, v.steal_time_following)
                && opt_kwarg_value::<i32>(items, "make-time"@, v.make_time)
                && opt_kwarg_value::<YesNo>(items, "slash"@, v.slash),
            _ => false,
        }
    }

    fn from_sexpr(sexpr: &Sexpr) -> (r: Result<Grace, ConvertError>) {
        let list = match sexpr.as_list() {
            Some(l) => l,
            None => return Err(ConvertError::type_mismatch("grace list", sexpr)),
        };
        expect_head(list, "grace")?;
        let steal_time_previous: Option<Decimal> = optional_kwarg(list, "steal-time-previous")?;
        let steal_time_following: Option<Decimal> = optional_kwarg(list, "steal-time-following")?;
        let make_time: Option<i32> = optional_kwarg(list, "make-time")?;
        let slash: Option<YesNo> = optional_kwarg(list, "slash")?;
        Ok(Grace { steal_time_previous, steal_time_following, make_time, slash })
    }
}

// === Accidental ===

impl ToSexpr for Accidental {
    /// `(accidental ...)` with the keyword arguments that the value has.
    open spec fn to_sexpr_spec(&self) -> SexprV {
        SexprV::List(seq![SexprV::Symbol("accidental"@)] + kw_pair("value"@, self.value.to_sexpr_spec()) + kw_opt("cautionary"@, self.cautionary) + kw_opt("editorial"@, self.editorial) + kw_opt("parentheses"@, self.parentheses) + kw_opt("bracket"@, self.bracket) + kw_opt("size"@, self.size))
    }

    fn to_sexpr(&self) -> (r: Sexpr) {
        ListBuilder::new("accidental").kwarg("value", &self.value).kwarg_opt("cautionary", &self.cautionary).kwarg_opt("editorial", &self.editorial).kwarg_opt("parentheses", &self.parentheses).kwarg_opt("bracket", &self.bracket).kwarg_opt("size", &self.size).build()
    }
}

impl FromSexpr for Accidental {
    /// A list headed `accidental` whose keyword arguments convert.
    open spec fn from_sexpr_error(s: SexprV) -> Option<ConvertErrorV> {
        match s {
            SexprV::List(items) => either(head_error(items, "accidental"@), either(kwarg_error::<AccidentalValue>(items, "value"@), either(opt_kwarg_error::<YesNo>(items, "cautionary"@), either(opt_kwarg_error::<YesNo>(items, "editorial"@), either(opt_kwarg_error::<YesNo>(items, "parentheses"@), either(opt_kwarg_error::<YesNo>(items, "bracket"@), opt_kwarg_error::<SymbolSize>(items, "size"@))))))),
            _ => Some(type_mismatch_v("accidental list"@, s)),
        }
    }

    open spec fn from_sexpr_value(s: SexprV, v: Accidental) -> bool {
        match s {
            SexprV::List(items) => kwarg_value::<AccidentalValue>(items, "value"@, v.value)
                && opt_kwarg_value::<YesNo>(items, "cautionary"@, v.cautionary)
                && opt_kwarg_value::<YesNo>(items, "editorial"@, v.editorial)
                && opt_kwarg_value::<YesNo>(items, "parentheses"@, v.parentheses)
                && opt_kwarg_value::<YesNo>(items, "bracket"@, v.bracket)
                && opt_kwarg_value::<SymbolSize>(items, "size"@, v.size),
            _ => false,
        }
    }

    fn from_sexpr(sexpr: &Sexpr) -> (r: Result<Accidental, ConvertError>) {
        let list = match sexpr.as_list() {
            Some(l) => l,
            None => return Err(ConvertError::type_mismatch("accidental list", sexpr)),
        };
        expect_head(list, "accidental")?;
        let value: AccidentalValue = require_kwarg(list, "value")?;
        let cautionary: Option<YesNo> = optional_kwarg(list, "cautionary")?;
        let editorial: Option<YesNo> = optional_kwarg(list, "editorial")?;
        let parentheses: Option<YesNo> = optional_kwarg(list, "parentheses")?;
        let bracket: Option<YesNo> = optional_kwarg(list, "bracket")?;
        let size: Option<SymbolSize> = optional_kwarg(list, "size")?;
        Ok(Accidental { value, cautionary, editorial, parentheses, bracket, size })
    }
}

// === Instrument ===

impl ToSexpr for Instrument {
    /// `(instrument ...)` with the keyword arguments that the value has.
    open spec fn to_sexpr_spec(&self) -> SexprV {
        SexprV::List(seq![SexprV::Symbol("instrument"@)] + kw_pair("id"@, self.id.to_sexpr_spec()))
    }

    fn to_sexpr(&self) -> (r: Sexpr) {
        ListBuilder::new("instrument").kwarg("id", &self.id).build()
    }
}

impl FromSexpr for Instrument {
    /// A list headed `instrument` whose keyword arguments convert.
    open spec fn from_sexpr_error(s: SexprV) -> Option<ConvertErrorV> {
        match s {
            SexprV::List(items) => either(head_error(items, "instrument"@), kwarg_error::<String>(items, "id"@)),
            _ => Some(type_mismatch_v("instrument list"@, s)),
        }
    }

    open spec fn from_sexpr_value(s: SexprV, v: Instrument) -> bool {
        match s {
            SexprV::List(items) => kwarg_value::<String>(items, "id"@, v.id),
            _ => false,
        }
    }

    fn from_sexpr(sexpr: &Sexpr) -> (r: Result<Instrument, ConvertError>) {
        let list = match sexpr.as_list() {
            Some(l) => l,
            None => return Err(ConvertError::type_mismatch("instrument list", sexpr)),
        };
        expect_head(list, "instrument")?;
        let id: String = require_kwarg(list, "id")?;
        Ok(Instrument { id })
    }
}

// === PitchRestUnpitched ===

impl ToSexpr for PitchRestUnpitched {
    /// A variant given by its own list, or a list headed by the variant's name
    /// with the value under `:data`.
    open spec fn to_sexpr_spec(&self) -> SexprV {
        match self {
            PitchRestUnpitched::Pitch(x) => x.to_sexpr_spec(),
            PitchRestUnpitched::Rest(x) => x.to_sexpr_spec(),
            PitchRestUnpitched::Unpitched(x) => x.to_sexpr_spec(),
        }
    }

    fn to_sexpr(&self) -> (r: Sexpr) {
        match self {
            PitchRestUnpitched::Pitch(x) => x.to_sexpr(),
            PitchRestUnpitched::Rest(x) => x.to_sexpr(),
            PitchRestUnpitched::Unpitched(x) => x.to_sexpr(),
        }
    }
}

impl FromSexpr for PitchRestUnpitched {
    /// A list whose head names a variant.
    open spec fn from_sexpr_error(s: SexprV) -> Option<ConvertErrorV> {
        match s {
            SexprV::List(items) => match head_name(items) {
                None => Some(ConvertErrorV::ExpectedHead("symbol"@)),
                Some(h) => if h == "pitch"@ {
                    Pitch::from_sexpr_error(s)
                } else if h == "rest"@ {
                    Rest::from_sexpr_error(s)
                } else if h == "unpitched"@ {
                    Unpitched::from_sexpr_error(s)
                } else {
                    Some(ConvertErrorV::InvalidVariant(h))
                },
            },
            _ => Some(type_mismatch_v("pitch/rest/unpitched"@, s)),
        }
    }

    open spec fn from_sexpr_value(s: SexprV, v: PitchRestUnpitched) -> bool {
        match s {
            SexprV::List(items) => match v {
                PitchRestUnpitched::Pitch(x) => head_name(items) == Some("pitch"@) && Pitch::from_sexpr_value(s, x),
                PitchRestUnpitched::Rest(x) => head_name(items) == Some("rest"@) && Rest::from_sexpr_value(s, x),
                PitchRestUnpitched::Unpitched(x) => head_name(items) == Some("unpitched"@) && Unpitched::from_sexpr_value(s, x),
            },
            _ => false,
        }
    }

    fn from_sexpr(sexpr: &Sexpr) -> (r: Result<PitchRestUnpitched, ConvertError>) {
        let list = match sexpr.as_list() {
            Some(l) => l,
            None => return Err(ConvertError::type_mismatch("pitch/rest/unpitched", sexpr)),
        };
        let h = get_head(list)?;
        if str_eq(h, "pitch") {
            let data: Pitch = Pitch::from_sexpr(sexpr)?;
            Ok(PitchRestUnpitched::Pitch(data))
        } else if str_eq(h, "rest") {
            let data: Rest = Rest::from_sexpr(sexpr)?;
            Ok(PitchRestUnpitched::Rest(data))
        } else if str_eq(h, "unpitched") {
            let data: Unpitched = Unpitched::from_sexpr(sexpr)?;
            Ok(PitchRestUnpitched::Unpitched(data))
        } else {
            Err(ConvertError::InvalidVariant(h.to_owned()))
        }
    }
}

// === NoteContent ===

impl ToSexpr for NoteContent {
    /// `(regular ...)`, `(grace-note ...)` or `(cue ...)`, with the ties only
    /// where there are some.
    open spec fn to_sexpr_spec(&self) -> SexprV {
        match self {
            NoteContent::Regular { full_note, duration, ties } => SexprV::List(
                seq![SexprV::Symbol("regular"@)] + kw_pair("full-note"@, full_note.to_sexpr_spec())
                    + kw_pair("duration"@, duration.to_sexpr_spec()) + kw_if(
                    ties@.len() > 0,
                    "ties"@,
                    ties.to_sexpr_spec(),
                ),
            ),
            NoteContent::Grace { grace, full_note, ties } => SexprV::List(
                seq![SexprV::Symbol("grace-note"@)] + kw_pair("grace"@, grace.to_sexpr_spec())
                    + kw_pair("full-note"@, full_note.to_sexpr_spec()) + kw_if(
                    ties@.len() > 0,
                    "ties"@,
                    ties.to_sexpr_spec(),
                ),
            ),
            NoteContent::Cue { full_note, duration } => SexprV::List(
                seq![SexprV::Symbol("cue"@)] + kw_pair("full-note"@, full_note.to_sexpr_spec())
                    + kw_pair("duration"@, duration.to_sexpr_spec()),
            ),
        }
    }

    fn to_sexpr(&self) -> (r: Sexpr) {
        match self {
            NoteContent::Regular { full_note, duration, ties } => ListBuilder::new("regular").kwarg(
                "full-note",
                full_note,
            ).kwarg("duration", duration).kwarg_when(ties.len() > 0, "ties", ties).build(),
            NoteContent::Grace { grace, full_note, ties } => ListBuilder::new("grace-note").kwarg(
                "grace",
                grace,
            ).kwarg("full-note", full_note).kwarg_when(ties.len() > 0, "ties", ties).build(),
            NoteContent::Cue { full_note, duration } => ListBuilder::new("cue").kwarg(
                "full-note",
                full_note,
            ).kwarg("duration", duration).build(),
        }
    }
}

impl FromSexpr for NoteContent {
    /// A list whose head names the kind of note; another head is an invalid
    /// variant.
    open spec fn from_sexpr_error(s: SexprV) -> Option<ConvertErrorV> {
        match s {
            SexprV::List(items) => match head_name(items) {
                None => Some(ConvertErrorV::ExpectedHead("symbol"@)),
                Some(h) => if h == "regular"@ {
                    either(
                        kwarg_error::<FullNote>(items, "full-note"@),
                        either(
                            kwarg_error::<u64>(items, "duration"@),
                            opt_kwarg_error::<Vec<Tie>>(items, "ties"@),
                        ),
                    )
                } else if h == "grace-note"@ {
                    either(
                        kwarg_error::<Grace>(items, "grace"@),
                        either(
                            kwarg_error::<FullNote>(items, "full-note"@),
                            opt_kwarg_error::<Vec<Tie>>(items, "ties"@),
                        ),
                    )
                } else if h == "cue"@ {
                    either(
                        kwarg_error::<FullNote>(items, "full-note"@),
                        kwarg_error::<u64>(items, "duration"@),
                    )
                } else {
                    Some(ConvertErrorV::InvalidVariant(h))
                },
            },
            _ => Some(type_mismatch_v("note-content list"@, s)),
        }
    }

    open spec fn from_sexpr_value(s: SexprV, v: NoteContent) -> bool {
        match s {
            SexprV::List(items) => match v {
                NoteContent::Regular { full_note, duration, ties } => head_name(items) == Some(
                    "regular"@,
                ) && kwarg_value::<FullNote>(items, "full-note"@, full_note) && kwarg_value::<u64>(
                    items,
                    "duration"@,
                    duration,
                ) && list_kwarg_value::<Tie>(items, "ties"@, ties),
                NoteContent::Grace { grace, full_note, ties } => head_name(items) == Some(
                    "grace-note"@,
                ) && kwarg_value::<Grace>(items, "grace"@, grace) && kwarg_value::<FullNote>(
                    items,
                    "full-note"@,
                    full_note,
                ) && list_kwarg_value::<Tie>(items, "ties"@, ties),
                NoteContent::Cue { full_note, duration } => head_name(items) == Some("cue"@)
                    && kwarg_value::<FullNote>(items, "full-note"@, full_note) && kwarg_value::<u64>(
                    items,
                    "duration"@,
                    duration,
                ),
            },
            _ => false,
        }
    }

    fn from_sexpr(sexpr: &Sexpr) -> (r: Result<NoteContent, ConvertError>) {
        let list = match sexpr.as_list() {
            Some(l) => l,
            None => return Err(ConvertError::type_mismatch("note-content list", sexpr)),
        };
        let h = get_head(list)?;
        if str_eq(h, "regular") {
            let full_note: FullNote = require_kwarg(list, "full-note")?;
            let duration: u64 = require_kwarg(list, "duration")?;
            let ties: Vec<Tie> = list_kwarg(list, "ties")?;
            Ok(NoteContent::Regular { full_note, duration, ties })
        } else if str_eq(h, "grace-note") {
            let grace: Grace = require_kwarg(list, "grace")?;
            let full_note: FullNote = require_kwarg(list, "full-note")?;
            let ties: Vec<Tie> = list_kwarg(list, "ties")?;
            Ok(NoteContent::Grace { grace, full_note, ties })
        } else if str_eq(h, "cue") {
            let full_note: FullNote = require_kwarg(list, "full-note")?;
            let duration: u64 = require_kwarg(list, "duration")?;
            Ok(NoteContent::Cue { full_note, duration })
        } else {
            Err(ConvertError::InvalidVariant(h.to_owned()))
        }
    }
}

// === Note ===

impl ToSexpr for Note {
    /// `(note ...)` with the keyword arguments that the value has.
    open spec fn to_sexpr_spec(&self) -> SexprV {
        SexprV::List(seq![SexprV::Symbol("note"@)] + kw_if(self.position.is_set(), "position"@, self.position.to_sexpr_spec()) + kw_opt("dynamics"@, self.dynamics) + kw_opt("end-dynamics"@, self.end_dynamics) + kw_opt("attack"@, self.attack) + kw_opt("release"@, self.release) + kw_opt("pizzicato"@, self.pizzicato) + kw_opt("print-object"@, self.print_object) + kw_pair("content"@, self.content.to_sexpr_spec()) + kw_if(self.instrument@.len() > 0, "instrument"@, self.instrument.to_sexpr_spec()) + kw_opt("voice"@, self.voice) + kw_opt("type"@, self.type_) + kw_if(self.dots@.len() > 0, "dots"@, self.dots.to_sexpr_spec()) + kw_opt("accidental"@, self.accidental) + kw_opt("time-modification"@, self.time_modification) + kw_opt("stem"@, self.stem) + kw_opt("notehead"@, self.notehead) + kw_opt("staff"@, self.staff) + kw_if(self.beams@.len() > 0, "beams"@, self.beams.to_sexpr_spec()))
    }

    fn to_sexpr(&self) -> (r: Sexpr) {
        ListBuilder::new("note").kwarg_when(self.position.has_any(), "position", &self.position).kwarg_opt("dynamics", &self.dynamics).kwarg_opt("end-dynamics", &self.end_dynamics).kwarg_opt("attack", &self.attack).kwarg_opt("release", &self.release).kwarg_opt("pizzicato", &self.pizzicato).kwarg_opt("print-object", &self.print_object).kwarg("content", &self.content).kwarg_when(self.instrument.len() > 0, "instrument", &self.instrument).kwarg_opt("voice", &self.voice).kwarg_opt("type", &self.type_).kwarg_when(self.dots.len() > 0, "dots", &self.dots).kwarg_opt("accidental", &self.accidental).kwarg_opt("time-modification", &self.time_modification).kwarg_opt("stem", &self.stem).kwarg_opt("notehead", &self.notehead).kwarg_opt("staff", &self.staff).kwarg_when(self.beams.len() > 0, "beams", &self.beams).build()
    }
}

impl FromSexpr for Note {
    /// A list headed `note` whose keyword arguments convert.
    open spec fn from_sexpr_error(s: SexprV) -> Option<ConvertErrorV> {
        match s {
            SexprV::List(items) => either(head_error(items, "note"@), either(obj_kwarg_error::<Position>(items, "position"@), either(opt_kwarg_error::<Decimal>(items, "dynamics"@), either(opt_kwarg_error::<Decimal>(items, "end-dynamics"@), either(opt_kwarg_error::<i32>(items, "attack"@), either(opt_kwarg_error::<i32>(items, "release"@), either(opt_kwarg_error::<bool>(items, "pizzicato"@), either(opt_kwarg_error::<YesNo>(items, "print-object"@), either(kwarg_error::<NoteContent>(items, "content"@), either(opt_kwarg_error::<Vec<Instrument>>(items, "instrument"@), either(opt_kwarg_error::<String>(items, "voice"@), either(opt_kwarg_error::<NoteType>(items, "type"@), either(opt_kwarg_error::<Vec<Dot>>(items, "dots"@), either(opt_kwarg_error::<Accidental>(items, "accidental"@), either(opt_kwarg_error::<TimeModification>(items, "time-modification"@), either(opt_kwarg_error::<Stem>(items, "stem"@), either(opt_kwarg_error::<Notehead>(items, "notehead"@), either(opt_kwarg_error::<u16>(items, "staff"@), opt_kwarg_error::<Vec<Beam>>(items, "beams"@))))))))))))))))))),
            _ => Some(type_mismatch_v("note list"@, s)),
        }
    }

    open spec fn from_sexpr_value(s: SexprV, v: Note) -> bool {
        match s {
            SexprV::List(items) => obj_kwarg_value::<Position>(items, "position"@, v.position, position_none())
                && opt_kwarg_value::<Decimal>(items, "dynamics"@, v.dynamics)
                && opt_kwarg_value::<Decimal>(items, "end-dynamics"@, v.end_dynamics)
                && opt_kwarg_value::<i32>(items, "attack"@, v.attack)
                && opt_kwarg_value::<i32>(items, "release"@, v.release)
                && opt_kwarg_value::<bool>(items, "pizzicato"@, v.pizzicato)
                && opt_kwarg_value::<YesNo>(items, "print-object"@, v.print_object)
                && kwarg_value::<NoteContent>(items, "content"@, v.content)
                && list_kwarg_value::<Instrument>(items, "instrument"@, v.instrument)
                && opt_kwarg_value::<String>(items, "voice"@, v.voice)
                && opt_kwarg_value::<NoteType>(items, "type"@, v.type_)
                && list_kwarg_value::<Dot>(items, "dots"@, v.dots)
                && opt_kwarg_value::<Accidental>(items, "accidental"@, v.accidental)
                && opt_kwarg_value::<TimeModification>(items, "time-modification"@, v.time_modification)
                && opt_kwarg_value::<Stem>(items, "stem"@, v.stem)
                && opt_kwarg_value::<Notehead>(items, "notehead"@, v.notehead)
                && opt_kwarg_value::<u16>(items, "staff"@, v.staff)
                && list_kwarg_value::<Beam>(items, "beams"@, v.beams)
                && v.notations@.len() == 0
                && v.lyrics@.len() == 0,
            _ => false,
        }
    }

    fn from_sexpr(sexpr: &Sexpr) -> (r: Result<Note, ConvertError>) {
        let list = match sexpr.as_list() {
            Some(l) => l,
            None => return Err(ConvertError::type_mismatch("note list", sexpr)),
        };
        expect_head(list, "note")?;
        let position: Position = object_kwarg(list, "position", Position::empty())?;
        let dynamics: Option<Decimal> = optional_kwarg(list, "dynamics")?;
        let end_dynamics: Option<Decimal> = optional_kwarg(list, "end-dynamics")?;
        let attack: Option<i32> = optional_kwarg(list, "attack")?;
        let release: Option<i32> = optional_kwarg(list, "release")?;
        let pizzicato: Option<bool> = optional_kwarg(list, "pizzicato")?;
        let print_object: Option<YesNo> = optional_kwarg(list, "print-object")?;
        let content: NoteContent = require_kwarg(list, "content")?;
        let instrument: Vec<Instrument> = list_kwarg(list, "instrument")?;
        let voice: Option<String> = optional_kwarg(list, "voice")?;
        let type_: Option<NoteType> = optional_kwarg(list, "type")?;
        let dots: Vec<Dot> = list_kwarg(list, "dots")?;
        let accidental: Option<Accidental> = optional_kwarg(list, "accidental")?;
        let time_modification: Option<TimeModification> = optional_kwarg(list, "time-modification")?;
        let stem: Option<Stem> = optional_kwarg(list, "stem")?;
        let notehead: Option<Notehead> = optional_kwarg(list, "notehead")?;
        let staff: Option<u16> = optional_kwarg(list, "staff")?;
        let beams: Vec<Beam> = list_kwarg(list, "beams")?;
        Ok(Note {
            position, dynamics, end_dynamics, attack, release, pizzicato, print_object, content, instrument,
            voice, type_, dots, accidental, time_modification, stem, notehead, staff, beams,
            notations: Vec::new(), lyrics: Vec::new(),
        })
    }
}

// === Reading back ===

impl RoundTrip for BeamValue {
    /// Every value.
    open spec fn writable(&self) -> bool {
        true
    }

    open spec fn same(&self, other: &Self) -> bool {
        *self == *other
    }

    proof fn lemma_not_keyword(&self) {
    }

    proof fn lemma_no_error(&self) {
        reveal_strlit("begin");
        assert("begin"@.len() == 5);
        reveal_strlit("continue");
        assert("continue"@.len() == 8);
        reveal_strlit("end");
        assert("end"@.len() == 3);
        reveal_strlit("forward-hook");
        assert("forward-hook"@.len() == 12);
        reveal_strlit("backward-hook");
        assert("backward-hook"@.len() == 13);
    }

    proof fn lemma_value(&self, v: Self) {
        reveal_strlit("begin");
        assert("begin"@.len() == 5);
        reveal_strlit("continue");
        assert("continue"@.len() == 8);
        reveal_strlit("end");
        assert("end"@.len() == 3);
        reveal_strlit("forward-hook");
        assert("forward-hook"@.len() == 12);
        reveal_strlit("backward-hook");
        assert("backward-hook"@.len() == 13);
    }
}

impl RoundTrip for Fan {
    /// Every value.
    open spec fn writable(&self) -> bool {
        true
    }

    open spec fn same(&self, other: &Self) -> bool {
        *self == *other
    }

    proof fn lemma_not_keyword(&self) {
    }

    proof fn lemma_no_error(&self) {
        reveal_strlit("accel");
        assert("accel"@.len() == 5);
        reveal_strlit("rit");
        assert("rit"@.len() == 3);
        reveal_strlit("none");
        assert("none"@.len() == 4);
    }

    proof fn lemma_value(&self, v: Self) {
        reveal_strlit("accel");
        assert("accel"@.len() == 5);
        reveal_strlit("rit");
        assert("rit"@.len() == 3);
        reveal_strlit("none");
        assert("none"@.len() == 4);
    }
}

impl RoundTrip for StemValue {
    /// Every value.
    open spec fn writable(&self) -> bool {
        true
    }

    open spec fn same(&self, other: &Self) -> bool {
        *self == *other
    }

    proof fn lemma_not_keyword(&self) {
    }

    proof fn lemma_no_error(&self) {
        reveal_strlit("down");
        assert("down"@.len() == 4);
        reveal_strlit("up");
        assert("up"@.len() == 2);
        reveal_strlit("double");
        assert("double"@.len() == 6);
        reveal_strlit("none");
        assert("none"@.len() == 4);
        assert("down"@[0] == 'd');
        assert("none"@[0] == 'n');
    }

    proof fn lemma_value(&self, v: Self) {
        reveal_strlit("down");
        assert("down"@.len() == 4);
        reveal_strlit("up");
        assert("up"@.len() == 2);
        reveal_strlit("double");
        assert("double"@.len() == 6);
        reveal_strlit("none");
        assert("none"@.len() == 4);
        assert("down"@[0] == 'd');
        assert("none"@[0] == 'n');
    }
}

impl RoundTrip for NoteheadValue {
    /// Every value.
    open spec fn writable(&self) -> bool {
        true
    }

    open spec fn same(&self, other: &Self) -> bool {
        *self == *other
    }

    proof fn lemma_not_keyword(&self) {
    }

    proof fn lemma_no_error(&self) {
        reveal_strlit("slash");
        assert("slash"@.len() == 5);
        reveal_strlit("triangle");
        assert("triangle"@.len() == 8);
        reveal_strlit("diamond");
        assert("diamond"@.len() == 7);
        reveal_strlit("square");
        assert("square"@.len() == 6);
        reveal_strlit("cross");
        assert("cross"@.len() == 5);
        reveal_strlit("x");
        assert("x"@.len() == 1);
        reveal_strlit("circle-x");
        assert("circle-x"@.len() == 8);
        reveal_strlit("inverted-triangle");
        assert("inverted-triangle"@.len() == 17);
        reveal_strlit("arrow-down");
        assert("arrow-down"@.len() == 10);
        reveal_strlit("arrow-up");
        assert("arrow-up"@.len() == 8);
        reveal_strlit("circled");
        assert("circled"@.len() == 7);
        reveal_strlit("slashed");
        assert("slashed"@.len() == 7);
        reveal_strlit("back-slashed");
        assert("back-slashed"@.len() == 12);
        reveal_strlit("normal");
        assert("normal"@.len() == 6);
        reveal_strlit("cluster");
        assert("cluster"@.len() == 7);
        reveal_strlit("circle-dot");
        assert("circle-dot"@.len() == 10);
        reveal_strlit("left-triangle");
        assert("left-triangle"@.len() == 13);
        reveal_strlit("rectangle");
        assert("rectangle"@.len() == 9);
        reveal_strlit("none");
        assert("none"@.len() == 4);
        reveal_strlit("do");
        assert("do"@.len() == 2);
        reveal_strlit("re");
        assert("re"@.len() == 2);
        reveal_strlit("mi");
        assert("mi"@.len() == 2);
        reveal_strlit("fa");
        assert("fa"@.len() == 2);
        reveal_strlit("fa-up");
        assert("fa-up"@.len() == 5);
        reveal_strlit("so");
        assert("so"@.len() == 2);
        reveal_strlit("la");
        assert("la"@.len() == 2);
        reveal_strlit("ti");
        assert("ti"@.len() == 2);
        reveal_strlit("other");
        assert("other"@.len() == 5);
        assert("slash"@[0] == 's');
        assert("cross"@[0] == 'c');
        assert("fa-up"@[0] == 'f');
        assert("other"@[0] == 'o');
        assert("triangle"@[0] == 't');
        assert("circle-x"@[0] == 'c');
        assert("arrow-up"@[0] == 'a');
        assert("diamond"@[0] == 'd');
        assert("circled"@[0] == 'c');
        assert("slashed"@[0] == 's');
        assert("cluster"@[0] == 'c');
        assert("square"@[0] == 's');
        assert("normal"@[0] == 'n');
        assert("arrow-down"@[0] == 'a');
        assert("circle-dot"@[0] == 'c');
        assert("circled"@[1] == 'i');
        assert("cluster"@[1] == 'l');
        assert("do"@[0] == 'd');
        assert("re"@[0] == 'r');
        assert("mi"@[0] == 'm');
        assert("fa"@[0] == 'f');
        assert("so"@[0] == 's');
        assert("la"@[0] == 'l');
        assert("ti"@[0] == 't');
    }

    proof fn lemma_value(&self, v: Self) {
        reveal_strlit("slash");
        assert("slash"@.len() == 5);
        reveal_strlit("triangle");
        assert("triangle"@.len() == 8);
        reveal_strlit("diamond");
        assert("diamond"@.len() == 7);
        reveal_strlit("square");
        assert("square"@.len() == 6);
        reveal_strlit("cross");
        assert("cross"@.len() == 5);
        reveal_strlit("x");
        assert("x"@.len() == 1);
        reveal_strlit("circle-x");
        assert("circle-x"@.len() == 8);
        reveal_strlit("inverted-triangle");
        assert("inverted-triangle"@.len() == 17);
        reveal_strlit("arrow-down");
        assert("arrow-down"@.len() == 10);
        reveal_strlit("arrow-up");
        assert("arrow-up"@.len() == 8);
        reveal_strlit("circled");
        assert("circled"@.len() == 7);
        reveal_strlit("slashed");
        assert("slashed"@.len() == 7);
        reveal_strlit("back-slashed");
        assert("back-slashed"@.len() == 12);
        reveal_strlit("normal");
        assert("normal"@.len() == 6);
        reveal_strlit("cluster");
        assert("cluster"@.len() == 7);
        reveal_strlit("circle-dot");
        assert("circle-dot"@.len() == 10);
        reveal_strlit("left-triangle");
        assert("left-triangle"@.len() == 13);
        reveal_strlit("rectangle");
        assert("rectangle"@.len() == 9);
        reveal_strlit("none");
        assert("none"@.len() == 4);
        reveal_strlit("do");
        assert("do"@.len() == 2);
        reveal_strlit("re");
        assert("re"@.len() == 2);
        reveal_strlit("mi");
        assert("mi"@.len() == 2);
        reveal_strlit("fa");
        assert("fa"@.len() == 2);
        reveal_strlit("fa-up");
        assert("fa-up"@.len() == 5);
        reveal_strlit("so");
        assert("so"@.len() == 2);
        reveal_strlit("la");
        assert("la"@.len() == 2);
        reveal_strlit("ti");
        assert("ti"@.len() == 2);
        reveal_strlit("other");
        assert("other"@.len() == 5);
        assert("slash"@[0] == 's');
        assert("cross"@[0] == 'c');
        assert("fa-up"@[0] == 'f');
        assert("other"@[0] == 'o');
        assert("triangle"@[0] == 't');
        assert("circle-x"@[0] == 'c');
        assert("arrow-up"@[0] == 'a');
        assert("diamond"@[0] == 'd');
        assert("circled"@[0] == 'c');
        assert("slashed"@[0] == 's');
        assert("cluster"@[0] == 'c');
        assert("square"@[0] == 's');
        assert("normal"@[0] == 'n');
        assert("arrow-down"@[0] == 'a');
        assert("circle-dot"@[0] == 'c');
        assert("circled"@[1] == 'i');
        assert("cluster"@[1] == 'l');
        assert("do"@[0] == 'd');
        assert("re"@[0] == 'r');
        assert("mi"@[0] == 'm');
        assert("fa"@[0] == 'f');
        assert("so"@[0] == 's');
        assert("la"@[0] == 'l');
        assert("ti"@[0] == 't');
    }
}

/// The head and keyword arguments of the S-expression of a `Beam`.
pub proof fn lemma_beam_items(x: Beam)
    requires
        x.writable(),
    ensures
        x.to_sexpr_spec() matches SexprV::List(items) && items.len() > 0 && items[0] == SexprV::Symbol("beam"@)
            && find_kwarg_spec(items, "value"@) == (Some(x.value.to_sexpr_spec()))
            && find_kwarg_spec(items, "number"@) == (Some(x.number.to_sexpr_spec()))
            && find_kwarg_spec(items, "fan"@) == (match x.fan { Some(y) => Some(y.to_sexpr_spec()), None => None })
            && find_kwarg_spec(items, "color"@) == (match x.color { Some(y) => Some(y.to_sexpr_spec()), None => None }),
{
        assert("number"@ != "value"@) by {
            reveal_strlit("number");
            assert("number"@.len() == 6);
            reveal_strlit("value");
            assert("value"@.len() == 5);
        }
        assert("fan"@ != "value"@) by {
            reveal_strlit("fan");
            assert("fan"@.len() == 3);
            reveal_strlit("value");
            assert("value"@.len() == 5);
        }
        assert("color"@ != "value"@) by {
            reveal_strlit("color");
            assert("color"@.len() == 5);
            reveal_strlit("value");
            assert("value"@.len() == 5);
            assert("color"@[0] == 'c');
            assert("value"@[0] == 'v');
        }
        assert("fan"@ != "number"@) by {
            reveal_strlit("fan");
            assert("fan"@.len() == 3);
            reveal_strlit("number");
            assert("number"@.len() == 6);
        }
        assert("color"@ != "number"@) by {
            reveal_strlit("color");
            assert("color"@.len() == 5);
            reveal_strlit("number");
            assert("number"@.len() == 6);
        }
        assert("color"@ != "fan"@) by {
            reveal_strlit("color");
            assert("color"@.len() == 5);
            reveal_strlit("fan");
            assert("fan"@.len() == 3);
        }
        let ghost s0 = seq![SexprV::Symbol("beam"@)];
        assert(ends_clean(s0));
        let ghost p1 = kw_pair("value"@, x.value.to_sexpr_spec());
        x.value.lemma_not_keyword();
        lemma_pair_piece("value"@, x.value.to_sexpr_spec());
        let ghost s1 = s0 + p1;
        lemma_ends_clean(s0, p1);
        let ghost p2 = kw_pair("number"@, x.number.to_sexpr_spec());
        x.number.lemma_not_keyword();
        lemma_pair_piece("number"@, x.number.to_sexpr_spec());
        let ghost s2 = s1 + p2;
        lemma_ends_clean(s1, p2);
        let ghost p3 = kw_opt("fan"@, x.fan);
        lemma_opt_piece("fan"@, x.fan);
        let ghost s3 = s2 + p3;
        lemma_ends_clean(s2, p3);
        let ghost p4 = kw_opt("color"@, x.color);
        lemma_opt_piece("color"@, x.color);
        let ghost s4 = s3 + p4;
        lemma_ends_clean(s3, p4);
        assert(x.to_sexpr_spec() == SexprV::List(s4));
        assert(s4[0] == SexprV::Symbol("beam"@)) by {
            assert(s1[0] == s0[0]);
            assert(s2[0] == s1[0]);
            assert(s3[0] == s2[0]);
            assert(s4[0] == s3[0]);
        }
        assert(find_kwarg_spec(s4, "value"@) == (Some(x.value.to_sexpr_spec()))) by {
            lemma_find_head_key("beam"@, "value"@);
            if p1.len() == 2 { lemma_find_hit(s0, p1, "value"@); } else { lemma_find_skip(s0, p1, "value"@); }
            lemma_find_skip(s1, p2, "value"@);
            lemma_find_skip(s2, p3, "value"@);
            lemma_find_skip(s3, p4, "value"@);
        }
        assert(find_kwarg_spec(s4, "number"@) == (Some(x.number.to_sexpr_spec()))) by {
            lemma_find_head_key("beam"@, "number"@);
            lemma_find_skip(s0, p1, "number"@);
            if p2.len() == 2 { lemma_find_hit(s1, p2, "number"@); } else { lemma_find_skip(s1, p2, "number"@); }
            lemma_find_skip(s2, p3, "number"@);
            lemma_find_skip(s3, p4, "number"@);
        }
        assert(find_kwarg_spec(s4, "fan"@) == (match x.fan { Some(y) => Some(y.to_sexpr_spec()), None => None })) by {
            lemma_find_head_key("beam"@, "fan"@);
            lemma_find_skip(s0, p1, "fan"@);
            lemma_find_skip(s1, p2, "fan"@);
            if p3.len() == 2 { lemma_find_hit(s2, p3, "fan"@); } else { lemma_find_skip(s2, p3, "fan"@); }
            lemma_find_skip(s3, p4, "fan"@);
        }
        assert(find_kwarg_spec(s4, "color"@) == (match x.color { Some(y) => Some(y.to_sexpr_spec()), None => None })) by {
            lemma_find_head_key("beam"@, "color"@);
            lemma_find_skip(s0, p1, "color"@);
            lemma_find_skip(s1, p2, "color"@);
            lemma_find_skip(s2, p3, "color"@);
            if p4.len() == 2 { lemma_find_hit(s3, p4, "color"@); } else { lemma_find_skip(s3, p4, "color"@); }
        }
}

impl RoundTrip for Beam {
    /// A value whose parts are writable.
    open spec fn writable(&self) -> bool {
        self.value.writable()
            && self.number.writable()
            && self.fan.writable()
            && self.color.writable()
    }

    open spec fn same(&self, other: &Self) -> bool {
        self.value.same(&other.value)
            && self.number.same(&other.number)
            && self.fan.same(&other.fan)
            && self.color.same(&other.color)
    }

    proof fn lemma_not_keyword(&self) {
    }

    proof fn lemma_no_error(&self) {
        lemma_beam_items(*self);
        self.value.lemma_no_error();
        self.number.lemma_no_error();
        self.fan.lemma_no_error();
        self.color.lemma_no_error();
    }

    proof fn lemma_value(&self, v: Self) {
        lemma_beam_items(*self);
        self.value.lemma_value(v.value);
        self.number.lemma_value(v.number);
        self.fan.lemma_value(v.fan);
        self.color.lemma_value(v.color);
    }
}

/// The head and keyword arguments of the S-expression of a `Stem`.
pub proof fn lemma_stem_items(x: Stem)
    requires
        x.writable(),
    ensures
        x.to_sexpr_spec() matches SexprV::List(items) && items.len() > 0 && items[0] == SexprV::Symbol("stem"@)
            && find_kwarg_spec(items, "value"@) == (Some(x.value.to_sexpr_spec()))
            && find_kwarg_spec(items, "default-y"@) == (match x.default_y { Some(y) => Some(y.to_sexpr_spec()), None => None })
            && find_kwarg_spec(items, "color"@) == (match x.color { Some(y) => Some(y.to_sexpr_spec()), None => None }),
{
        assert("default-y"@ != "value"@) by {
            reveal_strlit("default-y");
            assert("default-y"@.len() == 9);
            reveal_strlit("value");
            assert("value"@.len() == 5);
        }
        assert("color"@ != "value"@) by {
            reveal_strlit("color");
            assert("color"@.len() == 5);
            reveal_strlit("value");
            assert("value"@.len() == 5);
            assert("color"@[0] == 'c');
            assert("value"@[0] == 'v');
        }
        assert("color"@ != "default-y"@) by {
            reveal_strlit("color");
            assert("color"@.len() == 5);
            reveal_strlit("default-y");
            assert("default-y"@.len() == 9);
        }
        let ghost s0 = seq![SexprV::Symbol("stem"@)];
        assert(ends_clean(s0));
        let ghost p1 = kw_pair("value"@, x.value.to_sexpr_spec());
        x.value.lemma_not_keyword();
        lemma_pair_piece("value"@, x.value.to_sexpr_spec());
        let ghost s1 = s0 + p1;
        lemma_ends_clean(s0, p1);
        let ghost p2 = kw_opt("default-y"@, x.default_y);
        lemma_opt_piece("default-y"@, x.default_y);
        let ghost s2 = s1 + p2;
        lemma_ends_clean(s1, p2);
        let ghost p3 = kw_opt("color"@, x.color);
        lemma_opt_piece("color"@, x.color);
        let ghost s3 = s2 + p3;
        lemma_ends_clean(s2, p3);
        assert(x.to_sexpr_spec() == SexprV::List(s3));
        assert(s3[0] == SexprV::Symbol("stem"@)) by {
            assert(s1[0] == s0[0]);
            assert(s2[0] == s1[0]);
            assert(s3[0] == s2[0]);
        }
        assert(find_kwarg_spec(s3, "value"@) == (Some(x.value.to_sexpr_spec()))) by {
            lemma_find_head_key("stem"@, "value"@);
            if p1.len() == 2 { lemma_find_hit(s0, p1, "value"@); } else { lemma_find_skip(s0, p1, "value"@); }
            lemma_find_skip(s1, p2, "value"@);
            lemma_find_skip(s2, p3, "value"@);
        }
        assert(find_kwarg_spec(s3, "default-y"@) == (match x.default_y { Some(y) => Some(y.to_sexpr_spec()), None => None })) by {
            lemma_find_head_key("stem"@, "default-y"@);
            lemma_find_skip(s0, p1, "default-y"@);
            if p2.len() == 2 { lemma_find_hit(s1, p2, "default-y"@); } else { lemma_find_skip(s1, p2, "default-y"@); }
            lemma_find_skip(s2, p3, "default-y"@);
        }
        assert(find_kwarg_spec(s3, "color"@) == (match x.color { Some(y) => Some(y.to_sexpr_spec()), None => None })) by {
            lemma_find_head_key("stem"@, "color"@);
            lemma_find_skip(s0, p1, "color"@);
            lemma_find_skip(s1, p2, "color"@);
            if p3.len() == 2 { lemma_find_hit(s2, p3, "color"@); } else { lemma_find_skip(s2, p3, "color"@); }
        }
}

impl RoundTrip for Stem {
    /// A value whose parts are writable.
    open spec fn writable(&self) -> bool {
        self.value.writable()
            && self.default_y.writable()
            && self.color.writable()
    }

    open spec fn same(&self, other: &Self) -> bool {
        self.value.same(&other.value)
            && self.default_y.same(&other.default_y)
            && self.color.same(&other.color)
    }

    proof fn lemma_not_keyword(&self) {
    }

    proof fn lemma_no_error(&self) {
        lemma_stem_items(*self);
        self.value.lemma_no_error();
        self.default_y.lemma_no_error();
        self.color.lemma_no_error();
    }

    proof fn lemma_value(&self, v: Self) {
        lemma_stem_items(*self);
        self.value.lemma_value(v.value);
        self.default_y.lemma_value(v.default_y);
        self.color.lemma_value(v.color);
    }
}

/// The head and keyword arguments of the S-expression of a `Notehead`.
pub proof fn lemma_notehead_items(x: Notehead)
    requires
        x.writable(),
    ensures
        x.to_sexpr_spec() matches SexprV::List(items) && items.len() > 0 && items[0] == SexprV::Symbol("notehead"@)
            && find_kwarg_spec(items, "value"@) == (Some(x.value.to_sexpr_spec()))
            && find_kwarg_spec(items, "filled"@) == (match x.filled { Some(y) => Some(y.to_sexpr_spec()), None => None })
            && find_kwarg_spec(items, "parentheses"@) == (match x.parentheses { Some(y) => Some(y.to_sexpr_spec()), None => None })
            && find_kwarg_spec(items, "font"@) == (if x.font.is_set() { Some(x.font.to_sexpr_spec()) } else { None })
            && find_kwarg_spec(items, "color"@) == (match x.color { Some(y) => Some(y.to_sexpr_spec()), None => None }),
{
        assert("filled"@ != "value"@) by {
            reveal_strlit("filled");
            assert("filled"@.len() == 6);
            reveal_strlit("value");
            assert("value"@.len() == 5);
        }
        assert("parentheses"@ != "value"@) by {
            reveal_strlit("parentheses");
            assert("parentheses"@.len() == 11);
            reveal_strlit("value");
            assert("value"@.len() == 5);
        }
        assert("font"@ != "value"@) by {
            reveal_strlit("font");
            assert("font"@.len() == 4);
            reveal_strlit("value");
            assert("value"@.len() == 5);
        }
        assert("color"@ != "value"@) by {
            reveal_strlit("color");
            assert("color"@.len() == 5);
            reveal_strlit("value");
            assert("value"@.len() == 5);
            assert("color"@[0] == 'c');
            assert("value"@[0] == 'v');
        }
        assert("parentheses"@ != "filled"@) by {
            reveal_strlit("parentheses");
            assert("parentheses"@.len() == 11);
            reveal_strlit("filled");
            assert("filled"@.len() == 6);
        }
        assert("font"@ != "filled"@) by {
            reveal_strlit("font");
            assert("font"@.len() == 4);
            reveal_strlit("filled");
            assert("filled"@.len() == 6);
        }
        assert("color"@ != "filled"@) by {
            reveal_strlit("color");
            assert("color"@.len() == 5);
            reveal_strlit("filled");
            assert("filled"@.len() == 6);
        }
        assert("font"@ != "parentheses"@) by {
            reveal_strlit("font");
            assert("font"@.len() == 4);
            reveal_strlit("parentheses");
            assert("parentheses"@.len() == 11);
        }
        assert("color"@ != "parentheses"@) by {
            reveal_strlit("color");
            assert("color"@.len() == 5);
            reveal_strlit("parentheses");
            assert("parentheses"@.len() == 11);
        }
        assert("color"@ != "font"@) by {
            reveal_strlit("color");
            assert("color"@.len() == 5);
            reveal_strlit("font");
            assert("font"@.len() == 4);
        }
        let ghost s0 = seq![SexprV::Symbol("notehead"@)];
        assert(ends_clean(s0));
        let ghost p1 = kw_pair("value"@, x.value.to_sexpr_spec());
        x.value.lemma_not_keyword();
        lemma_pair_piece("value"@, x.value.to_sexpr_spec());
        let ghost s1 = s0 + p1;
        lemma_ends_clean(s0, p1);
        let ghost p2 = kw_opt("filled"@, x.filled);
        lemma_opt_piece("filled"@, x.filled);
        let ghost s2 = s1 + p2;
        lemma_ends_clean(s1, p2);
        let ghost p3 = kw_opt("parentheses"@, x.parentheses);
        lemma_opt_piece("parentheses"@, x.parentheses);
        let ghost s3 = s2 + p3;
        lemma_ends_clean(s2, p3);
        let ghost p4 = kw_if(x.font.is_set(), "font"@, x.font.to_sexpr_spec());
        x.font.lemma_not_keyword();
        lemma_if_piece(x.font.is_set(), "font"@, x.font.to_sexpr_spec());
        let ghost s4 = s3 + p4;
        lemma_ends_clean(s3, p4);
        let ghost p5 = kw_opt("color"@, x.color);
        lemma_opt_piece("color"@, x.color);
        let ghost s5 = s4 + p5;
        lemma_ends_clean(s4, p5);
        assert(x.to_sexpr_spec() == SexprV::List(s5));
        assert(s5[0] == SexprV::Symbol("notehead"@)) by {
            assert(s1[0] == s0[0]);
            assert(s2[0] == s1[0]);
            assert(s3[0] == s2[0]);
            assert(s4[0] == s3[0]);
            assert(s5[0] == s4[0]);
        }
        assert(find_kwarg_spec(s5, "value"@) == (Some(x.value.to_sexpr_spec()))) by {
            lemma_find_head_key("notehead"@, "value"@);
            if p1.len() == 2 { lemma_find_hit(s0, p1, "value"@); } else { lemma_find_skip(s0, p1, "value"@); }
            lemma_find_skip(s1, p2, "value"@);
            lemma_find_skip(s2, p3, "value"@);
            lemma_find_skip(s3, p4, "value"@);
            lemma_find_skip(s4, p5, "value"@);
        }
        assert(find_kwarg_spec(s5, "filled"@) == (match x.filled { Some(y) => Some(y.to_sexpr_spec()), None => None })) by {
            lemma_find_head_key("notehead"@, "filled"@);
            lemma_find_skip(s0, p1, "filled"@);
            if p2.len() == 2 { lemma_find_hit(s1, p2, "filled"@); } else { lemma_find_skip(s1, p2, "filled"@); }
            lemma_find_skip(s2, p3, "filled"@);
            lemma_find_skip(s3, p4, "filled"@);
            lemma_find_skip(s4, p5, "filled"@);
        }
        assert(find_kwarg_spec(s5, "parentheses"@) == (match x.parentheses { Some(y) => Some(y.to_sexpr_spec()), None => None })) by {
            lemma_find_head_key("notehead"@, "parentheses"@);
            lemma_find_skip(s0, p1, "parentheses"@);
            lemma_find_skip(s1, p2, "parentheses"@);
            if p3.len() == 2 { lemma_find_hit(s2, p3, "parentheses"@); } else { lemma_find_skip(s2, p3, "parentheses"@); }
            lemma_find_skip(s3, p4, "parentheses"@);
            lemma_find_skip(s4, p5, "parentheses"@);
        }
        assert(find_kwarg_spec(s5, "font"@) == (if x.font.is_set() { Some(x.font.to_sexpr_spec()) } else { None })) by {
            lemma_find_head_key("notehead"@, "font"@);
            lemma_find_skip(s0, p1, "font"@);
            lemma_find_skip(s1, p2, "font"@);
            lemma_find_skip(s2, p3, "font"@);
            if p4.len() == 2 { lemma_find_hit(s3, p4, "font"@); } else { lemma_find_skip(s3, p4, "font"@); }
            lemma_find_skip(s4, p5, "font"@);
        }
        assert(find_kwarg_spec(s5, "color"@) == (match x.color { Some(y) => Some(y.to_sexpr_spec()), None => None })) by {
            lemma_find_head_key("notehead"@, "color"@);
            lemma_find_skip(s0, p1, "color"@);
            lemma_find_skip(s1, p2, "color"@);
            lemma_find_skip(s2, p3, "color"@);
            lemma_find_skip(s3, p4, "color"@);
            if p5.len() == 2 { lemma_find_hit(s4, p5, "color"@); } else { lemma_find_skip(s4, p5, "color"@); }
        }
}

impl RoundTrip for Notehead {
    /// A value whose parts are writable.
    open spec fn writable(&self) -> bool {
        self.font.writable()
            && self.value.writable()
            && self.filled.writable()
            && self.parentheses.writable()
            && self.color.writable()
    }

    open spec fn same(&self, other: &Self) -> bool {
        self.font.same(&other.font)
            && self.value.same(&other.value)
            && self.filled.same(&other.filled)
            && self.parentheses.same(&other.parentheses)
            && self.color.same(&other.color)
    }

    proof fn lemma_not_keyword(&self) {
    }

    proof fn lemma_no_error(&self) {
        lemma_notehead_items(*self);
        self.font.lemma_no_error();
        self.value.lemma_no_error();
        self.filled.lemma_no_error();
        self.parentheses.lemma_no_error();
        self.color.lemma_no_error();
    }

    proof fn lemma_value(&self, v: Self) {
        lemma_notehead_items(*self);
        self.value.lemma_value(v.value);
        self.filled.lemma_value(v.filled);
        self.parentheses.lemma_value(v.parentheses);
        if self.font.is_set() {
            self.font.lemma_value(v.font);
        }
        self.color.lemma_value(v.color);
    }
}

/// The head and keyword arguments of the S-expression of a `NoteType`.
pub proof fn lemma_note_type_items(x: NoteType)
    requires
        x.writable(),
    ensures
        x.to_sexpr_spec() matches SexprV::List(items) && items.len() > 0 && items[0] == SexprV::Symbol("note-type"@)
            && find_kwarg_spec(items, "value"@) == (Some(x.value.to_sexpr_spec()))
            && find_kwarg_spec(items, "size"@) == (match x.size { Some(y) => Some(y.to_sexpr_spec()), None => None }),
{
        assert("size"@ != "value"@) by {
            reveal_strlit("size");
            assert("size"@.len() == 4);
            reveal_strlit("value");
            assert("value"@.len() == 5);
        }
        let ghost s0 = seq![SexprV::Symbol("note-type"@)];
        assert(ends_clean(s0));
        let ghost p1 = kw_pair("value"@, x.value.to_sexpr_spec());
        x.value.lemma_not_keyword();
        lemma_pair_piece("value"@, x.value.to_sexpr_spec());
        let ghost s1 = s0 + p1;
        lemma_ends_clean(s0, p1);
        let ghost p2 = kw_opt("size"@, x.size);
        lemma_opt_piece("size"@, x.size);
        let ghost s2 = s1 + p2;
        lemma_ends_clean(s1, p2);
        assert(x.to_sexpr_spec() == SexprV::List(s2));
        assert(s2[0] == SexprV::Symbol("note-type"@)) by {
            assert(s1[0] == s0[0]);
            assert(s2[0] == s1[0]);
        }
        assert(find_kwarg_spec(s2, "value"@) == (Some(x.value.to_sexpr_spec()))) by {
            lemma_find_head_key("note-type"@, "value"@);
            if p1.len() == 2 { lemma_find_hit(s0, p1, "value"@); } else { lemma_find_skip(s0, p1, "value"@); }
            lemma_find_skip(s1, p2, "value"@);
        }
        assert(find_kwarg_spec(s2, "size"@) == (match x.size { Some(y) => Some(y.to_sexpr_spec()), None => None })) by {
            lemma_find_head_key("note-type"@, "size"@);
            lemma_find_skip(s0, p1, "size"@);
            if p2.len() == 2 { lemma_find_hit(s1, p2, "size"@); } else { lemma_find_skip(s1, p2, "size"@); }
        }
}

impl RoundTrip for NoteType {
    /// A value whose parts are writable.
    open spec fn writable(&self) -> bool {
        self.value.writable()
            && self.size.writable()
    }

    open spec fn same(&self, other: &Self) -> bool {
        self.value.same(&other.value)
            && self.size.same(&other.size)
    }

    proof fn lemma_not_keyword(&self) {
    }

    proof fn lemma_no_error(&self) {
        lemma_note_type_items(*self);
        self.value.lemma_no_error();
        self.size.lemma_no_error();
    }

    proof fn lemma_value(&self, v: Self) {
        lemma_note_type_items(*self);
        self.value.lemma_value(v.value);
        self.size.lemma_value(v.size);
    }
}

/// The head and keyword arguments of the S-expression of a `Dot`.
pub proof fn lemma_dot_items(x: Dot)
    requires
        x.writable(),
    ensures
        x.to_sexpr_spec() matches SexprV::List(items) && items.len() > 0 && items[0] == SexprV::Symbol("dot"@)
            && find_kwarg_spec(items, "placement"@) == (match x.placement { Some(y) => Some(y.to_sexpr_spec()), None => None })
            && find_kwarg_spec(items, "position"@) == (if x.position.is_set() { Some(x.position.to_sexpr_spec()) } else { None }),
{
        assert("position"@ != "placement"@) by {
            reveal_strlit("position");
            assert("position"@.len() == 8);
            reveal_strlit("placement");
            assert("placement"@.len() == 9);
        }
        let ghost s0 = seq![SexprV::Symbol("dot"@)];
        assert(ends_clean(s0));
        let ghost p1 = kw_opt("placement"@, x.placement);
        lemma_opt_piece("placement"@, x.placement);
        let ghost s1 = s0 + p1;
        lemma_ends_clean(s0, p1);
        let ghost p2 = kw_if(x.position.is_set(), "position"@, x.position.to_sexpr_spec());
        x.position.lemma_not_keyword();
        lemma_if_piece(x.position.is_set(), "position"@, x.position.to_sexpr_spec());
        let ghost s2 = s1 + p2;
        lemma_ends_clean(s1, p2);
        assert(x.to_sexpr_spec() == SexprV::List(s2));
        assert(s2[0] == SexprV::Symbol("dot"@)) by {
            assert(s1[0] == s0[0]);
            assert(s2[0] == s1[0]);
        }
        assert(find_kwarg_spec(s2, "placement"@) == (match x.placement { Some(y) => Some(y.to_sexpr_spec()), None => None })) by {
            lemma_find_head_key("dot"@, "placement"@);
            if p1.len() == 2 { lemma_find_hit(s0, p1, "placement"@); } else { lemma_find_skip(s0, p1, "placement"@); }
            lemma_find_skip(s1, p2, "placement"@);
        }
        assert(find_kwarg_spec(s2, "position"@) == (if x.position.is_set() { Some(x.position.to_sexpr_spec()) } else { None })) by {
            lemma_find_head_key("dot"@, "position"@);
            lemma_find_skip(s0, p1, "position"@);
            if p2.len() == 2 { lemma_find_hit(s1, p2, "position"@); } else { lemma_find_skip(s1, p2, "position"@); }
        }
}

impl RoundTrip for Dot {
    /// A value whose parts are writable.
    open spec fn writable(&self) -> bool {
        self.position.writable()
            && self.placement.writable()
    }

    open spec fn same(&self, other: &Self) -> bool {
        self.position.same(&other.position)
            && self.placement.same(&other.placement)
    }

    proof fn lemma_not_keyword(&self) {
    }

    proof fn lemma_no_error(&self) {
        lemma_dot_items(*self);
        self.position.lemma_no_error();
        self.placement.lemma_no_error();
    }

    proof fn lemma_value(&self, v: Self) {
        lemma_dot_items(*self);
        self.placement.lemma_value(v.placement);
        if self.position.is_set() {
            self.position.lemma_value(v.position);
        }
    }
}

/// The head and keyword arguments of the S-expression of a `TimeModification`.
pub proof fn lemma_time_modification_items(x: TimeModification)
    requires
        x.writable(),
    ensures
        x.to_sexpr_spec() matches SexprV::List(items) && items.len() > 0 && items[0] == SexprV::Symbol("time-modification"@)
            && find_kwarg_spec(items, "actual-notes"@) == (Some(x.actual_notes.to_sexpr_spec()))
            && find_kwarg_spec(items, "normal-notes"@) == (Some(x.normal_notes.to_sexpr_spec()))
            && find_kwarg_spec(items, "normal-type"@) == (match x.normal_type { Some(y) => Some(y.to_sexpr_spec()), None => None })
            && find_kwarg_spec(items, "normal-dots"@) == (if x.normal_dots > 0 { Some(x.normal_dots.to_sexpr_spec()) } else { None }),
{
        assert("normal-notes"@ != "actual-notes"@) by {
            reveal_strlit("normal-notes");
            assert("normal-notes"@.len() == 12);
            reveal_strlit("actual-notes");
            assert("actual-notes"@.len() == 12);
            assert("normal-notes"@[0] == 'n');
            assert("actual-notes"@[0] == 'a');
        }
        assert("normal-type"@ != "actual-notes"@) by {
            reveal_strlit("normal-type");
            assert("normal-type"@.len() == 11);
            reveal_strlit("actual-notes");
            assert("actual-notes"@.len() == 12);
        }
        assert("normal-dots"@ != "actual-notes"@) by {
            reveal_strlit("normal-dots");
            assert("normal-dots"@.len() == 11);
            reveal_strlit("actual-notes");
            assert("actual-notes"@.len() == 12);
        }
        assert("normal-type"@ != "normal-notes"@) by {
            reveal_strlit("normal-type");
            assert("normal-type"@.len() == 11);
            reveal_strlit("normal-notes");
            assert("normal-notes"@.len() == 12);
        }
        assert("normal-dots"@ != "normal-notes"@) by {
            reveal_strlit("normal-dots");
            assert("normal-dots"@.len() == 11);
            reveal_strlit("normal-notes");
            assert("normal-notes"@.len() == 12);
        }
        assert("normal-dots"@ != "normal-type"@) by {
            reveal_strlit("normal-dots");
            assert("normal-dots"@.len() == 11);
            reveal_strlit("normal-type");
            assert("normal-type"@.len() == 11);
            assert("normal-dots"@[7] == 'd');
            assert("normal-type"@[7] == 't');
        }
        let ghost s0 = seq![SexprV::Symbol("time-modification"@)];
        assert(ends_clean(s0));
        let ghost p1 = kw_pair("actual-notes"@, x.actual_notes.to_sexpr_spec());
        x.actual_notes.lemma_not_keyword();
        lemma_pair_piece("actual-notes"@, x.actual_notes.to_sexpr_spec());
        let ghost s1 = s0 + p1;
        lemma_ends_clean(s0, p1);
        let ghost p2 = kw_pair("normal-notes"@, x.normal_notes.to_sexpr_spec());
        x.normal_notes.lemma_not_keyword();
        lemma_pair_piece("normal-notes"@, x.normal_notes.to_sexpr_spec());
        let ghost s2 = s1 + p2;
        lemma_ends_clean(s1, p2);
        let ghost p3 = kw_opt("normal-type"@, x.normal_type);
        lemma_opt_piece("normal-type"@, x.normal_type);
        let ghost s3 = s2 + p3;
        lemma_ends_clean(s2, p3);
        let ghost p4 = kw_if(x.normal_dots > 0, "normal-dots"@, x.normal_dots.to_sexpr_spec());
        x.normal_dots.lemma_not_keyword();
        lemma_if_piece(x.normal_dots > 0, "normal-dots"@, x.normal_dots.to_sexpr_spec());
        let ghost s4 = s3 + p4;
        lemma_ends_clean(s3, p4);
        assert(x.to_sexpr_spec() == SexprV::List(s4));
        assert(s4[0] == SexprV::Symbol("time-modification"@)) by {
            assert(s1[0] == s0[0]);
            assert(s2[0] == s1[0]);
            assert(s3[0] == s2[0]);
            assert(s4[0] == s3[0]);
        }
        assert(find_kwarg_spec(s4, "actual-notes"@) == (Some(x.actual_notes.to_sexpr_spec()))) by {
            lemma_find_head_key("time-modification"@, "actual-notes"@);
            if p1.len() == 2 { lemma_find_hit(s0, p1, "actual-notes"@); } else { lemma_find_skip(s0, p1, "actual-notes"@); }
            lemma_find_skip(s1, p2, "actual-notes"@);
            lemma_find_skip(s2, p3, "actual-notes"@);
            lemma_find_skip(s3, p4, "actual-notes"@);
        }
        assert(find_kwarg_spec(s4, "normal-notes"@) == (Some(x.normal_notes.to_sexpr_spec()))) by {
            lemma_find_head_key("time-modification"@, "normal-notes"@);
            lemma_find_skip(s0, p1, "normal-notes"@);
            if p2.len() == 2 { lemma_find_hit(s1, p2, "normal-notes"@); } else { lemma_find_skip(s1, p2, "normal-notes"@); }
            lemma_find_skip(s2, p3, "normal-notes"@);
            lemma_find_skip(s3, p4, "normal-notes"@);
        }
        assert(find_kwarg_spec(s4, "normal-type"@) == (match x.normal_type { Some(y) => Some(y.to_sexpr_spec()), None => None })) by {
            lemma_find_head_key("time-modification"@, "normal-type"@);
            lemma_find_skip(s0, p1, "normal-type"@);
            lemma_find_skip(s1, p2, "normal-type"@);
            if p3.len() == 2 { lemma_find_hit(s2, p3, "normal-type"@); } else { lemma_find_skip(s2, p3, "normal-type"@); }
            lemma_find_skip(s3, p4, "normal-type"@);
        }
        assert(find_kwarg_spec(s4, "normal-dots"@) == (if x.normal_dots > 0 { Some(x.normal_dots.to_sexpr_spec()) } else { None })) by {
            lemma_find_head_key("time-modification"@, "normal-dots"@);
            lemma_find_skip(s0, p1, "normal-dots"@);
            lemma_find_skip(s1, p2, "normal-dots"@);
            lemma_find_skip(s2, p3, "normal-dots"@);
            if p4.len() == 2 { lemma_find_hit(s3, p4, "normal-dots"@); } else { lemma_find_skip(s3, p4, "normal-dots"@); }
        }
}

impl RoundTrip for TimeModification {
    /// A value whose parts are writable.
    open spec fn writable(&self) -> bool {
        self.actual_notes.writable()
            && self.normal_notes.writable()
            && self.normal_type.writable()
            && self.normal_dots.writable()
    }

    open spec fn same(&self, other: &Self) -> bool {
        self.actual_notes.same(&other.actual_notes)
            && self.normal_notes.same(&other.normal_notes)
            && self.normal_type.same(&other.normal_type)
            && self.normal_dots.same(&other.normal_dots)
    }

    proof fn lemma_not_keyword(&self) {
    }

    proof fn lemma_no_error(&self) {
        lemma_time_modification_items(*self);
        self.actual_notes.lemma_no_error();
        self.normal_notes.lemma_no_error();
        self.normal_type.lemma_no_error();
        self.normal_dots.lemma_no_error();
    }

    proof fn lemma_value(&self, v: Self) {
        lemma_time_modification_items(*self);
        self.actual_notes.lemma_value(v.actual_notes);
        self.normal_notes.lemma_value(v.normal_notes);
        self.normal_type.lemma_value(v.normal_type);
        if self.normal_dots > 0 {
            self.normal_dots.lemma_value(v.normal_dots);
        }
    }
}

/// The head and keyword arguments of the S-expression of a `Rest`.
pub proof fn lemma_rest_items(x: Rest)
    requires
        x.writable(),
    ensures
        x.to_sexpr_spec() matches SexprV::List(items) && items.len() > 0 && items[0] == SexprV::Symbol("rest"@)
            && find_kwarg_spec(items, "measure"@) == (match x.measure { Some(y) => Some(y.to_sexpr_spec()), None => None })
            && find_kwarg_spec(items, "display-step"@) == (match x.display_step { Some(y) => Some(y.to_sexpr_spec()), None => None })
            && find_kwarg_spec(items, "display-octave"@) == (match x.display_octave { Some(y) => Some(y.to_sexpr_spec()), None => None }),
{
        assert("display-step"@ != "measure"@) by {
            reveal_strlit("display-step");
            assert("display-step"@.len() == 12);
            reveal_strlit("measure");
            assert("measure"@.len() == 7);
        }
        assert("display-octave"@ != "measure"@) by {
            reveal_strlit("display-octave");
            assert("display-octave"@.len() == 14);
            reveal_strlit("measure");
            assert("measure"@.len() == 7);
        }
        assert("display-octave"@ != "display-step"@) by {
            reveal_strlit("display-octave");
            assert("display-octave"@.len() == 14);
            reveal_strlit("display-step");
            assert("display-step"@.len() == 12);
        }
        let ghost s0 = seq![SexprV::Symbol("rest"@)];
        assert(ends_clean(s0));
        let ghost p1 = kw_opt("measure"@, x.measure);
        lemma_opt_piece("measure"@, x.measure);
        let ghost s1 = s0 + p1;
        lemma_ends_clean(s0, p1);
        let ghost p2 = kw_opt("display-step"@, x.display_step);
        lemma_opt_piece("display-step"@, x.display_step);
        let ghost s2 = s1 + p2;
        lemma_ends_clean(s1, p2);
        let ghost p3 = kw_opt("display-octave"@, x.display_octave);
        lemma_opt_piece("display-octave"@, x.display_octave);
        let ghost s3 = s2 + p3;
        lemma_ends_clean(s2, p3);
        assert(x.to_sexpr_spec() == SexprV::List(s3));
        assert(s3[0] == SexprV::Symbol("rest"@)) by {
            assert(s1[0] == s0[0]);
            assert(s2[0] == s1[0]);
            assert(s3[0] == s2[0]);
        }
        assert(find_kwarg_spec(s3, "measure"@) == (match x.measure { Some(y) => Some(y.to_sexpr_spec()), None => None })) by {
            lemma_find_head_key("rest"@, "measure"@);
            if p1.len() == 2 { lemma_find_hit(s0, p1, "measure"@); } else { lemma_find_skip(s0, p1, "measure"@); }
            lemma_find_skip(s1, p2, "measure"@);
            lemma_find_skip(s2, p3, "measure"@);
        }
        assert(find_kwarg_spec(s3, "display-step"@) == (match x.display_step { Some(y) => Some(y.to_sexpr_spec()), None => None })) by {
            lemma_find_head_key("rest"@, "display-step"@);
            lemma_find_skip(s0, p1, "display-step"@);
            if p2.len() == 2 { lemma_find_hit(s1, p2, "display-step"@); } else { lemma_find_skip(s1, p2, "display-step"@); }
            lemma_find_skip(s2, p3, "display-step"@);
        }
        assert(find_kwarg_spec(s3, "display-octave"@) == (match x.display_octave { Some(y) => Some(y.to_sexpr_spec()), None => None })) by {
            lemma_find_head_key("rest"@, "display-octave"@);
            lemma_find_skip(s0, p1, "display-octave"@);
            lemma_find_skip(s1, p2, "display-octave"@);
            if p3.len() == 2 { lemma_find_hit(s2, p3, "display-octave"@); } else { lemma_find_skip(s2, p3, "display-octave"@); }
        }
}

impl RoundTrip for Rest {
    /// A value whose parts are writable.
    open spec fn writable(&self) -> bool {
        self.measure.writable()
            && self.display_step.writable()
            && self.display_octave.writable()
    }

    open spec fn same(&self, other: &Self) -> bool {
        self.measure.same(&other.measure)
            && self.display_step.same(&other.display_step)
            && self.display_octave.same(&other.display_octave)
    }

    proof fn lemma_not_keyword(&self) {
    }

    proof fn lemma_no_error(&self) {
        lemma_rest_items(*self);
        self.measure.lemma_no_error();
        self.display_step.lemma_no_error();
        self.display_octave.lemma_no_error();
    }

    proof fn lemma_value(&self, v: Self) {
        lemma_rest_items(*self);
        self.measure.lemma_value(v.measure);
        self.display_step.lemma_value(v.display_step);
        self.display_octave.lemma_value(v.display_octave);
    }
}

/// The head and keyword arguments of the S-expression of a `FullNote`.
pub proof fn lemma_full_note_items(x: FullNote)
    requires
        x.writable(),
    ensures
        x.to_sexpr_spec() matches SexprV::List(items) && items.len() > 0 && items[0] == SexprV::Symbol("full-note"@)
            && find_kwarg_spec(items, "chord"@) == (if x.chord { Some(SexprV::Symbol("t"@)) } else { None })
            && find_kwarg_spec(items, "content"@) == (Some(x.content.to_sexpr_spec())),
{
        assert("content"@ != "chord"@) by {
            reveal_strlit("content");
            assert("content"@.len() == 7);
            reveal_strlit("chord");
            assert("chord"@.len() == 5);
        }
        let ghost s0 = seq![SexprV::Symbol("full-note"@)];
        assert(ends_clean(s0));
        let ghost p1 = kw_if(x.chord, "chord"@, SexprV::Symbol("t"@));
        lemma_if_piece(x.chord, "chord"@, SexprV::Symbol("t"@));
        let ghost s1 = s0 + p1;
        lemma_ends_clean(s0, p1);
        let ghost p2 = kw_pair("content"@, x.content.to_sexpr_spec());
        x.content.lemma_not_keyword();
        lemma_pair_piece("content"@, x.content.to_sexpr_spec());
        let ghost s2 = s1 + p2;
        lemma_ends_clean(s1, p2);
        assert(x.to_sexpr_spec() == SexprV::List(s2));
        assert(s2[0] == SexprV::Symbol("full-note"@)) by {
            assert(s1[0] == s0[0]);
            assert(s2[0] == s1[0]);
        }
        assert(find_kwarg_spec(s2, "chord"@) == (if x.chord { Some(SexprV::Symbol("t"@)) } else { None })) by {
            lemma_find_head_key("full-note"@, "chord"@);
            if p1.len() == 2 { lemma_find_hit(s0, p1, "chord"@); } else { lemma_find_skip(s0, p1, "chord"@); }
            lemma_find_skip(s1, p2, "chord"@);
        }
        assert(find_kwarg_spec(s2, "content"@) == (Some(x.content.to_sexpr_spec()))) by {
            lemma_find_head_key("full-note"@, "content"@);
            lemma_find_skip(s0, p1, "content"@);
            if p2.len() == 2 { lemma_find_hit(s1, p2, "content"@); } else { lemma_find_skip(s1, p2, "content"@); }
        }
}

impl RoundTrip for FullNote {
    /// A value whose parts are writable.
    open spec fn writable(&self) -> bool {
        self.chord.writable()
            && self.content.writable()
    }

    open spec fn same(&self, other: &Self) -> bool {
        self.chord.same(&other.chord)
            && self.content.same(&other.content)
    }

    proof fn lemma_not_keyword(&self) {
    }

    proof fn lemma_no_error(&self) {
        reveal_strlit("t");
        assert("t"@.len() == 1);
        reveal_strlit("nil");
        assert("nil"@.len() == 3);
        lemma_full_note_items(*self);
        self.chord.lemma_no_error();
        self.content.lemma_no_error();
    }

    proof fn lemma_value(&self, v: Self) {
        reveal_strlit("t");
        assert("t"@.len() == 1);
        reveal_strlit("nil");
        assert("nil"@.len() == 3);
        lemma_full_note_items(*self);
        self.content.lemma_value(v.content);
    }
}

/// The head and keyword arguments of the S-expression of a `Tie`.
pub proof fn lemma_tie_items(x: Tie)
    requires
        x.writable(),
    ensures
        x.to_sexpr_spec() matches SexprV::List(items) && items.len() > 0 && items[0] == SexprV::Symbol("tie"@)
            && find_kwarg_spec(items, "type"@) == (Some(x.type_.to_sexpr_spec()))
            && find_kwarg_spec(items, "time-only"@) == (match x.time_only { Some(y) => Some(y.to_sexpr_spec()), None => None }),
{
        assert("time-only"@ != "type"@) by {
            reveal_strlit("time-only");
            assert("time-only"@.len() == 9);
            reveal_strlit("type");
            assert("type"@.len() == 4);
        }
        let ghost s0 = seq![SexprV::Symbol("tie"@)];
        assert(ends_clean(s0));
        let ghost p1 = kw_pair("type"@, x.type_.to_sexpr_spec());
        x.type_.lemma_not_keyword();
        lemma_pair_piece("type"@, x.type_.to_sexpr_spec());
        let ghost s1 = s0 + p1;
        lemma_ends_clean(s0, p1);
        let ghost p2 = kw_opt("time-only"@, x.time_only);
        lemma_opt_piece("time-only"@, x.time_only);
        let ghost s2 = s1 + p2;
        lemma_ends_clean(s1, p2);
        assert(x.to_sexpr_spec() == SexprV::List(s2));
        assert(s2[0] == SexprV::Symbol("tie"@)) by {
            assert(s1[0] == s0[0]);
            assert(s2[0] == s1[0]);
        }
        assert(find_kwarg_spec(s2, "type"@) == (Some(x.type_.to_sexpr_spec()))) by {
            lemma_find_head_key("tie"@, "type"@);
            if p1.len() == 2 { lemma_find_hit(s0, p1, "type"@); } else { lemma_find_skip(s0, p1, "type"@); }
            lemma_find_skip(s1, p2, "type"@);
        }
        assert(find_kwarg_spec(s2, "time-only"@) == (match x.time_only { Some(y) => Some(y.to_sexpr_spec()), None => None })) by {
            lemma_find_head_key("tie"@, "time-only"@);
            lemma_find_skip(s0, p1, "time-only"@);
            if p2.len() == 2 { lemma_find_hit(s1, p2, "time-only"@); } else { lemma_find_skip(s1, p2, "time-only"@); }
        }
}

impl RoundTrip for Tie {
    /// A value whose parts are writable.
    open spec fn writable(&self) -> bool {
        self.type_.writable()
            && self.time_only.writable()
    }

    open spec fn same(&self, other: &Self) -> bool {
        self.type_.same(&other.type_)
            && self.time_only.same(&other.time_only)
    }

    proof fn lemma_not_keyword(&self) {
    }

    proof fn lemma_no_error(&self) {
        lemma_tie_items(*self);
        self.type_.lemma_no_error();
        self.time_only.lemma_no_error();
    }

    proof fn lemma_value(&self, v: Self) {
        lemma_tie_items(*self);
        self.type_.lemma_value(v.type_);
        self.time_only.lemma_value(v.time_only);
    }
}

/// The head and keyword arguments of the S-expression of a `Grace`.
pub proof fn lemma_grace_items(x: Grace)
    requires
        x.writable(),
    ensures
        x.to_sexpr_spec() matches SexprV::List(items) && items.len() > 0 && items[0] == SexprV::Symbol("grace"@)
            && find_kwarg_spec(items, "steal-time-previous"@) == (match x.steal_time_previous { Some(y) => Some(y.to_sexpr_spec()), None => None })
            && find_kwarg_spec(items, "steal-time-following"@) == (match x.steal_time_following { Some(y) => Some(y.to_sexpr_spec()), None => None })
            && find_kwarg_spec(items, "make-time"@) == (match x.make_time { Some(y) => Some(y.to_sexpr_spec()), None => None })
            && find_kwarg_spec(items, "slash"@) == (match x.slash { Some(y) => Some(y.to_sexpr_spec()), None => None }),
{
        assert("steal-time-following"@ != "steal-time-previous"@) by {
            reveal_strlit("steal-time-following");
            assert("steal-time-following"@.len() == 20);
            reveal_strlit("steal-time-previous");
            assert("steal-time-previous"@.len() == 19);
        }
        assert("make-time"@ != "steal-time-previous"@) by {
            reveal_strlit("make-time");
            assert("make-time"@.len() == 9);
            reveal_strlit("steal-time-previous");
            assert("steal-time-previous"@.len() == 19);
        }
        assert("slash"@ != "steal-time-previous"@) by {
            reveal_strlit("slash");
            assert("slash"@.len() == 5);
            reveal_strlit("steal-time-previous");
            assert("steal-time-previous"@.len() == 19);
        }
        assert("make-time"@ != "steal-time-following"@) by {
            reveal_strlit("make-time");
            assert("make-time"@.len() == 9);
            reveal_strlit("steal-time-following");
            assert("steal-time-following"@.len() == 20);
        }
        assert("slash"@ != "steal-time-following"@) by {
            reveal_strlit("slash");
            assert("slash"@.len() == 5);
            reveal_strlit("steal-time-following");
            assert("steal-time-following"@.len() == 20);
        }
        assert("slash"@ != "make-time"@) by {
            reveal_strlit("slash");
            assert("slash"@.len() == 5);
            reveal_strlit("make-time");
            assert("make-time"@.len() == 9);
        }
        let ghost s0 = seq![SexprV::Symbol("grace"@)];
        assert(ends_clean(s0));
        let ghost p1 = kw_opt("steal-time-previous"@, x.steal_time_previous);
        lemma_opt_piece("steal-time-previous"@, x.steal_time_previous);
        let ghost s1 = s0 + p1;
        lemma_ends_clean(s0, p1);
        let ghost p2 = kw_opt("steal-time-following"@, x.steal_time_following);
        lemma_opt_piece("steal-time-following"@, x.steal_time_following);
        let ghost s2 = s1 + p2;
        lemma_ends_clean(s1, p2);
        let ghost p3 = kw_opt("make-time"@, x.make_time);
        lemma_opt_piece("make-time"@, x.make_time);
        let ghost s3 = s2 + p3;
        lemma_ends_clean(s2, p3);
        let ghost p4 = kw_opt("slash"@, x.slash);
        lemma_opt_piece("slash"@, x.slash);
        let ghost s4 = s3 + p4;
        lemma_ends_clean(s3, p4);
        assert(x.to_sexpr_spec() == SexprV::List(s4));
        assert(s4[0] == SexprV::Symbol("grace"@)) by {
            assert(s1[0] == s0[0]);
            assert(s2[0] == s1[0]);
            assert(s3[0] == s2[0]);
            assert(s4[0] == s3[0]);
        }
        assert(find_kwarg_spec(s4, "steal-time-previous"@) == (match x.steal_time_previous { Some(y) => Some(y.to_sexpr_spec()), None => None })) by {
            lemma_find_head_key("grace"@, "steal-time-previous"@);
            if p1.len() == 2 { lemma_find_hit(s0, p1, "steal-time-previous"@); } else { lemma_find_skip(s0, p1, "steal-time-previous"@); }
            lemma_find_skip(s1, p2, "steal-time-previous"@);
            lemma_find_skip(s2, p3, "steal-time-previous"@);
            lemma_find_skip(s3, p4, "steal-time-previous"@);
        }
        assert(find_kwarg_spec(s4, "steal-time-following"@) == (match x.steal_time_following { Some(y) => Some(y.to_sexpr_spec()), None => None })) by {
            lemma_find_head_key("grace"@, "steal-time-following"@);
            lemma_find_skip(s0, p1, "steal-time-following"@);
            if p2.len() == 2 { lemma_find_hit(s1, p2, "steal-time-following"@); } else { lemma_find_skip(s1, p2, "steal-time-following"@); }
            lemma_find_skip(s2, p3, "steal-time-following"@);
            lemma_find_skip(s3, p4, "steal-time-following"@);
        }
        assert(find_kwarg_spec(s4, "make-time"@) == (match x.make_time { Some(y) => Some(y.to_sexpr_spec()), None => None })) by {
            lemma_find_head_key("grace"@, "make-time"@);
            lemma_find_skip(s0, p1, "make-time"@);
            lemma_find_skip(s1, p2, "make-time"@);
            if p3.len() == 2 { lemma_find_hit(s2, p3, "make-time"@); } else { lemma_find_skip(s2, p3, "make-time"@); }
            lemma_find_skip(s3, p4, "make-time"@);
        }
        assert(find_kwarg_spec(s4, "slash"@) == (match x.slash { Some(y) => Some(y.to_sexpr_spec()), None => None })) by {
            lemma_find_head_key("grace"@, "slash"@);
            lemma_find_skip(s0, p1, "slash"@);
            lemma_find_skip(s1, p2, "slash"@);
            lemma_find_skip(s2, p3, "slash"@);
            if p4.len() == 2 { lemma_find_hit(s3, p4, "slash"@); } else { lemma_find_skip(s3, p4, "slash"@); }
        }
}

impl RoundTrip for Grace {
    /// A value whose parts are writable.
    open spec fn writable(&self) -> bool {
        self.steal_time_previous.writable()
            && self.steal_time_following.writable()
            && self.make_time.writable()
            && self.slash.writable()
    }

    open spec fn same(&self, other: &Self) -> bool {
        self.steal_time_previous.same(&other.steal_time_previous)
            && self.steal_time_following.same(&other.steal_time_following)
            && self.make_time.same(&other.make_time)
            && self.slash.same(&other.slash)
    }

    proof fn lemma_not_keyword(&self) {
    }

    proof fn lemma_no_error(&self) {
        lemma_grace_items(*self);
        self.steal_time_previous.lemma_no_error();
        self.steal_time_following.lemma_no_error();
        self.make_time.lemma_no_error();
        self.slash.lemma_no_error();
    }

    proof fn lemma_value(&self, v: Self) {
        lemma_grace_items(*self);
        self.steal_time_previous.lemma_value(v.steal_time_previous);
        self.steal_time_following.lemma_value(v.steal_time_following);
        self.make_time.lemma_value(v.make_time);
        self.slash.lemma_value(v.slash);
    }
}

/// The head and keyword arguments of the S-expression of a `Accidental`.
pub proof fn lemma_accidental_items(x: Accidental)
    requires
        x.writable(),
    ensures
        x.to_sexpr_spec() matches SexprV::List(items) && items.len() > 0 && items[0] == SexprV::Symbol("accidental"@)
            && find_kwarg_spec(items, "value"@) == (Some(x.value.to_sexpr_spec()))
            && find_kwarg_spec(items, "cautionary"@) == (match x.cautionary { Some(y) => Some(y.to_sexpr_spec()), None => None })
            && find_kwarg_spec(items, "editorial"@) == (match x.editorial { Some(y) => Some(y.to_sexpr_spec()), None => None })
            && find_kwarg_spec(items, "parentheses"@) == (match x.parentheses { Some(y) => Some(y.to_sexpr_spec()), None => None })
            && find_kwarg_spec(items, "bracket"@) == (match x.bracket { Some(y) => Some(y.to_sexpr_spec()), None => None })
            && find_kwarg_spec(items, "size"@) == (match x.size { Some(y) => Some(y.to_sexpr_spec()), None => None }),
{
        assert("cautionary"@ != "value"@) by {
            reveal_strlit("cautionary");
            assert("cautionary"@.len() == 10);
            reveal_strlit("value");
            assert("value"@.len() == 5);
        }
        assert("editorial"@ != "value"@) by {
            reveal_strlit("editorial");
            assert("editorial"@.len() == 9);
            reveal_strlit("value");
            assert("value"@.len() == 5);
        }
        assert("parentheses"@ != "value"@) by {
            reveal_strlit("parentheses");
            assert("parentheses"@.len() == 11);
            reveal_strlit("value");
            assert("value"@.len() == 5);
        }
        assert("bracket"@ != "value"@) by {
            reveal_strlit("bracket");
            assert("bracket"@.len() == 7);
            reveal_strlit("value");
            assert("value"@.len() == 5);
        }
        assert("size"@ != "value"@) by {
            reveal_strlit("size");
            assert("size"@.len() == 4);
            reveal_strlit("value");
            assert("value"@.len() == 5);
        }
        assert("editorial"@ != "cautionary"@) by {
            reveal_strlit("editorial");
            assert("editorial"@.len() == 9);
            reveal_strlit("cautionary");
            assert("cautionary"@.len() == 10);
        }
        assert("parentheses"@ != "cautionary"@) by {
            reveal_strlit("parentheses");
            assert("parentheses"@.len() == 11);
            reveal_strlit("cautionary");
            assert("cautionary"@.len() == 10);
        }
        assert("bracket"@ != "cautionary"@) by {
            reveal_strlit("bracket");
            assert("bracket"@.len() == 7);
            reveal_strlit("cautionary");
            assert("cautionary"@.len() == 10);
        }
        assert("size"@ != "cautionary"@) by {
            reveal_strlit("size");
            assert("size"@.len() == 4);
            reveal_strlit("cautionary");
            assert("cautionary"@.len() == 10);
        }
        assert("parentheses"@ != "editorial"@) by {
            reveal_strlit("parentheses");
            assert("parentheses"@.len() == 11);
            reveal_strlit("editorial");
            assert("editorial"@.len() == 9);
        }
        assert("bracket"@ != "editorial"@) by {
            reveal_strlit("bracket");
            assert("bracket"@.len() == 7);
            reveal_strlit("editorial");
            assert("editorial"@.len() == 9);
        }
        assert("size"@ != "editorial"@) by {
            reveal_strlit("size");
            assert("size"@.len() == 4);
            reveal_strlit("editorial");
            assert("editorial"@.len() == 9);
        }
        assert("bracket"@ != "parentheses"@) by {
            reveal_strlit("bracket");
            assert("bracket"@.len() == 7);
            reveal_strlit("parentheses");
            assert("parentheses"@.len() == 11);
        }
        assert("size"@ != "parentheses"@) by {
            reveal_strlit("size");
            assert("size"@.len() == 4);
            reveal_strlit("parentheses");
            assert("parentheses"@.len() == 11);
        }
        assert("size"@ != "bracket"@) by {
            reveal_strlit("size");
            assert("size"@.len() == 4);
            reveal_strlit("bracket");
            assert("bracket"@.len() == 7);
        }
        let ghost s0 = seq![SexprV::Symbol("accidental"@)];
        assert(ends_clean(s0));
        let ghost p1 = kw_pair("value"@, x.value.to_sexpr_spec());
        x.value.lemma_not_keyword();
        lemma_pair_piece("value"@, x.value.to_sexpr_spec());
        let ghost s1 = s0 + p1;
        lemma_ends_clean(s0, p1);
        let ghost p2 = kw_opt("cautionary"@, x.cautionary);
        lemma_opt_piece("cautionary"@, x.cautionary);
        let ghost s2 = s1 + p2;
        lemma_ends_clean(s1, p2);
        let ghost p3 = kw_opt("editorial"@, x.editorial);
        lemma_opt_piece("editorial"@, x.editorial);
        let ghost s3 = s2 + p3;
        lemma_ends_clean(s2, p3);
        let ghost p4 = kw_opt("parentheses"@, x.parentheses);
        lemma_opt_piece("parentheses"@, x.parentheses);
        let ghost s4 = s3 + p4;
        lemma_ends_clean(s3, p4);
        let ghost p5 = kw_opt("bracket"@, x.bracket);
        lemma_opt_piece("bracket"@, x.bracket);
        let ghost s5 = s4 + p5;
        lemma_ends_clean(s4, p5);
        let ghost p6 = kw_opt("size"@, x.size);
        lemma_opt_piece("size"@, x.size);
        let ghost s6 = s5 + p6;
        lemma_ends_clean(s5, p6);
        assert(x.to_sexpr_spec() == SexprV::List(s6));
        assert(s6[0] == SexprV::Symbol("accidental"@)) by {
            assert(s1[0] == s0[0]);
            assert(s2[0] == s1[0]);
            assert(s3[0] == s2[0]);
            assert(s4[0] == s3[0]);
            assert(s5[0] == s4[0]);
            assert(s6[0] == s5[0]);
        }
        assert(find_kwarg_spec(s6, "value"@) == (Some(x.value.to_sexpr_spec()))) by {
            lemma_find_head_key("accidental"@, "value"@);
            if p1.len() == 2 { lemma_find_hit(s0, p1, "value"@); } else { lemma_find_skip(s0, p1, "value"@); }
            lemma_find_skip(s1, p2, "value"@);
            lemma_find_skip(s2, p3, "value"@);
            lemma_find_skip(s3, p4, "value"@);
            lemma_find_skip(s4, p5, "value"@);
            lemma_find_skip(s5, p6, "value"@);
        }
        assert(find_kwarg_spec(s6, "cautionary"@) == (match x.cautionary { Some(y) => Some(y.to_sexpr_spec()), None => None })) by {
            lemma_find_head_key("accidental"@, "cautionary"@);
            lemma_find_skip(s0, p1, "cautionary"@);
            if p2.len() == 2 { lemma_find_hit(s1, p2, "cautionary"@); } else { lemma_find_skip(s1, p2, "cautionary"@); }
            lemma_find_skip(s2, p3, "cautionary"@);
            lemma_find_skip(s3, p4, "cautionary"@);
            lemma_find_skip(s4, p5, "cautionary"@);
            lemma_find_skip(s5, p6, "cautionary"@);
        }
        assert(find_kwarg_spec(s6, "editorial"@) == (match x.editorial { Some(y) => Some(y.to_sexpr_spec()), None => None })) by {
            lemma_find_head_key("accidental"@, "editorial"@);
            lemma_find_skip(s0, p1, "editorial"@);
            lemma_find_skip(s1, p2, "editorial"@);
            if p3.len() == 2 { lemma_find_hit(s2, p3, "editorial"@); } else { lemma_find_skip(s2, p3, "editorial"@); }
            lemma_find_skip(s3, p4, "editorial"@);
            lemma_find_skip(s4, p5, "editorial"@);
            lemma_find_skip(s5, p6, "editorial"@);
        }
        assert(find_kwarg_spec(s6, "parentheses"@) == (match x.parentheses { Some(y) => Some(y.to_sexpr_spec()), None => None })) by {
            lemma_find_head_key("accidental"@, "parentheses"@);
            lemma_find_skip(s0, p1, "parentheses"@);
            lemma_find_skip(s1, p2, "parentheses"@);
            lemma_find_skip(s2, p3, "parentheses"@);
            if p4.len() == 2 { lemma_find_hit(s3, p4, "parentheses"@); } else { lemma_find_skip(s3, p4, "parentheses"@); }
            lemma_find_skip(s4, p5, "parentheses"@);
            lemma_find_skip(s5, p6, "parentheses"@);
        }
        assert(find_kwarg_spec(s6, "bracket"@) == (match x.bracket { Some(y) => Some(y.to_sexpr_spec()), None => None })) by {
            lemma_find_head_key("accidental"@, "bracket"@);
            lemma_find_skip(s0, p1, "bracket"@);
            lemma_find_skip(s1, p2, "bracket"@);
            lemma_find_skip(s2, p3, "bracket"@);
            lemma_find_skip(s3, p4, "bracket"@);
            if p5.len() == 2 { lemma_find_hit(s4, p5, "bracket"@); } else { lemma_find_skip(s4, p5, "bracket"@); }
            lemma_find_skip(s5, p6, "bracket"@);
        }
        assert(find_kwarg_spec(s6, "size"@) == (match x.size { Some(y) => Some(y.to_sexpr_spec()), None => None })) by {
            lemma_find_head_key("accidental"@, "size"@);
            lemma_find_skip(s0, p1, "size"@);
            lemma_find_skip(s1, p2, "size"@);
            lemma_find_skip(s2, p3, "size"@);
            lemma_find_skip(s3, p4, "size"@);
            lemma_find_skip(s4, p5, "size"@);
            if p6.len() == 2 { lemma_find_hit(s5, p6, "size"@); } else { lemma_find_skip(s5, p6, "size"@); }
        }
}

impl RoundTrip for Accidental {
    /// A value whose parts are writable.
    open spec fn writable(&self) -> bool {
        self.value.writable()
            && self.cautionary.writable()
            && self.editorial.writable()
            && self.parentheses.writable()
            && self.bracket.writable()
            && self.size.writable()
    }

    open spec fn same(&self, other: &Self) -> bool {
        self.value.same(&other.value)
            && self.cautionary.same(&other.cautionary)
            && self.editorial.same(&other.editorial)
            && self.parentheses.same(&other.parentheses)
            && self.bracket.same(&other.bracket)
            && self.size.same(&other.size)
    }

    proof fn lemma_not_keyword(&self) {
    }

    proof fn lemma_no_error(&self) {
        lemma_accidental_items(*self);
        self.value.lemma_no_error();
        self.cautionary.lemma_no_error();
        self.editorial.lemma_no_error();
        self.parentheses.lemma_no_error();
        self.bracket.lemma_no_error();
        self.size.lemma_no_error();
    }

    proof fn lemma_value(&self, v: Self) {
        lemma_accidental_items(*self);
        self.value.lemma_value(v.value);
        self.cautionary.lemma_value(v.cautionary);
        self.editorial.lemma_value(v.editorial);
        self.parentheses.lemma_value(v.parentheses);
        self.bracket.lemma_value(v.bracket);
        self.size.lemma_value(v.size);
    }
}

/// The head and keyword arguments of the S-expression of a `Instrument`.
pub proof fn lemma_instrument_items(x: Instrument)
    requires
        x.writable(),
    ensures
        x.to_sexpr_spec() matches SexprV::List(items) && items.len() > 0 && items[0] == SexprV::Symbol("instrument"@)
            && find_kwarg_spec(items, "id"@) == (Some(x.id.to_sexpr_spec())),
{
        let ghost s0 = seq![SexprV::Symbol("instrument"@)];
        assert(ends_clean(s0));
        let ghost p1 = kw_pair("id"@, x.id.to_sexpr_spec());
        x.id.lemma_not_keyword();
        lemma_pair_piece("id"@, x.id.to_sexpr_spec());
        let ghost s1 = s0 + p1;
        lemma_ends_clean(s0, p1);
        assert(x.to_sexpr_spec() == SexprV::List(s1));
        assert(s1[0] == SexprV::Symbol("instrument"@)) by {
            assert(s1[0] == s0[0]);
        }
        assert(find_kwarg_spec(s1, "id"@) == (Some(x.id.to_sexpr_spec()))) by {
            lemma_find_head_key("instrument"@, "id"@);
            if p1.len() == 2 { lemma_find_hit(s0, p1, "id"@); } else { lemma_find_skip(s0, p1, "id"@); }
        }
}

impl RoundTrip for Instrument {
    /// A value whose parts are writable.
    open spec fn writable(&self) -> bool {
        self.id.writable()
    }

    open spec fn same(&self, other: &Self) -> bool {
        self.id.same(&other.id)
    }

    proof fn lemma_not_keyword(&self) {
    }

    proof fn lemma_no_error(&self) {
        lemma_instrument_items(*self);
        self.id.lemma_no_error();
    }

    proof fn lemma_value(&self, v: Self) {
        lemma_instrument_items(*self);
        self.id.lemma_value(v.id);
    }
}

impl RoundTrip for PitchRestUnpitched {
    /// A variant holding a writable value.
    open spec fn writable(&self) -> bool {
        match self {
            PitchRestUnpitched::Pitch(x) => x.writable(),
            PitchRestUnpitched::Rest(x) => x.writable(),
            PitchRestUnpitched::Unpitched(x) => x.writable(),
        }
    }

    open spec fn same(&self, other: &Self) -> bool {
        match (self, other) {
            (PitchRestUnpitched::Pitch(a), PitchRestUnpitched::Pitch(b)) => a.same(b),
            (PitchRestUnpitched::Rest(a), PitchRestUnpitched::Rest(b)) => a.same(b),
            (PitchRestUnpitched::Unpitched(a), PitchRestUnpitched::Unpitched(b)) => a.same(b),
            _ => false,
        }
    }

    proof fn lemma_not_keyword(&self) {
        match self {
            PitchRestUnpitched::Pitch(x) => x.lemma_not_keyword(),
            PitchRestUnpitched::Rest(x) => x.lemma_not_keyword(),
            PitchRestUnpitched::Unpitched(x) => x.lemma_not_keyword(),
        }
    }

    proof fn lemma_no_error(&self) {
        reveal_strlit("pitch");
        assert("pitch"@.len() == 5);
        reveal_strlit("rest");
        assert("rest"@.len() == 4);
        reveal_strlit("unpitched");
        assert("unpitched"@.len() == 9);
        reveal_strlit("data");
        assert("data"@.len() == 4);
        assert("rest"@[0] == 'r');
        assert("data"@[0] == 'd');
        match self {
            PitchRestUnpitched::Pitch(x) => {
                x.lemma_no_error();
                lemma_pitch_items(*x);
            },
            PitchRestUnpitched::Rest(x) => {
                x.lemma_no_error();
                lemma_rest_items(*x);
            },
            PitchRestUnpitched::Unpitched(x) => {
                x.lemma_no_error();
                lemma_unpitched_items(*x);
            },
        }
    }

    proof fn lemma_value(&self, v: Self) {
        reveal_strlit("pitch");
        assert("pitch"@.len() == 5);
        reveal_strlit("rest");
        assert("rest"@.len() == 4);
        reveal_strlit("unpitched");
        assert("unpitched"@.len() == 9);
        reveal_strlit("data");
        assert("data"@.len() == 4);
        assert("rest"@[0] == 'r');
        assert("data"@[0] == 'd');
        match self {
            PitchRestUnpitched::Pitch(x) => {
                x.lemma_no_error();
                lemma_pitch_items(*x);
                if let PitchRestUnpitched::Pitch(z) = v {
                    x.lemma_value(z);
                }
            },
            PitchRestUnpitched::Rest(x) => {
                x.lemma_no_error();
                lemma_rest_items(*x);
                if let PitchRestUnpitched::Rest(z) = v {
                    x.lemma_value(z);
                }
            },
            PitchRestUnpitched::Unpitched(x) => {
                x.lemma_no_error();
                lemma_unpitched_items(*x);
                if let PitchRestUnpitched::Unpitched(z) = v {
                    x.lemma_value(z);
                }
            },
        }
    }
}

/// The head and the keyword arguments of the S-expression of a `NoteContent`.
pub proof fn lemma_note_content_items(x: NoteContent)
    requires
        x.writable(),
    ensures
        match x {
            NoteContent::Regular { full_note, duration, ties } => x.to_sexpr_spec() matches SexprV::List(items) && items.len() > 0 && items[0] == SexprV::Symbol("regular"@) && find_kwarg_spec(items, "full-note"@) == (Some(full_note.to_sexpr_spec())) && find_kwarg_spec(items, "duration"@) == (Some(duration.to_sexpr_spec())) && find_kwarg_spec(items, "ties"@) == (if ties@.len() > 0 { Some(ties.to_sexpr_spec()) } else { None }),
            NoteContent::Grace { grace, full_note, ties } => x.to_sexpr_spec() matches SexprV::List(items) && items.len() > 0 && items[0] == SexprV::Symbol("grace-note"@) && find_kwarg_spec(items, "grace"@) == (Some(grace.to_sexpr_spec())) && find_kwarg_spec(items, "full-note"@) == (Some(full_note.to_sexpr_spec())) && find_kwarg_spec(items, "ties"@) == (if ties@.len() > 0 { Some(ties.to_sexpr_spec()) } else { None }),
            NoteContent::Cue { full_note, duration } => x.to_sexpr_spec() matches SexprV::List(items) && items.len() > 0 && items[0] == SexprV::Symbol("cue"@) && find_kwarg_spec(items, "full-note"@) == (Some(full_note.to_sexpr_spec())) && find_kwarg_spec(items, "duration"@) == (Some(duration.to_sexpr_spec())),
        },
{
        reveal_strlit("regular");
        assert("regular"@.len() == 7);
        reveal_strlit("grace-note");
        assert("grace-note"@.len() == 10);
        reveal_strlit("cue");
        assert("cue"@.len() == 3);
        reveal_strlit("full-note");
        assert("full-note"@.len() == 9);
        reveal_strlit("duration");
        assert("duration"@.len() == 8);
        reveal_strlit("ties");
        assert("ties"@.len() == 4);
        reveal_strlit("grace");
        assert("grace"@.len() == 5);
        match x {
            NoteContent::Regular { full_note, duration, ties } => {
                full_note.lemma_not_keyword();
                duration.lemma_not_keyword();
                ties.lemma_not_keyword();
                let ghost s0 = seq![SexprV::Symbol("regular"@)];
                let ghost p1 = kw_pair("full-note"@, full_note.to_sexpr_spec());
                let ghost s1 = s0 + p1;
                let ghost p2 = kw_pair("duration"@, duration.to_sexpr_spec());
                let ghost s2 = s1 + p2;
                let ghost p3 = kw_if(ties@.len() > 0, "ties"@, ties.to_sexpr_spec());
                let ghost s3 = s2 + p3;
                assert(x.to_sexpr_spec() == SexprV::List(s3));
                assert(s3.len() > 0 && s3[0] == SexprV::Symbol("regular"@)) by {
                    lemma_find_head_key("regular"@, "regular"@);
                    lemma_find_after_key(s0, p1, "regular"@);
                    lemma_find_after_key(s1, p2, "regular"@);
                    lemma_find_after_key(s2, p3, "regular"@);
                }
                assert(find_kwarg_spec(s3, "full-note"@) == (Some(full_note.to_sexpr_spec()))) by {
                    lemma_find_head_key("regular"@, "full-note"@);
                    lemma_find_after_key(s0, p1, "full-note"@);
                    lemma_find_after_key(s1, p2, "full-note"@);
                    lemma_find_after_key(s2, p3, "full-note"@);
                }
                assert(find_kwarg_spec(s3, "duration"@) == (Some(duration.to_sexpr_spec()))) by {
                    lemma_find_head_key("regular"@, "duration"@);
                    lemma_find_after_key(s0, p1, "duration"@);
                    lemma_find_after_key(s1, p2, "duration"@);
                    lemma_find_after_key(s2, p3, "duration"@);
                }
                assert(find_kwarg_spec(s3, "ties"@) == (if ties@.len() > 0 { Some(ties.to_sexpr_spec()) } else { None })) by {
                    lemma_find_head_key("regular"@, "ties"@);
                    lemma_find_after_key(s0, p1, "ties"@);
                    lemma_find_after_key(s1, p2, "ties"@);
                    lemma_find_after_key(s2, p3, "ties"@);
                }
            },
            NoteContent::Grace { grace, full_note, ties } => {
                grace.lemma_not_keyword();
                full_note.lemma_not_keyword();
                ties.lemma_not_keyword();
                let ghost s0 = seq![SexprV::Symbol("grace-note"@)];
                let ghost p1 = kw_pair("grace"@, grace.to_sexpr_spec());
                let ghost s1 = s0 + p1;
                let ghost p2 = kw_pair("full-note"@, full_note.to_sexpr_spec());
                let ghost s2 = s1 + p2;
                let ghost p3 = kw_if(ties@.len() > 0, "ties"@, ties.to_sexpr_spec());
                let ghost s3 = s2 + p3;
                assert(x.to_sexpr_spec() == SexprV::List(s3));
                assert(s3.len() > 0 && s3[0] == SexprV::Symbol("grace-note"@)) by {
                    lemma_find_head_key("grace-note"@, "grace-note"@);
                    lemma_find_after_key(s0, p1, "grace-note"@);
                    lemma_find_after_key(s1, p2, "grace-note"@);
                    lemma_find_after_key(s2, p3, "grace-note"@);
                }
                assert(find_kwarg_spec(s3, "grace"@) == (Some(grace.to_sexpr_spec()))) by {
                    lemma_find_head_key("grace-note"@, "grace"@);
                    lemma_find_after_key(s0, p1, "grace"@);
                    lemma_find_after_key(s1, p2, "grace"@);
                    lemma_find_after_key(s2, p3, "grace"@);
                }
                assert(find_kwarg_spec(s3, "full-note"@) == (Some(full_note.to_sexpr_spec()))) by {
                    lemma_find_head_key("grace-note"@, "full-note"@);
                    lemma_find_after_key(s0, p1, "full-note"@);
                    lemma_find_after_key(s1, p2, "full-note"@);
                    lemma_find_after_key(s2, p3, "full-note"@);
                }
                assert(find_kwarg_spec(s3, "ties"@) == (if ties@.len() > 0 { Some(ties.to_sexpr_spec()) } else { None })) by {
                    lemma_find_head_key("grace-note"@, "ties"@);
                    lemma_find_after_key(s0, p1, "ties"@);
                    lemma_find_after_key(s1, p2, "ties"@);
                    lemma_find_after_key(s2, p3, "ties"@);
                }
            },
            NoteContent::Cue { full_note, duration } => {
                full_note.lemma_not_keyword();
                duration.lemma_not_keyword();
                let ghost s0 = seq![SexprV::Symbol("cue"@)];
                let ghost p1 = kw_pair("full-note"@, full_note.to_sexpr_spec());
                let ghost s1 = s0 + p1;
                let ghost p2 = kw_pair("duration"@, duration.to_sexpr_spec());
                let ghost s2 = s1 + p2;
                assert(x.to_sexpr_spec() == SexprV::List(s2));
                assert(s2.len() > 0 && s2[0] == SexprV::Symbol("cue"@)) by {
                    lemma_find_head_key("cue"@, "cue"@);
                    lemma_find_after_key(s0, p1, "cue"@);
                    lemma_find_after_key(s1, p2, "cue"@);
                }
                assert(find_kwarg_spec(s2, "full-note"@) == (Some(full_note.to_sexpr_spec()))) by {
                    lemma_find_head_key("cue"@, "full-note"@);
                    lemma_find_after_key(s0, p1, "full-note"@);
                    lemma_find_after_key(s1, p2, "full-note"@);
                }
                assert(find_kwarg_spec(s2, "duration"@) == (Some(duration.to_sexpr_spec()))) by {
                    lemma_find_head_key("cue"@, "duration"@);
                    lemma_find_after_key(s0, p1, "duration"@);
                    lemma_find_after_key(s1, p2, "duration"@);
                }
            },
        }
}

impl RoundTrip for NoteContent {
    /// A note whose parts are writable.
    open spec fn writable(&self) -> bool {
        match self {
            NoteContent::Regular { full_note, duration, ties } => full_note.writable() && duration.writable()
                && ties.writable(),
            NoteContent::Grace { grace, full_note, ties } => grace.writable() && full_note.writable()
                && ties.writable(),
            NoteContent::Cue { full_note, duration } => full_note.writable() && duration.writable(),
        }
    }

    open spec fn same(&self, other: &Self) -> bool {
        match (self, other) {
            (
                NoteContent::Regular { full_note: a, duration: b, ties: c },
                NoteContent::Regular { full_note: x, duration: y, ties: z },
            ) => a.same(x) && b.same(y) && c.same(z),
            (
                NoteContent::Grace { grace: a, full_note: b, ties: c },
                NoteContent::Grace { grace: x, full_note: y, ties: z },
            ) => a.same(x) && b.same(y) && c.same(z),
            (
                NoteContent::Cue { full_note: a, duration: b },
                NoteContent::Cue { full_note: x, duration: y },
            ) => a.same(x) && b.same(y),
            _ => false,
        }
    }

    proof fn lemma_not_keyword(&self) {
    }

    proof fn lemma_no_error(&self) {
        reveal_strlit("regular");
        assert("regular"@.len() == 7);
        reveal_strlit("grace-note");
        assert("grace-note"@.len() == 10);
        reveal_strlit("cue");
        assert("cue"@.len() == 3);
        reveal_strlit("full-note");
        assert("full-note"@.len() == 9);
        reveal_strlit("duration");
        assert("duration"@.len() == 8);
        reveal_strlit("ties");
        assert("ties"@.len() == 4);
        reveal_strlit("grace");
        assert("grace"@.len() == 5);
        lemma_note_content_items(*self);
        match self {
            NoteContent::Regular { full_note, duration, ties } => {
                full_note.lemma_no_error();
                duration.lemma_no_error();
                ties.lemma_no_error();
            },
            NoteContent::Grace { grace, full_note, ties } => {
                grace.lemma_no_error();
                full_note.lemma_no_error();
                ties.lemma_no_error();
            },
            NoteContent::Cue { full_note, duration } => {
                full_note.lemma_no_error();
                duration.lemma_no_error();
            },
        }
    }

    proof fn lemma_value(&self, v: Self) {
        reveal_strlit("regular");
        assert("regular"@.len() == 7);
        reveal_strlit("grace-note");
        assert("grace-note"@.len() == 10);
        reveal_strlit("cue");
        assert("cue"@.len() == 3);
        reveal_strlit("full-note");
        assert("full-note"@.len() == 9);
        reveal_strlit("duration");
        assert("duration"@.len() == 8);
        reveal_strlit("ties");
        assert("ties"@.len() == 4);
        reveal_strlit("grace");
        assert("grace"@.len() == 5);
        lemma_note_content_items(*self);
        match self {
            NoteContent::Regular { full_note, duration, ties } => {
                if let NoteContent::Regular { full_note: z_full_note, duration: z_duration, ties: z_ties } = v {
                    full_note.lemma_value(z_full_note);
                    duration.lemma_value(z_duration);
                    if ties@.len() > 0 {
                        ties.lemma_value(z_ties);
                    }
                }
            },
            NoteContent::Grace { grace, full_note, ties } => {
                if let NoteContent::Grace { grace: z_grace, full_note: z_full_note, ties: z_ties } = v {
                    grace.lemma_value(z_grace);
                    full_note.lemma_value(z_full_note);
                    if ties@.len() > 0 {
                        ties.lemma_value(z_ties);
                    }
                }
            },
            NoteContent::Cue { full_note, duration } => {
                if let NoteContent::Cue { full_note: z_full_note, duration: z_duration } = v {
                    full_note.lemma_value(z_full_note);
                    duration.lemma_value(z_duration);
                }
            },
        }
    }
}

/// The head and keyword arguments of the S-expression of a `Note`, part 1.
#[verifier::rlimit(40)]
pub proof fn lemma_note_items_0(x: Note)
    requires
        x.writable(),
    ensures
        x.to_sexpr_spec() matches SexprV::List(items) && items.len() > 0 && items[0] == SexprV::Symbol("note"@)
            && find_kwarg_spec(items, "position"@) == (if x.position.is_set() { Some(x.position.to_sexpr_spec()) } else { None })
            && find_kwarg_spec(items, "dynamics"@) == (match x.dynamics { Some(y) => Some(y.to_sexpr_spec()), None => None })
            && find_kwarg_spec(items, "end-dynamics"@) == (match x.end_dynamics { Some(y) => Some(y.to_sexpr_spec()), None => None })
            && find_kwarg_spec(items, "attack"@) == (match x.attack { Some(y) => Some(y.to_sexpr_spec()), None => None }),
{
        assert("dynamics"@ != "position"@) by {
            reveal_strlit("dynamics");
            assert("dynamics"@.len() == 8);
            reveal_strlit("position");
            assert("position"@.len() == 8);
            assert("dynamics"@[0] == 'd');
            assert("position"@[0] == 'p');
        }
        assert("end-dynamics"@ != "position"@) by {
            reveal_strlit("end-dynamics");
            assert("end-dynamics"@.len() == 12);
            reveal_strlit("position");
            assert("position"@.len() == 8);
        }
        assert("attack"@ != "position"@) by {
            reveal_strlit("attack");
            assert("attack"@.len() == 6);
            reveal_strlit("position");
            assert("position"@.len() == 8);
        }
        assert("release"@ != "position"@) by {
            reveal_strlit("release");
            assert("release"@.len() == 7);
            reveal_strlit("position");
            assert("position"@.len() == 8);
        }
        assert("pizzicato"@ != "position"@) by {
            reveal_strlit("pizzicato");
            assert("pizzicato"@.len() == 9);
            reveal_strlit("position");
            assert("position"@.len() == 8);
        }
        assert("print-object"@ != "position"@) by {
            reveal_strlit("print-object");
            assert("print-object"@.len() == 12);
            reveal_strlit("position");
            assert("position"@.len() == 8);
        }
        assert("content"@ != "position"@) by {
            reveal_strlit("content");
            assert("content"@.len() == 7);
            reveal_strlit("position");
            assert("position"@.len() == 8);
        }
        assert("instrument"@ != "position"@) by {
            reveal_strlit("instrument");
            assert("instrument"@.len() == 10);
            reveal_strlit("position");
            assert("position"@.len() == 8);
        }
        assert("voice"@ != "position"@) by {
            reveal_strlit("voice");
            assert("voice"@.len() == 5);
            reveal_strlit("position");
            assert("position"@.len() == 8);
        }
        assert("type"@ != "position"@) by {
            reveal_strlit("type");
            assert("type"@.len() == 4);
            reveal_strlit("position");
            assert("position"@.len() == 8);
        }
        assert("dots"@ != "position"@) by {
            reveal_strlit("dots");
            assert("dots"@.len() == 4);
            reveal_strlit("position");
            assert("position"@.len() == 8);
        }
        assert("accidental"@ != "position"@) by {
            reveal_strlit("accidental");
            assert("accidental"@.len() == 10);
            reveal_strlit("position");
            assert("position"@.len() == 8);
        }
        assert("time-modification"@ != "position"@) by {
            reveal_strlit("time-modification");
            assert("time-modification"@.len() == 17);
            reveal_strlit("position");
            assert("position"@.len() == 8);
        }
        assert("stem"@ != "position"@) by {
            reveal_strlit("stem");
            assert("stem"@.len() == 4);
            reveal_strlit("position");
            assert("position"@.len() == 8);
        }
        assert("notehead"@ != "position"@) by {
            reveal_strlit("notehead");
            assert("notehead"@.len() == 8);
            reveal_strlit("position");
            assert("position"@.len() == 8);
            assert("notehead"@[0] == 'n');
            assert("position"@[0] == 'p');
        }
        assert("staff"@ != "position"@) by {
            reveal_strlit("staff");
            assert("staff"@.len() == 5);
            reveal_strlit("position");
            assert("position"@.len() == 8);
        }
        assert("beams"@ != "position"@) by {
            reveal_strlit("beams");
            assert("beams"@.len() == 5);
            reveal_strlit("position");
            assert("position"@.len() == 8);
        }
        assert("end-dynamics"@ != "dynamics"@) by {
            reveal_strlit("end-dynamics");
            assert("end-dynamics"@.len() == 12);
            reveal_strlit("dynamics");
            assert("dynamics"@.len() == 8);
        }
        assert("attack"@ != "dynamics"@) by {
            reveal_strlit("attack");
            assert("attack"@.len() == 6);
            reveal_strlit("dynamics");
            assert("dynamics"@.len() == 8);
        }
        assert("release"@ != "dynamics"@) by {
            reveal_strlit("release");
            assert("release"@.len() == 7);
            reveal_strlit("dynamics");
            assert("dynamics"@.len() == 8);
        }
        assert("pizzicato"@ != "dynamics"@) by {
            reveal_strlit("pizzicato");
            assert("pizzicato"@.len() == 9);
            reveal_strlit("dynamics");
            assert("dynamics"@.len() == 8);
        }
        assert("print-object"@ != "dynamics"@) by {
            reveal_strlit("print-object");
            assert("print-object"@.len() == 12);
            reveal_strlit("dynamics");
            assert("dynamics"@.len() == 8);
        }
        assert("content"@ != "dynamics"@) by {
            reveal_strlit("content");
            assert("content"@.len() == 7);
            reveal_strlit("dynamics");
            assert("dynamics"@.len() == 8);
        }
        assert("instrument"@ != "dynamics"@) by {
            reveal_strlit("instrument");
            assert("instrument"@.len() == 10);
            reveal_strlit("dynamics");
            assert("dynamics"@.len() == 8);
        }
        assert("voice"@ != "dynamics"@) by {
            reveal_strlit("voice");
            assert("voice"@.len() == 5);
            reveal_strlit("dynamics");
            assert("dynamics"@.len() == 8);
        }
        assert("type"@ != "dynamics"@) by {
            reveal_strlit("type");
            assert("type"@.len() == 4);
            reveal_strlit("dynamics");
            assert("dynamics"@.len() == 8);
        }
        assert("dots"@ != "dynamics"@) by {
            reveal_strlit("dots");
            assert("dots"@.len() == 4);
            reveal_strlit("dynamics");
            assert("dynamics"@.len() == 8);
        }
        assert("accidental"@ != "dynamics"@) by {
            reveal_strlit("accidental");
            assert("accidental"@.len() == 10);
            reveal_strlit("dynamics");
            assert("dynamics"@.len() == 8);
        }
        assert("time-modification"@ != "dynamics"@) by {
            reveal_strlit("time-modification");
            assert("time-modification"@.len() == 17);
            reveal_strlit("dynamics");
            assert("dynamics"@.len() == 8);
        }
        assert("stem"@ != "dynamics"@) by {
            reveal_strlit("stem");
            assert("stem"@.len() == 4);
            reveal_strlit("dynamics");
            assert("dynamics"@.len() == 8);
        }
        assert("notehead"@ != "dynamics"@) by {
            reveal_strlit("notehead");
            assert("notehead"@.len() == 8);
            reveal_strlit("dynamics");
            assert("dynamics"@.len() == 8);
            assert("notehead"@[0] == 'n');
            assert("dynamics"@[0] == 'd');
        }
        assert("staff"@ != "dynamics"@) by {
            reveal_strlit("staff");
            assert("staff"@.len() == 5);
            reveal_strlit("dynamics");
            assert("dynamics"@.len() == 8);
        }
        assert("beams"@ != "dynamics"@) by {
            reveal_strlit("beams");
            assert("beams"@.len() == 5);
            reveal_strlit("dynamics");
            assert("dynamics"@.len() == 8);
        }
        assert("attack"@ != "end-dynamics"@) by {
            reveal_strlit("attack");
            assert("attack"@.len() == 6);
            reveal_strlit("end-dynamics");
            assert("end-dynamics"@.len() == 12);
        }
        assert("release"@ != "end-dynamics"@) by {
            reveal_strlit("release");
            assert("release"@.len() == 7);
            reveal_strlit("end-dynamics");
            assert("end-dynamics"@.len() == 12);
        }
        assert("pizzicato"@ != "end-dynamics"@) by {
            reveal_strlit("pizzicato");
            assert("pizzicato"@.len() == 9);
            reveal_strlit("end-dynamics");
            assert("end-dynamics"@.len() == 12);
        }
        assert("print-object"@ != "end-dynamics"@) by {
            reveal_strlit("print-object");
            assert("print-object"@.len() == 12);
            reveal_strlit("end-dynamics");
            assert("end-dynamics"@.len() == 12);
            assert("print-object"@[0] == 'p');
            assert("end-dynamics"@[0] == 'e');
        }
        assert("content"@ != "end-dynamics"@) by {
            reveal_strlit("content");
            assert("content"@.len() == 7);
            reveal_strlit("end-dynamics");
            assert("end-dynamics"@.len() == 12);
        }
        assert("instrument"@ != "end-dynamics"@) by {
            reveal_strlit("instrument");
            assert("instrument"@.len() == 10);
            reveal_strlit("end-dynamics");
            assert("end-dynamics"@.len() == 12);
        }
        assert("voice"@ != "end-dynamics"@) by {
            reveal_strlit("voice");
            assert("voice"@.len() == 5);
            reveal_strlit("end-dynamics");
            assert("end-dynamics"@.len() == 12);
        }
        assert("type"@ != "end-dynamics"@) by {
            reveal_strlit("type");
            assert("type"@.len() == 4);
            reveal_strlit("end-dynamics");
            assert("end-dynamics"@.len() == 12);
        }
        assert("dots"@ != "end-dynamics"@) by {
            reveal_strlit("dots");
            assert("dots"@.len() == 4);
            reveal_strlit("end-dynamics");
            assert("end-dynamics"@.len() == 12);
        }
        assert("accidental"@ != "end-dynamics"@) by {
            reveal_strlit("accidental");
            assert("accidental"@.len() == 10);
            reveal_strlit("end-dynamics");
            assert("end-dynamics"@.len() == 12);
        }
        assert("time-modification"@ != "end-dynamics"@) by {
            reveal_strlit("time-modification");
            assert("time-modification"@.len() == 17);
            reveal_strlit("end-dynamics");
            assert("end-dynamics"@.len() == 12);
        }
        assert("stem"@ != "end-dynamics"@) by {
            reveal_strlit("stem");
            assert("stem"@.len() == 4);
            reveal_strlit("end-dynamics");
            assert("end-dynamics"@.len() == 12);
        }
        assert("notehead"@ != "end-dynamics"@) by {
            reveal_strlit("notehead");
            assert("notehead"@.len() == 8);
            reveal_strlit("end-dynamics");
            assert("end-dynamics"@.len() == 12);
        }
        assert("staff"@ != "end-dynamics"@) by {
            reveal_strlit("staff");
            assert("staff"@.len() == 5);
            reveal_strlit("end-dynamics");
            assert("end-dynamics"@.len() == 12);
        }
        assert("beams"@ != "end-dynamics"@) by {
            reveal_strlit("beams");
            assert("beams"@.len() == 5);
            reveal_strlit("end-dynamics");
            assert("end-dynamics"@.len() == 12);
        }
        assert("release"@ != "attack"@) by {
            reveal_strlit("release");
            assert("release"@.len() == 7);
            reveal_strlit("attack");
            assert("attack"@.len() == 6);
        }
        assert("pizzicato"@ != "attack"@) by {
            reveal_strlit("pizzicato");
            assert("pizzicato"@.len() == 9);
            reveal_strlit("attack");
            assert("attack"@.len() == 6);
        }
        assert("print-object"@ != "attack"@) by {
            reveal_strlit("print-object");
            assert("print-object"@.len() == 12);
            reveal_strlit("attack");
            assert("attack"@.len() == 6);
        }
        assert("content"@ != "attack"@) by {
            reveal_strlit("content");
            assert("content"@.len() == 7);
            reveal_strlit("attack");
            assert("attack"@.len() == 6);
        }
        assert("instrument"@ != "attack"@) by {
            reveal_strlit("instrument");
            assert("instrument"@.len() == 10);
            reveal_strlit("attack");
            assert("attack"@.len() == 6);
        }
        assert("voice"@ != "attack"@) by {
            reveal_strlit("voice");
            assert("voice"@.len() == 5);
            reveal_strlit("attack");
            assert("attack"@.len() == 6);
        }
        assert("type"@ != "attack"@) by {
            reveal_strlit("type");
            assert("type"@.len() == 4);
            reveal_strlit("attack");
            assert("attack"@.len() == 6);
        }
        assert("dots"@ != "attack"@) by {
            reveal_strlit("dots");
            assert("dots"@.len() == 4);
            reveal_strlit("attack");
            assert("attack"@.len() == 6);
        }
        assert("accidental"@ != "attack"@) by {
            reveal_strlit("accidental");
            assert("accidental"@.len() == 10);
            reveal_strlit("attack");
            assert("attack"@.len() == 6);
        }
        assert("time-modification"@ != "attack"@) by {
            reveal_strlit("time-modification");
            assert("time-modification"@.len() == 17);
            reveal_strlit("attack");
            assert("attack"@.len() == 6);
        }
        assert("stem"@ != "attack"@) by {
            reveal_strlit("stem");
            assert("stem"@.len() == 4);
            reveal_strlit("attack");
            assert("attack"@.len() == 6);
        }
        assert("notehead"@ != "attack"@) by {
            reveal_strlit("notehead");
            assert("notehead"@.len() == 8);
            reveal_strlit("attack");
            assert("attack"@.len() == 6);
        }
        assert("staff"@ != "attack"@) by {
            reveal_strlit("staff");
            assert("staff"@.len() == 5);
            reveal_strlit("attack");
            assert("attack"@.len() == 6);
        }
        assert("beams"@ != "attack"@) by {
            reveal_strlit("beams");
            assert("beams"@.len() == 5);
            reveal_strlit("attack");
            assert("attack"@.len() == 6);
        }
        let ghost s0 = seq![SexprV::Symbol("note"@)];
        assert(ends_clean(s0));
        let ghost p1 = kw_if(x.position.is_set(), "position"@, x.position.to_sexpr_spec());
        x.position.lemma_not_keyword();
        lemma_if_piece(x.position.is_set(), "position"@, x.position.to_sexpr_spec());
        let ghost s1 = s0 + p1;
        lemma_ends_clean(s0, p1);
        let ghost p2 = kw_opt("dynamics"@, x.dynamics);
        lemma_opt_piece("dynamics"@, x.dynamics);
        let ghost s2 = s1 + p2;
        lemma_ends_clean(s1, p2);
        let ghost p3 = kw_opt("end-dynamics"@, x.end_dynamics);
        lemma_opt_piece("end-dynamics"@, x.end_dynamics);
        let ghost s3 = s2 + p3;
        lemma_ends_clean(s2, p3);
        let ghost p4 = kw_opt("attack"@, x.attack);
        lemma_opt_piece("attack"@, x.attack);
        let ghost s4 = s3 + p4;
        lemma_ends_clean(s3, p4);
        let ghost p5 = kw_opt("release"@, x.release);
        lemma_opt_piece("release"@, x.release);
        let ghost s5 = s4 + p5;
        lemma_ends_clean(s4, p5);
        let ghost p6 = kw_opt("pizzicato"@, x.pizzicato);
        lemma_opt_piece("pizzicato"@, x.pizzicato);
        let ghost s6 = s5 + p6;
        lemma_ends_clean(s5, p6);
        let ghost p7 = kw_opt("print-object"@, x.print_object);
        lemma_opt_piece("print-object"@, x.print_object);
        let ghost s7 = s6 + p7;
        lemma_ends_clean(s6, p7);
        let ghost p8 = kw_pair("content"@, x.content.to_sexpr_spec());
        x.content.lemma_not_keyword();
        lemma_pair_piece("content"@, x.content.to_sexpr_spec());
        let ghost s8 = s7 + p8;
        lemma_ends_clean(s7, p8);
        let ghost p9 = kw_if(x.instrument@.len() > 0, "instrument"@, x.instrument.to_sexpr_spec());
        x.instrument.lemma_not_keyword();
        lemma_if_piece(x.instrument@.len() > 0, "instrument"@, x.instrument.to_sexpr_spec());
        let ghost s9 = s8 + p9;
        lemma_ends_clean(s8, p9);
        let ghost p10 = kw_opt("voice"@, x.voice);
        lemma_opt_piece("voice"@, x.voice);
        let ghost s10 = s9 + p10;
        lemma_ends_clean(s9, p10);
        let ghost p11 = kw_opt("type"@, x.type_);
        lemma_opt_piece("type"@, x.type_);
        let ghost s11 = s10 + p11;
        lemma_ends_clean(s10, p11);
        let ghost p12 = kw_if(x.dots@.len() > 0, "dots"@, x.dots.to_sexpr_spec());
        x.dots.lemma_not_keyword();
        lemma_if_piece(x.dots@.len() > 0, "dots"@, x.dots.to_sexpr_spec());
        let ghost s12 = s11 + p12;
        lemma_ends_clean(s11, p12);
        let ghost p13 = kw_opt("accidental"@, x.accidental);
        lemma_opt_piece("accidental"@, x.accidental);
        let ghost s13 = s12 + p13;
        lemma_ends_clean(s12, p13);
        let ghost p14 = kw_opt("time-modification"@, x.time_modification);
        lemma_opt_piece("time-modification"@, x.time_modification);
        let ghost s14 = s13 + p14;
        lemma_ends_clean(s13, p14);
        let ghost p15 = kw_opt("stem"@, x.stem);
        lemma_opt_piece("stem"@, x.stem);
        let ghost s15 = s14 + p15;
        lemma_ends_clean(s14, p15);
        let ghost p16 = kw_opt("notehead"@, x.notehead);
        lemma_opt_piece("notehead"@, x.notehead);
        let ghost s16 = s15 + p16;
        lemma_ends_clean(s15, p16);
        let ghost p17 = kw_opt("staff"@, x.staff);
        lemma_opt_piece("staff"@, x.staff);
        let ghost s17 = s16 + p17;
        lemma_ends_clean(s16, p17);
        let ghost p18 = kw_if(x.beams@.len() > 0, "beams"@, x.beams.to_sexpr_spec());
        x.beams.lemma_not_keyword();
        lemma_if_piece(x.beams@.len() > 0, "beams"@, x.beams.to_sexpr_spec());
        let ghost s18 = s17 + p18;
        lemma_ends_clean(s17, p18);
        assert(x.to_sexpr_spec() == SexprV::List(s18));
        assert(s18[0] == SexprV::Symbol("note"@)) by {
            assert(s1[0] == s0[0]);
            assert(s2[0] == s1[0]);
            assert(s3[0] == s2[0]);
            assert(s4[0] == s3[0]);
            assert(s5[0] == s4[0]);
            assert(s6[0] == s5[0]);
            assert(s7[0] == s6[0]);
            assert(s8[0] == s7[0]);
            assert(s9[0] == s8[0]);
            assert(s10[0] == s9[0]);
            assert(s11[0] == s10[0]);
            assert(s12[0] == s11[0]);
            assert(s13[0] == s12[0]);
            assert(s14[0] == s13[0]);
            assert(s15[0] == s14[0]);
            assert(s16[0] == s15[0]);
            assert(s17[0] == s16[0]);
            assert(s18[0] == s17[0]);
        }
        assert(find_kwarg_spec(s18, "position"@) == (if x.position.is_set() { Some(x.position.to_sexpr_spec()) } else { None })) by {
            lemma_find_head_key("note"@, "position"@);
            if p1.len() == 2 { lemma_find_hit(s0, p1, "position"@); } else { lemma_find_skip(s0, p1, "position"@); }
            lemma_find_skip(s1, p2, "position"@);
            lemma_find_skip(s2, p3, "position"@);
            lemma_find_skip(s3, p4, "position"@);
            lemma_find_skip(s4, p5, "position"@);
            lemma_find_skip(s5, p6, "position"@);
            lemma_find_skip(s6, p7, "position"@);
            lemma_find_skip(s7, p8, "position"@);
            lemma_find_skip(s8, p9, "position"@);
            lemma_find_skip(s9, p10, "position"@);
            lemma_find_skip(s10, p11, "position"@);
            lemma_find_skip(s11, p12, "position"@);
            lemma_find_skip(s12, p13, "position"@);
            lemma_find_skip(s13, p14, "position"@);
            lemma_find_skip(s14, p15, "position"@);
            lemma_find_skip(s15, p16, "position"@);
            lemma_find_skip(s16, p17, "position"@);
            lemma_find_skip(s17, p18, "position"@);
        }
        assert(find_kwarg_spec(s18, "dynamics"@) == (match x.dynamics { Some(y) => Some(y.to_sexpr_spec()), None => None })) by {
            lemma_find_head_key("note"@, "dynamics"@);
            lemma_find_skip(s0, p1, "dynamics"@);
            if p2.len() == 2 { lemma_find_hit(s1, p2, "dynamics"@); } else { lemma_find_skip(s1, p2, "dynamics"@); }
            lemma_find_skip(s2, p3, "dynamics"@);
            lemma_find_skip(s3, p4, "dynamics"@);
            lemma_find_skip(s4, p5, "dynamics"@);
            lemma_find_skip(s5, p6, "dynamics"@);
            lemma_find_skip(s6, p7, "dynamics"@);
            lemma_find_skip(s7, p8, "dynamics"@);
            lemma_find_skip(s8, p9, "dynamics"@);
            lemma_find_skip(s9, p10, "dynamics"@);
            lemma_find_skip(s10, p11, "dynamics"@);
            lemma_find_skip(s11, p12, "dynamics"@);
            lemma_find_skip(s12, p13, "dynamics"@);
            lemma_find_skip(s13, p14, "dynamics"@);
            lemma_find_skip(s14, p15, "dynamics"@);
            lemma_find_skip(s15, p16, "dynamics"@);
            lemma_find_skip(s16, p17, "dynamics"@);
            lemma_find_skip(s17, p18, "dynamics"@);
        }
        assert(find_kwarg_spec(s18, "end-dynamics"@) == (match x.end_dynamics { Some(y) => Some(y.to_sexpr_spec()), None => None })) by {
            lemma_find_head_key("note"@, "end-dynamics"@);
            lemma_find_skip(s0, p1, "end-dynamics"@);
            lemma_find_skip(s1, p2, "end-dynamics"@);
            if p3.len() == 2 { lemma_find_hit(s2, p3, "end-dynamics"@); } else { lemma_find_skip(s2, p3, "end-dynamics"@); }
            lemma_find_skip(s3, p4, "end-dynamics"@);
            lemma_find_skip(s4, p5, "end-dynamics"@);
            lemma_find_skip(s5, p6, "end-dynamics"@);
            lemma_find_skip(s6, p7, "end-dynamics"@);
            lemma_find_skip(s7, p8, "end-dynamics"@);
            lemma_find_skip(s8, p9, "end-dynamics"@);
            lemma_find_skip(s9, p10, "end-dynamics"@);
            lemma_find_skip(s10, p11, "end-dynamics"@);
            lemma_find_skip(s11, p12, "end-dynamics"@);
            lemma_find_skip(s12, p13, "end-dynamics"@);
            lemma_find_skip(s13, p14, "end-dynamics"@);
            lemma_find_skip(s14, p15, "end-dynamics"@);
            lemma_find_skip(s15, p16, "end-dynamics"@);
            lemma_find_skip(s16, p17, "end-dynamics"@);
            lemma_find_skip(s17, p18, "end-dynamics"@);
        }
        assert(find_kwarg_spec(s18, "attack"@) == (match x.attack { Some(y) => Some(y.to_sexpr_spec()), None => None })) by {
            lemma_find_head_key("note"@, "attack"@);
            lemma_find_skip(s0, p1, "attack"@);
            lemma_find_skip(s1, p2, "attack"@);
            lemma_find_skip(s2, p3, "attack"@);
            if p4.len() == 2 { lemma_find_hit(s3, p4, "attack"@); } else { lemma_find_skip(s3, p4, "attack"@); }
            lemma_find_skip(s4, p5, "attack"@);
            lemma_find_skip(s5, p6, "attack"@);
            lemma_find_skip(s6, p7, "attack"@);
            lemma_find_skip(s7, p8, "attack"@);
            lemma_find_skip(s8, p9, "attack"@);
            lemma_find_skip(s9, p10, "attack"@);
            lemma_find_skip(s10, p11, "attack"@);
            lemma_find_skip(s11, p12, "attack"@);
            lemma_find_skip(s12, p13, "attack"@);
            lemma_find_skip(s13, p14, "attack"@);
            lemma_find_skip(s14, p15, "attack"@);
            lemma_find_skip(s15, p16, "attack"@);
            lemma_find_skip(s16, p17, "attack"@);
            lemma_find_skip(s17, p18, "attack"@);
        }
}

/// The head and keyword arguments of the S-expression of a `Note`, part 2.
#[verifier::rlimit(40)]
pub proof fn lemma_note_items_1(x: Note)
    requires
        x.writable(),
    ensures
        x.to_sexpr_spec() matches SexprV::List(items)
            && find_kwarg_spec(items, "release"@) == (match x.release { Some(y) => Some(y.to_sexpr_spec()), None => None })
            && find_kwarg_spec(items, "pizzicato"@) == (match x.pizzicato { Some(y) => Some(y.to_sexpr_spec()), None => None })
            && find_kwarg_spec(items, "print-object"@) == (match x.print_object { Some(y) => Some(y.to_sexpr_spec()), None => None })
            && find_kwarg_spec(items, "content"@) == (Some(x.content.to_sexpr_spec())),
{
        assert("position"@ != "release"@) by {
            reveal_strlit("position");
            assert("position"@.len() == 8);
            reveal_strlit("release");
            assert("release"@.len() == 7);
        }
        assert("dynamics"@ != "release"@) by {
            reveal_strlit("dynamics");
            assert("dynamics"@.len() == 8);
            reveal_strlit("release");
            assert("release"@.len() == 7);
        }
        assert("end-dynamics"@ != "release"@) by {
            reveal_strlit("end-dynamics");
            assert("end-dynamics"@.len() == 12);
            reveal_strlit("release");
            assert("release"@.len() == 7);
        }
        assert("attack"@ != "release"@) by {
            reveal_strlit("attack");
            assert("attack"@.len() == 6);
            reveal_strlit("release");
            assert("release"@.len() == 7);
        }
        assert("pizzicato"@ != "release"@) by {
            reveal_strlit("pizzicato");
            assert("pizzicato"@.len() == 9);
            reveal_strlit("release");
            assert("release"@.len() == 7);
        }
        assert("print-object"@ != "release"@) by {
            reveal_strlit("print-object");
            assert("print-object"@.len() == 12);
            reveal_strlit("release");
            assert("release"@.len() == 7);
        }
        assert("content"@ != "release"@) by {
            reveal_strlit("content");
            assert("content"@.len() == 7);
            reveal_strlit("release");
            assert("release"@.len() == 7);
            assert("content"@[0] == 'c');
            assert("release"@[0] == 'r');
        }
        assert("instrument"@ != "release"@) by {
            reveal_strlit("instrument");
            assert("instrument"@.len() == 10);
            reveal_strlit("release");
            assert("release"@.len() == 7);
        }
        assert("voice"@ != "release"@) by {
            reveal_strlit("voice");
            assert("voice"@.len() == 5);
            reveal_strlit("release");
            assert("release"@.len() == 7);
        }
        assert("type"@ != "release"@) by {
            reveal_strlit("type");
            assert("type"@.len() == 4);
            reveal_strlit("release");
            assert("release"@.len() == 7);
        }
        assert("dots"@ != "release"@) by {
            reveal_strlit("dots");
            assert("dots"@.len() == 4);
            reveal_strlit("release");
            assert("release"@.len() == 7);
        }
        assert("accidental"@ != "release"@) by {
            reveal_strlit("accidental");
            assert("accidental"@.len() == 10);
            reveal_strlit("release");
            assert("release"@.len() == 7);
        }
        assert("time-modification"@ != "release"@) by {
            reveal_strlit("time-modification");
            assert("time-modification"@.len() == 17);
            reveal_strlit("release");
            assert("release"@.len() == 7);
        }
        assert("stem"@ != "release"@) by {
            reveal_strlit("stem");
            assert("stem"@.len() == 4);
            reveal_strlit("release");
            assert("release"@.len() == 7);
        }
        assert("notehead"@ != "release"@) by {
            reveal_strlit("notehead");
            assert("notehead"@.len() == 8);
            reveal_strlit("release");
            assert("release"@.len() == 7);
        }
        assert("staff"@ != "release"@) by {
            reveal_strlit("staff");
            assert("staff"@.len() == 5);
            reveal_strlit("release");
            assert("release"@.len() == 7);
        }
        assert("beams"@ != "release"@) by {
            reveal_strlit("beams");
            assert("beams"@.len() == 5);
            reveal_strlit("release");
            assert("release"@.len() == 7);
        }
        assert("position"@ != "pizzicato"@) by {
            reveal_strlit("position");
            assert("position"@.len() == 8);
            reveal_strlit("pizzicato");
            assert("pizzicato"@.len() == 9);
        }
        assert("dynamics"@ != "pizzicato"@) by {
            reveal_strlit("dynamics");
            assert("dynamics"@.len() == 8);
            reveal_strlit("pizzicato");
            assert("pizzicato"@.len() == 9);
        }
        assert("end-dynamics"@ != "pizzicato"@) by {
            reveal_strlit("end-dynamics");
            assert("end-dynamics"@.len() == 12);
            reveal_strlit("pizzicato");
            assert("pizzicato"@.len() == 9);
        }
        assert("attack"@ != "pizzicato"@) by {
            reveal_strlit("attack");
            assert("attack"@.len() == 6);
            reveal_strlit("pizzicato");
            assert("pizzicato"@.len() == 9);
        }
        assert("print-object"@ != "pizzicato"@) by {
            reveal_strlit("print-object");
            assert("print-object"@.len() == 12);
            reveal_strlit("pizzicato");
            assert("pizzicato"@.len() == 9);
        }
        assert("content"@ != "pizzicato"@) by {
            reveal_strlit("content");
            assert("content"@.len() == 7);
            reveal_strlit("pizzicato");
            assert("pizzicato"@.len() == 9);
        }
        assert("instrument"@ != "pizzicato"@) by {
            reveal_strlit("instrument");
            assert("instrument"@.len() == 10);
            reveal_strlit("pizzicato");
            assert("pizzicato"@.len() == 9);
        }
        assert("voice"@ != "pizzicato"@) by {
            reveal_strlit("voice");
            assert("voice"@.len() == 5);
            reveal_strlit("pizzicato");
            assert("pizzicato"@.len() == 9);
        }
        assert("type"@ != "pizzicato"@) by {
            reveal_strlit("type");
            assert("type"@.len() == 4);
            reveal_strlit("pizzicato");
            assert("pizzicato"@.len() == 9);
        }
        assert("dots"@ != "pizzicato"@) by {
            reveal_strlit("dots");
            assert("dots"@.len() == 4);
            reveal_strlit("pizzicato");
            assert("pizzicato"@.len() == 9);
        }
        assert("accidental"@ != "pizzicato"@) by {
            reveal_strlit("accidental");
            assert("accidental"@.len() == 10);
            reveal_strlit("pizzicato");
            assert("pizzicato"@.len() == 9);
        }
        assert("time-modification"@ != "pizzicato"@) by {
            reveal_strlit("time-modification");
            assert("time-modification"@.len() == 17);
            reveal_strlit("pizzicato");
            assert("pizzicato"@.len() == 9);
        }
        assert("stem"@ != "pizzicato"@) by {
            reveal_strlit("stem");
            assert("stem"@.len() == 4);
            reveal_strlit("pizzicato");
            assert("pizzicato"@.len() == 9);
        }
        assert("notehead"@ != "pizzicato"@) by {
            reveal_strlit("notehead");
            assert("notehead"@.len() == 8);
            reveal_strlit("pizzicato");
            assert("pizzicato"@.len() == 9);
        }
        assert("staff"@ != "pizzicato"@) by {
            reveal_strlit("staff");
            assert("staff"@.len() == 5);
            reveal_strlit("pizzicato");
            assert("pizzicato"@.len() == 9);
        }
        assert("beams"@ != "pizzicato"@) by {
            reveal_strlit("beams");
            assert("beams"@.len() == 5);
            reveal_strlit("pizzicato");
            assert("pizzicato"@.len() == 9);
        }
        assert("position"@ != "print-object"@) by {
            reveal_strlit("position");
            assert("position"@.len() == 8);
            reveal_strlit("print-object");
            assert("print-object"@.len() == 12);
        }
        assert("dynamics"@ != "print-object"@) by {
            reveal_strlit("dynamics");
            assert("dynamics"@.len() == 8);
            reveal_strlit("print-object");
            assert("print-object"@.len() == 12);
        }
        assert("end-dynamics"@ != "print-object"@) by {
            reveal_strlit("end-dynamics");
            assert("end-dynamics"@.len() == 12);
            reveal_strlit("print-object");
            assert("print-object"@.len() == 12);
            assert("end-dynamics"@[0] == 'e');
            assert("print-object"@[0] == 'p');
        }
        assert("attack"@ != "print-object"@) by {
            reveal_strlit("attack");
            assert("attack"@.len() == 6);
            reveal_strlit("print-object");
            assert("print-object"@.len() == 12);
        }
        assert("content"@ != "print-object"@) by {
            reveal_strlit("content");
            assert("content"@.len() == 7);
            reveal_strlit("print-object");
            assert("print-object"@.len() == 12);
        }
        assert("instrument"@ != "print-object"@) by {
            reveal_strlit("instrument");
            assert("instrument"@.len() == 10);
            reveal_strlit("print-object");
            assert("print-object"@.len() == 12);
        }
        assert("voice"@ != "print-object"@) by {
            reveal_strlit("voice");
            assert("voice"@.len() == 5);
            reveal_strlit("print-object");
            assert("print-object"@.len() == 12);
        }
        assert("type"@ != "print-object"@) by {
            reveal_strlit("type");
            assert("type"@.len() == 4);
            reveal_strlit("print-object");
            assert("print-object"@.len() == 12);
        }
        assert("dots"@ != "print-object"@) by {
            reveal_strlit("dots");
            assert("dots"@.len() == 4);
            reveal_strlit("print-object");
            assert("print-object"@.len() == 12);
        }
        assert("accidental"@ != "print-object"@) by {
            reveal_strlit("accidental");
            assert("accidental"@.len() == 10);
            reveal_strlit("print-object");
            assert("print-object"@.len() == 12);
        }
        assert("time-modification"@ != "print-object"@) by {
            reveal_strlit("time-modification");
            assert("time-modification"@.len() == 17);
            reveal_strlit("print-object");
            assert("print-object"@.len() == 12);
        }
        assert("stem"@ != "print-object"@) by {
            reveal_strlit("stem");
            assert("stem"@.len() == 4);
            reveal_strlit("print-object");
            assert("print-object"@.len() == 12);
        }
        assert("notehead"@ != "print-object"@) by {
            reveal_strlit("notehead");
            assert("notehead"@.len() == 8);
            reveal_strlit("print-object");
            assert("print-object"@.len() == 12);
        }
        assert("staff"@ != "print-object"@) by {
            reveal_strlit("staff");
            assert("staff"@.len() == 5);
            reveal_strlit("print-object");
            assert("print-object"@.len() == 12);
        }
        assert("beams"@ != "print-object"@) by {
            reveal_strlit("beams");
            assert("beams"@.len() == 5);
            reveal_strlit("print-object");
            assert("print-object"@.len() == 12);
        }
        assert("position"@ != "content"@) by {
            reveal_strlit("position");
            assert("position"@.len() == 8);
            reveal_strlit("content");
            assert("content"@.len() == 7);
        }
        assert("dynamics"@ != "content"@) by {
            reveal_strlit("dynamics");
            assert("dynamics"@.len() == 8);
            reveal_strlit("content");
            assert("content"@.len() == 7);
        }
        assert("end-dynamics"@ != "content"@) by {
            reveal_strlit("end-dynamics");
            assert("end-dynamics"@.len() == 12);
            reveal_strlit("content");
            assert("content"@.len() == 7);
        }
        assert("attack"@ != "content"@) by {
            reveal_strlit("attack");
            assert("attack"@.len() == 6);
            reveal_strlit("content");
            assert("content"@.len() == 7);
        }
        assert("instrument"@ != "content"@) by {
            reveal_strlit("instrument");
            assert("instrument"@.len() == 10);
            reveal_strlit("content");
            assert("content"@.len() == 7);
        }
        assert("voice"@ != "content"@) by {
            reveal_strlit("voice");
            assert("voice"@.len() == 5);
            reveal_strlit("content");
            assert("content"@.len() == 7);
        }
        assert("type"@ != "content"@) by {
            reveal_strlit("type");
            assert("type"@.len() == 4);
            reveal_strlit("content");
            assert("content"@.len() == 7);
        }
        assert("dots"@ != "content"@) by {
            reveal_strlit("dots");
            assert("dots"@.len() == 4);
            reveal_strlit("content");
            assert("content"@.len() == 7);
        }
        assert("accidental"@ != "content"@) by {
            reveal_strlit("accidental");
            assert("accidental"@.len() == 10);
            reveal_strlit("content");
            assert("content"@.len() == 7);
        }
        assert("time-modification"@ != "content"@) by {
            reveal_strlit("time-modification");
            assert("time-modification"@.len() == 17);
            reveal_strlit("content");
            assert("content"@.len() == 7);
        }
        assert("stem"@ != "content"@) by {
            reveal_strlit("stem");
            assert("stem"@.len() == 4);
            reveal_strlit("content");
            assert("content"@.len() == 7);
        }
        assert("notehead"@ != "content"@) by {
            reveal_strlit("notehead");
            assert("notehead"@.len() == 8);
            reveal_strlit("content");
            assert("content"@.len() == 7);
        }
        assert("staff"@ != "content"@) by {
            reveal_strlit("staff");
            assert("staff"@.len() == 5);
            reveal_strlit("content");
            assert("content"@.len() == 7);
        }
        assert("beams"@ != "content"@) by {
            reveal_strlit("beams");
            assert("beams"@.len() == 5);
            reveal_strlit("content");
            assert("content"@.len() == 7);
        }
        let ghost s0 = seq![SexprV::Symbol("note"@)];
        assert(ends_clean(s0));
        let ghost p1 = kw_if(x.position.is_set(), "position"@, x.position.to_sexpr_spec());
        x.position.lemma_not_keyword();
        lemma_if_piece(x.position.is_set(), "position"@, x.position.to_sexpr_spec());
        let ghost s1 = s0 + p1;
        lemma_ends_clean(s0, p1);
        let ghost p2 = kw_opt("dynamics"@, x.dynamics);
        lemma_opt_piece("dynamics"@, x.dynamics);
        let ghost s2 = s1 + p2;
        lemma_ends_clean(s1, p2);
        let ghost p3 = kw_opt("end-dynamics"@, x.end_dynamics);
        lemma_opt_piece("end-dynamics"@, x.end_dynamics);
        let ghost s3 = s2 + p3;
        lemma_ends_clean(s2, p3);
        let ghost p4 = kw_opt("attack"@, x.attack);
        lemma_opt_piece("attack"@, x.attack);
        let ghost s4 = s3 + p4;
        lemma_ends_clean(s3, p4);
        let ghost p5 = kw_opt("release"@, x.release);
        lemma_opt_piece("release"@, x.release);
        let ghost s5 = s4 + p5;
        lemma_ends_clean(s4, p5);
        let ghost p6 = kw_opt("pizzicato"@, x.pizzicato);
        lemma_opt_piece("pizzicato"@, x.pizzicato);
        let ghost s6 = s5 + p6;
        lemma_ends_clean(s5, p6);
        let ghost p7 = kw_opt("print-object"@, x.print_object);
        lemma_opt_piece("print-object"@, x.print_object);
        let ghost s7 = s6 + p7;
        lemma_ends_clean(s6, p7);
        let ghost p8 = kw_pair("content"@, x.content.to_sexpr_spec());
        x.content.lemma_not_keyword();
        lemma_pair_piece("content"@, x.content.to_sexpr_spec());
        let ghost s8 = s7 + p8;
        lemma_ends_clean(s7, p8);
        let ghost p9 = kw_if(x.instrument@.len() > 0, "instrument"@, x.instrument.to_sexpr_spec());
        x.instrument.lemma_not_keyword();
        lemma_if_piece(x.instrument@.len() > 0, "instrument"@, x.instrument.to_sexpr_spec());
        let ghost s9 = s8 + p9;
        lemma_ends_clean(s8, p9);
        let ghost p10 = kw_opt("voice"@, x.voice);
        lemma_opt_piece("voice"@, x.voice);
        let ghost s10 = s9 + p10;
        lemma_ends_clean(s9, p10);
        let ghost p11 = kw_opt("type"@, x.type_);
        lemma_opt_piece("type"@, x.type_);
        let ghost s11 = s10 + p11;
        lemma_ends_clean(s10, p11);
        let ghost p12 = kw_if(x.dots@.len() > 0, "dots"@, x.dots.to_sexpr_spec());
        x.dots.lemma_not_keyword();
        lemma_if_piece(x.dots@.len() > 0, "dots"@, x.dots.to_sexpr_spec());
        let ghost s12 = s11 + p12;
        lemma_ends_clean(s11, p12);
        let ghost p13 = kw_opt("accidental"@, x.accidental);
        lemma_opt_piece("accidental"@, x.accidental);
        let ghost s13 = s12 + p13;
        lemma_ends_clean(s12, p13);
        let ghost p14 = kw_opt("time-modification"@, x.time_modification);
        lemma_opt_piece("time-modification"@, x.time_modification);
        let ghost s14 = s13 + p14;
        lemma_ends_clean(s13, p14);
        let ghost p15 = kw_opt("stem"@, x.stem);
        lemma_opt_piece("stem"@, x.stem);
        let ghost s15 = s14 + p15;
        lemma_ends_clean(s14, p15);
        let ghost p16 = kw_opt("notehead"@, x.notehead);
        lemma_opt_piece("notehead"@, x.notehead);
        let ghost s16 = s15 + p16;
        lemma_ends_clean(s15, p16);
        let ghost p17 = kw_opt("staff"@, x.staff);
        lemma_opt_piece("staff"@, x.staff);
        let ghost s17 = s16 + p17;
        lemma_ends_clean(s16, p17);
        let ghost p18 = kw_if(x.beams@.len() > 0, "beams"@, x.beams.to_sexpr_spec());
        x.beams.lemma_not_keyword();
        lemma_if_piece(x.beams@.len() > 0, "beams"@, x.beams.to_sexpr_spec());
        let ghost s18 = s17 + p18;
        lemma_ends_clean(s17, p18);
        assert(x.to_sexpr_spec() == SexprV::List(s18));
        assert(find_kwarg_spec(s18, "release"@) == (match x.release { Some(y) => Some(y.to_sexpr_spec()), None => None })) by {
            lemma_find_head_key("note"@, "release"@);
            lemma_find_skip(s0, p1, "release"@);
            lemma_find_skip(s1, p2, "release"@);
            lemma_find_skip(s2, p3, "release"@);
            lemma_find_skip(s3, p4, "release"@);
            if p5.len() == 2 { lemma_find_hit(s4, p5, "release"@); } else { lemma_find_skip(s4, p5, "release"@); }
            lemma_find_skip(s5, p6, "release"@);
            lemma_find_skip(s6, p7, "release"@);
            lemma_find_skip(s7, p8, "release"@);
            lemma_find_skip(s8, p9, "release"@);
            lemma_find_skip(s9, p10, "release"@);
            lemma_find_skip(s10, p11, "release"@);
            lemma_find_skip(s11, p12, "release"@);
            lemma_find_skip(s12, p13, "release"@);
            lemma_find_skip(s13, p14, "release"@);
            lemma_find_skip(s14, p15, "release"@);
            lemma_find_skip(s15, p16, "release"@);
            lemma_find_skip(s16, p17, "release"@);
            lemma_find_skip(s17, p18, "release"@);
        }
        assert(find_kwarg_spec(s18, "pizzicato"@) == (match x.pizzicato { Some(y) => Some(y.to_sexpr_spec()), None => None })) by {
            lemma_find_head_key("note"@, "pizzicato"@);
            lemma_find_skip(s0, p1, "pizzicato"@);
            lemma_find_skip(s1, p2, "pizzicato"@);
            lemma_find_skip(s2, p3, "pizzicato"@);
            lemma_find_skip(s3, p4, "pizzicato"@);
            lemma_find_skip(s4, p5, "pizzicato"@);
            if p6.len() == 2 { lemma_find_hit(s5, p6, "pizzicato"@); } else { lemma_find_skip(s5, p6, "pizzicato"@); }
            lemma_find_skip(s6, p7, "pizzicato"@);
            lemma_find_skip(s7, p8, "pizzicato"@);
            lemma_find_skip(s8, p9, "pizzicato"@);
            lemma_find_skip(s9, p10, "pizzicato"@);
            lemma_find_skip(s10, p11, "pizzicato"@);
            lemma_find_skip(s11, p12, "pizzicato"@);
            lemma_find_skip(s12, p13, "pizzicato"@);
            lemma_find_skip(s13, p14, "pizzicato"@);
            lemma_find_skip(s14, p15, "pizzicato"@);
            lemma_find_skip(s15, p16, "pizzicato"@);
            lemma_find_skip(s16, p17, "pizzicato"@);
            lemma_find_skip(s17, p18, "pizzicato"@);
        }
        assert(find_kwarg_spec(s18, "print-object"@) == (match x.print_object { Some(y) => Some(y.to_sexpr_spec()), None => None })) by {
            lemma_find_head_key("note"@, "print-object"@);
            lemma_find_skip(s0, p1, "print-object"@);
            lemma_find_skip(s1, p2, "print-object"@);
            lemma_find_skip(s2, p3, "print-object"@);
            lemma_find_skip(s3, p4, "print-object"@);
            lemma_find_skip(s4, p5, "print-object"@);
            lemma_find_skip(s5, p6, "print-object"@);
            if p7.len() == 2 { lemma_find_hit(s6, p7, "print-object"@); } else { lemma_find_skip(s6, p7, "print-object"@); }
            lemma_find_skip(s7, p8, "print-object"@);
            lemma_find_skip(s8, p9, "print-object"@);
            lemma_find_skip(s9, p10, "print-object"@);
            lemma_find_skip(s10, p11, "print-object"@);
            lemma_find_skip(s11, p12, "print-object"@);
            lemma_find_skip(s12, p13, "print-object"@);
            lemma_find_skip(s13, p14, "print-object"@);
            lemma_find_skip(s14, p15, "print-object"@);
            lemma_find_skip(s15, p16, "print-object"@);
            lemma_find_skip(s16, p17, "print-object"@);
            lemma_find_skip(s17, p18, "print-object"@);
        }
        assert(find_kwarg_spec(s18, "content"@) == (Some(x.content.to_sexpr_spec()))) by {
            lemma_find_head_key("note"@, "content"@);
            lemma_find_skip(s0, p1, "content"@);
            lemma_find_skip(s1, p2, "content"@);
            lemma_find_skip(s2, p3, "content"@);
            lemma_find_skip(s3, p4, "content"@);
            lemma_find_skip(s4, p5, "content"@);
            lemma_find_skip(s5, p6, "content"@);
            lemma_find_skip(s6, p7, "content"@);
            if p8.len() == 2 { lemma_find_hit(s7, p8, "content"@); } else { lemma_find_skip(s7, p8, "content"@); }
            lemma_find_skip(s8, p9, "content"@);
            lemma_find_skip(s9, p10, "content"@);
            lemma_find_skip(s10, p11, "content"@);
            lemma_find_skip(s11, p12, "content"@);
            lemma_find_skip(s12, p13, "content"@);
            lemma_find_skip(s13, p14, "content"@);
            lemma_find_skip(s14, p15, "content"@);
            lemma_find_skip(s15, p16, "content"@);
            lemma_find_skip(s16, p17, "content"@);
            lemma_find_skip(s17, p18, "content"@);
        }
}

/// The head and keyword arguments of the S-expression of a `Note`, part 3.
#[verifier::rlimit(40)]
pub proof fn lemma_note_items_2(x: Note)
    requires
        x.writable(),
    ensures
        x.to_sexpr_spec() matches SexprV::List(items)
            && find_kwarg_spec(items, "instrument"@) == (if x.instrument@.len() > 0 { Some(x.instrument.to_sexpr_spec()) } else { None })
            && find_kwarg_spec(items, "voice"@) == (match x.voice { Some(y) => Some(y.to_sexpr_spec()), None => None })
            && find_kwarg_spec(items, "type"@) == (match x.type_ { Some(y) => Some(y.to_sexpr_spec()), None => None })
            && find_kwarg_spec(items, "dots"@) == (if x.dots@.len() > 0 { Some(x.dots.to_sexpr_spec()) } else { None }),
{
        assert("position"@ != "instrument"@) by {
            reveal_strlit("position");
            assert("position"@.len() == 8);
            reveal_strlit("instrument");
            assert("instrument"@.len() == 10);
        }
        assert("dynamics"@ != "instrument"@) by {
            reveal_strlit("dynamics");
            assert("dynamics"@.len() == 8);
            reveal_strlit("instrument");
            assert("instrument"@.len() == 10);
        }
        assert("end-dynamics"@ != "instrument"@) by {
            reveal_strlit("end-dynamics");
            assert("end-dynamics"@.len() == 12);
            reveal_strlit("instrument");
            assert("instrument"@.len() == 10);
        }
        assert("attack"@ != "instrument"@) by {
            reveal_strlit("attack");
            assert("attack"@.len() == 6);
            reveal_strlit("instrument");
            assert("instrument"@.len() == 10);
        }
        assert("release"@ != "instrument"@) by {
            reveal_strlit("release");
            assert("release"@.len() == 7);
            reveal_strlit("instrument");
            assert("instrument"@.len() == 10);
        }
        assert("pizzicato"@ != "instrument"@) by {
            reveal_strlit("pizzicato");
            assert("pizzicato"@.len() == 9);
            reveal_strlit("instrument");
            assert("instrument"@.len() == 10);
        }
        assert("print-object"@ != "instrument"@) by {
            reveal_strlit("print-object");
            assert("print-object"@.len() == 12);
            reveal_strlit("instrument");
            assert("instrument"@.len() == 10);
        }
        assert("content"@ != "instrument"@) by {
            reveal_strlit("content");
            assert("content"@.len() == 7);
            reveal_strlit("instrument");
            assert("instrument"@.len() == 10);
        }
        assert("voice"@ != "instrument"@) by {
            reveal_strlit("voice");
            assert("voice"@.len() == 5);
            reveal_strlit("instrument");
            assert("instrument"@.len() == 10);
        }
        assert("type"@ != "instrument"@) by {
            reveal_strlit("type");
            assert("type"@.len() == 4);
            reveal_strlit("instrument");
            assert("instrument"@.len() == 10);
        }
        assert("dots"@ != "instrument"@) by {
            reveal_strlit("dots");
            assert("dots"@.len() == 4);
            reveal_strlit("instrument");
            assert("instrument"@.len() == 10);
        }
        assert("accidental"@ != "instrument"@) by {
            reveal_strlit("accidental");
            assert("accidental"@.len() == 10);
            reveal_strlit("instrument");
            assert("instrument"@.len() == 10);
            assert("accidental"@[0] == 'a');
            assert("instrument"@[0] == 'i');
        }
        assert("time-modification"@ != "instrument"@) by {
            reveal_strlit("time-modification");
            assert("time-modification"@.len() == 17);
            reveal_strlit("instrument");
            assert("instrument"@.len() == 10);
        }
        assert("stem"@ != "instrument"@) by {
            reveal_strlit("stem");
            assert("stem"@.len() == 4);
            reveal_strlit("instrument");
            assert("instrument"@.len() == 10);
        }
        assert("notehead"@ != "instrument"@) by {
            reveal_strlit("notehead");
            assert("notehead"@.len() == 8);
            reveal_strlit("instrument");
            assert("instrument"@.len() == 10);
        }
        assert("staff"@ != "instrument"@) by {
            reveal_strlit("staff");
            assert("staff"@.len() == 5);
            reveal_strlit("instrument");
            assert("instrument"@.len() == 10);
        }
        assert("beams"@ != "instrument"@) by {
            reveal_strlit("beams");
            assert("beams"@.len() == 5);
            reveal_strlit("instrument");
            assert("instrument"@.len() == 10);
        }
        assert("position"@ != "voice"@) by {
            reveal_strlit("position");
            assert("position"@.len() == 8);
            reveal_strlit("voice");
            assert("voice"@.len() == 5);
        }
        assert("dynamics"@ != "voice"@) by {
            reveal_strlit("dynamics");
            assert("dynamics"@.len() == 8);
            reveal_strlit("voice");
            assert("voice"@.len() == 5);
        }
        assert("end-dynamics"@ != "voice"@) by {
            reveal_strlit("end-dynamics");
            assert("end-dynamics"@.len() == 12);
            reveal_strlit("voice");
            assert("voice"@.len() == 5);
        }
        assert("attack"@ != "voice"@) by {
            reveal_strlit("attack");
            assert("attack"@.len() == 6);
            reveal_strlit("voice");
            assert("voice"@.len() == 5);
        }
        assert("release"@ != "voice"@) by {
            reveal_strlit("release");
            assert("release"@.len() == 7);
            reveal_strlit("voice");
            assert("voice"@.len() == 5);
        }
        assert("pizzicato"@ != "voice"@) by {
            reveal_strlit("pizzicato");
            assert("pizzicato"@.len() == 9);
            reveal_strlit("voice");
            assert("voice"@.len() == 5);
        }
        assert("print-object"@ != "voice"@) by {
            reveal_strlit("print-object");
            assert("print-object"@.len() == 12);
            reveal_strlit("voice");
            assert("voice"@.len() == 5);
        }
        assert("content"@ != "voice"@) by {
            reveal_strlit("content");
            assert("content"@.len() == 7);
            reveal_strlit("voice");
            assert("voice"@.len() == 5);
        }
        assert("type"@ != "voice"@) by {
            reveal_strlit("type");
            assert("type"@.len() == 4);
            reveal_strlit("voice");
            assert("voice"@.len() == 5);
        }
        assert("dots"@ != "voice"@) by {
            reveal_strlit("dots");
            assert("dots"@.len() == 4);
            reveal_strlit("voice");
            assert("voice"@.len() == 5);
        }
        assert("accidental"@ != "voice"@) by {
            reveal_strlit("accidental");
            assert("accidental"@.len() == 10);
            reveal_strlit("voice");
            assert("voice"@.len() == 5);
        }
        assert("time-modification"@ != "voice"@) by {
            reveal_strlit("time-modification");
            assert("time-modification"@.len() == 17);
            reveal_strlit("voice");
            assert("voice"@.len() == 5);
        }
        assert("stem"@ != "voice"@) by {
            reveal_strlit("stem");
            assert("stem"@.len() == 4);
            reveal_strlit("voice");
            assert("voice"@.len() == 5);
        }
        assert("notehead"@ != "voice"@) by {
            reveal_strlit("notehead");
            assert("notehead"@.len() == 8);
            reveal_strlit("voice");
            assert("voice"@.len() == 5);
        }
        assert("staff"@ != "voice"@) by {
            reveal_strlit("staff");
            assert("staff"@.len() == 5);
            reveal_strlit("voice");
            assert("voice"@.len() == 5);
            assert("staff"@[0] == 's');
            assert("voice"@[0] == 'v');
        }
        assert("beams"@ != "voice"@) by {
            reveal_strlit("beams");
            assert("beams"@.len() == 5);
            reveal_strlit("voice");
            assert("voice"@.len() == 5);
            assert("beams"@[0] == 'b');
            assert("voice"@[0] == 'v');
        }
        assert("position"@ != "type"@) by {
            reveal_strlit("position");
            assert("position"@.len() == 8);
            reveal_strlit("type");
            assert("type"@.len() == 4);
        }
        assert("dynamics"@ != "type"@) by {
            reveal_strlit("dynamics");
            assert("dynamics"@.len() == 8);
            reveal_strlit("type");
            assert("type"@.len() == 4);
        }
        assert("end-dynamics"@ != "type"@) by {
            reveal_strlit("end-dynamics");
            assert("end-dynamics"@.len() == 12);
            reveal_strlit("type");
            assert("type"@.len() == 4);
        }
        assert("attack"@ != "type"@) by {
            reveal_strlit("attack");
            assert("attack"@.len() == 6);
            reveal_strlit("type");
            assert("type"@.len() == 4);
        }
        assert("release"@ != "type"@) by {
            reveal_strlit("release");
            assert("release"@.len() == 7);
            reveal_strlit("type");
            assert("type"@.len() == 4);
        }
        assert("pizzicato"@ != "type"@) by {
            reveal_strlit("pizzicato");
            assert("pizzicato"@.len() == 9);
            reveal_strlit("type");
            assert("type"@.len() == 4);
        }
        assert("print-object"@ != "type"@) by {
            reveal_strlit("print-object");
            assert("print-object"@.len() == 12);
            reveal_strlit("type");
            assert("type"@.len() == 4);
        }
        assert("content"@ != "type"@) by {
            reveal_strlit("content");
            assert("content"@.len() == 7);
            reveal_strlit("type");
            assert("type"@.len() == 4);
        }
        assert("dots"@ != "type"@) by {
            reveal_strlit("dots");
            assert("dots"@.len() == 4);
            reveal_strlit("type");
            assert("type"@.len() == 4);
            assert("dots"@[0] == 'd');
            assert("type"@[0] == 't');
        }
        assert("accidental"@ != "type"@) by {
            reveal_strlit("accidental");
            assert("accidental"@.len() == 10);
            reveal_strlit("type");
            assert("type"@.len() == 4);
        }
        assert("time-modification"@ != "type"@) by {
            reveal_strlit("time-modification");
            assert("time-modification"@.len() == 17);
            reveal_strlit("type");
            assert("type"@.len() == 4);
        }
        assert("stem"@ != "type"@) by {
            reveal_strlit("stem");
            assert("stem"@.len() == 4);
            reveal_strlit("type");
            assert("type"@.len() == 4);
            assert("stem"@[0] == 's');
            assert("type"@[0] == 't');
        }
        assert("notehead"@ != "type"@) by {
            reveal_strlit("notehead");
            assert("notehead"@.len() == 8);
            reveal_strlit("type");
            assert("type"@.len() == 4);
        }
        assert("staff"@ != "type"@) by {
            reveal_strlit("staff");
            assert("staff"@.len() == 5);
            reveal_strlit("type");
            assert("type"@.len() == 4);
        }
        assert("beams"@ != "type"@) by {
            reveal_strlit("beams");
            assert("beams"@.len() == 5);
            reveal_strlit("type");
            assert("type"@.len() == 4);
        }
        assert("position"@ != "dots"@) by {
            reveal_strlit("position");
            assert("position"@.len() == 8);
            reveal_strlit("dots");
            assert("dots"@.len() == 4);
        }
        assert("dynamics"@ != "dots"@) by {
            reveal_strlit("dynamics");
            assert("dynamics"@.len() == 8);
            reveal_strlit("dots");
            assert("dots"@.len() == 4);
        }
        assert("end-dynamics"@ != "dots"@) by {
            reveal_strlit("end-dynamics");
            assert("end-dynamics"@.len() == 12);
            reveal_strlit("dots");
            assert("dots"@.len() == 4);
        }
        assert("attack"@ != "dots"@) by {
            reveal_strlit("attack");
            assert("attack"@.len() == 6);
            reveal_strlit("dots");
            assert("dots"@.len() == 4);
        }
        assert("release"@ != "dots"@) by {
            reveal_strlit("release");
            assert("release"@.len() == 7);
            reveal_strlit("dots");
            assert("dots"@.len() == 4);
        }
        assert("pizzicato"@ != "dots"@) by {
            reveal_strlit("pizzicato");
            assert("pizzicato"@.len() == 9);
            reveal_strlit("dots");
            assert("dots"@.len() == 4);
        }
        assert("print-object"@ != "dots"@) by {
            reveal_strlit("print-object");
            assert("print-object"@.len() == 12);
            reveal_strlit("dots");
            assert("dots"@.len() == 4);
        }
        assert("content"@ != "dots"@) by {
            reveal_strlit("content");
            assert("content"@.len() == 7);
            reveal_strlit("dots");
            assert("dots"@.len() == 4);
        }
        assert("accidental"@ != "dots"@) by {
            reveal_strlit("accidental");
            assert("accidental"@.len() == 10);
            reveal_strlit("dots");
            assert("dots"@.len() == 4);
        }
        assert("time-modification"@ != "dots"@) by {
            reveal_strlit("time-modification");
            assert("time-modification"@.len() == 17);
            reveal_strlit("dots");
            assert("dots"@.len() == 4);
        }
        assert("stem"@ != "dots"@) by {
            reveal_strlit("stem");
            assert("stem"@.len() == 4);
            reveal_strlit("dots");
            assert("dots"@.len() == 4);
            assert("stem"@[0] == 's');
            assert("dots"@[0] == 'd');
        }
        assert("notehead"@ != "dots"@) by {
            reveal_strlit("notehead");
            assert("notehead"@.len() == 8);
            reveal_strlit("dots");
            assert("dots"@.len() == 4);
        }
        assert("staff"@ != "dots"@) by {
            reveal_strlit("staff");
            assert("staff"@.len() == 5);
            reveal_strlit("dots");
            assert("dots"@.len() == 4);
        }
        assert("beams"@ != "dots"@) by {
            reveal_strlit("beams");
            assert("beams"@.len() == 5);
            reveal_strlit("dots");
            assert("dots"@.len() == 4);
        }
        let ghost s0 = seq![SexprV::Symbol("note"@)];
        assert(ends_clean(s0));
        let ghost p1 = kw_if(x.position.is_set(), "position"@, x.position.to_sexpr_spec());
        x.position.lemma_not_keyword();
        lemma_if_piece(x.position.is_set(), "position"@, x.position.to_sexpr_spec());
        let ghost s1 = s0 + p1;
        lemma_ends_clean(s0, p1);
        let ghost p2 = kw_opt("dynamics"@, x.dynamics);
        lemma_opt_piece("dynamics"@, x.dynamics);
        let ghost s2 = s1 + p2;
        lemma_ends_clean(s1, p2);
        let ghost p3 = kw_opt("end-dynamics"@, x.end_dynamics);
        lemma_opt_piece("end-dynamics"@, x.end_dynamics);
        let ghost s3 = s2 + p3;
        lemma_ends_clean(s2, p3);
        let ghost p4 = kw_opt("attack"@, x.attack);
        lemma_opt_piece("attack"@, x.attack);
        let ghost s4 = s3 + p4;
        lemma_ends_clean(s3, p4);
        let ghost p5 = kw_opt("release"@, x.release);
        lemma_opt_piece("release"@, x.release);
        let ghost s5 = s4 + p5;
        lemma_ends_clean(s4, p5);
        let ghost p6 = kw_opt("pizzicato"@, x.pizzicato);
        lemma_opt_piece("pizzicato"@, x.pizzicato);
        let ghost s6 = s5 + p6;
        lemma_ends_clean(s5, p6);
        let ghost p7 = kw_opt("print-object"@, x.print_object);
        lemma_opt_piece("print-object"@, x.print_object);
        let ghost s7 = s6 + p7;
        lemma_ends_clean(s6, p7);
        let ghost p8 = kw_pair("content"@, x.content.to_sexpr_spec());
        x.content.lemma_not_keyword();
        lemma_pair_piece("content"@, x.content.to_sexpr_spec());
        let ghost s8 = s7 + p8;
        lemma_ends_clean(s7, p8);
        let ghost p9 = kw_if(x.instrument@.len() > 0, "instrument"@, x.instrument.to_sexpr_spec());
        x.instrument.lemma_not_keyword();
        lemma_if_piece(x.instrument@.len() > 0, "instrument"@, x.instrument.to_sexpr_spec());
        let ghost s9 = s8 + p9;
        lemma_ends_clean(s8, p9);
        let ghost p10 = kw_opt("voice"@, x.voice);
        lemma_opt_piece("voice"@, x.voice);
        let ghost s10 = s9 + p10;
        lemma_ends_clean(s9, p10);
        let ghost p11 = kw_opt("type"@, x.type_);
        lemma_opt_piece("type"@, x.type_);
        let ghost s11 = s10 + p11;
        lemma_ends_clean(s10, p11);
        let ghost p12 = kw_if(x.dots@.len() > 0, "dots"@, x.dots.to_sexpr_spec());
        x.dots.lemma_not_keyword();
        lemma_if_piece(x.dots@.len() > 0, "dots"@, x.dots.to_sexpr_spec());
        let ghost s12 = s11 + p12;
        lemma_ends_clean(s11, p12);
        let ghost p13 = kw_opt("accidental"@, x.accidental);
        lemma_opt_piece("accidental"@, x.accidental);
        let ghost s13 = s12 + p13;
        lemma_ends_clean(s12, p13);
        let ghost p14 = kw_opt("time-modification"@, x.time_modification);
        lemma_opt_piece("time-modification"@, x.time_modification);
        let ghost s14 = s13 + p14;
        lemma_ends_clean(s13, p14);
        let ghost p15 = kw_opt("stem"@, x.stem);
        lemma_opt_piece("stem"@, x.stem);
        let ghost s15 = s14 + p15;
        lemma_ends_clean(s14, p15);
        let ghost p16 = kw_opt("notehead"@, x.notehead);
        lemma_opt_piece("notehead"@, x.notehead);
        let ghost s16 = s15 + p16;
        lemma_ends_clean(s15, p16);
        let ghost p17 = kw_opt("staff"@, x.staff);
        lemma_opt_piece("staff"@, x.staff);
        let ghost s17 = s16 + p17;
        lemma_ends_clean(s16, p17);
        let ghost p18 = kw_if(x.beams@.len() > 0, "beams"@, x.beams.to_sexpr_spec());
        x.beams.lemma_not_keyword();
        lemma_if_piece(x.beams@.len() > 0, "beams"@, x.beams.to_sexpr_spec());
        let ghost s18 = s17 + p18;
        lemma_ends_clean(s17, p18);
        assert(x.to_sexpr_spec() == SexprV::List(s18));
        assert(find_kwarg_spec(s18, "instrument"@) == (if x.instrument@.len() > 0 { Some(x.instrument.to_sexpr_spec()) } else { None })) by {
            lemma_find_head_key("note"@, "instrument"@);
            lemma_find_skip(s0, p1, "instrument"@);
            lemma_find_skip(s1, p2, "instrument"@);
            lemma_find_skip(s2, p3, "instrument"@);
            lemma_find_skip(s3, p4, "instrument"@);
            lemma_find_skip(s4, p5, "instrument"@);
            lemma_find_skip(s5, p6, "instrument"@);
            lemma_find_skip(s6, p7, "instrument"@);
            lemma_find_skip(s7, p8, "instrument"@);
            if p9.len() == 2 { lemma_find_hit(s8, p9, "instrument"@); } else { lemma_find_skip(s8, p9, "instrument"@); }
            lemma_find_skip(s9, p10, "instrument"@);
            lemma_find_skip(s10, p11, "instrument"@);
            lemma_find_skip(s11, p12, "instrument"@);
            lemma_find_skip(s12, p13, "instrument"@);
            lemma_find_skip(s13, p14, "instrument"@);
            lemma_find_skip(s14, p15, "instrument"@);
            lemma_find_skip(s15, p16, "instrument"@);
            lemma_find_skip(s16, p17, "instrument"@);
            lemma_find_skip(s17, p18, "instrument"@);
        }
        assert(find_kwarg_spec(s18, "voice"@) == (match x.voice { Some(y) => Some(y.to_sexpr_spec()), None => None })) by {
            lemma_find_head_key("note"@, "voice"@);
            lemma_find_skip(s0, p1, "voice"@);
            lemma_find_skip(s1, p2, "voice"@);
            lemma_find_skip(s2, p3, "voice"@);
            lemma_find_skip(s3, p4, "voice"@);
            lemma_find_skip(s4, p5, "voice"@);
            lemma_find_skip(s5, p6, "voice"@);
            lemma_find_skip(s6, p7, "voice"@);
            lemma_find_skip(s7, p8, "voice"@);
            lemma_find_skip(s8, p9, "voice"@);
            if p10.len() == 2 { lemma_find_hit(s9, p10, "voice"@); } else { lemma_find_skip(s9, p10, "voice"@); }
            lemma_find_skip(s10, p11, "voice"@);
            lemma_find_skip(s11, p12, "voice"@);
            lemma_find_skip(s12, p13, "voice"@);
            lemma_find_skip(s13, p14, "voice"@);
            lemma_find_skip(s14, p15, "voice"@);
            lemma_find_skip(s15, p16, "voice"@);
            lemma_find_skip(s16, p17, "voice"@);
            lemma_find_skip(s17, p18, "voice"@);
        }
        assert(find_kwarg_spec(s18, "type"@) == (match x.type_ { Some(y) => Some(y.to_sexpr_spec()), None => None })) by {
            lemma_find_head_key("note"@, "type"@);
            lemma_find_skip(s0, p1, "type"@);
            lemma_find_skip(s1, p2, "type"@);
            lemma_find_skip(s2, p3, "type"@);
            lemma_find_skip(s3, p4, "type"@);
            lemma_find_skip(s4, p5, "type"@);
            lemma_find_skip(s5, p6, "type"@);
            lemma_find_skip(s6, p7, "type"@);
            lemma_find_skip(s7, p8, "type"@);
            lemma_find_skip(s8, p9, "type"@);
            lemma_find_skip(s9, p10, "type"@);
            if p11.len() == 2 { lemma_find_hit(s10, p11, "type"@); } else { lemma_find_skip(s10, p11, "type"@); }
            lemma_find_skip(s11, p12, "type"@);
            lemma_find_skip(s12, p13, "type"@);
            lemma_find_skip(s13, p14, "type"@);
            lemma_find_skip(s14, p15, "type"@);
            lemma_find_skip(s15, p16, "type"@);
            lemma_find_skip(s16, p17, "type"@);
            lemma_find_skip(s17, p18, "type"@);
        }
        assert(find_kwarg_spec(s18, "dots"@) == (if x.dots@.len() > 0 { Some(x.dots.to_sexpr_spec()) } else { None })) by {
            lemma_find_head_key("note"@, "dots"@);
            lemma_find_skip(s0, p1, "dots"@);
            lemma_find_skip(s1, p2, "dots"@);
            lemma_find_skip(s2, p3, "dots"@);
            lemma_find_skip(s3, p4, "dots"@);
            lemma_find_skip(s4, p5, "dots"@);
            lemma_find_skip(s5, p6, "dots"@);
            lemma_find_skip(s6, p7, "dots"@);
            lemma_find_skip(s7, p8, "dots"@);
            lemma_find_skip(s8, p9, "dots"@);
            lemma_find_skip(s9, p10, "dots"@);
            lemma_find_skip(s10, p11, "dots"@);
            if p12.len() == 2 { lemma_find_hit(s11, p12, "dots"@); } else { lemma_find_skip(s11, p12, "dots"@); }
            lemma_find_skip(s12, p13, "dots"@);
            lemma_find_skip(s13, p14, "dots"@);
            lemma_find_skip(s14, p15, "dots"@);
            lemma_find_skip(s15, p16, "dots"@);
            lemma_find_skip(s16, p17, "dots"@);
            lemma_find_skip(s17, p18, "dots"@);
        }
}

/// The head and keyword arguments of the S-expression of a `Note`, part 4.
#[verifier::rlimit(40)]
pub proof fn lemma_note_items_3(x: Note)
    requires
        x.writable(),
    ensures
        x.to_sexpr_spec() matches SexprV::List(items)
            && find_kwarg_spec(items, "accidental"@) == (match x.accidental { Some(y) => Some(y.to_sexpr_spec()), None => None })
            && find_kwarg_spec(items, "time-modification"@) == (match x.time_modification { Some(y) => Some(y.to_sexpr_spec()), None => None })
            && find_kwarg_spec(items, "stem"@) == (match x.stem { Some(y) => Some(y.to_sexpr_spec()), None => None })
            && find_kwarg_spec(items, "notehead"@) == (match x.notehead { Some(y) => Some(y.to_sexpr_spec()), None => None }),
{
        assert("position"@ != "accidental"@) by {
            reveal_strlit("position");
            assert("position"@.len() == 8);
            reveal_strlit("accidental");
            assert("accidental"@.len() == 10);
        }
        assert("dynamics"@ != "accidental"@) by {
            reveal_strlit("dynamics");
            assert("dynamics"@.len() == 8);
            reveal_strlit("accidental");
            assert("accidental"@.len() == 10);
        }
        assert("end-dynamics"@ != "accidental"@) by {
            reveal_strlit("end-dynamics");
            assert("end-dynamics"@.len() == 12);
            reveal_strlit("accidental");
            assert("accidental"@.len() == 10);
        }
        assert("attack"@ != "accidental"@) by {
            reveal_strlit("attack");
            assert("attack"@.len() == 6);
            reveal_strlit("accidental");
            assert("accidental"@.len() == 10);
        }
        assert("release"@ != "accidental"@) by {
            reveal_strlit("release");
            assert("release"@.len() == 7);
            reveal_strlit("accidental");
            assert("accidental"@.len() == 10);
        }
        assert("pizzicato"@ != "accidental"@) by {
            reveal_strlit("pizzicato");
            assert("pizzicato"@.len() == 9);
            reveal_strlit("accidental");
            assert("accidental"@.len() == 10);
        }
        assert("print-object"@ != "accidental"@) by {
            reveal_strlit("print-object");
            assert("print-object"@.len() == 12);
            reveal_strlit("accidental");
            assert("accidental"@.len() == 10);
        }
        assert("content"@ != "accidental"@) by {
            reveal_strlit("content");
            assert("content"@.len() == 7);
            reveal_strlit("accidental");
            assert("accidental"@.len() == 10);
        }
        assert("instrument"@ != "accidental"@) by {
            reveal_strlit("instrument");
            assert("instrument"@.len() == 10);
            reveal_strlit("accidental");
            assert("accidental"@.len() == 10);
            assert("instrument"@[0] == 'i');
            assert("accidental"@[0] == 'a');
        }
        assert("voice"@ != "accidental"@) by {
            reveal_strlit("voice");
            assert("voice"@.len() == 5);
            reveal_strlit("accidental");
            assert("accidental"@.len() == 10);
        }
        assert("type"@ != "accidental"@) by {
            reveal_strlit("type");
            assert("type"@.len() == 4);
            reveal_strlit("accidental");
            assert("accidental"@.len() == 10);
        }
        assert("dots"@ != "accidental"@) by {
            reveal_strlit("dots");
            assert("dots"@.len() == 4);
            reveal_strlit("accidental");
            assert("accidental"@.len() == 10);
        }
        assert("time-modification"@ != "accidental"@) by {
            reveal_strlit("time-modification");
            assert("time-modification"@.len() == 17);
            reveal_strlit("accidental");
            assert("accidental"@.len() == 10);
        }
        assert("stem"@ != "accidental"@) by {
            reveal_strlit("stem");
            assert("stem"@.len() == 4);
            reveal_strlit("accidental");
            assert("accidental"@.len() == 10);
        }
        assert("notehead"@ != "accidental"@) by {
            reveal_strlit("notehead");
            assert("notehead"@.len() == 8);
            reveal_strlit("accidental");
            assert("accidental"@.len() == 10);
        }
        assert("staff"@ != "accidental"@) by {
            reveal_strlit("staff");
            assert("staff"@.len() == 5);
            reveal_strlit("accidental");
            assert("accidental"@.len() == 10);
        }
        assert("beams"@ != "accidental"@) by {
            reveal_strlit("beams");
            assert("beams"@.len() == 5);
            reveal_strlit("accidental");
            assert("accidental"@.len() == 10);
        }
        assert("position"@ != "time-modification"@) by {
            reveal_strlit("position");
            assert("position"@.len() == 8);
            reveal_strlit("time-modification");
            assert("time-modification"@.len() == 17);
        }
        assert("dynamics"@ != "time-modification"@) by {
            reveal_strlit("dynamics");
            assert("dynamics"@.len() == 8);
            reveal_strlit("time-modification");
            assert("time-modification"@.len() == 17);
        }
        assert("end-dynamics"@ != "time-modification"@) by {
            reveal_strlit("end-dynamics");
            assert("end-dynamics"@.len() == 12);
            reveal_strlit("time-modification");
            assert("time-modification"@.len() == 17);
        }
        assert("attack"@ != "time-modification"@) by {
            reveal_strlit("attack");
            assert("attack"@.len() == 6);
            reveal_strlit("time-modification");
            assert("time-modification"@.len() == 17);
        }
        assert("release"@ != "time-modification"@) by {
            reveal_strlit("release");
            assert("release"@.len() == 7);
            reveal_strlit("time-modification");
            assert("time-modification"@.len() == 17);
        }
        assert("pizzicato"@ != "time-modification"@) by {
            reveal_strlit("pizzicato");
            assert("pizzicato"@.len() == 9);
            reveal_strlit("time-modification");
            assert("time-modification"@.len() == 17);
        }
        assert("print-object"@ != "time-modification"@) by {
            reveal_strlit("print-object");
            assert("print-object"@.len() == 12);
            reveal_strlit("time-modification");
            assert("time-modification"@.len() == 17);
        }
        assert("content"@ != "time-modification"@) by {
            reveal_strlit("content");
            assert("content"@.len() == 7);
            reveal_strlit("time-modification");
            assert("time-modification"@.len() == 17);
        }
        assert("instrument"@ != "time-modification"@) by {
            reveal_strlit("instrument");
            assert("instrument"@.len() == 10);
            reveal_strlit("time-modification");
            assert("time-modification"@.len() == 17);
        }
        assert("voice"@ != "time-modification"@) by {
            reveal_strlit("voice");
            assert("voice"@.len() == 5);
            reveal_strlit("time-modification");
            assert("time-modification"@.len() == 17);
        }
        assert("type"@ != "time-modification"@) by {
            reveal_strlit("type");
            assert("type"@.len() == 4);
            reveal_strlit("time-modification");
            assert("time-modification"@.len() == 17);
        }
        assert("dots"@ != "time-modification"@) by {
            reveal_strlit("dots");
            assert("dots"@.len() == 4);
            reveal_strlit("time-modification");
            assert("time-modification"@.len() == 17);
        }
        assert("stem"@ != "time-modification"@) by {
            reveal_strlit("stem");
            assert("stem"@.len() == 4);
            reveal_strlit("time-modification");
            assert("time-modification"@.len() == 17);
        }
        assert("notehead"@ != "time-modification"@) by {
            reveal_strlit("notehead");
            assert("notehead"@.len() == 8);
            reveal_strlit("time-modification");
            assert("time-modification"@.len() == 17);
        }
        assert("staff"@ != "time-modification"@) by {
            reveal_strlit("staff");
            assert("staff"@.len() == 5);
            reveal_strlit("time-modification");
            assert("time-modification"@.len() == 17);
        }
        assert("beams"@ != "time-modification"@) by {
            reveal_strlit("beams");
            assert("beams"@.len() == 5);
            reveal_strlit("time-modification");
            assert("time-modification"@.len() == 17);
        }
        assert("position"@ != "stem"@) by {
            reveal_strlit("position");
            assert("position"@.len() == 8);
            reveal_strlit("stem");
            assert("stem"@.len() == 4);
        }
        assert("dynamics"@ != "stem"@) by {
            reveal_strlit("dynamics");
            assert("dynamics"@.len() == 8);
            reveal_strlit("stem");
            assert("stem"@.len() == 4);
        }
        assert("end-dynamics"@ != "stem"@) by {
            reveal_strlit("end-dynamics");
            assert("end-dynamics"@.len() == 12);
            reveal_strlit("stem");
            assert("stem"@.len() == 4);
        }
        assert("attack"@ != "stem"@) by {
            reveal_strlit("attack");
            assert("attack"@.len() == 6);
            reveal_strlit("stem");
            assert("stem"@.len() == 4);
        }
        assert("release"@ != "stem"@) by {
            reveal_strlit("release");
            assert("release"@.len() == 7);
            reveal_strlit("stem");
            assert("stem"@.len() == 4);
        }
        assert("pizzicato"@ != "stem"@) by {
            reveal_strlit("pizzicato");
            assert("pizzicato"@.len() == 9);
            reveal_strlit("stem");
            assert("stem"@.len() == 4);
        }
        assert("print-object"@ != "stem"@) by {
            reveal_strlit("print-object");
            assert("print-object"@.len() == 12);
            reveal_strlit("stem");
            assert("stem"@.len() == 4);
        }
        assert("content"@ != "stem"@) by {
            reveal_strlit("content");
            assert("content"@.len() == 7);
            reveal_strlit("stem");
            assert("stem"@.len() == 4);
        }
        assert("instrument"@ != "stem"@) by {
            reveal_strlit("instrument");
            assert("instrument"@.len() == 10);
            reveal_strlit("stem");
            assert("stem"@.len() == 4);
        }
        assert("voice"@ != "stem"@) by {
            reveal_strlit("voice");
            assert("voice"@.len() == 5);
            reveal_strlit("stem");
            assert("stem"@.len() == 4);
        }
        assert("type"@ != "stem"@) by {
            reveal_strlit("type");
            assert("type"@.len() == 4);
            reveal_strlit("stem");
            assert("stem"@.len() == 4);
            assert("type"@[0] == 't');
            assert("stem"@[0] == 's');
        }
        assert("dots"@ != "stem"@) by {
            reveal_strlit("dots");
            assert("dots"@.len() == 4);
            reveal_strlit("stem");
            assert("stem"@.len() == 4);
            assert("dots"@[0] == 'd');
            assert("stem"@[0] == 's');
        }
        assert("notehead"@ != "stem"@) by {
            reveal_strlit("notehead");
            assert("notehead"@.len() == 8);
            reveal_strlit("stem");
            assert("stem"@.len() == 4);
        }
        assert("staff"@ != "stem"@) by {
            reveal_strlit("staff");
            assert("staff"@.len() == 5);
            reveal_strlit("stem");
            assert("stem"@.len() == 4);
        }
        assert("beams"@ != "stem"@) by {
            reveal_strlit("beams");
            assert("beams"@.len() == 5);
            reveal_strlit("stem");
            assert("stem"@.len() == 4);
        }
        assert("position"@ != "notehead"@) by {
            reveal_strlit("position");
            assert("position"@.len() == 8);
            reveal_strlit("notehead");
            assert("notehead"@.len() == 8);
            assert("position"@[0] == 'p');
            assert("notehead"@[0] == 'n');
        }
        assert("dynamics"@ != "notehead"@) by {
            reveal_strlit("dynamics");
            assert("dynamics"@.len() == 8);
            reveal_strlit("notehead");
            assert("notehead"@.len() == 8);
            assert("dynamics"@[0] == 'd');
            assert("notehead"@[0] == 'n');
        }
        assert("end-dynamics"@ != "notehead"@) by {
            reveal_strlit("end-dynamics");
            assert("end-dynamics"@.len() == 12);
            reveal_strlit("notehead");
            assert("notehead"@.len() == 8);
        }
        assert("attack"@ != "notehead"@) by {
            reveal_strlit("attack");
            assert("attack"@.len() == 6);
            reveal_strlit("notehead");
            assert("notehead"@.len() == 8);
        }
        assert("release"@ != "notehead"@) by {
            reveal_strlit("release");
            assert("release"@.len() == 7);
            reveal_strlit("notehead");
            assert("notehead"@.len() == 8);
        }
        assert("pizzicato"@ != "notehead"@) by {
            reveal_strlit("pizzicato");
            assert("pizzicato"@.len() == 9);
            reveal_strlit("notehead");
            assert("notehead"@.len() == 8);
        }
        assert("print-object"@ != "notehead"@) by {
            reveal_strlit("print-object");
            assert("print-object"@.len() == 12);
            reveal_strlit("notehead");
            assert("notehead"@.len() == 8);
        }
        assert("content"@ != "notehead"@) by {
            reveal_strlit("content");
            assert("content"@.len() == 7);
            reveal_strlit("notehead");
            assert("notehead"@.len() == 8);
        }
        assert("instrument"@ != "notehead"@) by {
            reveal_strlit("instrument");
            assert("instrument"@.len() == 10);
            reveal_strlit("notehead");
            assert("notehead"@.len() == 8);
        }
        assert("voice"@ != "notehead"@) by {
            reveal_strlit("voice");
            assert("voice"@.len() == 5);
            reveal_strlit("notehead");
            assert("notehead"@.len() == 8);
        }
        assert("type"@ != "notehead"@) by {
            reveal_strlit("type");
            assert("type"@.len() == 4);
            reveal_strlit("notehead");
            assert("notehead"@.len() == 8);
        }
        assert("dots"@ != "notehead"@) by {
            reveal_strlit("dots");
            assert("dots"@.len() == 4);
            reveal_strlit("notehead");
            assert("notehead"@.len() == 8);
        }
        assert("staff"@ != "notehead"@) by {
            reveal_strlit("staff");
            assert("staff"@.len() == 5);
            reveal_strlit("notehead");
            assert("notehead"@.len() == 8);
        }
        assert("beams"@ != "notehead"@) by {
            reveal_strlit("beams");
            assert("beams"@.len() == 5);
            reveal_strlit("notehead");
            assert("notehead"@.len() == 8);
        }
        let ghost s0 = seq![SexprV::Symbol("note"@)];
        assert(ends_clean(s0));
        let ghost p1 = kw_if(x.position.is_set(), "position"@, x.position.to_sexpr_spec());
        x.position.lemma_not_keyword();
        lemma_if_piece(x.position.is_set(), "position"@, x.position.to_sexpr_spec());
        let ghost s1 = s0 + p1;
        lemma_ends_clean(s0, p1);
        let ghost p2 = kw_opt("dynamics"@, x.dynamics);
        lemma_opt_piece("dynamics"@, x.dynamics);
        let ghost s2 = s1 + p2;
        lemma_ends_clean(s1, p2);
        let ghost p3 = kw_opt("end-dynamics"@, x.end_dynamics);
        lemma_opt_piece("end-dynamics"@, x.end_dynamics);
        let ghost s3 = s2 + p3;
        lemma_ends_clean(s2, p3);
        let ghost p4 = kw_opt("attack"@, x.attack);
        lemma_opt_piece("attack"@, x.attack);
        let ghost s4 = s3 + p4;
        lemma_ends_clean(s3, p4);
        let ghost p5 = kw_opt("release"@, x.release);
        lemma_opt_piece("release"@, x.release);
        let ghost s5 = s4 + p5;
        lemma_ends_clean(s4, p5);
        let ghost p6 = kw_opt("pizzicato"@, x.pizzicato);
        lemma_opt_piece("pizzicato"@, x.pizzicato);
        let ghost s6 = s5 + p6;
        lemma_ends_clean(s5, p6);
        let ghost p7 = kw_opt("print-object"@, x.print_object);
        lemma_opt_piece("print-object"@, x.print_object);
        let ghost s7 = s6 + p7;
        lemma_ends_clean(s6, p7);
        let ghost p8 = kw_pair("content"@, x.content.to_sexpr_spec());
        x.content.lemma_not_keyword();
        lemma_pair_piece("content"@, x.content.to_sexpr_spec());
        let ghost s8 = s7 + p8;
        lemma_ends_clean(s7, p8);
        let ghost p9 = kw_if(x.instrument@.len() > 0, "instrument"@, x.instrument.to_sexpr_spec());
        x.instrument.lemma_not_keyword();
        lemma_if_piece(x.instrument@.len() > 0, "instrument"@, x.instrument.to_sexpr_spec());
        let ghost s9 = s8 + p9;
        lemma_ends_clean(s8, p9);
        let ghost p10 = kw_opt("voice"@, x.voice);
        lemma_opt_piece("voice"@, x.voice);
        let ghost s10 = s9 + p10;
        lemma_ends_clean(s9, p10);
        let ghost p11 = kw_opt("type"@, x.type_);
        lemma_opt_piece("type"@, x.type_);
        let ghost s11 = s10 + p11;
        lemma_ends_clean(s10, p11);
        let ghost p12 = kw_if(x.dots@.len() > 0, "dots"@, x.dots.to_sexpr_spec());
        x.dots.lemma_not_keyword();
        lemma_if_piece(x.dots@.len() > 0, "dots"@, x.dots.to_sexpr_spec());
        let ghost s12 = s11 + p12;
        lemma_ends_clean(s11, p12);
        let ghost p13 = kw_opt("accidental"@, x.accidental);
        lemma_opt_piece("accidental"@, x.accidental);
        let ghost s13 = s12 + p13;
        lemma_ends_clean(s12, p13);
        let ghost p14 = kw_opt("time-modification"@, x.time_modification);
        lemma_opt_piece("time-modification"@, x.time_modification);
        let ghost s14 = s13 + p14;
        lemma_ends_clean(s13, p14);
        let ghost p15 = kw_opt("stem"@, x.stem);
        lemma_opt_piece("stem"@, x.stem);
        let ghost s15 = s14 + p15;
        lemma_ends_clean(s14, p15);
        let ghost p16 = kw_opt("notehead"@, x.notehead);
        lemma_opt_piece("notehead"@, x.notehead);
        let ghost s16 = s15 + p16;
        lemma_ends_clean(s15, p16);
        let ghost p17 = kw_opt("staff"@, x.staff);
        lemma_opt_piece("staff"@, x.staff);
        let ghost s17 = s16 + p17;
        lemma_ends_clean(s16, p17);
        let ghost p18 = kw_if(x.beams@.len() > 0, "beams"@, x.beams.to_sexpr_spec());
        x.beams.lemma_not_keyword();
        lemma_if_piece(x.beams@.len() > 0, "beams"@, x.beams.to_sexpr_spec());
        let ghost s18 = s17 + p18;
        lemma_ends_clean(s17, p18);
        assert(x.to_sexpr_spec() == SexprV::List(s18));
        assert(find_kwarg_spec(s18, "accidental"@) == (match x.accidental { Some(y) => Some(y.to_sexpr_spec()), None => None })) by {
            lemma_find_head_key("note"@, "accidental"@);
            lemma_find_skip(s0, p1, "accidental"@);
            lemma_find_skip(s1, p2, "accidental"@);
            lemma_find_skip(s2, p3, "accidental"@);
            lemma_find_skip(s3, p4, "accidental"@);
            lemma_find_skip(s4, p5, "accidental"@);
            lemma_find_skip(s5, p6, "accidental"@);
            lemma_find_skip(s6, p7, "accidental"@);
            lemma_find_skip(s7, p8, "accidental"@);
            lemma_find_skip(s8, p9, "accidental"@);
            lemma_find_skip(s9, p10, "accidental"@);
            lemma_find_skip(s10, p11, "accidental"@);
            lemma_find_skip(s11, p12, "accidental"@);
            if p13.len() == 2 { lemma_find_hit(s12, p13, "accidental"@); } else { lemma_find_skip(s12, p13, "accidental"@); }
            lemma_find_skip(s13, p14, "accidental"@);
            lemma_find_skip(s14, p15, "accidental"@);
            lemma_find_skip(s15, p16, "accidental"@);
            lemma_find_skip(s16, p17, "accidental"@);
            lemma_find_skip(s17, p18, "accidental"@);
        }
        assert(find_kwarg_spec(s18, "time-modification"@) == (match x.time_modification { Some(y) => Some(y.to_sexpr_spec()), None => None })) by {
            lemma_find_head_key("note"@, "time-modification"@);
            lemma_find_skip(s0, p1, "time-modification"@);
            lemma_find_skip(s1, p2, "time-modification"@);
            lemma_find_skip(s2, p3, "time-modification"@);
            lemma_find_skip(s3, p4, "time-modification"@);
            lemma_find_skip(s4, p5, "time-modification"@);
            lemma_find_skip(s5, p6, "time-modification"@);
            lemma_find_skip(s6, p7, "time-modification"@);
            lemma_find_skip(s7, p8, "time-modification"@);
            lemma_find_skip(s8, p9, "time-modification"@);
            lemma_find_skip(s9, p10, "time-modification"@);
            lemma_find_skip(s10, p11, "time-modification"@);
            lemma_find_skip(s11, p12, "time-modification"@);
            lemma_find_skip(s12, p13, "time-modification"@);
            if p14.len() == 2 { lemma_find_hit(s13, p14, "time-modification"@); } else { lemma_find_skip(s13, p14, "time-modification"@); }
            lemma_find_skip(s14, p15, "time-modification"@);
            lemma_find_skip(s15, p16, "time-modification"@);
            lemma_find_skip(s16, p17, "time-modification"@);
            lemma_find_skip(s17, p18, "time-modification"@);
        }
        assert(find_kwarg_spec(s18, "stem"@) == (match x.stem { Some(y) => Some(y.to_sexpr_spec()), None => None })) by {
            lemma_find_head_key("note"@, "stem"@);
            lemma_find_skip(s0, p1, "stem"@);
            lemma_find_skip(s1, p2, "stem"@);
            lemma_find_skip(s2, p3, "stem"@);
            lemma_find_skip(s3, p4, "stem"@);
            lemma_find_skip(s4, p5, "stem"@);
            lemma_find_skip(s5, p6, "stem"@);
            lemma_find_skip(s6, p7, "stem"@);
            lemma_find_skip(s7, p8, "stem"@);
            lemma_find_skip(s8, p9, "stem"@);
            lemma_find_skip(s9, p10, "stem"@);
            lemma_find_skip(s10, p11, "stem"@);
            lemma_find_skip(s11, p12, "stem"@);
            lemma_find_skip(s12, p13, "stem"@);
            lemma_find_skip(s13, p14, "stem"@);
            if p15.len() == 2 { lemma_find_hit(s14, p15, "stem"@); } else { lemma_find_skip(s14, p15, "stem"@); }
            lemma_find_skip(s15, p16, "stem"@);
            lemma_find_skip(s16, p17, "stem"@);
            lemma_find_skip(s17, p18, "stem"@);
        }
        assert(find_kwarg_spec(s18, "notehead"@) == (match x.notehead { Some(y) => Some(y.to_sexpr_spec()), None => None })) by {
            lemma_find_head_key("note"@, "notehead"@);
            lemma_find_skip(s0, p1, "notehead"@);
            lemma_find_skip(s1, p2, "notehead"@);
            lemma_find_skip(s2, p3, "notehead"@);
            lemma_find_skip(s3, p4, "notehead"@);
            lemma_find_skip(s4, p5, "notehead"@);
            lemma_find_skip(s5, p6, "notehead"@);
            lemma_find_skip(s6, p7, "notehead"@);
            lemma_find_skip(s7, p8, "notehead"@);
            lemma_find_skip(s8, p9, "notehead"@);
            lemma_find_skip(s9, p10, "notehead"@);
            lemma_find_skip(s10, p11, "notehead"@);
            lemma_find_skip(s11, p12, "notehead"@);
            lemma_find_skip(s12, p13, "notehead"@);
            lemma_find_skip(s13, p14, "notehead"@);
            lemma_find_skip(s14, p15, "notehead"@);
            if p16.len() == 2 { lemma_find_hit(s15, p16, "notehead"@); } else { lemma_find_skip(s15, p16, "notehead"@); }
            lemma_find_skip(s16, p17, "notehead"@);
            lemma_find_skip(s17, p18, "notehead"@);
        }
}

/// The head and keyword arguments of the S-expression of a `Note`, part 5.
#[verifier::rlimit(40)]
pub proof fn lemma_note_items_4(x: Note)
    requires
        x.writable(),
    ensures
        x.to_sexpr_spec() matches SexprV::List(items)
            && find_kwarg_spec(items, "staff"@) == (match x.staff { Some(y) => Some(y.to_sexpr_spec()), None => None })
            && find_kwarg_spec(items, "beams"@) == (if x.beams@.len() > 0 { Some(x.beams.to_sexpr_spec()) } else { None }),
{
        assert("position"@ != "staff"@) by {
            reveal_strlit("position");
            assert("position"@.len() == 8);
            reveal_strlit("staff");
            assert("staff"@.len() == 5);
        }
        assert("dynamics"@ != "staff"@) by {
            reveal_strlit("dynamics");
            assert("dynamics"@.len() == 8);
            reveal_strlit("staff");
            assert("staff"@.len() == 5);
        }
        assert("end-dynamics"@ != "staff"@) by {
            reveal_strlit("end-dynamics");
            assert("end-dynamics"@.len() == 12);
            reveal_strlit("staff");
            assert("staff"@.len() == 5);
        }
        assert("attack"@ != "staff"@) by {
            reveal_strlit("attack");
            assert("attack"@.len() == 6);
            reveal_strlit("staff");
            assert("staff"@.len() == 5);
        }
        assert("release"@ != "staff"@) by {
            reveal_strlit("release");
            assert("release"@.len() == 7);
            reveal_strlit("staff");
            assert("staff"@.len() == 5);
        }
        assert("pizzicato"@ != "staff"@) by {
            reveal_strlit("pizzicato");
            assert("pizzicato"@.len() == 9);
            reveal_strlit("staff");
            assert("staff"@.len() == 5);
        }
        assert("print-object"@ != "staff"@) by {
            reveal_strlit("print-object");
            assert("print-object"@.len() == 12);
            reveal_strlit("staff");
            assert("staff"@.len() == 5);
        }
        assert("content"@ != "staff"@) by {
            reveal_strlit("content");
            assert("content"@.len() == 7);
            reveal_strlit("staff");
            assert("staff"@.len() == 5);
        }
        assert("instrument"@ != "staff"@) by {
            reveal_strlit("instrument");
            assert("instrument"@.len() == 10);
            reveal_strlit("staff");
            assert("staff"@.len() == 5);
        }
        assert("voice"@ != "staff"@) by {
            reveal_strlit("voice");
            assert("voice"@.len() == 5);
            reveal_strlit("staff");
            assert("staff"@.len() == 5);
            assert("voice"@[0] == 'v');
            assert("staff"@[0] == 's');
        }
        assert("type"@ != "staff"@) by {
            reveal_strlit("type");
            assert("type"@.len() == 4);
            reveal_strlit("staff");
            assert("staff"@.len() == 5);
        }
        assert("dots"@ != "staff"@) by {
            reveal_strlit("dots");
            assert("dots"@.len() == 4);
            reveal_strlit("staff");
            assert("staff"@.len() == 5);
        }
        assert("accidental"@ != "staff"@) by {
            reveal_strlit("accidental");
            assert("accidental"@.len() == 10);
            reveal_strlit("staff");
            assert("staff"@.len() == 5);
        }
        assert("time-modification"@ != "staff"@) by {
            reveal_strlit("time-modification");
            assert("time-modification"@.len() == 17);
            reveal_strlit("staff");
            assert("staff"@.len() == 5);
        }
        assert("stem"@ != "staff"@) by {
            reveal_strlit("stem");
            assert("stem"@.len() == 4);
            reveal_strlit("staff");
            assert("staff"@.len() == 5);
        }
        assert("notehead"@ != "staff"@) by {
            reveal_strlit("notehead");
            assert("notehead"@.len() == 8);
            reveal_strlit("staff");
            assert("staff"@.len() == 5);
        }
        assert("beams"@ != "staff"@) by {
            reveal_strlit("beams");
            assert("beams"@.len() == 5);
            reveal_strlit("staff");
            assert("staff"@.len() == 5);
            assert("beams"@[0] == 'b');
            assert("staff"@[0] == 's');
        }
        assert("position"@ != "beams"@) by {
            reveal_strlit("position");
            assert("position"@.len() == 8);
            reveal_strlit("beams");
            assert("beams"@.len() == 5);
        }
        assert("dynamics"@ != "beams"@) by {
            reveal_strlit("dynamics");
            assert("dynamics"@.len() == 8);
            reveal_strlit("beams");
            assert("beams"@.len() == 5);
        }
        assert("end-dynamics"@ != "beams"@) by {
            reveal_strlit("end-dynamics");
            assert("end-dynamics"@.len() == 12);
            reveal_strlit("beams");
            assert("beams"@.len() == 5);
        }
        assert("attack"@ != "beams"@) by {
            reveal_strlit("attack");
            assert("attack"@.len() == 6);
            reveal_strlit("beams");
            assert("beams"@.len() == 5);
        }
        assert("release"@ != "beams"@) by {
            reveal_strlit("release");
            assert("release"@.len() == 7);
            reveal_strlit("beams");
            assert("beams"@.len() == 5);
        }
        assert("pizzicato"@ != "beams"@) by {
            reveal_strlit("pizzicato");
            assert("pizzicato"@.len() == 9);
            reveal_strlit("beams");
            assert("beams"@.len() == 5);
        }
        assert("print-object"@ != "beams"@) by {
            reveal_strlit("print-object");
            assert("print-object"@.len() == 12);
            reveal_strlit("beams");
            assert("beams"@.len() == 5);
        }
        assert("content"@ != "beams"@) by {
            reveal_strlit("content");
            assert("content"@.len() == 7);
            reveal_strlit("beams");
            assert("beams"@.len() == 5);
        }
        assert("instrument"@ != "beams"@) by {
            reveal_strlit("instrument");
            assert("instrument"@.len() == 10);
            reveal_strlit("beams");
            assert("beams"@.len() == 5);
        }
        assert("voice"@ != "beams"@) by {
            reveal_strlit("voice");
            assert("voice"@.len() == 5);
            reveal_strlit("beams");
            assert("beams"@.len() == 5);
            assert("voice"@[0] == 'v');
            assert("beams"@[0] == 'b');
        }
        assert("type"@ != "beams"@) by {
            reveal_strlit("type");
            assert("type"@.len() == 4);
            reveal_strlit("beams");
            assert("beams"@.len() == 5);
        }
        assert("dots"@ != "beams"@) by {
            reveal_strlit("dots");
            assert("dots"@.len() == 4);
            reveal_strlit("beams");
            assert("beams"@.len() == 5);
        }
        assert("accidental"@ != "beams"@) by {
            reveal_strlit("accidental");
            assert("accidental"@.len() == 10);
            reveal_strlit("beams");
            assert("beams"@.len() == 5);
        }
        assert("time-modification"@ != "beams"@) by {
            reveal_strlit("time-modification");
            assert("time-modification"@.len() == 17);
            reveal_strlit("beams");
            assert("beams"@.len() == 5);
        }
        assert("stem"@ != "beams"@) by {
            reveal_strlit("stem");
            assert("stem"@.len() == 4);
            reveal_strlit("beams");
            assert("beams"@.len() == 5);
        }
        assert("notehead"@ != "beams"@) by {
            reveal_strlit("notehead");
            assert("notehead"@.len() == 8);
            reveal_strlit("beams");
            assert("beams"@.len() == 5);
        }
        let ghost s0 = seq![SexprV::Symbol("note"@)];
        assert(ends_clean(s0));
        let ghost p1 = kw_if(x.position.is_set(), "position"@, x.position.to_sexpr_spec());
        x.position.lemma_not_keyword();
        lemma_if_piece(x.position.is_set(), "position"@, x.position.to_sexpr_spec());
        let ghost s1 = s0 + p1;
        lemma_ends_clean(s0, p1);
        let ghost p2 = kw_opt("dynamics"@, x.dynamics);
        lemma_opt_piece("dynamics"@, x.dynamics);
        let ghost s2 = s1 + p2;
        lemma_ends_clean(s1, p2);
        let ghost p3 = kw_opt("end-dynamics"@, x.end_dynamics);
        lemma_opt_piece("end-dynamics"@, x.end_dynamics);
        let ghost s3 = s2 + p3;
        lemma_ends_clean(s2, p3);
        let ghost p4 = kw_opt("attack"@, x.attack);
        lemma_opt_piece("attack"@, x.attack);
        let ghost s4 = s3 + p4;
        lemma_ends_clean(s3, p4);
        let ghost p5 = kw_opt("release"@, x.release);
        lemma_opt_piece("release"@, x.release);
        let ghost s5 = s4 + p5;
        lemma_ends_clean(s4, p5);
        let ghost p6 = kw_opt("pizzicato"@, x.pizzicato);
        lemma_opt_piece("pizzicato"@, x.pizzicato);
        let ghost s6 = s5 + p6;
        lemma_ends_clean(s5, p6);
        let ghost p7 = kw_opt("print-object"@, x.print_object);
        lemma_opt_piece("print-object"@, x.print_object);
        let ghost s7 = s6 + p7;
        lemma_ends_clean(s6, p7);
        let ghost p8 = kw_pair("content"@, x.content.to_sexpr_spec());
        x.content.lemma_not_keyword();
        lemma_pair_piece("content"@, x.content.to_sexpr_spec());
        let ghost s8 = s7 + p8;
        lemma_ends_clean(s7, p8);
        let ghost p9 = kw_if(x.instrument@.len() > 0, "instrument"@, x.instrument.to_sexpr_spec());
        x.instrument.lemma_not_keyword();
        lemma_if_piece(x.instrument@.len() > 0, "instrument"@, x.instrument.to_sexpr_spec());
        let ghost s9 = s8 + p9;
        lemma_ends_clean(s8, p9);
        let ghost p10 = kw_opt("voice"@, x.voice);
        lemma_opt_piece("voice"@, x.voice);
        let ghost s10 = s9 + p10;
        lemma_ends_clean(s9, p10);
        let ghost p11 = kw_opt("type"@, x.type_);
        lemma_opt_piece("type"@, x.type_);
        let ghost s11 = s10 + p11;
        lemma_ends_clean(s10, p11);
        let ghost p12 = kw_if(x.dots@.len() > 0, "dots"@, x.dots.to_sexpr_spec());
        x.dots.lemma_not_keyword();
        lemma_if_piece(x.dots@.len() > 0, "dots"@, x.dots.to_sexpr_spec());
        let ghost s12 = s11 + p12;
        lemma_ends_clean(s11, p12);
        let ghost p13 = kw_opt("accidental"@, x.accidental);
        lemma_opt_piece("accidental"@, x.accidental);
        let ghost s13 = s12 + p13;
        lemma_ends_clean(s12, p13);
        let ghost p14 = kw_opt("time-modification"@, x.time_modification);
        lemma_opt_piece("time-modification"@, x.time_modification);
        let ghost s14 = s13 + p14;
        lemma_ends_clean(s13, p14);
        let ghost p15 = kw_opt("stem"@, x.stem);
        lemma_opt_piece("stem"@, x.stem);
        let ghost s15 = s14 + p15;
        lemma_ends_clean(s14, p15);
        let ghost p16 = kw_opt("notehead"@, x.notehead);
        lemma_opt_piece("notehead"@, x.notehead);
        let ghost s16 = s15 + p16;
        lemma_ends_clean(s15, p16);
        let ghost p17 = kw_opt("staff"@, x.staff);
        lemma_opt_piece("staff"@, x.staff);
        let ghost s17 = s16 + p17;
        lemma_ends_clean(s16, p17);
        let ghost p18 = kw_if(x.beams@.len() > 0, "beams"@, x.beams.to_sexpr_spec());
        x.beams.lemma_not_keyword();
        lemma_if_piece(x.beams@.len() > 0, "beams"@, x.beams.to_sexpr_spec());
        let ghost s18 = s17 + p18;
        lemma_ends_clean(s17, p18);
        assert(x.to_sexpr_spec() == SexprV::List(s18));
        assert(find_kwarg_spec(s18, "staff"@) == (match x.staff { Some(y) => Some(y.to_sexpr_spec()), None => None })) by {
            lemma_find_head_key("note"@, "staff"@);
            lemma_find_skip(s0, p1, "staff"@);
            lemma_find_skip(s1, p2, "staff"@);
            lemma_find_skip(s2, p3, "staff"@);
            lemma_find_skip(s3, p4, "staff"@);
            lemma_find_skip(s4, p5, "staff"@);
            lemma_find_skip(s5, p6, "staff"@);
            lemma_find_skip(s6, p7, "staff"@);
            lemma_find_skip(s7, p8, "staff"@);
            lemma_find_skip(s8, p9, "staff"@);
            lemma_find_skip(s9, p10, "staff"@);
            lemma_find_skip(s10, p11, "staff"@);
            lemma_find_skip(s11, p12, "staff"@);
            lemma_find_skip(s12, p13, "staff"@);
            lemma_find_skip(s13, p14, "staff"@);
            lemma_find_skip(s14, p15, "staff"@);
            lemma_find_skip(s15, p16, "staff"@);
            if p17.len() == 2 { lemma_find_hit(s16, p17, "staff"@); } else { lemma_find_skip(s16, p17, "staff"@); }
            lemma_find_skip(s17, p18, "staff"@);
        }
        assert(find_kwarg_spec(s18, "beams"@) == (if x.beams@.len() > 0 { Some(x.beams.to_sexpr_spec()) } else { None })) by {
            lemma_find_head_key("note"@, "beams"@);
            lemma_find_skip(s0, p1, "beams"@);
            lemma_find_skip(s1, p2, "beams"@);
            lemma_find_skip(s2, p3, "beams"@);
            lemma_find_skip(s3, p4, "beams"@);
            lemma_find_skip(s4, p5, "beams"@);
            lemma_find_skip(s5, p6, "beams"@);
            lemma_find_skip(s6, p7, "beams"@);
            lemma_find_skip(s7, p8, "beams"@);
            lemma_find_skip(s8, p9, "beams"@);
            lemma_find_skip(s9, p10, "beams"@);
            lemma_find_skip(s10, p11, "beams"@);
            lemma_find_skip(s11, p12, "beams"@);
            lemma_find_skip(s12, p13, "beams"@);
            lemma_find_skip(s13, p14, "beams"@);
            lemma_find_skip(s14, p15, "beams"@);
            lemma_find_skip(s15, p16, "beams"@);
            lemma_find_skip(s16, p17, "beams"@);
            if p18.len() == 2 { lemma_find_hit(s17, p18, "beams"@); } else { lemma_find_skip(s17, p18, "beams"@); }
        }
}

/// The head and the keyword arguments of the S-expression of a `Note`.
pub proof fn lemma_note_items(x: Note)
    requires
        x.writable(),
    ensures
        x.to_sexpr_spec() matches SexprV::List(items) && items.len() > 0 && items[0] == SexprV::Symbol("note"@)
            && find_kwarg_spec(items, "position"@) == (if x.position.is_set() { Some(x.position.to_sexpr_spec()) } else { None })
            && find_kwarg_spec(items, "dynamics"@) == (match x.dynamics { Some(y) => Some(y.to_sexpr_spec()), None => None })
            && find_kwarg_spec(items, "end-dynamics"@) == (match x.end_dynamics { Some(y) => Some(y.to_sexpr_spec()), None => None })
            && find_kwarg_spec(items, "attack"@) == (match x.attack { Some(y) => Some(y.to_sexpr_spec()), None => None })
            && find_kwarg_spec(items, "release"@) == (match x.release { Some(y) => Some(y.to_sexpr_spec()), None => None })
            && find_kwarg_spec(items, "pizzicato"@) == (match x.pizzicato { Some(y) => Some(y.to_sexpr_spec()), None => None })
            && find_kwarg_spec(items, "print-object"@) == (match x.print_object { Some(y) => Some(y.to_sexpr_spec()), None => None })
            && find_kwarg_spec(items, "content"@) == (Some(x.content.to_sexpr_spec()))
            && find_kwarg_spec(items, "instrument"@) == (if x.instrument@.len() > 0 { Some(x.instrument.to_sexpr_spec()) } else { None })
            && find_kwarg_spec(items, "voice"@) == (match x.voice { Some(y) => Some(y.to_sexpr_spec()), None => None })
            && find_kwarg_spec(items, "type"@) == (match x.type_ { Some(y) => Some(y.to_sexpr_spec()), None => None })
            && find_kwarg_spec(items, "dots"@) == (if x.dots@.len() > 0 { Some(x.dots.to_sexpr_spec()) } else { None })
            && find_kwarg_spec(items, "accidental"@) == (match x.accidental { Some(y) => Some(y.to_sexpr_spec()), None => None })
            && find_kwarg_spec(items, "time-modification"@) == (match x.time_modification { Some(y) => Some(y.to_sexpr_spec()), None => None })
            && find_kwarg_spec(items, "stem"@) == (match x.stem { Some(y) => Some(y.to_sexpr_spec()), None => None })
            && find_kwarg_spec(items, "notehead"@) == (match x.notehead { Some(y) => Some(y.to_sexpr_spec()), None => None })
            && find_kwarg_spec(items, "staff"@) == (match x.staff { Some(y) => Some(y.to_sexpr_spec()), None => None })
            && find_kwarg_spec(items, "beams"@) == (if x.beams@.len() > 0 { Some(x.beams.to_sexpr_spec()) } else { None }),
{
    lemma_note_items_0(x);
    lemma_note_items_1(x);
    lemma_note_items_2(x);
    lemma_note_items_3(x);
    lemma_note_items_4(x);
}

impl RoundTrip for Note {
    /// A value whose parts are writable and whose unwritten parts are as reading gives them.
    open spec fn writable(&self) -> bool {
        self.position.writable()
            && self.dynamics.writable()
            && self.end_dynamics.writable()
            && self.attack.writable()
            && self.release.writable()
            && self.pizzicato.writable()
            && self.print_object.writable()
            && self.content.writable()
            && self.instrument.writable()
            && self.voice.writable()
            && self.type_.writable()
            && self.dots.writable()
            && self.accidental.writable()
            && self.time_modification.writable()
            && self.stem.writable()
            && self.notehead.writable()
            && self.staff.writable()
            && self.beams.writable()
            && self.notations@.len() == 0
            && self.lyrics@.len() == 0
    }

    open spec fn same(&self, other: &Self) -> bool {
        self.position.same(&other.position)
            && self.dynamics.same(&other.dynamics)
            && self.end_dynamics.same(&other.end_dynamics)
            && self.attack.same(&other.attack)
            && self.release.same(&other.release)
            && self.pizzicato.same(&other.pizzicato)
            && self.print_object.same(&other.print_object)
            && self.content.same(&other.content)
            && self.instrument.same(&other.instrument)
            && self.voice.same(&other.voice)
            && self.type_.same(&other.type_)
            && self.dots.same(&other.dots)
            && self.accidental.same(&other.accidental)
            && self.time_modification.same(&other.time_modification)
            && self.stem.same(&other.stem)
            && self.notehead.same(&other.notehead)
            && self.staff.same(&other.staff)
            && self.beams.same(&other.beams)
            && self.notations@ =~= other.notations@
            && self.lyrics@ =~= other.lyrics@
    }

    proof fn lemma_not_keyword(&self) {
    }

    proof fn lemma_no_error(&self) {
        lemma_note_items(*self);
        self.position.lemma_no_error();
        self.dynamics.lemma_no_error();
        self.end_dynamics.lemma_no_error();
        self.attack.lemma_no_error();
        self.release.lemma_no_error();
        self.pizzicato.lemma_no_error();
        self.print_object.lemma_no_error();
        self.content.lemma_no_error();
        self.instrument.lemma_no_error();
        self.voice.lemma_no_error();
        self.type_.lemma_no_error();
        self.dots.lemma_no_error();
        self.accidental.lemma_no_error();
        self.time_modification.lemma_no_error();
        self.stem.lemma_no_error();
        self.notehead.lemma_no_error();
        self.staff.lemma_no_error();
        self.beams.lemma_no_error();
    }

    proof fn lemma_value(&self, v: Self) {
        lemma_note_items(*self);
        if self.position.is_set() {
            self.position.lemma_value(v.position);
        }
        self.dynamics.lemma_value(v.dynamics);
        self.end_dynamics.lemma_value(v.end_dynamics);
        self.attack.lemma_value(v.attack);
        self.release.lemma_value(v.release);
        self.pizzicato.lemma_value(v.pizzicato);
        self.print_object.lemma_value(v.print_object);
        self.content.lemma_value(v.content);
        if self.instrument@.len() > 0 {
            self.instrument.lemma_value(v.instrument);
        }
        self.voice.lemma_value(v.voice);
        self.type_.lemma_value(v.type_);
        if self.dots@.len() > 0 {
            self.dots.lemma_value(v.dots);
        }
        self.accidental.lemma_value(v.accidental);
        self.time_modification.lemma_value(v.time_modification);
        self.stem.lemma_value(v.stem);
        self.notehead.lemma_value(v.notehead);
        self.staff.lemma_value(v.staff);
        if self.beams@.len() > 0 {
            self.beams.lemma_value(v.beams);
        }
    }
}

} // verus!
