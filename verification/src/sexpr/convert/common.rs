//! Conversions of the types shared by many parts of a score.

use vstd::prelude::*;
use crate::sexpr::round_trip::{RoundTrip, lemma_find_after, lemma_find_head, lemma_find_after_key, lemma_find_head_key, lemma_find_skip, lemma_find_hit, lemma_ends_clean, ends_clean, clean_piece, lemma_pair_piece, lemma_opt_piece, lemma_if_piece};
use super::find_kwarg_spec;
use crate::decimal::Decimal;
use crate::text::str_eq;
use crate::sexpr::ast::{ListBuilder, Sexpr, SexprV, kw_pair, kw_opt, kw_if};
use crate::sexpr::error::{ConvertError, ConvertErrorV, type_mismatch_v};
use crate::sexpr::traits::{FromSexpr, ToSexpr};
use super::{
    expect_head, get_head, require_kwarg, optional_kwarg, object_kwarg, flag_kwarg, list_kwarg,
    head_error, head_name, kwarg_error, kwarg_value, opt_kwarg_error, opt_kwarg_value,
    obj_kwarg_error, obj_kwarg_value, flag_kwarg_value, list_kwarg_value, either,
};
use crate::ir::common::{
    YesNo, AboveBelow, StartStop, StartStopContinue, StartStopSingle, LineType, OverUnder, UpDown,
    FontStyle, FontWeight, CssFontSize, AccidentalValue, SymbolSize, FontSize, Position, Font, EmptyPlacement,
    WavyLine, position_none, font_none,
};
use crate::ir::duration::NoteTypeValue;

verus! {

// === YesNo ===

/// The symbol of each `YesNo`.
pub open spec fn yes_no_name(v: YesNo) -> Seq<char> {
    match v {
        YesNo::Yes => "yes"@,
        YesNo::No => "no"@,
    }
}

/// The `YesNo` that a symbol names.
pub open spec fn yes_no_of_name(t: Seq<char>) -> Option<YesNo> {
    if t == "yes"@ {
        Some(YesNo::Yes)
    } else if t == "no"@ {
        Some(YesNo::No)
    } else {
        None
    }
}

impl YesNo {
    /// The symbol of the value, as `yes_no_name` states.
    pub fn symbol(&self) -> (r: &'static str)
        ensures
            r@ == yes_no_name(*self),
    {
        match self {
            YesNo::Yes => "yes",
            YesNo::No => "no",
        }
    }
}

impl ToSexpr for YesNo {
    /// The symbol of the value.
    open spec fn to_sexpr_spec(&self) -> SexprV {
        SexprV::Symbol(yes_no_name(*self))
    }

    fn to_sexpr(&self) -> (r: Sexpr) {
        Sexpr::symbol(self.symbol())
    }
}

impl FromSexpr for YesNo {
    /// A symbol that names a value.
    open spec fn from_sexpr_error(s: SexprV) -> Option<ConvertErrorV> {
        match s {
            SexprV::Symbol(t) => if yes_no_of_name(t) is Some {
                None
            } else {
                Some(type_mismatch_v("yes-no"@, s))
            },
            _ => Some(type_mismatch_v("yes-no"@, s)),
        }
    }

    open spec fn from_sexpr_value(s: SexprV, v: YesNo) -> bool {
        match s {
            SexprV::Symbol(t) => yes_no_of_name(t) == Some(v),
            _ => false,
        }
    }

    fn from_sexpr(sexpr: &Sexpr) -> (r: Result<YesNo, ConvertError>) {
        match sexpr.as_symbol() {
            Some(t) => {
                if str_eq(t, "yes") {
                    Ok(YesNo::Yes)
                } else if str_eq(t, "no") {
                    Ok(YesNo::No)
                } else {
                    Err(ConvertError::type_mismatch("yes-no", sexpr))
                }
            },
            None => Err(ConvertError::type_mismatch("yes-no", sexpr)),
        }
    }
}

// === AboveBelow ===

/// The symbol of each `AboveBelow`.
pub open spec fn above_below_name(v: AboveBelow) -> Seq<char> {
    match v {
        AboveBelow::Above => "above"@,
        AboveBelow::Below => "below"@,
    }
}

/// The `AboveBelow` that a symbol names.
pub open spec fn above_below_of_name(t: Seq<char>) -> Option<AboveBelow> {
    if t == "above"@ {
        Some(AboveBelow::Above)
    } else if t == "below"@ {
        Some(AboveBelow::Below)
    } else {
        None
    }
}

impl AboveBelow {
    /// The symbol of the value, as `above_below_name` states.
    pub fn symbol(&self) -> (r: &'static str)
        ensures
            r@ == above_below_name(*self),
    {
        match self {
            AboveBelow::Above => "above",
            AboveBelow::Below => "below",
        }
    }
}

impl ToSexpr for AboveBelow {
    /// The symbol of the value.
    open spec fn to_sexpr_spec(&self) -> SexprV {
        SexprV::Symbol(above_below_name(*self))
    }

    fn to_sexpr(&self) -> (r: Sexpr) {
        Sexpr::symbol(self.symbol())
    }
}

impl FromSexpr for AboveBelow {
    /// A symbol that names a value.
    open spec fn from_sexpr_error(s: SexprV) -> Option<ConvertErrorV> {
        match s {
            SexprV::Symbol(t) => if above_below_of_name(t) is Some {
                None
            } else {
                Some(type_mismatch_v("above-below"@, s))
            },
            _ => Some(type_mismatch_v("above-below"@, s)),
        }
    }

    open spec fn from_sexpr_value(s: SexprV, v: AboveBelow) -> bool {
        match s {
            SexprV::Symbol(t) => above_below_of_name(t) == Some(v),
            _ => false,
        }
    }

    fn from_sexpr(sexpr: &Sexpr) -> (r: Result<AboveBelow, ConvertError>) {
        match sexpr.as_symbol() {
            Some(t) => {
                if str_eq(t, "above") {
                    Ok(AboveBelow::Above)
                } else if str_eq(t, "below") {
                    Ok(AboveBelow::Below)
                } else {
                    Err(ConvertError::type_mismatch("above-below", sexpr))
                }
            },
            None => Err(ConvertError::type_mismatch("above-below", sexpr)),
        }
    }
}

// === StartStop ===

/// The symbol of each `StartStop`.
pub open spec fn start_stop_name(v: StartStop) -> Seq<char> {
    match v {
        StartStop::Start => "start"@,
        StartStop::Stop => "stop"@,
    }
}

/// The `StartStop` that a symbol names.
pub open spec fn start_stop_of_name(t: Seq<char>) -> Option<StartStop> {
    if t == "start"@ {
        Some(StartStop::Start)
    } else if t == "stop"@ {
        Some(StartStop::Stop)
    } else {
        None
    }
}

impl StartStop {
    /// The symbol of the value, as `start_stop_name` states.
    pub fn symbol(&self) -> (r: &'static str)
        ensures
            r@ == start_stop_name(*self),
    {
        match self {
            StartStop::Start => "start",
            StartStop::Stop => "stop",
        }
    }
}

impl ToSexpr for StartStop {
    /// The symbol of the value.
    open spec fn to_sexpr_spec(&self) -> SexprV {
        SexprV::Symbol(start_stop_name(*self))
    }

    fn to_sexpr(&self) -> (r: Sexpr) {
        Sexpr::symbol(self.symbol())
    }
}

impl FromSexpr for StartStop {
    /// A symbol that names a value.
    open spec fn from_sexpr_error(s: SexprV) -> Option<ConvertErrorV> {
        match s {
            SexprV::Symbol(t) => if start_stop_of_name(t) is Some {
                None
            } else {
                Some(type_mismatch_v("start-stop"@, s))
            },
            _ => Some(type_mismatch_v("start-stop"@, s)),
        }
    }

    open spec fn from_sexpr_value(s: SexprV, v: StartStop) -> bool {
        match s {
            SexprV::Symbol(t) => start_stop_of_name(t) == Some(v),
            _ => false,
        }
    }

    fn from_sexpr(sexpr: &Sexpr) -> (r: Result<StartStop, ConvertError>) {
        match sexpr.as_symbol() {
            Some(t) => {
                if str_eq(t, "start") {
                    Ok(StartStop::Start)
                } else if str_eq(t, "stop") {
                    Ok(StartStop::Stop)
                } else {
                    Err(ConvertError::type_mismatch("start-stop", sexpr))
                }
            },
            None => Err(ConvertError::type_mismatch("start-stop", sexpr)),
        }
    }
}

// === StartStopContinue ===

/// The symbol of each `StartStopContinue`.
pub open spec fn start_stop_continue_name(v: StartStopContinue) -> Seq<char> {
    match v {
        StartStopContinue::Start => "start"@,
        StartStopContinue::Stop => "stop"@,
        StartStopContinue::Continue => "continue"@,
    }
}

/// The `StartStopContinue` that a symbol names.
pub open spec fn start_stop_continue_of_name(t: Seq<char>) -> Option<StartStopContinue> {
    if t == "start"@ {
        Some(StartStopContinue::Start)
    } else if t == "stop"@ {
        Some(StartStopContinue::Stop)
    } else if t == "continue"@ {
        Some(StartStopContinue::Continue)
    } else {
        None
    }
}

impl StartStopContinue {
    /// The symbol of the value, as `start_stop_continue_name` states.
    pub fn symbol(&self) -> (r: &'static str)
        ensures
            r@ == start_stop_continue_name(*self),
    {
        match self {
            StartStopContinue::Start => "start",
            StartStopContinue::Stop => "stop",
            StartStopContinue::Continue => "continue",
        }
    }
}

impl ToSexpr for StartStopContinue {
    /// The symbol of the value.
    open spec fn to_sexpr_spec(&self) -> SexprV {
        SexprV::Symbol(start_stop_continue_name(*self))
    }

    fn to_sexpr(&self) -> (r: Sexpr) {
        Sexpr::symbol(self.symbol())
    }
}

impl FromSexpr for StartStopContinue {
    /// A symbol that names a value.
    open spec fn from_sexpr_error(s: SexprV) -> Option<ConvertErrorV> {
        match s {
            SexprV::Symbol(t) => if start_stop_continue_of_name(t) is Some {
                None
            } else {
                Some(type_mismatch_v("start-stop-continue"@, s))
            },
            _ => Some(type_mismatch_v("start-stop-continue"@, s)),
        }
    }

    open spec fn from_sexpr_value(s: SexprV, v: StartStopContinue) -> bool {
        match s {
            SexprV::Symbol(t) => start_stop_continue_of_name(t) == Some(v),
            _ => false,
        }
    }

    fn from_sexpr(sexpr: &Sexpr) -> (r: Result<StartStopContinue, ConvertError>) {
        match sexpr.as_symbol() {
            Some(t) => {
                if str_eq(t, "start") {
                    Ok(StartStopContinue::Start)
                } else if str_eq(t, "stop") {
                    Ok(StartStopContinue::Stop)
                } else if str_eq(t, "continue") {
                    Ok(StartStopContinue::Continue)
                } else {
                    Err(ConvertError::type_mismatch("start-stop-continue", sexpr))
                }
            },
            None => Err(ConvertError::type_mismatch("start-stop-continue", sexpr)),
        }
    }
}

// === StartStopSingle ===

/// The symbol of each `StartStopSingle`.
pub open spec fn start_stop_single_name(v: StartStopSingle) -> Seq<char> {
    match v {
        StartStopSingle::Start => "start"@,
        StartStopSingle::Stop => "stop"@,
        StartStopSingle::Single => "single"@,
    }
}

/// The `StartStopSingle` that a symbol names.
pub open spec fn start_stop_single_of_name(t: Seq<char>) -> Option<StartStopSingle> {
    if t == "start"@ {
        Some(StartStopSingle::Start)
    } else if t == "stop"@ {
        Some(StartStopSingle::Stop)
    } else if t == "single"@ {
        Some(StartStopSingle::Single)
    } else {
        None
    }
}

impl StartStopSingle {
    /// The symbol of the value, as `start_stop_single_name` states.
    pub fn symbol(&self) -> (r: &'static str)
        ensures
            r@ == start_stop_single_name(*self),
    {
        match self {
            StartStopSingle::Start => "start",
            StartStopSingle::Stop => "stop",
            StartStopSingle::Single => "single",
        }
    }
}

impl ToSexpr for StartStopSingle {
    /// The symbol of the value.
    open spec fn to_sexpr_spec(&self) -> SexprV {
        SexprV::Symbol(start_stop_single_name(*self))
    }

    fn to_sexpr(&self) -> (r: Sexpr) {
        Sexpr::symbol(self.symbol())
    }
}

impl FromSexpr for StartStopSingle {
    /// A symbol that names a value.
    open spec fn from_sexpr_error(s: SexprV) -> Option<ConvertErrorV> {
        match s {
            SexprV::Symbol(t) => if start_stop_single_of_name(t) is Some {
                None
            } else {
                Some(type_mismatch_v("start-stop-single"@, s))
            },
            _ => Some(type_mismatch_v("start-stop-single"@, s)),
        }
    }

    open spec fn from_sexpr_value(s: SexprV, v: StartStopSingle) -> bool {
        match s {
            SexprV::Symbol(t) => start_stop_single_of_name(t) == Some(v),
            _ => false,
        }
    }

    fn from_sexpr(sexpr: &Sexpr) -> (r: Result<StartStopSingle, ConvertError>) {
        match sexpr.as_symbol() {
            Some(t) => {
                if str_eq(t, "start") {
                    Ok(StartStopSingle::Start)
                } else if str_eq(t, "stop") {
                    Ok(StartStopSingle::Stop)
                } else if str_eq(t, "single") {
                    Ok(StartStopSingle::Single)
                } else {
                    Err(ConvertError::type_mismatch("start-stop-single", sexpr))
                }
            },
            None => Err(ConvertError::type_mismatch("start-stop-single", sexpr)),
        }
    }
}

// === LineType ===

/// The symbol of each `LineType`.
pub open spec fn line_type_name(v: LineType) -> Seq<char> {
    match v {
        LineType::Solid => "solid"@,
        LineType::Dashed => "dashed"@,
        LineType::Dotted => "dotted"@,
        LineType::Wavy => "wavy"@,
    }
}

/// The `LineType` that a symbol names.
pub open spec fn line_type_of_name(t: Seq<char>) -> Option<LineType> {
    if t == "solid"@ {
        Some(LineType::Solid)
    } else if t == "dashed"@ {
        Some(LineType::Dashed)
    } else if t == "dotted"@ {
        Some(LineType::Dotted)
    } else if t == "wavy"@ {
        Some(LineType::Wavy)
    } else {
        None
    }
}

impl LineType {
    /// The symbol of the value, as `line_type_name` states.
    pub fn symbol(&self) -> (r: &'static str)
        ensures
            r@ == line_type_name(*self),
    {
        match self {
            LineType::Solid => "solid",
            LineType::Dashed => "dashed",
            LineType::Dotted => "dotted",
            LineType::Wavy => "wavy",
        }
    }
}

impl ToSexpr for LineType {
    /// The symbol of the value.
    open spec fn to_sexpr_spec(&self) -> SexprV {
        SexprV::Symbol(line_type_name(*self))
    }

    fn to_sexpr(&self) -> (r: Sexpr) {
        Sexpr::symbol(self.symbol())
    }
}

impl FromSexpr for LineType {
    /// A symbol that names a value.
    open spec fn from_sexpr_error(s: SexprV) -> Option<ConvertErrorV> {
        match s {
            SexprV::Symbol(t) => if line_type_of_name(t) is Some {
                None
            } else {
                Some(type_mismatch_v("line-type"@, s))
            },
            _ => Some(type_mismatch_v("line-type"@, s)),
        }
    }

    open spec fn from_sexpr_value(s: SexprV, v: LineType) -> bool {
        match s {
            SexprV::Symbol(t) => line_type_of_name(t) == Some(v),
            _ => false,
        }
    }

    fn from_sexpr(sexpr: &Sexpr) -> (r: Result<LineType, ConvertError>) {
        match sexpr.as_symbol() {
            Some(t) => {
                if str_eq(t, "solid") {
                    Ok(LineType::Solid)
                } else if str_eq(t, "dashed") {
                    Ok(LineType::Dashed)
                } else if str_eq(t, "dotted") {
                    Ok(LineType::Dotted)
                } else if str_eq(t, "wavy") {
                    Ok(LineType::Wavy)
                } else {
                    Err(ConvertError::type_mismatch("line-type", sexpr))
                }
            },
            None => Err(ConvertError::type_mismatch("line-type", sexpr)),
        }
    }
}

// === OverUnder ===

/// The symbol of each `OverUnder`.
pub open spec fn over_under_name(v: OverUnder) -> Seq<char> {
    match v {
        OverUnder::Over => "over"@,
        OverUnder::Under => "under"@,
    }
}

/// The `OverUnder` that a symbol names.
pub open spec fn over_under_of_name(t: Seq<char>) -> Option<OverUnder> {
    if t == "over"@ {
        Some(OverUnder::Over)
    } else if t == "under"@ {
        Some(OverUnder::Under)
    } else {
        None
    }
}

impl OverUnder {
    /// The symbol of the value, as `over_under_name` states.
    pub fn symbol(&self) -> (r: &'static str)
        ensures
            r@ == over_under_name(*self),
    {
        match self {
            OverUnder::Over => "over",
            OverUnder::Under => "under",
        }
    }
}

impl ToSexpr for OverUnder {
    /// The symbol of the value.
    open spec fn to_sexpr_spec(&self) -> SexprV {
        SexprV::Symbol(over_under_name(*self))
    }

    fn to_sexpr(&self) -> (r: Sexpr) {
        Sexpr::symbol(self.symbol())
    }
}

impl FromSexpr for OverUnder {
    /// A symbol that names a value.
    open spec fn from_sexpr_error(s: SexprV) -> Option<ConvertErrorV> {
        match s {
            SexprV::Symbol(t) => if over_under_of_name(t) is Some {
                None
            } else {
                Some(type_mismatch_v("over-under"@, s))
            },
            _ => Some(type_mismatch_v("over-under"@, s)),
        }
    }

    open spec fn from_sexpr_value(s: SexprV, v: OverUnder) -> bool {
        match s {
            SexprV::Symbol(t) => over_under_of_name(t) == Some(v),
            _ => false,
        }
    }

    fn from_sexpr(sexpr: &Sexpr) -> (r: Result<OverUnder, ConvertError>) {
        match sexpr.as_symbol() {
            Some(t) => {
                if str_eq(t, "over") {
                    Ok(OverUnder::Over)
                } else if str_eq(t, "under") {
                    Ok(OverUnder::Under)
                } else {
                    Err(ConvertError::type_mismatch("over-under", sexpr))
                }
            },
            None => Err(ConvertError::type_mismatch("over-under", sexpr)),
        }
    }
}

// === UpDown ===

/// The symbol of each `UpDown`.
pub open spec fn up_down_name(v: UpDown) -> Seq<char> {
    match v {
        UpDown::Up => "up"@,
        UpDown::Down => "down"@,
    }
}

/// The `UpDown` that a symbol names.
pub open spec fn up_down_of_name(t: Seq<char>) -> Option<UpDown> {
    if t == "up"@ {
        Some(UpDown::Up)
    } else if t == "down"@ {
        Some(UpDown::Down)
    } else {
        None
    }
}

impl UpDown {
    /// The symbol of the value, as `up_down_name` states.
    pub fn symbol(&self) -> (r: &'static str)
        ensures
            r@ == up_down_name(*self),
    {
        match self {
            UpDown::Up => "up",
            UpDown::Down => "down",
        }
    }
}

impl ToSexpr for UpDown {
    /// The symbol of the value.
    open spec fn to_sexpr_spec(&self) -> SexprV {
        SexprV::Symbol(up_down_name(*self))
    }

    fn to_sexpr(&self) -> (r: Sexpr) {
        Sexpr::symbol(self.symbol())
    }
}

impl FromSexpr for UpDown {
    /// A symbol that names a value.
    open spec fn from_sexpr_error(s: SexprV) -> Option<ConvertErrorV> {
        match s {
            SexprV::Symbol(t) => if up_down_of_name(t) is Some {
                None
            } else {
                Some(type_mismatch_v("up-down"@, s))
            },
            _ => Some(type_mismatch_v("up-down"@, s)),
        }
    }

    open spec fn from_sexpr_value(s: SexprV, v: UpDown) -> bool {
        match s {
            SexprV::Symbol(t) => up_down_of_name(t) == Some(v),
            _ => false,
        }
    }

    fn from_sexpr(sexpr: &Sexpr) -> (r: Result<UpDown, ConvertError>) {
        match sexpr.as_symbol() {
            Some(t) => {
                if str_eq(t, "up") {
                    Ok(UpDown::Up)
                } else if str_eq(t, "down") {
                    Ok(UpDown::Down)
                } else {
                    Err(ConvertError::type_mismatch("up-down", sexpr))
                }
            },
            None => Err(ConvertError::type_mismatch("up-down", sexpr)),
        }
    }
}

// === FontStyle ===

/// The symbol of each `FontStyle`.
pub open spec fn font_style_name(v: FontStyle) -> Seq<char> {
    match v {
        FontStyle::Normal => "normal"@,
        FontStyle::Italic => "italic"@,
    }
}

/// The `FontStyle` that a symbol names.
pub open spec fn font_style_of_name(t: Seq<char>) -> Option<FontStyle> {
    if t == "normal"@ {
        Some(FontStyle::Normal)
    } else if t == "italic"@ {
        Some(FontStyle::Italic)
    } else {
        None
    }
}

impl FontStyle {
    /// The symbol of the value, as `font_style_name` states.
    pub fn symbol(&self) -> (r: &'static str)
        ensures
            r@ == font_style_name(*self),
    {
        match self {
            FontStyle::Normal => "normal",
            FontStyle::Italic => "italic",
        }
    }
}

impl ToSexpr for FontStyle {
    /// The symbol of the value.
    open spec fn to_sexpr_spec(&self) -> SexprV {
        SexprV::Symbol(font_style_name(*self))
    }

    fn to_sexpr(&self) -> (r: Sexpr) {
        Sexpr::symbol(self.symbol())
    }
}

impl FromSexpr for FontStyle {
    /// A symbol that names a value.
    open spec fn from_sexpr_error(s: SexprV) -> Option<ConvertErrorV> {
        match s {
            SexprV::Symbol(t) => if font_style_of_name(t) is Some {
                None
            } else {
                Some(type_mismatch_v("font-style"@, s))
            },
            _ => Some(type_mismatch_v("font-style"@, s)),
        }
    }

    open spec fn from_sexpr_value(s: SexprV, v: FontStyle) -> bool {
        match s {
            SexprV::Symbol(t) => font_style_of_name(t) == Some(v),
            _ => false,
        }
    }

    fn from_sexpr(sexpr: &Sexpr) -> (r: Result<FontStyle, ConvertError>) {
        match sexpr.as_symbol() {
            Some(t) => {
                if str_eq(t, "normal") {
                    Ok(FontStyle::Normal)
                } else if str_eq(t, "italic") {
                    Ok(FontStyle::Italic)
                } else {
                    Err(ConvertError::type_mismatch("font-style", sexpr))
                }
            },
            None => Err(ConvertError::type_mismatch("font-style", sexpr)),
        }
    }
}

// === FontWeight ===

/// The symbol of each `FontWeight`.
pub open spec fn font_weight_name(v: FontWeight) -> Seq<char> {
    match v {
        FontWeight::Normal => "normal"@,
        FontWeight::Bold => "bold"@,
    }
}

/// The `FontWeight` that a symbol names.
pub open spec fn font_weight_of_name(t: Seq<char>) -> Option<FontWeight> {
    if t == "normal"@ {
        Some(FontWeight::Normal)
    } else if t == "bold"@ {
        Some(FontWeight::Bold)
    } else {
        None
    }
}

impl FontWeight {
    /// The symbol of the value, as `font_weight_name` states.
    pub fn symbol(&self) -> (r: &'static str)
        ensures
            r@ == font_weight_name(*self),
    {
        match self {
            FontWeight::Normal => "normal",
            FontWeight::Bold => "bold",
        }
    }
}

impl ToSexpr for FontWeight {
    /// The symbol of the value.
    open spec fn to_sexpr_spec(&self) -> SexprV {
        SexprV::Symbol(font_weight_name(*self))
    }

    fn to_sexpr(&self) -> (r: Sexpr) {
        Sexpr::symbol(self.symbol())
    }
}

impl FromSexpr for FontWeight {
    /// A symbol that names a value.
    open spec fn from_sexpr_error(s: SexprV) -> Option<ConvertErrorV> {
        match s {
            SexprV::Symbol(t) => if font_weight_of_name(t) is Some {
                None
            } else {
                Some(type_mismatch_v("font-weight"@, s))
            },
            _ => Some(type_mismatch_v("font-weight"@, s)),
        }
    }

    open spec fn from_sexpr_value(s: SexprV, v: FontWeight) -> bool {
        match s {
            SexprV::Symbol(t) => font_weight_of_name(t) == Some(v),
            _ => false,
        }
    }

    fn from_sexpr(sexpr: &Sexpr) -> (r: Result<FontWeight, ConvertError>) {
        match sexpr.as_symbol() {
            Some(t) => {
                if str_eq(t, "normal") {
                    Ok(FontWeight::Normal)
                } else if str_eq(t, "bold") {
                    Ok(FontWeight::Bold)
                } else {
                    Err(ConvertError::type_mismatch("font-weight", sexpr))
                }
            },
            None => Err(ConvertError::type_mismatch("font-weight", sexpr)),
        }
    }
}

// === CssFontSize ===

/// The symbol of each `CssFontSize`.
pub open spec fn css_font_size_name(v: CssFontSize) -> Seq<char> {
    match v {
        CssFontSize::XxSmall => "xx-small"@,
        CssFontSize::XSmall => "x-small"@,
        CssFontSize::Small => "small"@,
        CssFontSize::Medium => "medium"@,
        CssFontSize::Large => "large"@,
        CssFontSize::XLarge => "x-large"@,
        CssFontSize::XxLarge => "xx-large"@,
    }
}

/// The `CssFontSize` that a symbol names.
pub open spec fn css_font_size_of_name(t: Seq<char>) -> Option<CssFontSize> {
    if t == "xx-small"@ {
        Some(CssFontSize::XxSmall)
    } else if t == "x-small"@ {
        Some(CssFontSize::XSmall)
    } else if t == "small"@ {
        Some(CssFontSize::Small)
    } else if t == "medium"@ {
        Some(CssFontSize::Medium)
    } else if t == "large"@ {
        Some(CssFontSize::Large)
    } else if t == "x-large"@ {
        Some(CssFontSize::XLarge)
    } else if t == "xx-large"@ {
        Some(CssFontSize::XxLarge)
    } else {
        None
    }
}

impl CssFontSize {
    /// The symbol of the value, as `css_font_size_name` states.
    pub fn symbol(&self) -> (r: &'static str)
        ensures
            r@ == css_font_size_name(*self),
    {
        match self {
            CssFontSize::XxSmall => "xx-small",
            CssFontSize::XSmall => "x-small",
            CssFontSize::Small => "small",
            CssFontSize::Medium => "medium",
            CssFontSize::Large => "large",
            CssFontSize::XLarge => "x-large",
            CssFontSize::XxLarge => "xx-large",
        }
    }
}

impl ToSexpr for CssFontSize {
    /// The symbol of the value.
    open spec fn to_sexpr_spec(&self) -> SexprV {
        SexprV::Symbol(css_font_size_name(*self))
    }

    fn to_sexpr(&self) -> (r: Sexpr) {
        Sexpr::symbol(self.symbol())
    }
}

impl FromSexpr for CssFontSize {
    /// A symbol that names a value.
    open spec fn from_sexpr_error(s: SexprV) -> Option<ConvertErrorV> {
        match s {
            SexprV::Symbol(t) => if css_font_size_of_name(t) is Some {
                None
            } else {
                Some(type_mismatch_v("css-font-size"@, s))
            },
            _ => Some(type_mismatch_v("css-font-size"@, s)),
        }
    }

    open spec fn from_sexpr_value(s: SexprV, v: CssFontSize) -> bool {
        match s {
            SexprV::Symbol(t) => css_font_size_of_name(t) == Some(v),
            _ => false,
        }
    }

    fn from_sexpr(sexpr: &Sexpr) -> (r: Result<CssFontSize, ConvertError>) {
        match sexpr.as_symbol() {
            Some(t) => {
                if str_eq(t, "xx-small") {
                    Ok(CssFontSize::XxSmall)
                } else if str_eq(t, "x-small") {
                    Ok(CssFontSize::XSmall)
                } else if str_eq(t, "small") {
                    Ok(CssFontSize::Small)
                } else if str_eq(t, "medium") {
                    Ok(CssFontSize::Medium)
                } else if str_eq(t, "large") {
                    Ok(CssFontSize::Large)
                } else if str_eq(t, "x-large") {
                    Ok(CssFontSize::XLarge)
                } else if str_eq(t, "xx-large") {
                    Ok(CssFontSize::XxLarge)
                } else {
                    Err(ConvertError::type_mismatch("css-font-size", sexpr))
                }
            },
            None => Err(ConvertError::type_mismatch("css-font-size", sexpr)),
        }
    }
}

// === SymbolSize ===

/// The symbol of each `SymbolSize`.
pub open spec fn symbol_size_name(v: SymbolSize) -> Seq<char> {
    match v {
        SymbolSize::Full => "full"@,
        SymbolSize::Cue => "cue"@,
        SymbolSize::GraceCue => "grace-cue"@,
        SymbolSize::Large => "large"@,
    }
}

/// The `SymbolSize` that a symbol names.
pub open spec fn symbol_size_of_name(t: Seq<char>) -> Option<SymbolSize> {
    if t == "full"@ {
        Some(SymbolSize::Full)
    } else if t == "cue"@ {
        Some(SymbolSize::Cue)
    } else if t == "grace-cue"@ {
        Some(SymbolSize::GraceCue)
    } else if t == "large"@ {
        Some(SymbolSize::Large)
    } else {
        None
    }
}

impl SymbolSize {
    /// The symbol of the value, as `symbol_size_name` states.
    pub fn symbol(&self) -> (r: &'static str)
        ensures
            r@ == symbol_size_name(*self),
    {
        match self {
            SymbolSize::Full => "full",
            SymbolSize::Cue => "cue",
            SymbolSize::GraceCue => "grace-cue",
            SymbolSize::Large => "large",
        }
    }
}

impl ToSexpr for SymbolSize {
    /// The symbol of the value.
    open spec fn to_sexpr_spec(&self) -> SexprV {
        SexprV::Symbol(symbol_size_name(*self))
    }

    fn to_sexpr(&self) -> (r: Sexpr) {
        Sexpr::symbol(self.symbol())
    }
}

impl FromSexpr for SymbolSize {
    /// A symbol that names a value.
    open spec fn from_sexpr_error(s: SexprV) -> Option<ConvertErrorV> {
        match s {
            SexprV::Symbol(t) => if symbol_size_of_name(t) is Some {
                None
            } else {
                Some(type_mismatch_v("symbol-size"@, s))
            },
            _ => Some(type_mismatch_v("symbol-size"@, s)),
        }
    }

    open spec fn from_sexpr_value(s: SexprV, v: SymbolSize) -> bool {
        match s {
            SexprV::Symbol(t) => symbol_size_of_name(t) == Some(v),
            _ => false,
        }
    }

    fn from_sexpr(sexpr: &Sexpr) -> (r: Result<SymbolSize, ConvertError>) {
        match sexpr.as_symbol() {
            Some(t) => {
                if str_eq(t, "full") {
                    Ok(SymbolSize::Full)
                } else if str_eq(t, "cue") {
                    Ok(SymbolSize::Cue)
                } else if str_eq(t, "grace-cue") {
                    Ok(SymbolSize::GraceCue)
                } else if str_eq(t, "large") {
                    Ok(SymbolSize::Large)
                } else {
                    Err(ConvertError::type_mismatch("symbol-size", sexpr))
                }
            },
            None => Err(ConvertError::type_mismatch("symbol-size", sexpr)),
        }
    }
}

// === AccidentalValue ===

/// The symbol of each `AccidentalValue`.
pub open spec fn accidental_value_name(v: AccidentalValue) -> Seq<char> {
    match v {
        AccidentalValue::Sharp => "sharp"@,
        AccidentalValue::Natural => "natural"@,
        AccidentalValue::Flat => "flat"@,
        AccidentalValue::DoubleSharp => "double-sharp"@,
        AccidentalValue::SharpSharp => "sharp-sharp"@,
        AccidentalValue::FlatFlat => "flat-flat"@,
        AccidentalValue::DoubleFlat => "double-flat"@,
        AccidentalValue::NaturalSharp => "natural-sharp"@,
        AccidentalValue::NaturalFlat => "natural-flat"@,
        AccidentalValue::QuarterFlat => "quarter-flat"@,
        AccidentalValue::QuarterSharp => "quarter-sharp"@,
        AccidentalValue::ThreeQuartersFlat => "three-quarters-flat"@,
        AccidentalValue::ThreeQuartersSharp => "three-quarters-sharp"@,
        AccidentalValue::SharpDown => "sharp-down"@,
        AccidentalValue::SharpUp => "sharp-up"@,
        AccidentalValue::NaturalDown => "natural-down"@,
        AccidentalValue::NaturalUp => "natural-up"@,
        AccidentalValue::FlatDown => "flat-down"@,
        AccidentalValue::FlatUp => "flat-up"@,
        AccidentalValue::TripleSharp => "triple-sharp"@,
        AccidentalValue::TripleFlat => "triple-flat"@,
        AccidentalValue::SlashQuarterSharp => "slash-quarter-sharp"@,
        AccidentalValue::SlashSharp => "slash-sharp"@,
        AccidentalValue::SlashFlat => "slash-flat"@,
        AccidentalValue::DoubleSlashFlat => "double-slash-flat"@,
        AccidentalValue::Sharp1 => "sharp-1"@,
        AccidentalValue::Sharp2 => "sharp-2"@,
        AccidentalValue::Sharp3 => "sharp-3"@,
        AccidentalValue::Sharp5 => "sharp-5"@,
        AccidentalValue::Flat1 => "flat-1"@,
        AccidentalValue::Flat2 => "flat-2"@,
        AccidentalValue::Flat3 => "flat-3"@,
        AccidentalValue::Flat4 => "flat-4"@,
        AccidentalValue::Sori => "sori"@,
        AccidentalValue::Koron => "koron"@,
        AccidentalValue::Other => "other"@,
    }
}

/// The `AccidentalValue` that a symbol names.
pub open spec fn accidental_value_of_name(t: Seq<char>) -> Option<AccidentalValue> {
    if t == "sharp"@ {
        Some(AccidentalValue::Sharp)
    } else if t == "natural"@ {
        Some(AccidentalValue::Natural)
    } else if t == "flat"@ {
        Some(AccidentalValue::Flat)
    } else if t == "double-sharp"@ {
        Some(AccidentalValue::DoubleSharp)
    } else if t == "sharp-sharp"@ {
        Some(AccidentalValue::SharpSharp)
    } else if t == "flat-flat"@ {
        Some(AccidentalValue::FlatFlat)
    } else if t == "double-flat"@ {
        Some(AccidentalValue::DoubleFlat)
    } else if t == "natural-sharp"@ {
        Some(AccidentalValue::NaturalSharp)
    } else if t == "natural-flat"@ {
        Some(AccidentalValue::NaturalFlat)
    } else if t == "quarter-flat"@ {
        Some(AccidentalValue::QuarterFlat)
    } else if t == "quarter-sharp"@ {
        Some(AccidentalValue::QuarterSharp)
    } else if t == "three-quarters-flat"@ {
        Some(AccidentalValue::ThreeQuartersFlat)
    } else if t == "three-quarters-sharp"@ {
        Some(AccidentalValue::ThreeQuartersSharp)
    } else if t == "sharp-down"@ {
        Some(AccidentalValue::SharpDown)
    } else if t == "sharp-up"@ {
        Some(AccidentalValue::SharpUp)
    } else if t == "natural-down"@ {
        Some(AccidentalValue::NaturalDown)
    } else if t == "natural-up"@ {
        Some(AccidentalValue::NaturalUp)
    } else if t == "flat-down"@ {
        Some(AccidentalValue::FlatDown)
    } else if t == "flat-up"@ {
        Some(AccidentalValue::FlatUp)
    } else if t == "triple-sharp"@ {
        Some(AccidentalValue::TripleSharp)
    } else if t == "triple-flat"@ {
        Some(AccidentalValue::TripleFlat)
    } else if t == "slash-quarter-sharp"@ {
        Some(AccidentalValue::SlashQuarterSharp)
    } else if t == "slash-sharp"@ {
        Some(AccidentalValue::SlashSharp)
    } else if t == "slash-flat"@ {
        Some(AccidentalValue::SlashFlat)
    } else if t == "double-slash-flat"@ {
        Some(AccidentalValue::DoubleSlashFlat)
    } else if t == "sharp-1"@ {
        Some(AccidentalValue::Sharp1)
    } else if t == "sharp-2"@ {
        Some(AccidentalValue::Sharp2)
    } else if t == "sharp-3"@ {
        Some(AccidentalValue::Sharp3)
    } else if t == "sharp-5"@ {
        Some(AccidentalValue::Sharp5)
    } else if t == "flat-1"@ {
        Some(AccidentalValue::Flat1)
    } else if t == "flat-2"@ {
        Some(AccidentalValue::Flat2)
    } else if t == "flat-3"@ {
        Some(AccidentalValue::Flat3)
    } else if t == "flat-4"@ {
        Some(AccidentalValue::Flat4)
    } else if t == "sori"@ {
        Some(AccidentalValue::Sori)
    } else if t == "koron"@ {
        Some(AccidentalValue::Koron)
    } else if t == "other"@ {
        Some(AccidentalValue::Other)
    } else {
        None
    }
}

impl AccidentalValue {
    /// The symbol of the value, as `accidental_value_name` states.
    pub fn symbol(&self) -> (r: &'static str)
        ensures
            r@ == accidental_value_name(*self),
    {
        match self {
            AccidentalValue::Sharp => "sharp",
            AccidentalValue::Natural => "natural",
            AccidentalValue::Flat => "flat",
            AccidentalValue::DoubleSharp => "double-sharp",
            AccidentalValue::SharpSharp => "sharp-sharp",
            AccidentalValue::FlatFlat => "flat-flat",
            AccidentalValue::DoubleFlat => "double-flat",
            AccidentalValue::NaturalSharp => "natural-sharp",
            AccidentalValue::NaturalFlat => "natural-flat",
            AccidentalValue::QuarterFlat => "quarter-flat",
            AccidentalValue::QuarterSharp => "quarter-sharp",
            AccidentalValue::ThreeQuartersFlat => "three-quarters-flat",
            AccidentalValue::ThreeQuartersSharp => "three-quarters-sharp",
            AccidentalValue::SharpDown => "sharp-down",
            AccidentalValue::SharpUp => "sharp-up",
            AccidentalValue::NaturalDown => "natural-down",
            AccidentalValue::NaturalUp => "natural-up",
            AccidentalValue::FlatDown => "flat-down",
            AccidentalValue::FlatUp => "flat-up",
            AccidentalValue::TripleSharp => "triple-sharp",
            AccidentalValue::TripleFlat => "triple-flat",
            AccidentalValue::SlashQuarterSharp => "slash-quarter-sharp",
            AccidentalValue::SlashSharp => "slash-sharp",
            AccidentalValue::SlashFlat => "slash-flat",
            AccidentalValue::DoubleSlashFlat => "double-slash-flat",
            AccidentalValue::Sharp1 => "sharp-1",
            AccidentalValue::Sharp2 => "sharp-2",
            AccidentalValue::Sharp3 => "sharp-3",
            AccidentalValue::Sharp5 => "sharp-5",
            AccidentalValue::Flat1 => "flat-1",
            AccidentalValue::Flat2 => "flat-2",
            AccidentalValue::Flat3 => "flat-3",
            AccidentalValue::Flat4 => "flat-4",
            AccidentalValue::Sori => "sori",
            AccidentalValue::Koron => "koron",
            AccidentalValue::Other => "other",
        }
    }
}

impl ToSexpr for AccidentalValue {
    /// The symbol of the value.
    open spec fn to_sexpr_spec(&self) -> SexprV {
        SexprV::Symbol(accidental_value_name(*self))
    }

    fn to_sexpr(&self) -> (r: Sexpr) {
        Sexpr::symbol(self.symbol())
    }
}

impl FromSexpr for AccidentalValue {
    /// A symbol that names a value.
    open spec fn from_sexpr_error(s: SexprV) -> Option<ConvertErrorV> {
        match s {
            SexprV::Symbol(t) => if accidental_value_of_name(t) is Some {
                None
            } else {
                Some(type_mismatch_v("accidental-value"@, s))
            },
            _ => Some(type_mismatch_v("accidental-value"@, s)),
        }
    }

    open spec fn from_sexpr_value(s: SexprV, v: AccidentalValue) -> bool {
        match s {
            SexprV::Symbol(t) => accidental_value_of_name(t) == Some(v),
            _ => false,
        }
    }

    fn from_sexpr(sexpr: &Sexpr) -> (r: Result<AccidentalValue, ConvertError>) {
        match sexpr.as_symbol() {
            Some(t) => {
                if str_eq(t, "sharp") {
                    Ok(AccidentalValue::Sharp)
                } else if str_eq(t, "natural") {
                    Ok(AccidentalValue::Natural)
                } else if str_eq(t, "flat") {
                    Ok(AccidentalValue::Flat)
                } else if str_eq(t, "double-sharp") {
                    Ok(AccidentalValue::DoubleSharp)
                } else if str_eq(t, "sharp-sharp") {
                    Ok(AccidentalValue::SharpSharp)
                } else if str_eq(t, "flat-flat") {
                    Ok(AccidentalValue::FlatFlat)
                } else if str_eq(t, "double-flat") {
                    Ok(AccidentalValue::DoubleFlat)
                } else if str_eq(t, "natural-sharp") {
                    Ok(AccidentalValue::NaturalSharp)
                } else if str_eq(t, "natural-flat") {
                    Ok(AccidentalValue::NaturalFlat)
                } else if str_eq(t, "quarter-flat") {
                    Ok(AccidentalValue::QuarterFlat)
                } else if str_eq(t, "quarter-sharp") {
                    Ok(AccidentalValue::QuarterSharp)
                } else if str_eq(t, "three-quarters-flat") {
                    Ok(AccidentalValue::ThreeQuartersFlat)
                } else if str_eq(t, "three-quarters-sharp") {
                    Ok(AccidentalValue::ThreeQuartersSharp)
                } else if str_eq(t, "sharp-down") {
                    Ok(AccidentalValue::SharpDown)
                } else if str_eq(t, "sharp-up") {
                    Ok(AccidentalValue::SharpUp)
                } else if str_eq(t, "natural-down") {
                    Ok(AccidentalValue::NaturalDown)
                } else if str_eq(t, "natural-up") {
                    Ok(AccidentalValue::NaturalUp)
                } else if str_eq(t, "flat-down") {
                    Ok(AccidentalValue::FlatDown)
                } else if str_eq(t, "flat-up") {
                    Ok(AccidentalValue::FlatUp)
                } else if str_eq(t, "triple-sharp") {
                    Ok(AccidentalValue::TripleSharp)
                } else if str_eq(t, "triple-flat") {
                    Ok(AccidentalValue::TripleFlat)
                } else if str_eq(t, "slash-quarter-sharp") {
                    Ok(AccidentalValue::SlashQuarterSharp)
                } else if str_eq(t, "slash-sharp") {
                    Ok(AccidentalValue::SlashSharp)
                } else if str_eq(t, "slash-flat") {
                    Ok(AccidentalValue::SlashFlat)
                } else if str_eq(t, "double-slash-flat") {
                    Ok(AccidentalValue::DoubleSlashFlat)
                } else if str_eq(t, "sharp-1") {
                    Ok(AccidentalValue::Sharp1)
                } else if str_eq(t, "sharp-2") {
                    Ok(AccidentalValue::Sharp2)
                } else if str_eq(t, "sharp-3") {
                    Ok(AccidentalValue::Sharp3)
                } else if str_eq(t, "sharp-5") {
                    Ok(AccidentalValue::Sharp5)
                } else if str_eq(t, "flat-1") {
                    Ok(AccidentalValue::Flat1)
                } else if str_eq(t, "flat-2") {
                    Ok(AccidentalValue::Flat2)
                } else if str_eq(t, "flat-3") {
                    Ok(AccidentalValue::Flat3)
                } else if str_eq(t, "flat-4") {
                    Ok(AccidentalValue::Flat4)
                } else if str_eq(t, "sori") {
                    Ok(AccidentalValue::Sori)
                } else if str_eq(t, "koron") {
                    Ok(AccidentalValue::Koron)
                } else if str_eq(t, "other") {
                    Ok(AccidentalValue::Other)
                } else {
                    Err(ConvertError::type_mismatch("accidental-value", sexpr))
                }
            },
            None => Err(ConvertError::type_mismatch("accidental-value", sexpr)),
        }
    }
}

// === NoteTypeValue ===

/// The symbol of each `NoteTypeValue`.
pub open spec fn note_type_value_name(v: NoteTypeValue) -> Seq<char> {
    match v {
        NoteTypeValue::N1024th => "1024th"@,
        NoteTypeValue::N512th => "512th"@,
        NoteTypeValue::N256th => "256th"@,
        NoteTypeValue::N128th => "128th"@,
        NoteTypeValue::N64th => "64th"@,
        NoteTypeValue::N32nd => "32nd"@,
        NoteTypeValue::N16th => "16th"@,
        NoteTypeValue::Eighth => "eighth"@,
        NoteTypeValue::Quarter => "quarter"@,
        NoteTypeValue::Half => "half"@,
        NoteTypeValue::Whole => "whole"@,
        NoteTypeValue::Breve => "breve"@,
        NoteTypeValue::Long => "long"@,
        NoteTypeValue::Maxima => "maxima"@,
    }
}

/// The `NoteTypeValue` that a symbol names.
pub open spec fn note_type_value_of_name(t: Seq<char>) -> Option<NoteTypeValue> {
    if t == "1024th"@ {
        Some(NoteTypeValue::N1024th)
    } else if t == "512th"@ {
        Some(NoteTypeValue::N512th)
    } else if t == "256th"@ {
        Some(NoteTypeValue::N256th)
    } else if t == "128th"@ {
        Some(NoteTypeValue::N128th)
    } else if t == "64th"@ {
        Some(NoteTypeValue::N64th)
    } else if t == "32nd"@ {
        Some(NoteTypeValue::N32nd)
    } else if t == "16th"@ {
        Some(NoteTypeValue::N16th)
    } else if t == "eighth"@ {
        Some(NoteTypeValue::Eighth)
    } else if t == "quarter"@ {
        Some(NoteTypeValue::Quarter)
    } else if t == "half"@ {
        Some(NoteTypeValue::Half)
    } else if t == "whole"@ {
        Some(NoteTypeValue::Whole)
    } else if t == "breve"@ {
        Some(NoteTypeValue::Breve)
    } else if t == "long"@ {
        Some(NoteTypeValue::Long)
    } else if t == "maxima"@ {
        Some(NoteTypeValue::Maxima)
    } else {
        None
    }
}

impl NoteTypeValue {
    /// The symbol of the value, as `note_type_value_name` states.
    pub fn symbol(&self) -> (r: &'static str)
        ensures
            r@ == note_type_value_name(*self),
    {
        match self {
            NoteTypeValue::N1024th => "1024th",
            NoteTypeValue::N512th => "512th",
            NoteTypeValue::N256th => "256th",
            NoteTypeValue::N128th => "128th",
            NoteTypeValue::N64th => "64th",
            NoteTypeValue::N32nd => "32nd",
            NoteTypeValue::N16th => "16th",
            NoteTypeValue::Eighth => "eighth",
            NoteTypeValue::Quarter => "quarter",
            NoteTypeValue::Half => "half",
            NoteTypeValue::Whole => "whole",
            NoteTypeValue::Breve => "breve",
            NoteTypeValue::Long => "long",
            NoteTypeValue::Maxima => "maxima",
        }
    }
}

impl ToSexpr for NoteTypeValue {
    /// The symbol of the value.
    open spec fn to_sexpr_spec(&self) -> SexprV {
        SexprV::Symbol(note_type_value_name(*self))
    }

    fn to_sexpr(&self) -> (r: Sexpr) {
        Sexpr::symbol(self.symbol())
    }
}

impl FromSexpr for NoteTypeValue {
    /// A symbol that names a value.
    open spec fn from_sexpr_error(s: SexprV) -> Option<ConvertErrorV> {
        match s {
            SexprV::Symbol(t) => if note_type_value_of_name(t) is Some {
                None
            } else {
                Some(type_mismatch_v("note-type-value"@, s))
            },
            _ => Some(type_mismatch_v("note-type-value"@, s)),
        }
    }

    open spec fn from_sexpr_value(s: SexprV, v: NoteTypeValue) -> bool {
        match s {
            SexprV::Symbol(t) => note_type_value_of_name(t) == Some(v),
            _ => false,
        }
    }

    fn from_sexpr(sexpr: &Sexpr) -> (r: Result<NoteTypeValue, ConvertError>) {
        match sexpr.as_symbol() {
            Some(t) => {
                if str_eq(t, "1024th") {
                    Ok(NoteTypeValue::N1024th)
                } else if str_eq(t, "512th") {
                    Ok(NoteTypeValue::N512th)
                } else if str_eq(t, "256th") {
                    Ok(NoteTypeValue::N256th)
                } else if str_eq(t, "128th") {
                    Ok(NoteTypeValue::N128th)
                } else if str_eq(t, "64th") {
                    Ok(NoteTypeValue::N64th)
                } else if str_eq(t, "32nd") {
                    Ok(NoteTypeValue::N32nd)
                } else if str_eq(t, "16th") {
                    Ok(NoteTypeValue::N16th)
                } else if str_eq(t, "eighth") {
                    Ok(NoteTypeValue::Eighth)
                } else if str_eq(t, "quarter") {
                    Ok(NoteTypeValue::Quarter)
                } else if str_eq(t, "half") {
                    Ok(NoteTypeValue::Half)
                } else if str_eq(t, "whole") {
                    Ok(NoteTypeValue::Whole)
                } else if str_eq(t, "breve") {
                    Ok(NoteTypeValue::Breve)
                } else if str_eq(t, "long") {
                    Ok(NoteTypeValue::Long)
                } else if str_eq(t, "maxima") {
                    Ok(NoteTypeValue::Maxima)
                } else {
                    Err(ConvertError::type_mismatch("note-type-value", sexpr))
                }
            },
            None => Err(ConvertError::type_mismatch("note-type-value", sexpr)),
        }
    }
}

// === FontSize ===

impl ToSexpr for FontSize {
    /// A CSS size as its symbol; a size in points as a decimal.
    open spec fn to_sexpr_spec(&self) -> SexprV {
        match self {
            FontSize::Css(c) => c.to_sexpr_spec(),
            FontSize::Points(d) => d.to_sexpr_spec(),
        }
    }

    fn to_sexpr(&self) -> (r: Sexpr) {
        match self {
            FontSize::Css(c) => c.to_sexpr(),
            FontSize::Points(d) => d.to_sexpr(),
        }
    }
}

impl FromSexpr for FontSize {
    /// A symbol names a CSS size; a decimal or an integer is a size in points.
    open spec fn from_sexpr_error(s: SexprV) -> Option<ConvertErrorV> {
        match s {
            SexprV::Symbol(_) => CssFontSize::from_sexpr_error(s),
            SexprV::Float(_) => None,
            SexprV::Integer(_) => Decimal::from_sexpr_error(s),
            _ => Some(type_mismatch_v("font-size"@, s)),
        }
    }

    open spec fn from_sexpr_value(s: SexprV, v: FontSize) -> bool {
        match s {
            SexprV::Symbol(_) => v matches FontSize::Css(c) && CssFontSize::from_sexpr_value(s, c),
            SexprV::Float(_) | SexprV::Integer(_) => v matches FontSize::Points(d)
                && Decimal::from_sexpr_value(s, d),
            _ => false,
        }
    }

    fn from_sexpr(sexpr: &Sexpr) -> (r: Result<FontSize, ConvertError>) {
        match sexpr {
            Sexpr::Symbol(_) => Ok(FontSize::Css(CssFontSize::from_sexpr(sexpr)?)),
            Sexpr::Float(_) | Sexpr::Integer(_) => Ok(FontSize::Points(Decimal::from_sexpr(sexpr)?)),
            _ => Err(ConvertError::type_mismatch("font-size", sexpr)),
        }
    }
}

// === Position ===

impl ToSexpr for Position {
    /// `(position ...)` with the keyword arguments that the value has.
    open spec fn to_sexpr_spec(&self) -> SexprV {
        SexprV::List(seq![SexprV::Symbol("position"@)] + kw_opt("default-x"@, self.default_x) + kw_opt("default-y"@, self.default_y) + kw_opt("relative-x"@, self.relative_x) + kw_opt("relative-y"@, self.relative_y))
    }

    fn to_sexpr(&self) -> (r: Sexpr) {
        ListBuilder::new("position").kwarg_opt("default-x", &self.default_x).kwarg_opt("default-y", &self.default_y).kwarg_opt("relative-x", &self.relative_x).kwarg_opt("relative-y", &self.relative_y).build()
    }
}

impl FromSexpr for Position {
    /// A list headed `position` whose keyword arguments convert.
    open spec fn from_sexpr_error(s: SexprV) -> Option<ConvertErrorV> {
        match s {
            SexprV::List(items) => either(head_error(items, "position"@), either(opt_kwarg_error::<Decimal>(items, "default-x"@), either(opt_kwarg_error::<Decimal>(items, "default-y"@), either(opt_kwarg_error::<Decimal>(items, "relative-x"@), opt_kwarg_error::<Decimal>(items, "relative-y"@))))),
            _ => Some(type_mismatch_v("position list"@, s)),
        }
    }

    open spec fn from_sexpr_value(s: SexprV, v: Position) -> bool {
        match s {
            SexprV::List(items) => opt_kwarg_value::<Decimal>(items, "default-x"@, v.default_x)
                && opt_kwarg_value::<Decimal>(items, "default-y"@, v.default_y)
                && opt_kwarg_value::<Decimal>(items, "relative-x"@, v.relative_x)
                && opt_kwarg_value::<Decimal>(items, "relative-y"@, v.relative_y),
            _ => false,
        }
    }

    fn from_sexpr(sexpr: &Sexpr) -> (r: Result<Position, ConvertError>) {
        let list = match sexpr.as_list() {
            Some(l) => l,
            None => return Err(ConvertError::type_mismatch("position list", sexpr)),
        };
        expect_head(list, "position")?;
        let default_x: Option<Decimal> = optional_kwarg(list, "default-x")?;
        let default_y: Option<Decimal> = optional_kwarg(list, "default-y")?;
        let relative_x: Option<Decimal> = optional_kwarg(list, "relative-x")?;
        let relative_y: Option<Decimal> = optional_kwarg(list, "relative-y")?;
        Ok(Position { default_x, default_y, relative_x, relative_y })
    }
}

// === Font ===

impl ToSexpr for Font {
    /// `(font ...)` with the keyword arguments that the value has.
    open spec fn to_sexpr_spec(&self) -> SexprV {
        SexprV::List(seq![SexprV::Symbol("font"@)] + kw_opt("family"@, self.font_family) + kw_opt("style"@, self.font_style) + kw_opt("size"@, self.font_size) + kw_opt("weight"@, self.font_weight))
    }

    fn to_sexpr(&self) -> (r: Sexpr) {
        ListBuilder::new("font").kwarg_opt("family", &self.font_family).kwarg_opt("style", &self.font_style).kwarg_opt("size", &self.font_size).kwarg_opt("weight", &self.font_weight).build()
    }
}

impl FromSexpr for Font {
    /// A list headed `font` whose keyword arguments convert.
    open spec fn from_sexpr_error(s: SexprV) -> Option<ConvertErrorV> {
        match s {
            SexprV::List(items) => either(head_error(items, "font"@), either(opt_kwarg_error::<String>(items, "family"@), either(opt_kwarg_error::<FontStyle>(items, "style"@), either(opt_kwarg_error::<FontSize>(items, "size"@), opt_kwarg_error::<FontWeight>(items, "weight"@))))),
            _ => Some(type_mismatch_v("font list"@, s)),
        }
    }

    open spec fn from_sexpr_value(s: SexprV, v: Font) -> bool {
        match s {
            SexprV::List(items) => opt_kwarg_value::<String>(items, "family"@, v.font_family)
                && opt_kwarg_value::<FontStyle>(items, "style"@, v.font_style)
                && opt_kwarg_value::<FontSize>(items, "size"@, v.font_size)
                && opt_kwarg_value::<FontWeight>(items, "weight"@, v.font_weight),
            _ => false,
        }
    }

    fn from_sexpr(sexpr: &Sexpr) -> (r: Result<Font, ConvertError>) {
        let list = match sexpr.as_list() {
            Some(l) => l,
            None => return Err(ConvertError::type_mismatch("font list", sexpr)),
        };
        expect_head(list, "font")?;
        let font_family: Option<String> = optional_kwarg(list, "family")?;
        let font_style: Option<FontStyle> = optional_kwarg(list, "style")?;
        let font_size: Option<FontSize> = optional_kwarg(list, "size")?;
        let font_weight: Option<FontWeight> = optional_kwarg(list, "weight")?;
        Ok(Font { font_family, font_style, font_size, font_weight })
    }
}

// === EmptyPlacement ===

impl ToSexpr for EmptyPlacement {
    /// `(empty-placement ...)` with the keyword arguments that the value has.
    open spec fn to_sexpr_spec(&self) -> SexprV {
        SexprV::List(seq![SexprV::Symbol("empty-placement"@)] + kw_opt("placement"@, self.placement) + kw_if(self.position.is_set(), "position"@, self.position.to_sexpr_spec()))
    }

    fn to_sexpr(&self) -> (r: Sexpr) {
        ListBuilder::new("empty-placement").kwarg_opt("placement", &self.placement).kwarg_when(self.position.has_any(), "position", &self.position).build()
    }
}

impl FromSexpr for EmptyPlacement {
    /// A list headed `empty-placement` whose keyword arguments convert.
    open spec fn from_sexpr_error(s: SexprV) -> Option<ConvertErrorV> {
        match s {
            SexprV::List(items) => either(head_error(items, "empty-placement"@), either(obj_kwarg_error::<Position>(items, "position"@), opt_kwarg_error::<AboveBelow>(items, "placement"@))),
            _ => Some(type_mismatch_v("empty-placement list"@, s)),
        }
    }

    open spec fn from_sexpr_value(s: SexprV, v: EmptyPlacement) -> bool {
        match s {
            SexprV::List(items) => obj_kwarg_value::<Position>(items, "position"@, v.position, position_none())
                && opt_kwarg_value::<AboveBelow>(items, "placement"@, v.placement),
            _ => false,
        }
    }

    fn from_sexpr(sexpr: &Sexpr) -> (r: Result<EmptyPlacement, ConvertError>) {
        let list = match sexpr.as_list() {
            Some(l) => l,
            None => return Err(ConvertError::type_mismatch("empty-placement list", sexpr)),
        };
        expect_head(list, "empty-placement")?;
        let position: Position = object_kwarg(list, "position", Position::empty())?;
        let placement: Option<AboveBelow> = optional_kwarg(list, "placement")?;
        Ok(EmptyPlacement { placement, position })
    }
}

// === WavyLine ===

impl ToSexpr for WavyLine {
    /// `(wavy-line ...)` with the keyword arguments that the value has.
    open spec fn to_sexpr_spec(&self) -> SexprV {
        SexprV::List(seq![SexprV::Symbol("wavy-line"@)] + kw_pair("type"@, self.type_.to_sexpr_spec()) + kw_opt("number"@, self.number) + kw_if(self.position.is_set(), "position"@, self.position.to_sexpr_spec()))
    }

    fn to_sexpr(&self) -> (r: Sexpr) {
        ListBuilder::new("wavy-line").kwarg("type", &self.type_).kwarg_opt("number", &self.number).kwarg_when(self.position.has_any(), "position", &self.position).build()
    }
}

impl FromSexpr for WavyLine {
    /// A list headed `wavy-line` whose keyword arguments convert.
    open spec fn from_sexpr_error(s: SexprV) -> Option<ConvertErrorV> {
        match s {
            SexprV::List(items) => either(head_error(items, "wavy-line"@), either(obj_kwarg_error::<Position>(items, "position"@), either(kwarg_error::<StartStopContinue>(items, "type"@), opt_kwarg_error::<u8>(items, "number"@)))),
            _ => Some(type_mismatch_v("wavy-line list"@, s)),
        }
    }

    open spec fn from_sexpr_value(s: SexprV, v: WavyLine) -> bool {
        match s {
            SexprV::List(items) => obj_kwarg_value::<Position>(items, "position"@, v.position, position_none())
                && kwarg_value::<StartStopContinue>(items, "type"@, v.type_)
                && opt_kwarg_value::<u8>(items, "number"@, v.number),
            _ => false,
        }
    }

    fn from_sexpr(sexpr: &Sexpr) -> (r: Result<WavyLine, ConvertError>) {
        let list = match sexpr.as_list() {
            Some(l) => l,
            None => return Err(ConvertError::type_mismatch("wavy-line list", sexpr)),
        };
        expect_head(list, "wavy-line")?;
        let position: Position = object_kwarg(list, "position", Position::empty())?;
        let type_: StartStopContinue = require_kwarg(list, "type")?;
        let number: Option<u8> = optional_kwarg(list, "number")?;
        Ok(WavyLine { type_, number, position })
    }
}

// === Reading back ===

impl RoundTrip for YesNo {
    /// Every value.
    open spec fn writable(&self) -> bool {
        true
    }

    open spec fn same(&self, other: &Self) -> bool {
        *self == *other
    }

    proof fn lemma_not_keyword(&self) {
    }

    proof fn lemma_no_error(&self) {
        reveal_strlit("yes");
        assert("yes"@.len() == 3);
        reveal_strlit("no");
        assert("no"@.len() == 2);
    }

    proof fn lemma_value(&self, v: Self) {
        reveal_strlit("yes");
        assert("yes"@.len() == 3);
        reveal_strlit("no");
        assert("no"@.len() == 2);
    }
}

impl RoundTrip for AboveBelow {
    /// Every value.
    open spec fn writable(&self) -> bool {
        true
    }

    open spec fn same(&self, other: &Self) -> bool {
        *self == *other
    }

    proof fn lemma_not_keyword(&self) {
    }

    proof fn lemma_no_error(&self) {
        reveal_strlit("above");
        assert("above"@.len() == 5);
        reveal_strlit("below");
        assert("below"@.len() == 5);
        assert("above"@[0] == 'a');
        assert("below"@[0] == 'b');
    }

    proof fn lemma_value(&self, v: Self) {
        reveal_strlit("above");
        assert("above"@.len() == 5);
        reveal_strlit("below");
        assert("below"@.len() == 5);
        assert("above"@[0] == 'a');
        assert("below"@[0] == 'b');
    }
}

impl RoundTrip for StartStop {
    /// Every value.
    open spec fn writable(&self) -> bool {
        true
    }

    open spec fn same(&self, other: &Self) -> bool {
        *self == *other
    }

    proof fn lemma_not_keyword(&self) {
    }

    proof fn lemma_no_error(&self) {
        reveal_strlit("start");
        assert("start"@.len() == 5);
        reveal_strlit("stop");
        assert("stop"@.len() == 4);
    }

    proof fn lemma_value(&self, v: Self) {
        reveal_strlit("start");
        assert("start"@.len() == 5);
        reveal_strlit("stop");
        assert("stop"@.len() == 4);
    }
}

impl RoundTrip for StartStopContinue {
    /// Every value.
    open spec fn writable(&self) -> bool {
        true
    }

    open spec fn same(&self, other: &Self) -> bool {
        *self == *other
    }

    proof fn lemma_not_keyword(&self) {
    }

    proof fn lemma_no_error(&self) {
        reveal_strlit("start");
        assert("start"@.len() == 5);
        reveal_strlit("stop");
        assert("stop"@.len() == 4);
        reveal_strlit("continue");
        assert("continue"@.len() == 8);
    }

    proof fn lemma_value(&self, v: Self) {
        reveal_strlit("start");
        assert("start"@.len() == 5);
        reveal_strlit("stop");
        assert("stop"@.len() == 4);
        reveal_strlit("continue");
        assert("continue"@.len() == 8);
    }
}

impl RoundTrip for StartStopSingle {
    /// Every value.
    open spec fn writable(&self) -> bool {
        true
    }

    open spec fn same(&self, other: &Self) -> bool {
        *self == *other
    }

    proof fn lemma_not_keyword(&self) {
    }

    proof fn lemma_no_error(&self) {
        reveal_strlit("start");
        assert("start"@.len() == 5);
        reveal_strlit("stop");
        assert("stop"@.len() == 4);
        reveal_strlit("single");
        assert("single"@.len() == 6);
    }

    proof fn lemma_value(&self, v: Self) {
        reveal_strlit("start");
        assert("start"@.len() == 5);
        reveal_strlit("stop");
        assert("stop"@.len() == 4);
        reveal_strlit("single");
        assert("single"@.len() == 6);
    }
}

impl RoundTrip for LineType {
    /// Every value.
    open spec fn writable(&self) -> bool {
        true
    }

    open spec fn same(&self, other: &Self) -> bool {
        *self == *other
    }

    proof fn lemma_not_keyword(&self) {
    }

    proof fn lemma_no_error(&self) {
        reveal_strlit("solid");
        assert("solid"@.len() == 5);
        reveal_strlit("dashed");
        assert("dashed"@.len() == 6);
        reveal_strlit("dotted");
        assert("dotted"@.len() == 6);
        reveal_strlit("wavy");
        assert("wavy"@.len() == 4);
        assert("dashed"@[1] == 'a');
        assert("dotted"@[1] == 'o');
    }

    proof fn lemma_value(&self, v: Self) {
        reveal_strlit("solid");
        assert("solid"@.len() == 5);
        reveal_strlit("dashed");
        assert("dashed"@.len() == 6);
        reveal_strlit("dotted");
        assert("dotted"@.len() == 6);
        reveal_strlit("wavy");
        assert("wavy"@.len() == 4);
        assert("dashed"@[1] == 'a');
        assert("dotted"@[1] == 'o');
    }
}

impl RoundTrip for OverUnder {
    /// Every value.
    open spec fn writable(&self) -> bool {
        true
    }

    open spec fn same(&self, other: &Self) -> bool {
        *self == *other
    }

    proof fn lemma_not_keyword(&self) {
    }

    proof fn lemma_no_error(&self) {
        reveal_strlit("over");
        assert("over"@.len() == 4);
        reveal_strlit("under");
        assert("under"@.len() == 5);
    }

    proof fn lemma_value(&self, v: Self) {
        reveal_strlit("over");
        assert("over"@.len() == 4);
        reveal_strlit("under");
        assert("under"@.len() == 5);
    }
}

impl RoundTrip for UpDown {
    /// Every value.
    open spec fn writable(&self) -> bool {
        true
    }

    open spec fn same(&self, other: &Self) -> bool {
        *self == *other
    }

    proof fn lemma_not_keyword(&self) {
    }

    proof fn lemma_no_error(&self) {
        reveal_strlit("up");
        assert("up"@.len() == 2);
        reveal_strlit("down");
        assert("down"@.len() == 4);
    }

    proof fn lemma_value(&self, v: Self) {
        reveal_strlit("up");
        assert("up"@.len() == 2);
        reveal_strlit("down");
        assert("down"@.len() == 4);
    }
}

impl RoundTrip for FontStyle {
    /// Every value.
    open spec fn writable(&self) -> bool {
        true
    }

    open spec fn same(&self, other: &Self) -> bool {
        *self == *other
    }

    proof fn lemma_not_keyword(&self) {
    }

    proof fn lemma_no_error(&self) {
        reveal_strlit("normal");
        assert("normal"@.len() == 6);
        reveal_strlit("italic");
        assert("italic"@.len() == 6);
        assert("normal"@[0] == 'n');
        assert("italic"@[0] == 'i');
    }

    proof fn lemma_value(&self, v: Self) {
        reveal_strlit("normal");
        assert("normal"@.len() == 6);
        reveal_strlit("italic");
        assert("italic"@.len() == 6);
        assert("normal"@[0] == 'n');
        assert("italic"@[0] == 'i');
    }
}

impl RoundTrip for FontWeight {
    /// Every value.
    open spec fn writable(&self) -> bool {
        true
    }

    open spec fn same(&self, other: &Self) -> bool {
        *self == *other
    }

    proof fn lemma_not_keyword(&self) {
    }

    proof fn lemma_no_error(&self) {
        reveal_strlit("normal");
        assert("normal"@.len() == 6);
        reveal_strlit("bold");
        assert("bold"@.len() == 4);
    }

    proof fn lemma_value(&self, v: Self) {
        reveal_strlit("normal");
        assert("normal"@.len() == 6);
        reveal_strlit("bold");
        assert("bold"@.len() == 4);
    }
}

impl RoundTrip for CssFontSize {
    /// Every value.
    open spec fn writable(&self) -> bool {
        true
    }

    open spec fn same(&self, other: &Self) -> bool {
        *self == *other
    }

    proof fn lemma_not_keyword(&self) {
    }

    proof fn lemma_no_error(&self) {
        reveal_strlit("xx-small");
        assert("xx-small"@.len() == 8);
        reveal_strlit("x-small");
        assert("x-small"@.len() == 7);
        reveal_strlit("small");
        assert("small"@.len() == 5);
        reveal_strlit("medium");
        assert("medium"@.len() == 6);
        reveal_strlit("large");
        assert("large"@.len() == 5);
        reveal_strlit("x-large");
        assert("x-large"@.len() == 7);
        reveal_strlit("xx-large");
        assert("xx-large"@.len() == 8);
        assert("xx-small"@[3] == 's');
        assert("xx-large"@[3] == 'l');
        assert("x-small"@[2] == 's');
        assert("x-large"@[2] == 'l');
        assert("small"@[0] == 's');
        assert("large"@[0] == 'l');
    }

    proof fn lemma_value(&self, v: Self) {
        reveal_strlit("xx-small");
        assert("xx-small"@.len() == 8);
        reveal_strlit("x-small");
        assert("x-small"@.len() == 7);
        reveal_strlit("small");
        assert("small"@.len() == 5);
        reveal_strlit("medium");
        assert("medium"@.len() == 6);
        reveal_strlit("large");
        assert("large"@.len() == 5);
        reveal_strlit("x-large");
        assert("x-large"@.len() == 7);
        reveal_strlit("xx-large");
        assert("xx-large"@.len() == 8);
        assert("xx-small"@[3] == 's');
        assert("xx-large"@[3] == 'l');
        assert("x-small"@[2] == 's');
        assert("x-large"@[2] == 'l');
        assert("small"@[0] == 's');
        assert("large"@[0] == 'l');
    }
}

impl RoundTrip for SymbolSize {
    /// Every value.
    open spec fn writable(&self) -> bool {
        true
    }

    open spec fn same(&self, other: &Self) -> bool {
        *self == *other
    }

    proof fn lemma_not_keyword(&self) {
    }

    proof fn lemma_no_error(&self) {
        reveal_strlit("full");
        assert("full"@.len() == 4);
        reveal_strlit("cue");
        assert("cue"@.len() == 3);
        reveal_strlit("grace-cue");
        assert("grace-cue"@.len() == 9);
        reveal_strlit("large");
        assert("large"@.len() == 5);
    }

    proof fn lemma_value(&self, v: Self) {
        reveal_strlit("full");
        assert("full"@.len() == 4);
        reveal_strlit("cue");
        assert("cue"@.len() == 3);
        reveal_strlit("grace-cue");
        assert("grace-cue"@.len() == 9);
        reveal_strlit("large");
        assert("large"@.len() == 5);
    }
}

impl RoundTrip for AccidentalValue {
    /// Every value.
    open spec fn writable(&self) -> bool {
        true
    }

    open spec fn same(&self, other: &Self) -> bool {
        *self == *other
    }

    proof fn lemma_not_keyword(&self) {
    }

    proof fn lemma_no_error(&self) {
        reveal_strlit("sharp");
        assert("sharp"@.len() == 5);
        reveal_strlit("natural");
        assert("natural"@.len() == 7);
        reveal_strlit("flat");
        assert("flat"@.len() == 4);
        reveal_strlit("double-sharp");
        assert("double-sharp"@.len() == 12);
        reveal_strlit("sharp-sharp");
        assert("sharp-sharp"@.len() == 11);
        reveal_strlit("flat-flat");
        assert("flat-flat"@.len() == 9);
        reveal_strlit("double-flat");
        assert("double-flat"@.len() == 11);
        reveal_strlit("natural-sharp");
        assert("natural-sharp"@.len() == 13);
        reveal_strlit("natural-flat");
        assert("natural-flat"@.len() == 12);
        reveal_strlit("quarter-flat");
        assert("quarter-flat"@.len() == 12);
        reveal_strlit("quarter-sharp");
        assert("quarter-sharp"@.len() == 13);
        reveal_strlit("three-quarters-flat");
        assert("three-quarters-flat"@.len() == 19);
        reveal_strlit("three-quarters-sharp");
        assert("three-quarters-sharp"@.len() == 20);
        reveal_strlit("sharp-down");
        assert("sharp-down"@.len() == 10);
        reveal_strlit("sharp-up");
        assert("sharp-up"@.len() == 8);
        reveal_strlit("natural-down");
        assert("natural-down"@.len() == 12);
        reveal_strlit("natural-up");
        assert("natural-up"@.len() == 10);
        reveal_strlit("flat-down");
        assert("flat-down"@.len() == 9);
        reveal_strlit("flat-up");
        assert("flat-up"@.len() == 7);
        reveal_strlit("triple-sharp");
        assert("triple-sharp"@.len() == 12);
        reveal_strlit("triple-flat");
        assert("triple-flat"@.len() == 11);
        reveal_strlit("slash-quarter-sharp");
        assert("slash-quarter-sharp"@.len() == 19);
        reveal_strlit("slash-sharp");
        assert("slash-sharp"@.len() == 11);
        reveal_strlit("slash-flat");
        assert("slash-flat"@.len() == 10);
        reveal_strlit("double-slash-flat");
        assert("double-slash-flat"@.len() == 17);
        reveal_strlit("sharp-1");
        assert("sharp-1"@.len() == 7);
        reveal_strlit("sharp-2");
        assert("sharp-2"@.len() == 7);
        reveal_strlit("sharp-3");
        assert("sharp-3"@.len() == 7);
        reveal_strlit("sharp-5");
        assert("sharp-5"@.len() == 7);
        reveal_strlit("flat-1");
        assert("flat-1"@.len() == 6);
        reveal_strlit("flat-2");
        assert("flat-2"@.len() == 6);
        reveal_strlit("flat-3");
        assert("flat-3"@.len() == 6);
        reveal_strlit("flat-4");
        assert("flat-4"@.len() == 6);
        reveal_strlit("sori");
        assert("sori"@.len() == 4);
        reveal_strlit("koron");
        assert("koron"@.len() == 5);
        reveal_strlit("other");
        assert("other"@.len() == 5);
        assert("sharp"@[0] == 's');
        assert("koron"@[0] == 'k');
        assert("other"@[0] == 'o');
        assert("natural"@[0] == 'n');
        assert("flat-up"@[0] == 'f');
        assert("sharp-1"@[0] == 's');
        assert("sharp-2"@[0] == 's');
        assert("sharp-3"@[0] == 's');
        assert("sharp-5"@[0] == 's');
        assert("flat"@[0] == 'f');
        assert("sori"@[0] == 's');
        assert("double-sharp"@[0] == 'd');
        assert("natural-flat"@[0] == 'n');
        assert("quarter-flat"@[0] == 'q');
        assert("natural-down"@[0] == 'n');
        assert("triple-sharp"@[0] == 't');
        assert("sharp-sharp"@[0] == 's');
        assert("double-flat"@[0] == 'd');
        assert("triple-flat"@[0] == 't');
        assert("sharp-sharp"@[1] == 'h');
        assert("slash-sharp"@[1] == 'l');
        assert("flat-flat"@[5] == 'f');
        assert("flat-down"@[5] == 'd');
        assert("slash-sharp"@[0] == 's');
        assert("natural-sharp"@[0] == 'n');
        assert("quarter-sharp"@[0] == 'q');
        assert("natural-flat"@[8] == 'f');
        assert("natural-down"@[8] == 'd');
        assert("three-quarters-flat"@[0] == 't');
        assert("slash-quarter-sharp"@[0] == 's');
        assert("sharp-down"@[0] == 's');
        assert("natural-up"@[0] == 'n');
        assert("sharp-down"@[1] == 'h');
        assert("slash-flat"@[1] == 'l');
        assert("slash-flat"@[0] == 's');
        assert("sharp-1"@[6] == '1');
        assert("sharp-2"@[6] == '2');
        assert("sharp-3"@[6] == '3');
        assert("sharp-5"@[6] == '5');
        assert("flat-1"@[5] == '1');
        assert("flat-2"@[5] == '2');
        assert("flat-3"@[5] == '3');
        assert("flat-4"@[5] == '4');
    }

    proof fn lemma_value(&self, v: Self) {
        reveal_strlit("sharp");
        assert("sharp"@.len() == 5);
        reveal_strlit("natural");
        assert("natural"@.len() == 7);
        reveal_strlit("flat");
        assert("flat"@.len() == 4);
        reveal_strlit("double-sharp");
        assert("double-sharp"@.len() == 12);
        reveal_strlit("sharp-sharp");
        assert("sharp-sharp"@.len() == 11);
        reveal_strlit("flat-flat");
        assert("flat-flat"@.len() == 9);
        reveal_strlit("double-flat");
        assert("double-flat"@.len() == 11);
        reveal_strlit("natural-sharp");
        assert("natural-sharp"@.len() == 13);
        reveal_strlit("natural-flat");
        assert("natural-flat"@.len() == 12);
        reveal_strlit("quarter-flat");
        assert("quarter-flat"@.len() == 12);
        reveal_strlit("quarter-sharp");
        assert("quarter-sharp"@.len() == 13);
        reveal_strlit("three-quarters-flat");
        assert("three-quarters-flat"@.len() == 19);
        reveal_strlit("three-quarters-sharp");
        assert("three-quarters-sharp"@.len() == 20);
        reveal_strlit("sharp-down");
        assert("sharp-down"@.len() == 10);
        reveal_strlit("sharp-up");
        assert("sharp-up"@.len() == 8);
        reveal_strlit("natural-down");
        assert("natural-down"@.len() == 12);
        reveal_strlit("natural-up");
        assert("natural-up"@.len() == 10);
        reveal_strlit("flat-down");
        assert("flat-down"@.len() == 9);
        reveal_strlit("flat-up");
        assert("flat-up"@.len() == 7);
        reveal_strlit("triple-sharp");
        assert("triple-sharp"@.len() == 12);
        reveal_strlit("triple-flat");
        assert("triple-flat"@.len() == 11);
        reveal_strlit("slash-quarter-sharp");
        assert("slash-quarter-sharp"@.len() == 19);
        reveal_strlit("slash-sharp");
        assert("slash-sharp"@.len() == 11);
        reveal_strlit("slash-flat");
        assert("slash-flat"@.len() == 10);
        reveal_strlit("double-slash-flat");
        assert("double-slash-flat"@.len() == 17);
        reveal_strlit("sharp-1");
        assert("sharp-1"@.len() == 7);
        reveal_strlit("sharp-2");
        assert("sharp-2"@.len() == 7);
        reveal_strlit("sharp-3");
        assert("sharp-3"@.len() == 7);
        reveal_strlit("sharp-5");
        assert("sharp-5"@.len() == 7);
        reveal_strlit("flat-1");
        assert("flat-1"@.len() == 6);
        reveal_strlit("flat-2");
        assert("flat-2"@.len() == 6);
        reveal_strlit("flat-3");
        assert("flat-3"@.len() == 6);
        reveal_strlit("flat-4");
        assert("flat-4"@.len() == 6);
        reveal_strlit("sori");
        assert("sori"@.len() == 4);
        reveal_strlit("koron");
        assert("koron"@.len() == 5);
        reveal_strlit("other");
        assert("other"@.len() == 5);
        assert("sharp"@[0] == 's');
        assert("koron"@[0] == 'k');
        assert("other"@[0] == 'o');
        assert("natural"@[0] == 'n');
        assert("flat-up"@[0] == 'f');
        assert("sharp-1"@[0] == 's');
        assert("sharp-2"@[0] == 's');
        assert("sharp-3"@[0] == 's');
        assert("sharp-5"@[0] == 's');
        assert("flat"@[0] == 'f');
        assert("sori"@[0] == 's');
        assert("double-sharp"@[0] == 'd');
        assert("natural-flat"@[0] == 'n');
        assert("quarter-flat"@[0] == 'q');
        assert("natural-down"@[0] == 'n');
        assert("triple-sharp"@[0] == 't');
        assert("sharp-sharp"@[0] == 's');
        assert("double-flat"@[0] == 'd');
        assert("triple-flat"@[0] == 't');
        assert("sharp-sharp"@[1] == 'h');
        assert("slash-sharp"@[1] == 'l');
        assert("flat-flat"@[5] == 'f');
        assert("flat-down"@[5] == 'd');
        assert("slash-sharp"@[0] == 's');
        assert("natural-sharp"@[0] == 'n');
        assert("quarter-sharp"@[0] == 'q');
        assert("natural-flat"@[8] == 'f');
        assert("natural-down"@[8] == 'd');
        assert("three-quarters-flat"@[0] == 't');
        assert("slash-quarter-sharp"@[0] == 's');
        assert("sharp-down"@[0] == 's');
        assert("natural-up"@[0] == 'n');
        assert("sharp-down"@[1] == 'h');
        assert("slash-flat"@[1] == 'l');
        assert("slash-flat"@[0] == 's');
        assert("sharp-1"@[6] == '1');
        assert("sharp-2"@[6] == '2');
        assert("sharp-3"@[6] == '3');
        assert("sharp-5"@[6] == '5');
        assert("flat-1"@[5] == '1');
        assert("flat-2"@[5] == '2');
        assert("flat-3"@[5] == '3');
        assert("flat-4"@[5] == '4');
    }
}

impl RoundTrip for NoteTypeValue {
    /// Every value.
    open spec fn writable(&self) -> bool {
        true
    }

    open spec fn same(&self, other: &Self) -> bool {
        *self == *other
    }

    proof fn lemma_not_keyword(&self) {
    }

    proof fn lemma_no_error(&self) {
        reveal_strlit("1024th");
        assert("1024th"@.len() == 6);
        reveal_strlit("512th");
        assert("512th"@.len() == 5);
        reveal_strlit("256th");
        assert("256th"@.len() == 5);
        reveal_strlit("128th");
        assert("128th"@.len() == 5);
        reveal_strlit("64th");
        assert("64th"@.len() == 4);
        reveal_strlit("32nd");
        assert("32nd"@.len() == 4);
        reveal_strlit("16th");
        assert("16th"@.len() == 4);
        reveal_strlit("eighth");
        assert("eighth"@.len() == 6);
        reveal_strlit("quarter");
        assert("quarter"@.len() == 7);
        reveal_strlit("half");
        assert("half"@.len() == 4);
        reveal_strlit("whole");
        assert("whole"@.len() == 5);
        reveal_strlit("breve");
        assert("breve"@.len() == 5);
        reveal_strlit("long");
        assert("long"@.len() == 4);
        reveal_strlit("maxima");
        assert("maxima"@.len() == 6);
        assert("1024th"@[0] == '1');
        assert("eighth"@[0] == 'e');
        assert("maxima"@[0] == 'm');
        assert("512th"@[0] == '5');
        assert("256th"@[0] == '2');
        assert("128th"@[0] == '1');
        assert("whole"@[0] == 'w');
        assert("breve"@[0] == 'b');
        assert("64th"@[0] == '6');
        assert("32nd"@[0] == '3');
        assert("16th"@[0] == '1');
        assert("half"@[0] == 'h');
        assert("long"@[0] == 'l');
    }

    proof fn lemma_value(&self, v: Self) {
        reveal_strlit("1024th");
        assert("1024th"@.len() == 6);
        reveal_strlit("512th");
        assert("512th"@.len() == 5);
        reveal_strlit("256th");
        assert("256th"@.len() == 5);
        reveal_strlit("128th");
        assert("128th"@.len() == 5);
        reveal_strlit("64th");
        assert("64th"@.len() == 4);
        reveal_strlit("32nd");
        assert("32nd"@.len() == 4);
        reveal_strlit("16th");
        assert("16th"@.len() == 4);
        reveal_strlit("eighth");
        assert("eighth"@.len() == 6);
        reveal_strlit("quarter");
        assert("quarter"@.len() == 7);
        reveal_strlit("half");
        assert("half"@.len() == 4);
        reveal_strlit("whole");
        assert("whole"@.len() == 5);
        reveal_strlit("breve");
        assert("breve"@.len() == 5);
        reveal_strlit("long");
        assert("long"@.len() == 4);
        reveal_strlit("maxima");
        assert("maxima"@.len() == 6);
        assert("1024th"@[0] == '1');
        assert("eighth"@[0] == 'e');
        assert("maxima"@[0] == 'm');
        assert("512th"@[0] == '5');
        assert("256th"@[0] == '2');
        assert("128th"@[0] == '1');
        assert("whole"@[0] == 'w');
        assert("breve"@[0] == 'b');
        assert("64th"@[0] == '6');
        assert("32nd"@[0] == '3');
        assert("16th"@[0] == '1');
        assert("half"@[0] == 'h');
        assert("long"@[0] == 'l');
    }
}

impl RoundTrip for FontSize {
    /// Every size.
    open spec fn writable(&self) -> bool {
        true
    }

    open spec fn same(&self, other: &Self) -> bool {
        *self == *other
    }

    proof fn lemma_not_keyword(&self) {
        match self {
            FontSize::Css(c) => c.lemma_not_keyword(),
            FontSize::Points(d) => {},
        }
    }

    proof fn lemma_no_error(&self) {
        match self {
            FontSize::Css(c) => c.lemma_no_error(),
            FontSize::Points(d) => d.lemma_no_error(),
        }
    }

    proof fn lemma_value(&self, v: Self) {
        match self {
            FontSize::Css(c) => {
                if let FontSize::Css(z) = v {
                    c.lemma_value(z);
                }
            },
            FontSize::Points(d) => {},
        }
    }
}

/// The head and keyword arguments of the S-expression of a `Position`.
pub proof fn lemma_position_items(x: Position)
    requires
        x.writable(),
    ensures
        x.to_sexpr_spec() matches SexprV::List(items) && items.len() > 0 && items[0] == SexprV::Symbol("position"@)
            && find_kwarg_spec(items, "default-x"@) == (match x.default_x { Some(y) => Some(y.to_sexpr_spec()), None => None })
            && find_kwarg_spec(items, "default-y"@) == (match x.default_y { Some(y) => Some(y.to_sexpr_spec()), None => None })
            && find_kwarg_spec(items, "relative-x"@) == (match x.relative_x { Some(y) => Some(y.to_sexpr_spec()), None => None })
            && find_kwarg_spec(items, "relative-y"@) == (match x.relative_y { Some(y) => Some(y.to_sexpr_spec()), None => None }),
{
        assert("default-y"@ != "default-x"@) by {
            reveal_strlit("default-y");
            assert("default-y"@.len() == 9);
            reveal_strlit("default-x");
            assert("default-x"@.len() == 9);
            assert("default-y"@[8] == 'y');
            assert("default-x"@[8] == 'x');
        }
        assert("relative-x"@ != "default-x"@) by {
            reveal_strlit("relative-x");
            assert("relative-x"@.len() == 10);
            reveal_strlit("default-x");
            assert("default-x"@.len() == 9);
        }
        assert("relative-y"@ != "default-x"@) by {
            reveal_strlit("relative-y");
            assert("relative-y"@.len() == 10);
            reveal_strlit("default-x");
            assert("default-x"@.len() == 9);
        }
        assert("relative-x"@ != "default-y"@) by {
            reveal_strlit("relative-x");
            assert("relative-x"@.len() == 10);
            reveal_strlit("default-y");
            assert("default-y"@.len() == 9);
        }
        assert("relative-y"@ != "default-y"@) by {
            reveal_strlit("relative-y");
            assert("relative-y"@.len() == 10);
            reveal_strlit("default-y");
            assert("default-y"@.len() == 9);
        }
        assert("relative-y"@ != "relative-x"@) by {
            reveal_strlit("relative-y");
            assert("relative-y"@.len() == 10);
            reveal_strlit("relative-x");
            assert("relative-x"@.len() == 10);
            assert("relative-y"@[9] == 'y');
            assert("relative-x"@[9] == 'x');
        }
        let ghost s0 = seq![SexprV::Symbol("position"@)];
        assert(ends_clean(s0));
        let ghost p1 = kw_opt("default-x"@, x.default_x);
        lemma_opt_piece("default-x"@, x.default_x);
        let ghost s1 = s0 + p1;
        lemma_ends_clean(s0, p1);
        let ghost p2 = kw_opt("default-y"@, x.default_y);
        lemma_opt_piece("default-y"@, x.default_y);
        let ghost s2 = s1 + p2;
        lemma_ends_clean(s1, p2);
        let ghost p3 = kw_opt("relative-x"@, x.relative_x);
        lemma_opt_piece("relative-x"@, x.relative_x);
        let ghost s3 = s2 + p3;
        lemma_ends_clean(s2, p3);
        let ghost p4 = kw_opt("relative-y"@, x.relative_y);
        lemma_opt_piece("relative-y"@, x.relative_y);
        let ghost s4 = s3 + p4;
        lemma_ends_clean(s3, p4);
        assert(x.to_sexpr_spec() == SexprV::List(s4));
        assert(s4[0] == SexprV::Symbol("position"@)) by {
            assert(s1[0] == s0[0]);
            assert(s2[0] == s1[0]);
            assert(s3[0] == s2[0]);
            assert(s4[0] == s3[0]);
        }
        assert(find_kwarg_spec(s4, "default-x"@) == (match x.default_x { Some(y) => Some(y.to_sexpr_spec()), None => None })) by {
            lemma_find_head_key("position"@, "default-x"@);
            if p1.len() == 2 { lemma_find_hit(s0, p1, "default-x"@); } else { lemma_find_skip(s0, p1, "default-x"@); }
            lemma_find_skip(s1, p2, "default-x"@);
            lemma_find_skip(s2, p3, "default-x"@);
            lemma_find_skip(s3, p4, "default-x"@);
        }
        assert(find_kwarg_spec(s4, "default-y"@) == (match x.default_y { Some(y) => Some(y.to_sexpr_spec()), None => None })) by {
            lemma_find_head_key("position"@, "default-y"@);
            lemma_find_skip(s0, p1, "default-y"@);
            if p2.len() == 2 { lemma_find_hit(s1, p2, "default-y"@); } else { lemma_find_skip(s1, p2, "default-y"@); }
            lemma_find_skip(s2, p3, "default-y"@);
            lemma_find_skip(s3, p4, "default-y"@);
        }
        assert(find_kwarg_spec(s4, "relative-x"@) == (match x.relative_x { Some(y) => Some(y.to_sexpr_spec()), None => None })) by {
            lemma_find_head_key("position"@, "relative-x"@);
            lemma_find_skip(s0, p1, "relative-x"@);
            lemma_find_skip(s1, p2, "relative-x"@);
            if p3.len() == 2 { lemma_find_hit(s2, p3, "relative-x"@); } else { lemma_find_skip(s2, p3, "relative-x"@); }
            lemma_find_skip(s3, p4, "relative-x"@);
        }
        assert(find_kwarg_spec(s4, "relative-y"@) == (match x.relative_y { Some(y) => Some(y.to_sexpr_spec()), None => None })) by {
            lemma_find_head_key("position"@, "relative-y"@);
            lemma_find_skip(s0, p1, "relative-y"@);
            lemma_find_skip(s1, p2, "relative-y"@);
            lemma_find_skip(s2, p3, "relative-y"@);
            if p4.len() == 2 { lemma_find_hit(s3, p4, "relative-y"@); } else { lemma_find_skip(s3, p4, "relative-y"@); }
        }
}

impl RoundTrip for Position {
    /// A value whose parts are writable.
    open spec fn writable(&self) -> bool {
        self.default_x.writable()
            && self.default_y.writable()
            && self.relative_x.writable()
            && self.relative_y.writable()
    }

    open spec fn same(&self, other: &Self) -> bool {
        self.default_x.same(&other.default_x)
            && self.default_y.same(&other.default_y)
            && self.relative_x.same(&other.relative_x)
            && self.relative_y.same(&other.relative_y)
    }

    proof fn lemma_not_keyword(&self) {
    }

    proof fn lemma_no_error(&self) {
        lemma_position_items(*self);
        self.default_x.lemma_no_error();
        self.default_y.lemma_no_error();
        self.relative_x.lemma_no_error();
        self.relative_y.lemma_no_error();
    }

    proof fn lemma_value(&self, v: Self) {
        lemma_position_items(*self);
        self.default_x.lemma_value(v.default_x);
        self.default_y.lemma_value(v.default_y);
        self.relative_x.lemma_value(v.relative_x);
        self.relative_y.lemma_value(v.relative_y);
    }
}

/// The head and keyword arguments of the S-expression of a `Font`.
pub proof fn lemma_font_items(x: Font)
    requires
        x.writable(),
    ensures
        x.to_sexpr_spec() matches SexprV::List(items) && items.len() > 0 && items[0] == SexprV::Symbol("font"@)
            && find_kwarg_spec(items, "family"@) == (match x.font_family { Some(y) => Some(y.to_sexpr_spec()), None => None })
            && find_kwarg_spec(items, "style"@) == (match x.font_style { Some(y) => Some(y.to_sexpr_spec()), None => None })
            && find_kwarg_spec(items, "size"@) == (match x.font_size { Some(y) => Some(y.to_sexpr_spec()), None => None })
            && find_kwarg_spec(items, "weight"@) == (match x.font_weight { Some(y) => Some(y.to_sexpr_spec()), None => None }),
{
        assert("style"@ != "family"@) by {
            reveal_strlit("style");
            assert("style"@.len() == 5);
            reveal_strlit("family");
            assert("family"@.len() == 6);
        }
        assert("size"@ != "family"@) by {
            reveal_strlit("size");
            assert("size"@.len() == 4);
            reveal_strlit("family");
            assert("family"@.len() == 6);
        }
        assert("weight"@ != "family"@) by {
            reveal_strlit("weight");
            assert("weight"@.len() == 6);
            reveal_strlit("family");
            assert("family"@.len() == 6);
            assert("weight"@[0] == 'w');
            assert("family"@[0] == 'f');
        }
        assert("size"@ != "style"@) by {
            reveal_strlit("size");
            assert("size"@.len() == 4);
            reveal_strlit("style");
            assert("style"@.len() == 5);
        }
        assert("weight"@ != "style"@) by {
            reveal_strlit("weight");
            assert("weight"@.len() == 6);
            reveal_strlit("style");
            assert("style"@.len() == 5);
        }
        assert("weight"@ != "size"@) by {
            reveal_strlit("weight");
            assert("weight"@.len() == 6);
            reveal_strlit("size");
            assert("size"@.len() == 4);
        }
        let ghost s0 = seq![SexprV::Symbol("font"@)];
        assert(ends_clean(s0));
        let ghost p1 = kw_opt("family"@, x.font_family);
        lemma_opt_piece("family"@, x.font_family);
        let ghost s1 = s0 + p1;
        lemma_ends_clean(s0, p1);
        let ghost p2 = kw_opt("style"@, x.font_style);
        lemma_opt_piece("style"@, x.font_style);
        let ghost s2 = s1 + p2;
        lemma_ends_clean(s1, p2);
        let ghost p3 = kw_opt("size"@, x.font_size);
        lemma_opt_piece("size"@, x.font_size);
        let ghost s3 = s2 + p3;
        lemma_ends_clean(s2, p3);
        let ghost p4 = kw_opt("weight"@, x.font_weight);
        lemma_opt_piece("weight"@, x.font_weight);
        let ghost s4 = s3 + p4;
        lemma_ends_clean(s3, p4);
        assert(x.to_sexpr_spec() == SexprV::List(s4));
        assert(s4[0] == SexprV::Symbol("font"@)) by {
            assert(s1[0] == s0[0]);
            assert(s2[0] == s1[0]);
            assert(s3[0] == s2[0]);
            assert(s4[0] == s3[0]);
        }
        assert(find_kwarg_spec(s4, "family"@) == (match x.font_family { Some(y) => Some(y.to_sexpr_spec()), None => None })) by {
            lemma_find_head_key("font"@, "family"@);
            if p1.len() == 2 { lemma_find_hit(s0, p1, "family"@); } else { lemma_find_skip(s0, p1, "family"@); }
            lemma_find_skip(s1, p2, "family"@);
            lemma_find_skip(s2, p3, "family"@);
            lemma_find_skip(s3, p4, "family"@);
        }
        assert(find_kwarg_spec(s4, "style"@) == (match x.font_style { Some(y) => Some(y.to_sexpr_spec()), None => None })) by {
            lemma_find_head_key("font"@, "style"@);
            lemma_find_skip(s0, p1, "style"@);
            if p2.len() == 2 { lemma_find_hit(s1, p2, "style"@); } else { lemma_find_skip(s1, p2, "style"@); }
            lemma_find_skip(s2, p3, "style"@);
            lemma_find_skip(s3, p4, "style"@);
        }
        assert(find_kwarg_spec(s4, "size"@) == (match x.font_size { Some(y) => Some(y.to_sexpr_spec()), None => None })) by {
            lemma_find_head_key("font"@, "size"@);
            lemma_find_skip(s0, p1, "size"@);
            lemma_find_skip(s1, p2, "size"@);
            if p3.len() == 2 { lemma_find_hit(s2, p3, "size"@); } else { lemma_find_skip(s2, p3, "size"@); }
            lemma_find_skip(s3, p4, "size"@);
        }
        assert(find_kwarg_spec(s4, "weight"@) == (match x.font_weight { Some(y) => Some(y.to_sexpr_spec()), None => None })) by {
            lemma_find_head_key("font"@, "weight"@);
            lemma_find_skip(s0, p1, "weight"@);
            lemma_find_skip(s1, p2, "weight"@);
            lemma_find_skip(s2, p3, "weight"@);
            if p4.len() == 2 { lemma_find_hit(s3, p4, "weight"@); } else { lemma_find_skip(s3, p4, "weight"@); }
        }
}

impl RoundTrip for Font {
    /// A value whose parts are writable.
    open spec fn writable(&self) -> bool {
        self.font_family.writable()
            && self.font_style.writable()
            && self.font_size.writable()
            && self.font_weight.writable()
    }

    open spec fn same(&self, other: &Self) -> bool {
        self.font_family.same(&other.font_family)
            && self.font_style.same(&other.font_style)
            && self.font_size.same(&other.font_size)
            && self.font_weight.same(&other.font_weight)
    }

    proof fn lemma_not_keyword(&self) {
    }

    proof fn lemma_no_error(&self) {
        lemma_font_items(*self);
        self.font_family.lemma_no_error();
        self.font_style.lemma_no_error();
        self.font_size.lemma_no_error();
        self.font_weight.lemma_no_error();
    }

    proof fn lemma_value(&self, v: Self) {
        lemma_font_items(*self);
        self.font_family.lemma_value(v.font_family);
        self.font_style.lemma_value(v.font_style);
        self.font_size.lemma_value(v.font_size);
        self.font_weight.lemma_value(v.font_weight);
    }
}

/// The head and keyword arguments of the S-expression of a `EmptyPlacement`.
pub proof fn lemma_empty_placement_items(x: EmptyPlacement)
    requires
        x.writable(),
    ensures
        x.to_sexpr_spec() matches SexprV::List(items) && items.len() > 0 && items[0] == SexprV::Symbol("empty-placement"@)
            && find_kwarg_spec(items, "placement"@) == (match x.placement { Some(y) => Some(y.to_sexpr_spec()), None => None })
            && find_kwarg_spec(items, "position"@) == (if x.position.is_set() { Some(x.position.to_sexpr_spec()) } else { None }),
{
        assert("position"@ != "placement"@) by {
            reveal_strlit("position");
            assert("position"@.len() == 8);
            reveal_strlit("placement");
            assert("placement"@.len() == 9);
        }
        let ghost s0 = seq![SexprV::Symbol("empty-placement"@)];
        assert(ends_clean(s0));
        let ghost p1 = kw_opt("placement"@, x.placement);
        lemma_opt_piece("placement"@, x.placement);
        let ghost s1 = s0 + p1;
        lemma_ends_clean(s0, p1);
        let ghost p2 = kw_if(x.position.is_set(), "position"@, x.position.to_sexpr_spec());
        x.position.lemma_not_keyword();
        lemma_if_piece(x.position.is_set(), "position"@, x.position.to_sexpr_spec());
        let ghost s2 = s1 + p2;
        lemma_ends_clean(s1, p2);
        assert(x.to_sexpr_spec() == SexprV::List(s2));
        assert(s2[0] == SexprV::Symbol("empty-placement"@)) by {
            assert(s1[0] == s0[0]);
            assert(s2[0] == s1[0]);
        }
        assert(find_kwarg_spec(s2, "placement"@) == (match x.placement { Some(y) => Some(y.to_sexpr_spec()), None => None })) by {
            lemma_find_head_key("empty-placement"@, "placement"@);
            if p1.len() == 2 { lemma_find_hit(s0, p1, "placement"@); } else { lemma_find_skip(s0, p1, "placement"@); }
            lemma_find_skip(s1, p2, "placement"@);
        }
        assert(find_kwarg_spec(s2, "position"@) == (if x.position.is_set() { Some(x.position.to_sexpr_spec()) } else { None })) by {
            lemma_find_head_key("empty-placement"@, "position"@);
            lemma_find_skip(s0, p1, "position"@);
            if p2.len() == 2 { lemma_find_hit(s1, p2, "position"@); } else { lemma_find_skip(s1, p2, "position"@); }
        }
}

impl RoundTrip for EmptyPlacement {
    /// A value whose parts are writable.
    open spec fn writable(&self) -> bool {
        self.position.writable()
            && self.placement.writable()
    }

    open spec fn same(&self, other: &Self) -> bool {
        self.position.same(&other.position)
            && self.placement.same(&other.placement)
    }

    proof fn lemma_not_keyword(&self) {
    }

    proof fn lemma_no_error(&self) {
        lemma_empty_placement_items(*self);
        self.position.lemma_no_error();
        self.placement.lemma_no_error();
    }

    proof fn lemma_value(&self, v: Self) {
        lemma_empty_placement_items(*self);
        self.placement.lemma_value(v.placement);
        if self.position.is_set() {
            self.position.lemma_value(v.position);
        }
    }
}

/// The head and keyword arguments of the S-expression of a `WavyLine`.
pub proof fn lemma_wavy_line_items(x: WavyLine)
    requires
        x.writable(),
    ensures
        x.to_sexpr_spec() matches SexprV::List(items) && items.len() > 0 && items[0] == SexprV::Symbol("wavy-line"@)
            && find_kwarg_spec(items, "type"@) == (Some(x.type_.to_sexpr_spec()))
            && find_kwarg_spec(items, "number"@) == (match x.number { Some(y) => Some(y.to_sexpr_spec()), None => None })
            && find_kwarg_spec(items, "position"@) == (if x.position.is_set() { Some(x.position.to_sexpr_spec()) } else { None }),
{
        assert("number"@ != "type"@) by {
            reveal_strlit("number");
            assert("number"@.len() == 6);
            reveal_strlit("type");
            assert("type"@.len() == 4);
        }
        assert("position"@ != "type"@) by {
            reveal_strlit("position");
            assert("position"@.len() == 8);
            reveal_strlit("type");
            assert("type"@.len() == 4);
        }
        assert("position"@ != "number"@) by {
            reveal_strlit("position");
            assert("position"@.len() == 8);
            reveal_strlit("number");
            assert("number"@.len() == 6);
        }
        let ghost s0 = seq![SexprV::Symbol("wavy-line"@)];
        assert(ends_clean(s0));
        let ghost p1 = kw_pair("type"@, x.type_.to_sexpr_spec());
        x.type_.lemma_not_keyword();
        lemma_pair_piece("type"@, x.type_.to_sexpr_spec());
        let ghost s1 = s0 + p1;
        lemma_ends_clean(s0, p1);
        let ghost p2 = kw_opt("number"@, x.number);
        lemma_opt_piece("number"@, x.number);
        let ghost s2 = s1 + p2;
        lemma_ends_clean(s1, p2);
        let ghost p3 = kw_if(x.position.is_set(), "position"@, x.position.to_sexpr_spec());
        x.position.lemma_not_keyword();
        lemma_if_piece(x.position.is_set(), "position"@, x.position.to_sexpr_spec());
        let ghost s3 = s2 + p3;
        lemma_ends_clean(s2, p3);
        assert(x.to_sexpr_spec() == SexprV::List(s3));
        assert(s3[0] == SexprV::Symbol("wavy-line"@)) by {
            assert(s1[0] == s0[0]);
            assert(s2[0] == s1[0]);
            assert(s3[0] == s2[0]);
        }
        assert(find_kwarg_spec(s3, "type"@) == (Some(x.type_.to_sexpr_spec()))) by {
            lemma_find_head_key("wavy-line"@, "type"@);
            if p1.len() == 2 { lemma_find_hit(s0, p1, "type"@); } else { lemma_find_skip(s0, p1, "type"@); }
            lemma_find_skip(s1, p2, "type"@);
            lemma_find_skip(s2, p3, "type"@);
        }
        assert(find_kwarg_spec(s3, "number"@) == (match x.number { Some(y) => Some(y.to_sexpr_spec()), None => None })) by {
            lemma_find_head_key("wavy-line"@, "number"@);
            lemma_find_skip(s0, p1, "number"@);
            if p2.len() == 2 { lemma_find_hit(s1, p2, "number"@); } else { lemma_find_skip(s1, p2, "number"@); }
            lemma_find_skip(s2, p3, "number"@);
        }
        assert(find_kwarg_spec(s3, "position"@) == (if x.position.is_set() { Some(x.position.to_sexpr_spec()) } else { None })) by {
            lemma_find_head_key("wavy-line"@, "position"@);
            lemma_find_skip(s0, p1, "position"@);
            lemma_find_skip(s1, p2, "position"@);
            if p3.len() == 2 { lemma_find_hit(s2, p3, "position"@); } else { lemma_find_skip(s2, p3, "position"@); }
        }
}

impl RoundTrip for WavyLine {
    /// A value whose parts are writable.
    open spec fn writable(&self) -> bool {
        self.position.writable()
            && self.type_.writable()
            && self.number.writable()
    }

    open spec fn same(&self, other: &Self) -> bool {
        self.position.same(&other.position)
            && self.type_.same(&other.type_)
            && self.number.same(&other.number)
    }

    proof fn lemma_not_keyword(&self) {
    }

    proof fn lemma_no_error(&self) {
        lemma_wavy_line_items(*self);
        self.position.lemma_no_error();
        self.type_.lemma_no_error();
        self.number.lemma_no_error();
    }

    proof fn lemma_value(&self, v: Self) {
        lemma_wavy_line_items(*self);
        self.type_.lemma_value(v.type_);
        self.number.lemma_value(v.number);
        if self.position.is_set() {
            self.position.lemma_value(v.position);
        }
    }
}

} // verus!
