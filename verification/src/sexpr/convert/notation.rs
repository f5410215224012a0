//! Conversions of notations.

use vstd::prelude::*;
use crate::sexpr::round_trip::{RoundTrip, lemma_find_after, lemma_find_head, lemma_find_after_key, lemma_find_head_key, lemma_find_skip, lemma_find_hit, lemma_ends_clean, ends_clean, clean_piece, lemma_pair_piece, lemma_opt_piece, lemma_if_piece};
use super::find_kwarg_spec;
use super::direction::lemma_dynamics_items;
use crate::decimal::Decimal;
use crate::text::str_eq;
use crate::sexpr::ast::{ListBuilder, Sexpr, SexprV, kw_pair, kw_opt, kw_if};
use crate::sexpr::error::{ConvertError, ConvertErrorV, type_mismatch_v};
use crate::sexpr::traits::{FromSexpr, ToSexpr};
use super::{
    expect_head, get_head, require_kwarg, optional_kwarg, object_kwarg, flag_kwarg, list_kwarg,
    head_error, head_name, kwarg_error, kwarg_value, opt_kwarg_error, opt_kwarg_value,
    obj_kwarg_error, obj_kwarg_value, flag_kwarg_value, list_kwarg_value, either,
};
use crate::ir::common::{
    AboveBelow, AccidentalValue, Editorial, Font, LineType, OverUnder, Position, PrintStyle,
    StartStop, StartStopContinue, StartStopSingle, UpDown, WavyLine, YesNo, EmptyPlacement,
    position_none, font_none, editorial_none,
};
use crate::ir::direction::Dynamics;
use crate::ir::duration::NoteTypeValue;
use crate::ir::notation::{
    ShowTuplet,
    LineShape,
    TopBottom,
    LineLength,
    BreathMarkValue,
    CaesuraValue,
    StartNote,
    TrillStep,
    TwoNoteTurn,
    TremoloType,
    BendRelease,
    TapHand,
    HoleClosedValue,
    HoleClosedLocation,
    ArrowDirection,
    ArrowStyle,
    HandbellValue,
    FermataShape,
    UprightInverted,
    Tied,
    Slur,
    Glissando,
    Slide,
    TupletNumber,
    TupletType,
    TupletDot,
    TupletPortion,
    Tuplet,
    Arpeggiate,
    NonArpeggiate,
    AccidentalMark,
    OtherNotation,
    StrongAccent,
    EmptyLine,
    BreathMark,
    Caesura,
    OtherArticulation,
    EmptyTrillSound,
    Turn,
    Mordent,
    Tremolo,
    OtherOrnament,
    OrnamentWithAccidentals,
    Ornaments,
    Articulations,
    Harmonic,
    Fingering,
    Pluck,
    Fret,
    StringNumber,
    HammerPull,
    Bend,
    Tap,
    HeelToe,
    HoleClosed,
    Hole,
    Arrow,
    Handbell,
    HarmonMute,
    OtherTechnical,
    Technical,
    Fermata,
    Notations,
    ArticulationElement,
    OrnamentElement,
    TechnicalElement,
    NotationContent,
};

verus! {

// === ShowTuplet ===

/// The symbol of each `ShowTuplet`.
pub open spec fn show_tuplet_name(v: ShowTuplet) -> Seq<char> {
    match v {
        ShowTuplet::Actual => "actual"@,
        ShowTuplet::Both => "both"@,
        ShowTuplet::Neither => "none"@,
    }
}

/// The `ShowTuplet` that a symbol names.
pub open spec fn show_tuplet_of_name(t: Seq<char>) -> Option<ShowTuplet> {
    if t == "actual"@ {
        Some(ShowTuplet::Actual)
    } else if t == "both"@ {
        Some(ShowTuplet::Both)
    } else if t == "none"@ {
        Some(ShowTuplet::Neither)
    } else {
        None
    }
}

impl ShowTuplet {
    /// The symbol of the value, as `show_tuplet_name` states.
    pub fn symbol(&self) -> (r: &'static str)
        ensures
            r@ == show_tuplet_name(*self),
    {
        match self {
            ShowTuplet::Actual => "actual",
            ShowTuplet::Both => "both",
            ShowTuplet::Neither => "none",
        }
    }
}

impl ToSexpr for ShowTuplet {
    /// The symbol of the value.
    open spec fn to_sexpr_spec(&self) -> SexprV {
        SexprV::Symbol(show_tuplet_name(*self))
    }

    fn to_sexpr(&self) -> (r: Sexpr) {
        Sexpr::symbol(self.symbol())
    }
}

impl FromSexpr for ShowTuplet {
    /// A symbol that names a value.
    open spec fn from_sexpr_error(s: SexprV) -> Option<ConvertErrorV> {
        match s {
            SexprV::Symbol(t) => if show_tuplet_of_name(t) is Some {
                None
            } else {
                Some(type_mismatch_v("show-tuplet"@, s))
            },
            _ => Some(type_mismatch_v("show-tuplet"@, s)),
        }
    }

    open spec fn from_sexpr_value(s: SexprV, v: ShowTuplet) -> bool {
        match s {
            SexprV::Symbol(t) => show_tuplet_of_name(t) == Some(v),
            _ => false,
        }
    }

    fn from_sexpr(sexpr: &Sexpr) -> (r: Result<ShowTuplet, ConvertError>) {
        match sexpr.as_symbol() {
            Some(t) => {
                if str_eq(t, "actual") {
                    Ok(ShowTuplet::Actual)
                } else if str_eq(t, "both") {
                    Ok(ShowTuplet::Both)
                } else if str_eq(t, "none") {
                    Ok(ShowTuplet::Neither)
                } else {
                    Err(ConvertError::type_mismatch("show-tuplet", sexpr))
                }
            },
            None => Err(ConvertError::type_mismatch("show-tuplet", sexpr)),
        }
    }
}

// === LineShape ===

/// The symbol of each `LineShape`.
pub open spec fn line_shape_name(v: LineShape) -> Seq<char> {
    match v {
        LineShape::Straight => "straight"@,
        LineShape::Curved => "curved"@,
    }
}

/// The `LineShape` that a symbol names.
pub open spec fn line_shape_of_name(t: Seq<char>) -> Option<LineShape> {
    if t == "straight"@ {
        Some(LineShape::Straight)
    } else if t == "curved"@ {
        Some(LineShape::Curved)
    } else {
        None
    }
}

impl LineShape {
    /// The symbol of the value, as `line_shape_name` states.
    pub fn symbol(&self) -> (r: &'static str)
        ensures
            r@ == line_shape_name(*self),
    {
        match self {
            LineShape::Straight => "straight",
            LineShape::Curved => "curved",
        }
    }
}

impl ToSexpr for LineShape {
    /// The symbol of the value.
    open spec fn to_sexpr_spec(&self) -> SexprV {
        SexprV::Symbol(line_shape_name(*self))
    }

    fn to_sexpr(&self) -> (r: Sexpr) {
        Sexpr::symbol(self.symbol())
    }
}

impl FromSexpr for LineShape {
    /// A symbol that names a value.
    open spec fn from_sexpr_error(s: SexprV) -> Option<ConvertErrorV> {
        match s {
            SexprV::Symbol(t) => if line_shape_of_name(t) is Some {
                None
            } else {
                Some(type_mismatch_v("line-shape"@, s))
            },
            _ => Some(type_mismatch_v("line-shape"@, s)),
        }
    }

    open spec fn from_sexpr_value(s: SexprV, v: LineShape) -> bool {
        match s {
            SexprV::Symbol(t) => line_shape_of_name(t) == Some(v),
            _ => false,
        }
    }

    fn from_sexpr(sexpr: &Sexpr) -> (r: Result<LineShape, ConvertError>) {
        match sexpr.as_symbol() {
            Some(t) => {
                if str_eq(t, "straight") {
                    Ok(LineShape::Straight)
                } else if str_eq(t, "curved") {
                    Ok(LineShape::Curved)
                } else {
                    Err(ConvertError::type_mismatch("line-shape", sexpr))
                }
            },
            None => Err(ConvertError::type_mismatch("line-shape", sexpr)),
        }
    }
}

// === TopBottom ===

/// The symbol of each `TopBottom`.
pub open spec fn top_bottom_name(v: TopBottom) -> Seq<char> {
    match v {
        TopBottom::Top => "top"@,
        TopBottom::Bottom => "bottom"@,
    }
}

/// The `TopBottom` that a symbol names.
pub open spec fn top_bottom_of_name(t: Seq<char>) -> Option<TopBottom> {
    if t == "top"@ {
        Some(TopBottom::Top)
    } else if t == "bottom"@ {
        Some(TopBottom::Bottom)
    } else {
        None
    }
}

impl TopBottom {
    /// The symbol of the value, as `top_bottom_name` states.
    pub fn symbol(&self) -> (r: &'static str)
        ensures
            r@ == top_bottom_name(*self),
    {
        match self {
            TopBottom::Top => "top",
            TopBottom::Bottom => "bottom",
        }
    }
}

impl ToSexpr for TopBottom {
    /// The symbol of the value.
    open spec fn to_sexpr_spec(&self) -> SexprV {
        SexprV::Symbol(top_bottom_name(*self))
    }

    fn to_sexpr(&self) -> (r: Sexpr) {
        Sexpr::symbol(self.symbol())
    }
}

impl FromSexpr for TopBottom {
    /// A symbol that names a value.
    open spec fn from_sexpr_error(s: SexprV) -> Option<ConvertErrorV> {
        match s {
            SexprV::Symbol(t) => if top_bottom_of_name(t) is Some {
                None
            } else {
                Some(type_mismatch_v("top-bottom"@, s))
            },
            _ => Some(type_mismatch_v("top-bottom"@, s)),
        }
    }

    open spec fn from_sexpr_value(s: SexprV, v: TopBottom) -> bool {
        match s {
            SexprV::Symbol(t) => top_bottom_of_name(t) == Some(v),
            _ => false,
        }
    }

    fn from_sexpr(sexpr: &Sexpr) -> (r: Result<TopBottom, ConvertError>) {
        match sexpr.as_symbol() {
            Some(t) => {
                if str_eq(t, "top") {
                    Ok(TopBottom::Top)
                } else if str_eq(t, "bottom") {
                    Ok(TopBottom::Bottom)
                } else {
                    Err(ConvertError::type_mismatch("top-bottom", sexpr))
                }
            },
            None => Err(ConvertError::type_mismatch("top-bottom", sexpr)),
        }
    }
}

// === LineLength ===

/// The symbol of each `LineLength`.
pub open spec fn line_length_name(v: LineLength) -> Seq<char> {
    match v {
        LineLength::Short => "short"@,
        LineLength::Medium => "medium"@,
        LineLength::Long => "long"@,
    }
}

/// The `LineLength` that a symbol names.
pub open spec fn line_length_of_name(t: Seq<char>) -> Option<LineLength> {
    if t == "short"@ {
        Some(LineLength::Short)
    } else if t == "medium"@ {
        Some(LineLength::Medium)
    } else if t == "long"@ {
        Some(LineLength::Long)
    } else {
        None
    }
}

impl LineLength {
    /// The symbol of the value, as `line_length_name` states.
    pub fn symbol(&self) -> (r: &'static str)
        ensures
            r@ == line_length_name(*self),
    {
        match self {
            LineLength::Short => "short",
            LineLength::Medium => "medium",
            LineLength::Long => "long",
        }
    }
}

impl ToSexpr for LineLength {
    /// The symbol of the value.
    open spec fn to_sexpr_spec(&self) -> SexprV {
        SexprV::Symbol(line_length_name(*self))
    }

    fn to_sexpr(&self) -> (r: Sexpr) {
        Sexpr::symbol(self.symbol())
    }
}

impl FromSexpr for LineLength {
    /// A symbol that names a value.
    open spec fn from_sexpr_error(s: SexprV) -> Option<ConvertErrorV> {
        match s {
            SexprV::Symbol(t) => if line_length_of_name(t) is Some {
                None
            } else {
                Some(type_mismatch_v("line-length"@, s))
            },
            _ => Some(type_mismatch_v("line-length"@, s)),
        }
    }

    open spec fn from_sexpr_value(s: SexprV, v: LineLength) -> bool {
        match s {
            SexprV::Symbol(t) => line_length_of_name(t) == Some(v),
            _ => false,
        }
    }

    fn from_sexpr(sexpr: &Sexpr) -> (r: Result<LineLength, ConvertError>) {
        match sexpr.as_symbol() {
            Some(t) => {
                if str_eq(t, "short") {
                    Ok(LineLength::Short)
                } else if str_eq(t, "medium") {
                    Ok(LineLength::Medium)
                } else if str_eq(t, "long") {
                    Ok(LineLength::Long)
                } else {
                    Err(ConvertError::type_mismatch("line-length", sexpr))
                }
            },
            None => Err(ConvertError::type_mismatch("line-length", sexpr)),
        }
    }
}

// === BreathMarkValue ===

/// The symbol of each `BreathMarkValue`.
pub open spec fn breath_mark_value_name(v: BreathMarkValue) -> Seq<char> {
    match v {
        BreathMarkValue::Empty => "empty"@,
        BreathMarkValue::Comma => "comma"@,
        BreathMarkValue::Tick => "tick"@,
        BreathMarkValue::Upbow => "upbow"@,
        BreathMarkValue::Salzedo => "salzedo"@,
    }
}

/// The `BreathMarkValue` that a symbol names.
pub open spec fn breath_mark_value_of_name(t: Seq<char>) -> Option<BreathMarkValue> {
    if t == "empty"@ {
        Some(BreathMarkValue::Empty)
    } else if t == "comma"@ {
        Some(BreathMarkValue::Comma)
    } else if t == "tick"@ {
        Some(BreathMarkValue::Tick)
    } else if t == "upbow"@ {
        Some(BreathMarkValue::Upbow)
    } else if t == "salzedo"@ {
        Some(BreathMarkValue::Salzedo)
    } else {
        None
    }
}

impl BreathMarkValue {
    /// The symbol of the value, as `breath_mark_value_name` states.
    pub fn symbol(&self) -> (r: &'static str)
        ensures
            r@ == breath_mark_value_name(*self),
    {
        match self {
            BreathMarkValue::Empty => "empty",
            BreathMarkValue::Comma => "comma",
            BreathMarkValue::Tick => "tick",
            BreathMarkValue::Upbow => "upbow",
            BreathMarkValue::Salzedo => "salzedo",
        }
    }
}

impl ToSexpr for BreathMarkValue {
    /// The symbol of the value.
    open spec fn to_sexpr_spec(&self) -> SexprV {
        SexprV::Symbol(breath_mark_value_name(*self))
    }

    fn to_sexpr(&self) -> (r: Sexpr) {
        Sexpr::symbol(self.symbol())
    }
}

impl FromSexpr for BreathMarkValue {
    /// A symbol that names a value.
    open spec fn from_sexpr_error(s: SexprV) -> Option<ConvertErrorV> {
        match s {
            SexprV::Symbol(t) => if breath_mark_value_of_name(t) is Some {
                None
            } else {
                Some(type_mismatch_v("breath-mark-value"@, s))
            },
            _ => Some(type_mismatch_v("breath-mark-value"@, s)),
        }
    }

    open spec fn from_sexpr_value(s: SexprV, v: BreathMarkValue) -> bool {
        match s {
            SexprV::Symbol(t) => breath_mark_value_of_name(t) == Some(v),
            _ => false,
        }
    }

    fn from_sexpr(sexpr: &Sexpr) -> (r: Result<BreathMarkValue, ConvertError>) {
        match sexpr.as_symbol() {
            Some(t) => {
                if str_eq(t, "empty") {
                    Ok(BreathMarkValue::Empty)
                } else if str_eq(t, "comma") {
                    Ok(BreathMarkValue::Comma)
                } else if str_eq(t, "tick") {
                    Ok(BreathMarkValue::Tick)
                } else if str_eq(t, "upbow") {
                    Ok(BreathMarkValue::Upbow)
                } else if str_eq(t, "salzedo") {
                    Ok(BreathMarkValue::Salzedo)
                } else {
                    Err(ConvertError::type_mismatch("breath-mark-value", sexpr))
                }
            },
            None => Err(ConvertError::type_mismatch("breath-mark-value", sexpr)),
        }
    }
}

// === CaesuraValue ===

/// The symbol of each `CaesuraValue`.
pub open spec fn caesura_value_name(v: CaesuraValue) -> Seq<char> {
    match v {
        CaesuraValue::Normal => "normal"@,
        CaesuraValue::Thick => "thick"@,
        CaesuraValue::Short => "short"@,
        CaesuraValue::Curved => "curved"@,
        CaesuraValue::Single => "single"@,
    }
}

/// The `CaesuraValue` that a symbol names.
pub open spec fn caesura_value_of_name(t: Seq<char>) -> Option<CaesuraValue> {
    if t == "normal"@ {
        Some(CaesuraValue::Normal)
    } else if t == "thick"@ {
        Some(CaesuraValue::Thick)
    } else if t == "short"@ {
        Some(CaesuraValue::Short)
    } else if t == "curved"@ {
        Some(CaesuraValue::Curved)
    } else if t == "single"@ {
        Some(CaesuraValue::Single)
    } else {
        None
    }
}

impl CaesuraValue {
    /// The symbol of the value, as `caesura_value_name` states.
    pub fn symbol(&self) -> (r: &'static str)
        ensures
            r@ == caesura_value_name(*self),
    {
        match self {
            CaesuraValue::Normal => "normal",
            CaesuraValue::Thick => "thick",
            CaesuraValue::Short => "short",
            CaesuraValue::Curved => "curved",
            CaesuraValue::Single => "single",
        }
    }
}

impl ToSexpr for CaesuraValue {
    /// The symbol of the value.
    open spec fn to_sexpr_spec(&self) -> SexprV {
        SexprV::Symbol(caesura_value_name(*self))
    }

    fn to_sexpr(&self) -> (r: Sexpr) {
        Sexpr::symbol(self.symbol())
    }
}

impl FromSexpr for CaesuraValue {
    /// A symbol that names a value.
    open spec fn from_sexpr_error(s: SexprV) -> Option<ConvertErrorV> {
        match s {
            SexprV::Symbol(t) => if caesura_value_of_name(t) is Some {
                None
            } else {
                Some(type_mismatch_v("caesura-value"@, s))
            },
            _ => Some(type_mismatch_v("caesura-value"@, s)),
        }
    }

    open spec fn from_sexpr_value(s: SexprV, v: CaesuraValue) -> bool {
        match s {
            SexprV::Symbol(t) => caesura_value_of_name(t) == Some(v),
            _ => false,
        }
    }

    fn from_sexpr(sexpr: &Sexpr) -> (r: Result<CaesuraValue, ConvertError>) {
        match sexpr.as_symbol() {
            Some(t) => {
                if str_eq(t, "normal") {
                    Ok(CaesuraValue::Normal)
                } else if str_eq(t, "thick") {
                    Ok(CaesuraValue::Thick)
                } else if str_eq(t, "short") {
                    Ok(CaesuraValue::Short)
                } else if str_eq(t, "curved") {
                    Ok(CaesuraValue::Curved)
                } else if str_eq(t, "single") {
                    Ok(CaesuraValue::Single)
                } else {
                    Err(ConvertError::type_mismatch("caesura-value", sexpr))
                }
            },
            None => Err(ConvertError::type_mismatch("caesura-value", sexpr)),
        }
    }
}

// === StartNote ===

/// The symbol of each `StartNote`.
pub open spec fn start_note_name(v: StartNote) -> Seq<char> {
    match v {
        StartNote::Upper => "upper"@,
        StartNote::Main => "main"@,
        StartNote::Below => "below"@,
    }
}

/// The `StartNote` that a symbol names.
pub open spec fn start_note_of_name(t: Seq<char>) -> Option<StartNote> {
    if t == "upper"@ {
        Some(StartNote::Upper)
    } else if t == "main"@ {
        Some(StartNote::Main)
    } else if t == "below"@ {
        Some(StartNote::Below)
    } else {
        None
    }
}

impl StartNote {
    /// The symbol of the value, as `start_note_name` states.
    pub fn symbol(&self) -> (r: &'static str)
        ensures
            r@ == start_note_name(*self),
    {
        match self {
            StartNote::Upper => "upper",
            StartNote::Main => "main",
            StartNote::Below => "below",
        }
    }
}

impl ToSexpr for StartNote {
    /// The symbol of the value.
    open spec fn to_sexpr_spec(&self) -> SexprV {
        SexprV::Symbol(start_note_name(*self))
    }

    fn to_sexpr(&self) -> (r: Sexpr) {
        Sexpr::symbol(self.symbol())
    }
}

impl FromSexpr for StartNote {
    /// A symbol that names a value.
    open spec fn from_sexpr_error(s: SexprV) -> Option<ConvertErrorV> {
        match s {
            SexprV::Symbol(t) => if start_note_of_name(t) is Some {
                None
            } else {
                Some(type_mismatch_v("start-note"@, s))
            },
            _ => Some(type_mismatch_v("start-note"@, s)),
        }
    }

    open spec fn from_sexpr_value(s: SexprV, v: StartNote) -> bool {
        match s {
            SexprV::Symbol(t) => start_note_of_name(t) == Some(v),
            _ => false,
        }
    }

    fn from_sexpr(sexpr: &Sexpr) -> (r: Result<StartNote, ConvertError>) {
        match sexpr.as_symbol() {
            Some(t) => {
                if str_eq(t, "upper") {
                    Ok(StartNote::Upper)
                } else if str_eq(t, "main") {
                    Ok(StartNote::Main)
                } else if str_eq(t, "below") {
                    Ok(StartNote::Below)
                } else {
                    Err(ConvertError::type_mismatch("start-note", sexpr))
                }
            },
            None => Err(ConvertError::type_mismatch("start-note", sexpr)),
        }
    }
}

// === TrillStep ===

/// The symbol of each `TrillStep`.
pub open spec fn trill_step_name(v: TrillStep) -> Seq<char> {
    match v {
        TrillStep::Whole => "whole"@,
        TrillStep::Half => "half"@,
        TrillStep::Unison => "unison"@,
    }
}

/// The `TrillStep` that a symbol names.
pub open spec fn trill_step_of_name(t: Seq<char>) -> Option<TrillStep> {
    if t == "whole"@ {
        Some(TrillStep::Whole)
    } else if t == "half"@ {
        Some(TrillStep::Half)
    } else if t == "unison"@ {
        Some(TrillStep::Unison)
    } else {
        None
    }
}

impl TrillStep {
    /// The symbol of the value, as `trill_step_name` states.
    pub fn symbol(&self) -> (r: &'static str)
        ensures
            r@ == trill_step_name(*self),
    {
        match self {
            TrillStep::Whole => "whole",
            TrillStep::Half => "half",
            TrillStep::Unison => "unison",
        }
    }
}

impl ToSexpr for TrillStep {
    /// The symbol of the value.
    open spec fn to_sexpr_spec(&self) -> SexprV {
        SexprV::Symbol(trill_step_name(*self))
    }

    fn to_sexpr(&self) -> (r: Sexpr) {
        Sexpr::symbol(self.symbol())
    }
}

impl FromSexpr for TrillStep {
    /// A symbol that names a value.
    open spec fn from_sexpr_error(s: SexprV) -> Option<ConvertErrorV> {
        match s {
            SexprV::Symbol(t) => if trill_step_of_name(t) is Some {
                None
            } else {
                Some(type_mismatch_v("trill-step"@, s))
            },
            _ => Some(type_mismatch_v("trill-step"@, s)),
        }
    }

    open spec fn from_sexpr_value(s: SexprV, v: TrillStep) -> bool {
        match s {
            SexprV::Symbol(t) => trill_step_of_name(t) == Some(v),
            _ => false,
        }
    }

    fn from_sexpr(sexpr: &Sexpr) -> (r: Result<TrillStep, ConvertError>) {
        match sexpr.as_symbol() {
            Some(t) => {
                if str_eq(t, "whole") {
                    Ok(TrillStep::Whole)
                } else if str_eq(t, "half") {
                    Ok(TrillStep::Half)
                } else if str_eq(t, "unison") {
                    Ok(TrillStep::Unison)
                } else {
                    Err(ConvertError::type_mismatch("trill-step", sexpr))
                }
            },
            None => Err(ConvertError::type_mismatch("trill-step", sexpr)),
        }
    }
}

// === TwoNoteTurn ===

/// The symbol of each `TwoNoteTurn`.
pub open spec fn two_note_turn_name(v: TwoNoteTurn) -> Seq<char> {
    match v {
        TwoNoteTurn::Whole => "whole"@,
        TwoNoteTurn::Half => "half"@,
        TwoNoteTurn::NoTurn => "none"@,
    }
}

/// The `TwoNoteTurn` that a symbol names.
pub open spec fn two_note_turn_of_name(t: Seq<char>) -> Option<TwoNoteTurn> {
    if t == "whole"@ {
        Some(TwoNoteTurn::Whole)
    } else if t == "half"@ {
        Some(TwoNoteTurn::Half)
    } else if t == "none"@ {
        Some(TwoNoteTurn::NoTurn)
    } else {
        None
    }
}

impl TwoNoteTurn {
    /// The symbol of the value, as `two_note_turn_name` states.
    pub fn symbol(&self) -> (r: &'static str)
        ensures
            r@ == two_note_turn_name(*self),
    {
        match self {
            TwoNoteTurn::Whole => "whole",
            TwoNoteTurn::Half => "half",
            TwoNoteTurn::NoTurn => "none",
        }
    }
}

impl ToSexpr for TwoNoteTurn {
    /// The symbol of the value.
    open spec fn to_sexpr_spec(&self) -> SexprV {
        SexprV::Symbol(two_note_turn_name(*self))
    }

    fn to_sexpr(&self) -> (r: Sexpr) {
        Sexpr::symbol(self.symbol())
    }
}

impl FromSexpr for TwoNoteTurn {
    /// A symbol that names a value.
    open spec fn from_sexpr_error(s: SexprV) -> Option<ConvertErrorV> {
        match s {
            SexprV::Symbol(t) => if two_note_turn_of_name(t) is Some {
                None
            } else {
                Some(type_mismatch_v("two-note-turn"@, s))
            },
            _ => Some(type_mismatch_v("two-note-turn"@, s)),
        }
    }

    open spec fn from_sexpr_value(s: SexprV, v: TwoNoteTurn) -> bool {
        match s {
            SexprV::Symbol(t) => two_note_turn_of_name(t) == Some(v),
            _ => false,
        }
    }

    fn from_sexpr(sexpr: &Sexpr) -> (r: Result<TwoNoteTurn, ConvertError>) {
        match sexpr.as_symbol() {
            Some(t) => {
                if str_eq(t, "whole") {
                    Ok(TwoNoteTurn::Whole)
                } else if str_eq(t, "half") {
                    Ok(TwoNoteTurn::Half)
                } else if str_eq(t, "none") {
                    Ok(TwoNoteTurn::NoTurn)
                } else {
                    Err(ConvertError::type_mismatch("two-note-turn", sexpr))
                }
            },
            None => Err(ConvertError::type_mismatch("two-note-turn", sexpr)),
        }
    }
}

// === TremoloType ===

/// The symbol of each `TremoloType`.
pub open spec fn tremolo_type_name(v: TremoloType) -> Seq<char> {
    match v {
        TremoloType::Start => "start"@,
        TremoloType::Stop => "stop"@,
        TremoloType::Single => "single"@,
        TremoloType::Unmeasured => "unmeasured"@,
    }
}

/// The `TremoloType` that a symbol names.
pub open spec fn tremolo_type_of_name(t: Seq<char>) -> Option<TremoloType> {
    if t == "start"@ {
        Some(TremoloType::Start)
    } else if t == "stop"@ {
        Some(TremoloType::Stop)
    } else if t == "single"@ {
        Some(TremoloType::Single)
    } else if t == "unmeasured"@ {
        Some(TremoloType::Unmeasured)
    } else {
        None
    }
}

impl TremoloType {
    /// The symbol of the value, as `tremolo_type_name` states.
    pub fn symbol(&self) -> (r: &'static str)
        ensures
            r@ == tremolo_type_name(*self),
    {
        match self {
            TremoloType::Start => "start",
            TremoloType::Stop => "stop",
            TremoloType::Single => "single",
            TremoloType::Unmeasured => "unmeasured",
        }
    }
}

impl ToSexpr for TremoloType {
    /// The symbol of the value.
    open spec fn to_sexpr_spec(&self) -> SexprV {
        SexprV::Symbol(tremolo_type_name(*self))
    }

    fn to_sexpr(&self) -> (r: Sexpr) {
        Sexpr::symbol(self.symbol())
    }
}

impl FromSexpr for TremoloType {
    /// A symbol that names a value.
    open spec fn from_sexpr_error(s: SexprV) -> Option<ConvertErrorV> {
        match s {
            SexprV::Symbol(t) => if tremolo_type_of_name(t) is Some {
                None
            } else {
                Some(type_mismatch_v("tremolo-type"@, s))
            },
            _ => Some(type_mismatch_v("tremolo-type"@, s)),
        }
    }

    open spec fn from_sexpr_value(s: SexprV, v: TremoloType) -> bool {
        match s {
            SexprV::Symbol(t) => tremolo_type_of_name(t) == Some(v),
            _ => false,
        }
    }

    fn from_sexpr(sexpr: &Sexpr) -> (r: Result<TremoloType, ConvertError>) {
        match sexpr.as_symbol() {
            Some(t) => {
                if str_eq(t, "start") {
                    Ok(TremoloType::Start)
                } else if str_eq(t, "stop") {
                    Ok(TremoloType::Stop)
                } else if str_eq(t, "single") {
                    Ok(TremoloType::Single)
                } else if str_eq(t, "unmeasured") {
                    Ok(TremoloType::Unmeasured)
                } else {
                    Err(ConvertError::type_mismatch("tremolo-type", sexpr))
                }
            },
            None => Err(ConvertError::type_mismatch("tremolo-type", sexpr)),
        }
    }
}

// === BendRelease ===

/// The symbol of each `BendRelease`.
pub open spec fn bend_release_name(v: BendRelease) -> Seq<char> {
    match v {
        BendRelease::Early => "early"@,
        BendRelease::Late => "late"@,
    }
}

/// The `BendRelease` that a symbol names.
pub open spec fn bend_release_of_name(t: Seq<char>) -> Option<BendRelease> {
    if t == "early"@ {
        Some(BendRelease::Early)
    } else if t == "late"@ {
        Some(BendRelease::Late)
    } else {
        None
    }
}

impl BendRelease {
    /// The symbol of the value, as `bend_release_name` states.
    pub fn symbol(&self) -> (r: &'static str)
        ensures
            r@ == bend_release_name(*self),
    {
        match self {
            BendRelease::Early => "early",
            BendRelease::Late => "late",
        }
    }
}

impl ToSexpr for BendRelease {
    /// The symbol of the value.
    open spec fn to_sexpr_spec(&self) -> SexprV {
        SexprV::Symbol(bend_release_name(*self))
    }

    fn to_sexpr(&self) -> (r: Sexpr) {
        Sexpr::symbol(self.symbol())
    }
}

impl FromSexpr for BendRelease {
    /// A symbol that names a value.
    open spec fn from_sexpr_error(s: SexprV) -> Option<ConvertErrorV> {
        match s {
            SexprV::Symbol(t) => if bend_release_of_name(t) is Some {
                None
            } else {
                Some(type_mismatch_v("bend-release"@, s))
            },
            _ => Some(type_mismatch_v("bend-release"@, s)),
        }
    }

    open spec fn from_sexpr_value(s: SexprV, v: BendRelease) -> bool {
        match s {
            SexprV::Symbol(t) => bend_release_of_name(t) == Some(v),
            _ => false,
        }
    }

    fn from_sexpr(sexpr: &Sexpr) -> (r: Result<BendRelease, ConvertError>) {
        match sexpr.as_symbol() {
            Some(t) => {
                if str_eq(t, "early") {
                    Ok(BendRelease::Early)
                } else if str_eq(t, "late") {
                    Ok(BendRelease::Late)
                } else {
                    Err(ConvertError::type_mismatch("bend-release", sexpr))
                }
            },
            None => Err(ConvertError::type_mismatch("bend-release", sexpr)),
        }
    }
}

// === TapHand ===

/// The symbol of each `TapHand`.
pub open spec fn tap_hand_name(v: TapHand) -> Seq<char> {
    match v {
        TapHand::Left => "left"@,
        TapHand::Right => "right"@,
    }
}

/// The `TapHand` that a symbol names.
pub open spec fn tap_hand_of_name(t: Seq<char>) -> Option<TapHand> {
    if t == "left"@ {
        Some(TapHand::Left)
    } else if t == "right"@ {
        Some(TapHand::Right)
    } else {
        None
    }
}

impl TapHand {
    /// The symbol of the value, as `tap_hand_name` states.
    pub fn symbol(&self) -> (r: &'static str)
        ensures
            r@ == tap_hand_name(*self),
    {
        match self {
            TapHand::Left => "left",
            TapHand::Right => "right",
        }
    }
}

impl ToSexpr for TapHand {
    /// The symbol of the value.
    open spec fn to_sexpr_spec(&self) -> SexprV {
        SexprV::Symbol(tap_hand_name(*self))
    }

    fn to_sexpr(&self) -> (r: Sexpr) {
        Sexpr::symbol(self.symbol())
    }
}

impl FromSexpr for TapHand {
    /// A symbol that names a value.
    open spec fn from_sexpr_error(s: SexprV) -> Option<ConvertErrorV> {
        match s {
            SexprV::Symbol(t) => if tap_hand_of_name(t) is Some {
                None
            } else {
                Some(type_mismatch_v("tap-hand"@, s))
            },
            _ => Some(type_mismatch_v("tap-hand"@, s)),
        }
    }

    open spec fn from_sexpr_value(s: SexprV, v: TapHand) -> bool {
        match s {
            SexprV::Symbol(t) => tap_hand_of_name(t) == Some(v),
            _ => false,
        }
    }

    fn from_sexpr(sexpr: &Sexpr) -> (r: Result<TapHand, ConvertError>) {
        match sexpr.as_symbol() {
            Some(t) => {
                if str_eq(t, "left") {
                    Ok(TapHand::Left)
                } else if str_eq(t, "right") {
                    Ok(TapHand::Right)
                } else {
                    Err(ConvertError::type_mismatch("tap-hand", sexpr))
                }
            },
            None => Err(ConvertError::type_mismatch("tap-hand", sexpr)),
        }
    }
}

// === HoleClosedValue ===

/// The symbol of each `HoleClosedValue`.
pub open spec fn hole_closed_value_name(v: HoleClosedValue) -> Seq<char> {
    match v {
        HoleClosedValue::Yes => "yes"@,
        HoleClosedValue::No => "no"@,
        HoleClosedValue::Half => "half"@,
    }
}

/// The `HoleClosedValue` that a symbol names.
pub open spec fn hole_closed_value_of_name(t: Seq<char>) -> Option<HoleClosedValue> {
    if t == "yes"@ {
        Some(HoleClosedValue::Yes)
    } else if t == "no"@ {
        Some(HoleClosedValue::No)
    } else if t == "half"@ {
        Some(HoleClosedValue::Half)
    } else {
        None
    }
}

impl HoleClosedValue {
    /// The symbol of the value, as `hole_closed_value_name` states.
    pub fn symbol(&self) -> (r: &'static str)
        ensures
            r@ == hole_closed_value_name(*self),
    {
        match self {
            HoleClosedValue::Yes => "yes",
            HoleClosedValue::No => "no",
            HoleClosedValue::Half => "half",
        }
    }
}

impl ToSexpr for HoleClosedValue {
    /// The symbol of the value.
    open spec fn to_sexpr_spec(&self) -> SexprV {
        SexprV::Symbol(hole_closed_value_name(*self))
    }

    fn to_sexpr(&self) -> (r: Sexpr) {
        Sexpr::symbol(self.symbol())
    }
}

impl FromSexpr for HoleClosedValue {
    /// A symbol that names a value.
    open spec fn from_sexpr_error(s: SexprV) -> Option<ConvertErrorV> {
        match s {
            SexprV::Symbol(t) => if hole_closed_value_of_name(t) is Some {
                None
            } else {
                Some(type_mismatch_v("hole-closed-value"@, s))
            },
            _ => Some(type_mismatch_v("hole-closed-value"@, s)),
        }
    }

    open spec fn from_sexpr_value(s: SexprV, v: HoleClosedValue) -> bool {
        match s {
            SexprV::Symbol(t) => hole_closed_value_of_name(t) == Some(v),
            _ => false,
        }
    }

    fn from_sexpr(sexpr: &Sexpr) -> (r: Result<HoleClosedValue, ConvertError>) {
        match sexpr.as_symbol() {
            Some(t) => {
                if str_eq(t, "yes") {
                    Ok(HoleClosedValue::Yes)
                } else if str_eq(t, "no") {
                    Ok(HoleClosedValue::No)
                } else if str_eq(t, "half") {
                    Ok(HoleClosedValue::Half)
                } else {
                    Err(ConvertError::type_mismatch("hole-closed-value", sexpr))
                }
            },
            None => Err(ConvertError::type_mismatch("hole-closed-value", sexpr)),
        }
    }
}

// === HoleClosedLocation ===

/// The symbol of each `HoleClosedLocation`.
pub open spec fn hole_closed_location_name(v: HoleClosedLocation) -> Seq<char> {
    match v {
        HoleClosedLocation::Right => "right"@,
        HoleClosedLocation::Bottom => "bottom"@,
        HoleClosedLocation::Left => "left"@,
        HoleClosedLocation::Top => "top"@,
    }
}

/// The `HoleClosedLocation` that a symbol names.
pub open spec fn hole_closed_location_of_name(t: Seq<char>) -> Option<HoleClosedLocation> {
    if t == "right"@ {
        Some(HoleClosedLocation::Right)
    } else if t == "bottom"@ {
        Some(HoleClosedLocation::Bottom)
    } else if t == "left"@ {
        Some(HoleClosedLocation::Left)
    } else if t == "top"@ {
        Some(HoleClosedLocation::Top)
    } else {
        None
    }
}

impl HoleClosedLocation {
    /// The symbol of the value, as `hole_closed_location_name` states.
    pub fn symbol(&self) -> (r: &'static str)
        ensures
            r@ == hole_closed_location_name(*self),
    {
        match self {
            HoleClosedLocation::Right => "right",
            HoleClosedLocation::Bottom => "bottom",
            HoleClosedLocation::Left => "left",
            HoleClosedLocation::Top => "top",
        }
    }
}

impl ToSexpr for HoleClosedLocation {
    /// The symbol of the value.
    open spec fn to_sexpr_spec(&self) -> SexprV {
        SexprV::Symbol(hole_closed_location_name(*self))
    }

    fn to_sexpr(&self) -> (r: Sexpr) {
        Sexpr::symbol(self.symbol())
    }
}

impl FromSexpr for HoleClosedLocation {
    /// A symbol that names a value.
    open spec fn from_sexpr_error(s: SexprV) -> Option<ConvertErrorV> {
        match s {
            SexprV::Symbol(t) => if hole_closed_location_of_name(t) is Some {
                None
            } else {
                Some(type_mismatch_v("hole-closed-location"@, s))
            },
            _ => Some(type_mismatch_v("hole-closed-location"@, s)),
        }
    }

    open spec fn from_sexpr_value(s: SexprV, v: HoleClosedLocation) -> bool {
        match s {
            SexprV::Symbol(t) => hole_closed_location_of_name(t) == Some(v),
            _ => false,
        }
    }

    fn from_sexpr(sexpr: &Sexpr) -> (r: Result<HoleClosedLocation, ConvertError>) {
        match sexpr.as_symbol() {
            Some(t) => {
                if str_eq(t, "right") {
                    Ok(HoleClosedLocation::Right)
                } else if str_eq(t, "bottom") {
                    Ok(HoleClosedLocation::Bottom)
                } else if str_eq(t, "left") {
                    Ok(HoleClosedLocation::Left)
                } else if str_eq(t, "top") {
                    Ok(HoleClosedLocation::Top)
                } else {
                    Err(ConvertError::type_mismatch("hole-closed-location", sexpr))
                }
            },
            None => Err(ConvertError::type_mismatch("hole-closed-location", sexpr)),
        }
    }
}

// === ArrowDirection ===

/// The symbol of each `ArrowDirection`.
pub open spec fn arrow_direction_name(v: ArrowDirection) -> Seq<char> {
    match v {
        ArrowDirection::Left => "left"@,
        ArrowDirection::Up => "up"@,
        ArrowDirection::Right => "right"@,
        ArrowDirection::Down => "down"@,
        ArrowDirection::Northwest => "northwest"@,
        ArrowDirection::Northeast => "northeast"@,
        ArrowDirection::Southeast => "southeast"@,
        ArrowDirection::Southwest => "southwest"@,
        ArrowDirection::LeftRight => "left-right"@,
        ArrowDirection::UpDown => "up-down"@,
        ArrowDirection::NorthwestSoutheast => "northwest-southeast"@,
        ArrowDirection::NortheastSouthwest => "northeast-southwest"@,
        ArrowDirection::Other => "other"@,
    }
}

/// The `ArrowDirection` that a symbol names.
pub open spec fn arrow_direction_of_name(t: Seq<char>) -> Option<ArrowDirection> {
    if t == "left"@ {
        Some(ArrowDirection::Left)
    } else if t == "up"@ {
        Some(ArrowDirection::Up)
    } else if t == "right"@ {
        Some(ArrowDirection::Right)
    } else if t == "down"@ {
        Some(ArrowDirection::Down)
    } else if t == "northwest"@ {
        Some(ArrowDirection::Northwest)
    } else if t == "northeast"@ {
        Some(ArrowDirection::Northeast)
    } else if t == "southeast"@ {
        Some(ArrowDirection::Southeast)
    } else if t == "southwest"@ {
        Some(ArrowDirection::Southwest)
    } else if t == "left-right"@ {
        Some(ArrowDirection::LeftRight)
    } else if t == "up-down"@ {
        Some(ArrowDirection::UpDown)
    } else if t == "northwest-southeast"@ {
        Some(ArrowDirection::NorthwestSoutheast)
    } else if t == "northeast-southwest"@ {
        Some(ArrowDirection::NortheastSouthwest)
    } else if t == "other"@ {
        Some(ArrowDirection::Other)
    } else {
        None
    }
}

impl ArrowDirection {
    /// The symbol of the value, as `arrow_direction_name` states.
    pub fn symbol(&self) -> (r: &'static str)
        ensures
            r@ == arrow_direction_name(*self),
    {
        match self {
            ArrowDirection::Left => "left",
            ArrowDirection::Up => "up",
            ArrowDirection::Right => "right",
            ArrowDirection::Down => "down",
            ArrowDirection::Northwest => "northwest",
            ArrowDirection::Northeast => "northeast",
            ArrowDirection::Southeast => "southeast",
            ArrowDirection::Southwest => "southwest",
            ArrowDirection::LeftRight => "left-right",
            ArrowDirection::UpDown => "up-down",
            ArrowDirection::NorthwestSoutheast => "northwest-southeast",
            ArrowDirection::NortheastSouthwest => "northeast-southwest",
            ArrowDirection::Other => "other",
        }
    }
}

impl ToSexpr for ArrowDirection {
    /// The symbol of the value.
    open spec fn to_sexpr_spec(&self) -> SexprV {
        SexprV::Symbol(arrow_direction_name(*self))
    }

    fn to_sexpr(&self) -> (r: Sexpr) {
        Sexpr::symbol(self.symbol())
    }
}

impl FromSexpr for ArrowDirection {
    /// A symbol that names a value.
    open spec fn from_sexpr_error(s: SexprV) -> Option<ConvertErrorV> {
        match s {
            SexprV::Symbol(t) => if arrow_direction_of_name(t) is Some {
                None
            } else {
                Some(type_mismatch_v("arrow-direction"@, s))
            },
            _ => Some(type_mismatch_v("arrow-direction"@, s)),
        }
    }

    open spec fn from_sexpr_value(s: SexprV, v: ArrowDirection) -> bool {
        match s {
            SexprV::Symbol(t) => arrow_direction_of_name(t) == Some(v),
            _ => false,
        }
    }

    fn from_sexpr(sexpr: &Sexpr) -> (r: Result<ArrowDirection, ConvertError>) {
        match sexpr.as_symbol() {
            Some(t) => {
                if str_eq(t, "left") {
                    Ok(ArrowDirection::Left)
                } else if str_eq(t, "up") {
                    Ok(ArrowDirection::Up)
                } else if str_eq(t, "right") {
                    Ok(ArrowDirection::Right)
                } else if str_eq(t, "down") {
                    Ok(ArrowDirection::Down)
                } else if str_eq(t, "northwest") {
                    Ok(ArrowDirection::Northwest)
                } else if str_eq(t, "northeast") {
                    Ok(ArrowDirection::Northeast)
                } else if str_eq(t, "southeast") {
                    Ok(ArrowDirection::Southeast)
                } else if str_eq(t, "southwest") {
                    Ok(ArrowDirection::Southwest)
                } else if str_eq(t, "left-right") {
                    Ok(ArrowDirection::LeftRight)
                } else if str_eq(t, "up-down") {
                    Ok(ArrowDirection::UpDown)
                } else if str_eq(t, "northwest-southeast") {
                    Ok(ArrowDirection::NorthwestSoutheast)
                } else if str_eq(t, "northeast-southwest") {
                    Ok(ArrowDirection::NortheastSouthwest)
                } else if str_eq(t, "other") {
                    Ok(ArrowDirection::Other)
                } else {
                    Err(ConvertError::type_mismatch("arrow-direction", sexpr))
                }
            },
            None => Err(ConvertError::type_mismatch("arrow-direction", sexpr)),
        }
    }
}

// === ArrowStyle ===

/// The symbol of each `ArrowStyle`.
pub open spec fn arrow_style_name(v: ArrowStyle) -> Seq<char> {
    match v {
        ArrowStyle::Single => "single"@,
        ArrowStyle::Double => "double"@,
        ArrowStyle::Filled => "filled"@,
        ArrowStyle::Hollow => "hollow"@,
        ArrowStyle::Paired => "paired"@,
        ArrowStyle::Combined => "combined"@,
        ArrowStyle::Other => "other"@,
    }
}

/// The `ArrowStyle` that a symbol names.
pub open spec fn arrow_style_of_name(t: Seq<char>) -> Option<ArrowStyle> {
    if t == "single"@ {
        Some(ArrowStyle::Single)
    } else if t == "double"@ {
        Some(ArrowStyle::Double)
    } else if t == "filled"@ {
        Some(ArrowStyle::Filled)
    } else if t == "hollow"@ {
        Some(ArrowStyle::Hollow)
    } else if t == "paired"@ {
        Some(ArrowStyle::Paired)
    } else if t == "combined"@ {
        Some(ArrowStyle::Combined)
    } else if t == "other"@ {
        Some(ArrowStyle::Other)
    } else {
        None
    }
}

impl ArrowStyle {
    /// The symbol of the value, as `arrow_style_name` states.
    pub fn symbol(&self) -> (r: &'static str)
        ensures
            r@ == arrow_style_name(*self),
    {
        match self {
            ArrowStyle::Single => "single",
            ArrowStyle::Double => "double",
            ArrowStyle::Filled => "filled",
            ArrowStyle::Hollow => "hollow",
            ArrowStyle::Paired => "paired",
            ArrowStyle::Combined => "combined",
            ArrowStyle::Other => "other",
        }
    }
}

impl ToSexpr for ArrowStyle {
    /// The symbol of the value.
    open spec fn to_sexpr_spec(&self) -> SexprV {
        SexprV::Symbol(arrow_style_name(*self))
    }

    fn to_sexpr(&self) -> (r: Sexpr) {
        Sexpr::symbol(self.symbol())
    }
}

impl FromSexpr for ArrowStyle {
    /// A symbol that names a value.
    open spec fn from_sexpr_error(s: SexprV) -> Option<ConvertErrorV> {
        match s {
            SexprV::Symbol(t) => if arrow_style_of_name(t) is Some {
                None
            } else {
                Some(type_mismatch_v("arrow-style"@, s))
            },
            _ => Some(type_mismatch_v("arrow-style"@, s)),
        }
    }

    open spec fn from_sexpr_value(s: SexprV, v: ArrowStyle) -> bool {
        match s {
            SexprV::Symbol(t) => arrow_style_of_name(t) == Some(v),
            _ => false,
        }
    }

    fn from_sexpr(sexpr: &Sexpr) -> (r: Result<ArrowStyle, ConvertError>) {
        match sexpr.as_symbol() {
            Some(t) => {
                if str_eq(t, "single") {
                    Ok(ArrowStyle::Single)
                } else if str_eq(t, "double") {
                    Ok(ArrowStyle::Double)
                } else if str_eq(t, "filled") {
                    Ok(ArrowStyle::Filled)
                } else if str_eq(t, "hollow") {
                    Ok(ArrowStyle::Hollow)
                } else if str_eq(t, "paired") {
                    Ok(ArrowStyle::Paired)
                } else if str_eq(t, "combined") {
                    Ok(ArrowStyle::Combined)
                } else if str_eq(t, "other") {
                    Ok(ArrowStyle::Other)
                } else {
                    Err(ConvertError::type_mismatch("arrow-style", sexpr))
                }
            },
            None => Err(ConvertError::type_mismatch("arrow-style", sexpr)),
        }
    }
}

// === HandbellValue ===

/// The symbol of each `HandbellValue`.
pub open spec fn handbell_value_name(v: HandbellValue) -> Seq<char> {
    match v {
        HandbellValue::Belltree => "belltree"@,
        HandbellValue::Damp => "damp"@,
        HandbellValue::Echo => "echo"@,
        HandbellValue::Gyro => "gyro"@,
        HandbellValue::HandMartellato => "hand-martellato"@,
        HandbellValue::MalletLift => "mallet-lift"@,
        HandbellValue::MalletTable => "mallet-table"@,
        HandbellValue::Martellato => "martellato"@,
        HandbellValue::MartellatoLift => "martellato-lift"@,
        HandbellValue::MutedMartellato => "muted-martellato"@,
        HandbellValue::PluckLift => "pluck-lift"@,
        HandbellValue::Swing => "swing"@,
    }
}

/// The `HandbellValue` that a symbol names.
pub open spec fn handbell_value_of_name(t: Seq<char>) -> Option<HandbellValue> {
    if t == "belltree"@ {
        Some(HandbellValue::Belltree)
    } else if t == "damp"@ {
        Some(HandbellValue::Damp)
    } else if t == "echo"@ {
        Some(HandbellValue::Echo)
    } else if t == "gyro"@ {
        Some(HandbellValue::Gyro)
    } else if t == "hand-martellato"@ {
        Some(HandbellValue::HandMartellato)
    } else if t == "mallet-lift"@ {
        Some(HandbellValue::MalletLift)
    } else if t == "mallet-table"@ {
        Some(HandbellValue::MalletTable)
    } else if t == "martellato"@ {
        Some(HandbellValue::Martellato)
    } else if t == "martellato-lift"@ {
        Some(HandbellValue::MartellatoLift)
    } else if t == "muted-martellato"@ {
        Some(HandbellValue::MutedMartellato)
    } else if t == "pluck-lift"@ {
        Some(HandbellValue::PluckLift)
    } else if t == "swing"@ {
        Some(HandbellValue::Swing)
    } else {
        None
    }
}

impl HandbellValue {
    /// The symbol of the value, as `handbell_value_name` states.
    pub fn symbol(&self) -> (r: &'static str)
        ensures
            r@ == handbell_value_name(*self),
    {
        match self {
            HandbellValue::Belltree => "belltree",
            HandbellValue::Damp => "damp",
            HandbellValue::Echo => "echo",
            HandbellValue::Gyro => "gyro",
            HandbellValue::HandMartellato => "hand-martellato",
            HandbellValue::MalletLift => "mallet-lift",
            HandbellValue::MalletTable => "mallet-table",
            HandbellValue::Martellato => "martellato",
            HandbellValue::MartellatoLift => "martellato-lift",
            HandbellValue::MutedMartellato => "muted-martellato",
            HandbellValue::PluckLift => "pluck-lift",
            HandbellValue::Swing => "swing",
        }
    }
}

impl ToSexpr for HandbellValue {
    /// The symbol of the value.
    open spec fn to_sexpr_spec(&self) -> SexprV {
        SexprV::Symbol(handbell_value_name(*self))
    }

    fn to_sexpr(&self) -> (r: Sexpr) {
        Sexpr::symbol(self.symbol())
    }
}

impl FromSexpr for HandbellValue {
    /// A symbol that names a value.
    open spec fn from_sexpr_error(s: SexprV) -> Option<ConvertErrorV> {
        match s {
            SexprV::Symbol(t) => if handbell_value_of_name(t) is Some {
                None
            } else {
                Some(type_mismatch_v("handbell-value"@, s))
            },
            _ => Some(type_mismatch_v("handbell-value"@, s)),
        }
    }

    open spec fn from_sexpr_value(s: SexprV, v: HandbellValue) -> bool {
        match s {
            SexprV::Symbol(t) => handbell_value_of_name(t) == Some(v),
            _ => false,
        }
    }

    fn from_sexpr(sexpr: &Sexpr) -> (r: Result<HandbellValue, ConvertError>) {
        match sexpr.as_symbol() {
            Some(t) => {
                if str_eq(t, "belltree") {
                    Ok(HandbellValue::Belltree)
                } else if str_eq(t, "damp") {
                    Ok(HandbellValue::Damp)
                } else if str_eq(t, "echo") {
                    Ok(HandbellValue::Echo)
                } else if str_eq(t, "gyro") {
                    Ok(HandbellValue::Gyro)
                } else if str_eq(t, "hand-martellato") {
                    Ok(HandbellValue::HandMartellato)
                } else if str_eq(t, "mallet-lift") {
                    Ok(HandbellValue::MalletLift)
                } else if str_eq(t, "mallet-table") {
                    Ok(HandbellValue::MalletTable)
                } else if str_eq(t, "martellato") {
                    Ok(HandbellValue::Martellato)
                } else if str_eq(t, "martellato-lift") {
                    Ok(HandbellValue::MartellatoLift)
                } else if str_eq(t, "muted-martellato") {
                    Ok(HandbellValue::MutedMartellato)
                } else if str_eq(t, "pluck-lift") {
                    Ok(HandbellValue::PluckLift)
                } else if str_eq(t, "swing") {
                    Ok(HandbellValue::Swing)
                } else {
                    Err(ConvertError::type_mismatch("handbell-value", sexpr))
                }
            },
            None => Err(ConvertError::type_mismatch("handbell-value", sexpr)),
        }
    }
}

// === FermataShape ===

/// The symbol of each `FermataShape`.
pub open spec fn fermata_shape_name(v: FermataShape) -> Seq<char> {
    match v {
        FermataShape::Normal => "normal"@,
        FermataShape::Angled => "angled"@,
        FermataShape::Square => "square"@,
        FermataShape::DoubleAngled => "double-angled"@,
        FermataShape::DoubleSquare => "double-square"@,
        FermataShape::DoubleDot => "double-dot"@,
        FermataShape::HalfCurve => "half-curve"@,
        FermataShape::Curlew => "curlew"@,
    }
}

/// The `FermataShape` that a symbol names.
pub open spec fn fermata_shape_of_name(t: Seq<char>) -> Option<FermataShape> {
    if t == "normal"@ {
        Some(FermataShape::Normal)
    } else if t == "angled"@ {
        Some(FermataShape::Angled)
    } else if t == "square"@ {
        Some(FermataShape::Square)
    } else if t == "double-angled"@ {
        Some(FermataShape::DoubleAngled)
    } else if t == "double-square"@ {
        Some(FermataShape::DoubleSquare)
    } else if t == "double-dot"@ {
        Some(FermataShape::DoubleDot)
    } else if t == "half-curve"@ {
        Some(FermataShape::HalfCurve)
    } else if t == "curlew"@ {
        Some(FermataShape::Curlew)
    } else {
        None
    }
}

impl FermataShape {
    /// The symbol of the value, as `fermata_shape_name` states.
    pub fn symbol(&self) -> (r: &'static str)
        ensures
            r@ == fermata_shape_name(*self),
    {
        match self {
            FermataShape::Normal => "normal",
            FermataShape::Angled => "angled",
            FermataShape::Square => "square",
            FermataShape::DoubleAngled => "double-angled",
            FermataShape::DoubleSquare => "double-square",
            FermataShape::DoubleDot => "double-dot",
            FermataShape::HalfCurve => "half-curve",
            FermataShape::Curlew => "curlew",
        }
    }
}

impl ToSexpr for FermataShape {
    /// The symbol of the value.
    open spec fn to_sexpr_spec(&self) -> SexprV {
        SexprV::Symbol(fermata_shape_name(*self))
    }

    fn to_sexpr(&self) -> (r: Sexpr) {
        Sexpr::symbol(self.symbol())
    }
}

impl FromSexpr for FermataShape {
    /// A symbol that names a value.
    open spec fn from_sexpr_error(s: SexprV) -> Option<ConvertErrorV> {
        match s {
            SexprV::Symbol(t) => if fermata_shape_of_name(t) is Some {
                None
            } else {
                Some(type_mismatch_v("fermata-shape"@, s))
            },
            _ => Some(type_mismatch_v("fermata-shape"@, s)),
        }
    }

    open spec fn from_sexpr_value(s: SexprV, v: FermataShape) -> bool {
        match s {
            SexprV::Symbol(t) => fermata_shape_of_name(t) == Some(v),
            _ => false,
        }
    }

    fn from_sexpr(sexpr: &Sexpr) -> (r: Result<FermataShape, ConvertError>) {
        match sexpr.as_symbol() {
            Some(t) => {
                if str_eq(t, "normal") {
                    Ok(FermataShape::Normal)
                } else if str_eq(t, "angled") {
                    Ok(FermataShape::Angled)
                } else if str_eq(t, "square") {
                    Ok(FermataShape::Square)
                } else if str_eq(t, "double-angled") {
                    Ok(FermataShape::DoubleAngled)
                } else if str_eq(t, "double-square") {
                    Ok(FermataShape::DoubleSquare)
                } else if str_eq(t, "double-dot") {
                    Ok(FermataShape::DoubleDot)
                } else if str_eq(t, "half-curve") {
                    Ok(FermataShape::HalfCurve)
                } else if str_eq(t, "curlew") {
                    Ok(FermataShape::Curlew)
                } else {
                    Err(ConvertError::type_mismatch("fermata-shape", sexpr))
                }
            },
            None => Err(ConvertError::type_mismatch("fermata-shape", sexpr)),
        }
    }
}

// === UprightInverted ===

/// The symbol of each `UprightInverted`.
pub open spec fn upright_inverted_name(v: UprightInverted) -> Seq<char> {
    match v {
        UprightInverted::Upright => "upright"@,
        UprightInverted::Inverted => "inverted"@,
    }
}

/// The `UprightInverted` that a symbol names.
pub open spec fn upright_inverted_of_name(t: Seq<char>) -> Option<UprightInverted> {
    if t == "upright"@ {
        Some(UprightInverted::Upright)
    } else if t == "inverted"@ {
        Some(UprightInverted::Inverted)
    } else {
        None
    }
}

impl UprightInverted {
    /// The symbol of the value, as `upright_inverted_name` states.
    pub fn symbol(&self) -> (r: &'static str)
        ensures
            r@ == upright_inverted_name(*self),
    {
        match self {
            UprightInverted::Upright => "upright",
            UprightInverted::Inverted => "inverted",
        }
    }
}

impl ToSexpr for UprightInverted {
    /// The symbol of the value.
    open spec fn to_sexpr_spec(&self) -> SexprV {
        SexprV::Symbol(upright_inverted_name(*self))
    }

    fn to_sexpr(&self) -> (r: Sexpr) {
        Sexpr::symbol(self.symbol())
    }
}

impl FromSexpr for UprightInverted {
    /// A symbol that names a value.
    open spec fn from_sexpr_error(s: SexprV) -> Option<ConvertErrorV> {
        match s {
            SexprV::Symbol(t) => if upright_inverted_of_name(t) is Some {
                None
            } else {
                Some(type_mismatch_v("upright-inverted"@, s))
            },
            _ => Some(type_mismatch_v("upright-inverted"@, s)),
        }
    }

    open spec fn from_sexpr_value(s: SexprV, v: UprightInverted) -> bool {
        match s {
            SexprV::Symbol(t) => upright_inverted_of_name(t) == Some(v),
            _ => false,
        }
    }

    fn from_sexpr(sexpr: &Sexpr) -> (r: Result<UprightInverted, ConvertError>) {
        match sexpr.as_symbol() {
            Some(t) => {
                if str_eq(t, "upright") {
                    Ok(UprightInverted::Upright)
                } else if str_eq(t, "inverted") {
                    Ok(UprightInverted::Inverted)
                } else {
                    Err(ConvertError::type_mismatch("upright-inverted", sexpr))
                }
            },
            None => Err(ConvertError::type_mismatch("upright-inverted", sexpr)),
        }
    }
}

// === Tied ===

impl ToSexpr for Tied {
    /// `(tied ...)` with the keyword arguments that the value has.
    open spec fn to_sexpr_spec(&self) -> SexprV {
        SexprV::List(seq![SexprV::Symbol("tied"@)] + kw_pair("type"@, self.type_.to_sexpr_spec()) + kw_opt("number"@, self.number) + kw_opt("line-type"@, self.line_type) + kw_opt("placement"@, self.placement) + kw_opt("orientation"@, self.orientation) + kw_opt("color"@, self.color) + kw_if(self.position.is_set(), "position"@, self.position.to_sexpr_spec()))
    }

    fn to_sexpr(&self) -> (r: Sexpr) {
        ListBuilder::new("tied").kwarg("type", &self.type_).kwarg_opt("number", &self.number).kwarg_opt("line-type", &self.line_type).kwarg_opt("placement", &self.placement).kwarg_opt("orientation", &self.orientation).kwarg_opt("color", &self.color).kwarg_when(self.position.has_any(), "position", &self.position).build()
    }
}

impl FromSexpr for Tied {
    /// A list headed `tied` whose keyword arguments convert.
    open spec fn from_sexpr_error(s: SexprV) -> Option<ConvertErrorV> {
        match s {
            SexprV::List(items) => either(head_error(items, "tied"@), either(obj_kwarg_error::<Position>(items, "position"@), either(kwarg_error::<StartStopContinue>(items, "type"@), either(opt_kwarg_error::<u8>(items, "number"@), either(opt_kwarg_error::<LineType>(items, "line-type"@), either(opt_kwarg_error::<AboveBelow>(items, "placement"@), either(opt_kwarg_error::<OverUnder>(items, "orientation"@), opt_kwarg_error::<String>(items, "color"@)))))))),
            _ => Some(type_mismatch_v("tied list"@, s)),
        }
    }

    open spec fn from_sexpr_value(s: SexprV, v: Tied) -> bool {
        match s {
            SexprV::List(items) => obj_kwarg_value::<Position>(items, "position"@, v.position, position_none())
                && kwarg_value::<StartStopContinue>(items, "type"@, v.type_)
                && opt_kwarg_value::<u8>(items, "number"@, v.number)
                && opt_kwarg_value::<LineType>(items, "line-type"@, v.line_type)
                && opt_kwarg_value::<AboveBelow>(items, "placement"@, v.placement)
                && opt_kwarg_value::<OverUnder>(items, "orientation"@, v.orientation)
                && opt_kwarg_value::<String>(items, "color"@, v.color),
            _ => false,
        }
    }

    fn from_sexpr(sexpr: &Sexpr) -> (r: Result<Tied, ConvertError>) {
        let list = match sexpr.as_list() {
            Some(l) => l,
            None => return Err(ConvertError::type_mismatch("tied list", sexpr)),
        };
        expect_head(list, "tied")?;
        let position: Position = object_kwarg(list, "position", Position::empty())?;
        let type_: StartStopContinue = require_kwarg(list, "type")?;
        let number: Option<u8> = optional_kwarg(list, "number")?;
        let line_type: Option<LineType> = optional_kwarg(list, "line-type")?;
        let placement: Option<AboveBelow> = optional_kwarg(list, "placement")?;
        let orientation: Option<OverUnder> = optional_kwarg(list, "orientation")?;
        let color: Option<String> = optional_kwarg(list, "color")?;
        Ok(Tied { type_, number, line_type, position, placement, orientation, color })
    }
}

// === Slur ===

impl ToSexpr for Slur {
    /// `(slur ...)` with the keyword arguments that the value has.
    open spec fn to_sexpr_spec(&self) -> SexprV {
        SexprV::List(seq![SexprV::Symbol("slur"@)] + kw_pair("type"@, self.type_.to_sexpr_spec()) + kw_pair("number"@, self.number.to_sexpr_spec()) + kw_opt("line-type"@, self.line_type) + kw_opt("placement"@, self.placement) + kw_opt("orientation"@, self.orientation) + kw_opt("color"@, self.color) + kw_if(self.position.is_set(), "position"@, self.position.to_sexpr_spec()))
    }

    fn to_sexpr(&self) -> (r: Sexpr) {
        ListBuilder::new("slur").kwarg("type", &self.type_).kwarg("number", &self.number).kwarg_opt("line-type", &self.line_type).kwarg_opt("placement", &self.placement).kwarg_opt("orientation", &self.orientation).kwarg_opt("color", &self.color).kwarg_when(self.position.has_any(), "position", &self.position).build()
    }
}

impl FromSexpr for Slur {
    /// A list headed `slur` whose keyword arguments convert.
    open spec fn from_sexpr_error(s: SexprV) -> Option<ConvertErrorV> {
        match s {
            SexprV::List(items) => either(head_error(items, "slur"@), either(obj_kwarg_error::<Position>(items, "position"@), either(kwarg_error::<StartStopContinue>(items, "type"@), either(kwarg_error::<u8>(items, "number"@), either(opt_kwarg_error::<LineType>(items, "line-type"@), either(opt_kwarg_error::<AboveBelow>(items, "placement"@), either(opt_kwarg_error::<OverUnder>(items, "orientation"@), opt_kwarg_error::<String>(items, "color"@)))))))),
            _ => Some(type_mismatch_v("slur list"@, s)),
        }
    }

    open spec fn from_sexpr_value(s: SexprV, v: Slur) -> bool {
        match s {
            SexprV::List(items) => obj_kwarg_value::<Position>(items, "position"@, v.position, position_none())
                && kwarg_value::<StartStopContinue>(items, "type"@, v.type_)
                && kwarg_value::<u8>(items, "number"@, v.number)
                && opt_kwarg_value::<LineType>(items, "line-type"@, v.line_type)
                && opt_kwarg_value::<AboveBelow>(items, "placement"@, v.placement)
                && opt_kwarg_value::<OverUnder>(items, "orientation"@, v.orientation)
                && opt_kwarg_value::<String>(items, "color"@, v.color),
            _ => false,
        }
    }

    fn from_sexpr(sexpr: &Sexpr) -> (r: Result<Slur, ConvertError>) {
        let list = match sexpr.as_list() {
            Some(l) => l,
            None => return Err(ConvertError::type_mismatch("slur list", sexpr)),
        };
        expect_head(list, "slur")?;
        let position: Position = object_kwarg(list, "position", Position::empty())?;
        let type_: StartStopContinue = require_kwarg(list, "type")?;
        let number: u8 = require_kwarg(list, "number")?;
        let line_type: Option<LineType> = optional_kwarg(list, "line-type")?;
        let placement: Option<AboveBelow> = optional_kwarg(list, "placement")?;
        let orientation: Option<OverUnder> = optional_kwarg(list, "orientation")?;
        let color: Option<String> = optional_kwarg(list, "color")?;
        Ok(Slur { type_, number, line_type, position, placement, orientation, color })
    }
}

// === Glissando ===

impl ToSexpr for Glissando {
    /// `(glissando ...)` with the keyword arguments that the value has.
    open spec fn to_sexpr_spec(&self) -> SexprV {
        SexprV::List(seq![SexprV::Symbol("glissando"@)] + kw_pair("type"@, self.type_.to_sexpr_spec()) + kw_opt("number"@, self.number) + kw_opt("text"@, self.text) + kw_opt("line-type"@, self.line_type) + kw_if(self.position.is_set(), "position"@, self.position.to_sexpr_spec()))
    }

    fn to_sexpr(&self) -> (r: Sexpr) {
        ListBuilder::new("glissando").kwarg("type", &self.type_).kwarg_opt("number", &self.number).kwarg_opt("text", &self.text).kwarg_opt("line-type", &self.line_type).kwarg_when(self.position.has_any(), "position", &self.position).build()
    }
}

impl FromSexpr for Glissando {
    /// A list headed `glissando` whose keyword arguments convert.
    open spec fn from_sexpr_error(s: SexprV) -> Option<ConvertErrorV> {
        match s {
            SexprV::List(items) => either(head_error(items, "glissando"@), either(obj_kwarg_error::<Position>(items, "position"@), either(kwarg_error::<StartStop>(items, "type"@), either(opt_kwarg_error::<u8>(items, "number"@), either(opt_kwarg_error::<String>(items, "text"@), opt_kwarg_error::<LineType>(items, "line-type"@)))))),
            _ => Some(type_mismatch_v("glissando list"@, s)),
        }
    }

    open spec fn from_sexpr_value(s: SexprV, v: Glissando) -> bool {
        match s {
            SexprV::List(items) => obj_kwarg_value::<Position>(items, "position"@, v.position, position_none())
                && kwarg_value::<StartStop>(items, "type"@, v.type_)
                && opt_kwarg_value::<u8>(items, "number"@, v.number)
                && opt_kwarg_value::<String>(items, "text"@, v.text)
                && opt_kwarg_value::<LineType>(items, "line-type"@, v.line_type),
            _ => false,
        }
    }

    fn from_sexpr(sexpr: &Sexpr) -> (r: Result<Glissando, ConvertError>) {
        let list = match sexpr.as_list() {
            Some(l) => l,
            None => return Err(ConvertError::type_mismatch("glissando list", sexpr)),
        };
        expect_head(list, "glissando")?;
        let position: Position = object_kwarg(list, "position", Position::empty())?;
        let type_: StartStop = require_kwarg(list, "type")?;
        let number: Option<u8> = optional_kwarg(list, "number")?;
        let text: Option<String> = optional_kwarg(list, "text")?;
        let line_type: Option<LineType> = optional_kwarg(list, "line-type")?;
        Ok(Glissando { type_, number, text, line_type, position })
    }
}

// === Slide ===

impl ToSexpr for Slide {
    /// `(slide ...)` with the keyword arguments that the value has.
    open spec fn to_sexpr_spec(&self) -> SexprV {
        SexprV::List(seq![SexprV::Symbol("slide"@)] + kw_pair("type"@, self.type_.to_sexpr_spec()) + kw_opt("number"@, self.number) + kw_opt("text"@, self.text) + kw_opt("line-type"@, self.line_type) + kw_if(self.position.is_set(), "position"@, self.position.to_sexpr_spec()))
    }

    fn to_sexpr(&self) -> (r: Sexpr) {
        ListBuilder::new("slide").kwarg("type", &self.type_).kwarg_opt("number", &self.number).kwarg_opt("text", &self.text).kwarg_opt("line-type", &self.line_type).kwarg_when(self.position.has_any(), "position", &self.position).build()
    }
}

impl FromSexpr for Slide {
    /// A list headed `slide` whose keyword arguments convert.
    open spec fn from_sexpr_error(s: SexprV) -> Option<ConvertErrorV> {
        match s {
            SexprV::List(items) => either(head_error(items, "slide"@), either(obj_kwarg_error::<Position>(items, "position"@), either(kwarg_error::<StartStop>(items, "type"@), either(opt_kwarg_error::<u8>(items, "number"@), either(opt_kwarg_error::<String>(items, "text"@), opt_kwarg_error::<LineType>(items, "line-type"@)))))),
            _ => Some(type_mismatch_v("slide list"@, s)),
        }
    }

    open spec fn from_sexpr_value(s: SexprV, v: Slide) -> bool {
        match s {
            SexprV::List(items) => obj_kwarg_value::<Position>(items, "position"@, v.position, position_none())
                && kwarg_value::<StartStop>(items, "type"@, v.type_)
                && opt_kwarg_value::<u8>(items, "number"@, v.number)
                && opt_kwarg_value::<String>(items, "text"@, v.text)
                && opt_kwarg_value::<LineType>(items, "line-type"@, v.line_type),
            _ => false,
        }
    }

    fn from_sexpr(sexpr: &Sexpr) -> (r: Result<Slide, ConvertError>) {
        let list = match sexpr.as_list() {
            Some(l) => l,
            None => return Err(ConvertError::type_mismatch("slide list", sexpr)),
        };
        expect_head(list, "slide")?;
        let position: Position = object_kwarg(list, "position", Position::empty())?;
        let type_: StartStop = require_kwarg(list, "type")?;
        let number: Option<u8> = optional_kwarg(list, "number")?;
        let text: Option<String> = optional_kwarg(list, "text")?;
        let line_type: Option<LineType> = optional_kwarg(list, "line-type")?;
        Ok(Slide { type_, number, text, line_type, position })
    }
}

// === TupletNumber ===

impl ToSexpr for TupletNumber {
    /// `(tuplet-number ...)` with the keyword arguments that the value has.
    open spec fn to_sexpr_spec(&self) -> SexprV {
        SexprV::List(seq![SexprV::Symbol("tuplet-number"@)] + kw_pair("value"@, self.value.to_sexpr_spec()) + kw_if(self.font.is_set(), "font"@, self.font.to_sexpr_spec()) + kw_opt("color"@, self.color))
    }

    fn to_sexpr(&self) -> (r: Sexpr) {
        ListBuilder::new("tuplet-number").kwarg("value", &self.value).kwarg_when(self.font.has_any(), "font", &self.font).kwarg_opt("color", &self.color).build()
    }
}

impl FromSexpr for TupletNumber {
    /// A list headed `tuplet-number` whose keyword arguments convert.
    open spec fn from_sexpr_error(s: SexprV) -> Option<ConvertErrorV> {
        match s {
            SexprV::List(items) => either(head_error(items, "tuplet-number"@), either(obj_kwarg_error::<Font>(items, "font"@), either(kwarg_error::<u32>(items, "value"@), opt_kwarg_error::<String>(items, "color"@)))),
            _ => Some(type_mismatch_v("tuplet-number list"@, s)),
        }
    }

    open spec fn from_sexpr_value(s: SexprV, v: TupletNumber) -> bool {
        match s {
            SexprV::List(items) => obj_kwarg_value::<Font>(items, "font"@, v.font, font_none())
                && kwarg_value::<u32>(items, "value"@, v.value)
                && opt_kwarg_value::<String>(items, "color"@, v.color),
            _ => false,
        }
    }

    fn from_sexpr(sexpr: &Sexpr) -> (r: Result<TupletNumber, ConvertError>) {
        let list = match sexpr.as_list() {
            Some(l) => l,
            None => return Err(ConvertError::type_mismatch("tuplet-number list", sexpr)),
        };
        expect_head(list, "tuplet-number")?;
        let font: Font = object_kwarg(list, "font", Font::empty())?;
        let value: u32 = require_kwarg(list, "value")?;
        let color: Option<String> = optional_kwarg(list, "color")?;
        Ok(TupletNumber { value, font, color })
    }
}

// === TupletType ===

impl ToSexpr for TupletType {
    /// `(tuplet-type ...)` with the keyword arguments that the value has.
    open spec fn to_sexpr_spec(&self) -> SexprV {
        SexprV::List(seq![SexprV::Symbol("tuplet-type"@)] + kw_pair("value"@, self.value.to_sexpr_spec()) + kw_if(self.font.is_set(), "font"@, self.font.to_sexpr_spec()) + kw_opt("color"@, self.color))
    }

    fn to_sexpr(&self) -> (r: Sexpr) {
        ListBuilder::new("tuplet-type").kwarg("value", &self.value).kwarg_when(self.font.has_any(), "font", &self.font).kwarg_opt("color", &self.color).build()
    }
}

impl FromSexpr for TupletType {
    /// A list headed `tuplet-type` whose keyword arguments convert.
    open spec fn from_sexpr_error(s: SexprV) -> Option<ConvertErrorV> {
        match s {
            SexprV::List(items) => either(head_error(items, "tuplet-type"@), either(obj_kwarg_error::<Font>(items, "font"@), either(kwarg_error::<NoteTypeValue>(items, "value"@), opt_kwarg_error::<String>(items, "color"@)))),
            _ => Some(type_mismatch_v("tuplet-type list"@, s)),
        }
    }

    open spec fn from_sexpr_value(s: SexprV, v: TupletType) -> bool {
        match s {
            SexprV::List(items) => obj_kwarg_value::<Font>(items, "font"@, v.font, font_none())
                && kwarg_value::<NoteTypeValue>(items, "value"@, v.value)
                && opt_kwarg_value::<String>(items, "color"@, v.color),
            _ => false,
        }
    }

    fn from_sexpr(sexpr: &Sexpr) -> (r: Result<TupletType, ConvertError>) {
        let list = match sexpr.as_list() {
            Some(l) => l,
            None => return Err(ConvertError::type_mismatch("tuplet-type list", sexpr)),
        };
        expect_head(list, "tuplet-type")?;
        let font: Font = object_kwarg(list, "font", Font::empty())?;
        let value: NoteTypeValue = require_kwarg(list, "value")?;
        let color: Option<String> = optional_kwarg(list, "color")?;
        Ok(TupletType { value, font, color })
    }
}

// === TupletDot ===

impl ToSexpr for TupletDot {
    /// `(tuplet-dot ...)` with the keyword arguments that the value has.
    open spec fn to_sexpr_spec(&self) -> SexprV {
        SexprV::List(seq![SexprV::Symbol("tuplet-dot"@)] + kw_if(self.font.is_set(), "font"@, self.font.to_sexpr_spec()) + kw_opt("color"@, self.color))
    }

    fn to_sexpr(&self) -> (r: Sexpr) {
        ListBuilder::new("tuplet-dot").kwarg_when(self.font.has_any(), "font", &self.font).kwarg_opt("color", &self.color).build()
    }
}

impl FromSexpr for TupletDot {
    /// A list headed `tuplet-dot` whose keyword arguments convert.
    open spec fn from_sexpr_error(s: SexprV) -> Option<ConvertErrorV> {
        match s {
            SexprV::List(items) => either(head_error(items, "tuplet-dot"@), either(obj_kwarg_error::<Font>(items, "font"@), opt_kwarg_error::<String>(items, "color"@))),
            _ => Some(type_mismatch_v("tuplet-dot list"@, s)),
        }
    }

    open spec fn from_sexpr_value(s: SexprV, v: TupletDot) -> bool {
        match s {
            SexprV::List(items) => obj_kwarg_value::<Font>(items, "font"@, v.font, font_none())
                && opt_kwarg_value::<String>(items, "color"@, v.color),
            _ => false,
        }
    }

    fn from_sexpr(sexpr: &Sexpr) -> (r: Result<TupletDot, ConvertError>) {
        let list = match sexpr.as_list() {
            Some(l) => l,
            None => return Err(ConvertError::type_mismatch("tuplet-dot list", sexpr)),
        };
        expect_head(list, "tuplet-dot")?;
        let font: Font = object_kwarg(list, "font", Font::empty())?;
        let color: Option<String> = optional_kwarg(list, "color")?;
        Ok(TupletDot { font, color })
    }
}

// === TupletPortion ===

impl ToSexpr for TupletPortion {
    /// `(tuplet-portion ...)` with the keyword arguments that the value has.
    open spec fn to_sexpr_spec(&self) -> SexprV {
        SexprV::List(seq![SexprV::Symbol("tuplet-portion"@)] + kw_opt("number"@, self.tuplet_number) + kw_opt("type"@, self.tuplet_type) + kw_if(self.tuplet_dots@.len() > 0, "dots"@, self.tuplet_dots.to_sexpr_spec()))
    }

    fn to_sexpr(&self) -> (r: Sexpr) {
        ListBuilder::new("tuplet-portion").kwarg_opt("number", &self.tuplet_number).kwarg_opt("type", &self.tuplet_type).kwarg_when(self.tuplet_dots.len() > 0, "dots", &self.tuplet_dots).build()
    }
}

impl FromSexpr for TupletPortion {
    /// A list headed `tuplet-portion` whose keyword arguments convert.
    open spec fn from_sexpr_error(s: SexprV) -> Option<ConvertErrorV> {
        match s {
            SexprV::List(items) => either(head_error(items, "tuplet-portion"@), either(opt_kwarg_error::<TupletNumber>(items, "number"@), either(opt_kwarg_error::<TupletType>(items, "type"@), opt_kwarg_error::<Vec<TupletDot>>(items, "dots"@)))),
            _ => Some(type_mismatch_v("tuplet-portion list"@, s)),
        }
    }

    open spec fn from_sexpr_value(s: SexprV, v: TupletPortion) -> bool {
        match s {
            SexprV::List(items) => opt_kwarg_value::<TupletNumber>(items, "number"@, v.tuplet_number)
                && opt_kwarg_value::<TupletType>(items, "type"@, v.tuplet_type)
                && list_kwarg_value::<TupletDot>(items, "dots"@, v.tuplet_dots),
            _ => false,
        }
    }

    fn from_sexpr(sexpr: &Sexpr) -> (r: Result<TupletPortion, ConvertError>) {
        let list = match sexpr.as_list() {
            Some(l) => l,
            None => return Err(ConvertError::type_mismatch("tuplet-portion list", sexpr)),
        };
        expect_head(list, "tuplet-portion")?;
        let tuplet_number: Option<TupletNumber> = optional_kwarg(list, "number")?;
        let tuplet_type: Option<TupletType> = optional_kwarg(list, "type")?;
        let tuplet_dots: Vec<TupletDot> = list_kwarg(list, "dots")?;
        Ok(TupletPortion { tuplet_number, tuplet_type, tuplet_dots })
    }
}

// === Tuplet ===

impl ToSexpr for Tuplet {
    /// `(tuplet ...)` with the keyword arguments that the value has.
    open spec fn to_sexpr_spec(&self) -> SexprV {
        SexprV::List(seq![SexprV::Symbol("tuplet"@)] + kw_pair("type"@, self.type_.to_sexpr_spec()) + kw_opt("number"@, self.number) + kw_opt("bracket"@, self.bracket) + kw_opt("show-number"@, self.show_number) + kw_opt("show-type"@, self.show_type) + kw_opt("line-shape"@, self.line_shape) + kw_opt("placement"@, self.placement) + kw_if(self.position.is_set(), "position"@, self.position.to_sexpr_spec()) + kw_opt("actual"@, self.tuplet_actual) + kw_opt("normal"@, self.tuplet_normal))
    }

    fn to_sexpr(&self) -> (r: Sexpr) {
        ListBuilder::new("tuplet").kwarg("type", &self.type_).kwarg_opt("number", &self.number).kwarg_opt("bracket", &self.bracket).kwarg_opt("show-number", &self.show_number).kwarg_opt("show-type", &self.show_type).kwarg_opt("line-shape", &self.line_shape).kwarg_opt("placement", &self.placement).kwarg_when(self.position.has_any(), "position", &self.position).kwarg_opt("actual", &self.tuplet_actual).kwarg_opt("normal", &self.tuplet_normal).build()
    }
}

impl FromSexpr for Tuplet {
    /// A list headed `tuplet` whose keyword arguments convert.
    open spec fn from_sexpr_error(s: SexprV) -> Option<ConvertErrorV> {
        match s {
            SexprV::List(items) => either(head_error(items, "tuplet"@), either(obj_kwarg_error::<Position>(items, "position"@), either(kwarg_error::<StartStop>(items, "type"@), either(opt_kwarg_error::<u8>(items, "number"@), either(opt_kwarg_error::<YesNo>(items, "bracket"@), either(opt_kwarg_error::<ShowTuplet>(items, "show-number"@), either(opt_kwarg_error::<ShowTuplet>(items, "show-type"@), either(opt_kwarg_error::<LineShape>(items, "line-shape"@), either(opt_kwarg_error::<AboveBelow>(items, "placement"@), either(opt_kwarg_error::<TupletPortion>(items, "actual"@), opt_kwarg_error::<TupletPortion>(items, "normal"@))))))))))),
            _ => Some(type_mismatch_v("tuplet list"@, s)),
        }
    }

    open spec fn from_sexpr_value(s: SexprV, v: Tuplet) -> bool {
        match s {
            SexprV::List(items) => obj_kwarg_value::<Position>(items, "position"@, v.position, position_none())
                && kwarg_value::<StartStop>(items, "type"@, v.type_)
                && opt_kwarg_value::<u8>(items, "number"@, v.number)
                && opt_kwarg_value::<YesNo>(items, "bracket"@, v.bracket)
                && opt_kwarg_value::<ShowTuplet>(items, "show-number"@, v.show_number)
                && opt_kwarg_value::<ShowTuplet>(items, "show-type"@, v.show_type)
                && opt_kwarg_value::<LineShape>(items, "line-shape"@, v.line_shape)
                && opt_kwarg_value::<AboveBelow>(items, "placement"@, v.placement)
                && opt_kwarg_value::<TupletPortion>(items, "actual"@, v.tuplet_actual)
                && opt_kwarg_value::<TupletPortion>(items, "normal"@, v.tuplet_normal),
            _ => false,
        }
    }

    fn from_sexpr(sexpr: &Sexpr) -> (r: Result<Tuplet, ConvertError>) {
        let list = match sexpr.as_list() {
            Some(l) => l,
            None => return Err(ConvertError::type_mismatch("tuplet list", sexpr)),
        };
        expect_head(list, "tuplet")?;
        let position: Position = object_kwarg(list, "position", Position::empty())?;
        let type_: StartStop = require_kwarg(list, "type")?;
        let number: Option<u8> = optional_kwarg(list, "number")?;
        let bracket: Option<YesNo> = optional_kwarg(list, "bracket")?;
        let show_number: Option<ShowTuplet> = optional_kwarg(list, "show-number")?;
        let show_type: Option<ShowTuplet> = optional_kwarg(list, "show-type")?;
        let line_shape: Option<LineShape> = optional_kwarg(list, "line-shape")?;
        let placement: Option<AboveBelow> = optional_kwarg(list, "placement")?;
        let tuplet_actual: Option<TupletPortion> = optional_kwarg(list, "actual")?;
        let tuplet_normal: Option<TupletPortion> = optional_kwarg(list, "normal")?;
        Ok(Tuplet { type_, number, bracket, show_number, show_type, line_shape, position, placement, tuplet_actual, tuplet_normal })
    }
}

// === Arpeggiate ===

impl ToSexpr for Arpeggiate {
    /// `(arpeggiate ...)` with the keyword arguments that the value has.
    open spec fn to_sexpr_spec(&self) -> SexprV {
        SexprV::List(seq![SexprV::Symbol("arpeggiate"@)] + kw_opt("number"@, self.number) + kw_opt("direction"@, self.direction) + kw_opt("color"@, self.color) + kw_if(self.position.is_set(), "position"@, self.position.to_sexpr_spec()))
    }

    fn to_sexpr(&self) -> (r: Sexpr) {
        ListBuilder::new("arpeggiate").kwarg_opt("number", &self.number).kwarg_opt("direction", &self.direction).kwarg_opt("color", &self.color).kwarg_when(self.position.has_any(), "position", &self.position).build()
    }
}

impl FromSexpr for Arpeggiate {
    /// A list headed `arpeggiate` whose keyword arguments convert.
    open spec fn from_sexpr_error(s: SexprV) -> Option<ConvertErrorV> {
        match s {
            SexprV::List(items) => either(head_error(items, "arpeggiate"@), either(obj_kwarg_error::<Position>(items, "position"@), either(opt_kwarg_error::<u8>(items, "number"@), either(opt_kwarg_error::<UpDown>(items, "direction"@), opt_kwarg_error::<String>(items, "color"@))))),
            _ => Some(type_mismatch_v("arpeggiate list"@, s)),
        }
    }

    open spec fn from_sexpr_value(s: SexprV, v: Arpeggiate) -> bool {
        match s {
            SexprV::List(items) => obj_kwarg_value::<Position>(items, "position"@, v.position, position_none())
                && opt_kwarg_value::<u8>(items, "number"@, v.number)
                && opt_kwarg_value::<UpDown>(items, "direction"@, v.direction)
                && opt_kwarg_value::<String>(items, "color"@, v.color),
            _ => false,
        }
    }

    fn from_sexpr(sexpr: &Sexpr) -> (r: Result<Arpeggiate, ConvertError>) {
        let list = match sexpr.as_list() {
            Some(l) => l,
            None => return Err(ConvertError::type_mismatch("arpeggiate list", sexpr)),
        };
        expect_head(list, "arpeggiate")?;
        let position: Position = object_kwarg(list, "position", Position::empty())?;
        let number: Option<u8> = optional_kwarg(list, "number")?;
        let direction: Option<UpDown> = optional_kwarg(list, "direction")?;
        let color: Option<String> = optional_kwarg(list, "color")?;
        Ok(Arpeggiate { number, direction, position, color })
    }
}

// === NonArpeggiate ===

impl ToSexpr for NonArpeggiate {
    /// `(non-arpeggiate ...)` with the keyword arguments that the value has.
    open spec fn to_sexpr_spec(&self) -> SexprV {
        SexprV::List(seq![SexprV::Symbol("non-arpeggiate"@)] + kw_pair("type"@, self.type_.to_sexpr_spec()) + kw_opt("number"@, self.number) + kw_opt("color"@, self.color) + kw_if(self.position.is_set(), "position"@, self.position.to_sexpr_spec()))
    }

    fn to_sexpr(&self) -> (r: Sexpr) {
        ListBuilder::new("non-arpeggiate").kwarg("type", &self.type_).kwarg_opt("number", &self.number).kwarg_opt("color", &self.color).kwarg_when(self.position.has_any(), "position", &self.position).build()
    }
}

impl FromSexpr for NonArpeggiate {
    /// A list headed `non-arpeggiate` whose keyword arguments convert.
    open spec fn from_sexpr_error(s: SexprV) -> Option<ConvertErrorV> {
        match s {
            SexprV::List(items) => either(head_error(items, "non-arpeggiate"@), either(obj_kwarg_error::<Position>(items, "position"@), either(kwarg_error::<TopBottom>(items, "type"@), either(opt_kwarg_error::<u8>(items, "number"@), opt_kwarg_error::<String>(items, "color"@))))),
            _ => Some(type_mismatch_v("non-arpeggiate list"@, s)),
        }
    }

    open spec fn from_sexpr_value(s: SexprV, v: NonArpeggiate) -> bool {
        match s {
            SexprV::List(items) => obj_kwarg_value::<Position>(items, "position"@, v.position, position_none())
                && kwarg_value::<TopBottom>(items, "type"@, v.type_)
                && opt_kwarg_value::<u8>(items, "number"@, v.number)
                && opt_kwarg_value::<String>(items, "color"@, v.color),
            _ => false,
        }
    }

    fn from_sexpr(sexpr: &Sexpr) -> (r: Result<NonArpeggiate, ConvertError>) {
        let list = match sexpr.as_list() {
            Some(l) => l,
            None => return Err(ConvertError::type_mismatch("non-arpeggiate list", sexpr)),
        };
        expect_head(list, "non-arpeggiate")?;
        let position: Position = object_kwarg(list, "position", Position::empty())?;
        let type_: TopBottom = require_kwarg(list, "type")?;
        let number: Option<u8> = optional_kwarg(list, "number")?;
        let color: Option<String> = optional_kwarg(list, "color")?;
        Ok(NonArpeggiate { type_, number, position, color })
    }
}

// === AccidentalMark ===

impl ToSexpr for AccidentalMark {
    /// `(accidental-mark ...)` with the keyword arguments that the value has.
    open spec fn to_sexpr_spec(&self) -> SexprV {
        SexprV::List(seq![SexprV::Symbol("accidental-mark"@)] + kw_pair("value"@, self.value.to_sexpr_spec()) + kw_opt("placement"@, self.placement) + kw_if(self.print_style.position.is_set(), "position"@, self.print_style.position.to_sexpr_spec()) + kw_opt("color"@, self.print_style.color))
    }

    fn to_sexpr(&self) -> (r: Sexpr) {
        ListBuilder::new("accidental-mark").kwarg("value", &self.value).kwarg_opt("placement", &self.placement).kwarg_when(self.print_style.position.has_any(), "position", &self.print_style.position).kwarg_opt("color", &self.print_style.color).build()
    }
}

impl FromSexpr for AccidentalMark {
    /// A list headed `accidental-mark` whose keyword arguments convert.
    open spec fn from_sexpr_error(s: SexprV) -> Option<ConvertErrorV> {
        match s {
            SexprV::List(items) => either(head_error(items, "accidental-mark"@), either(obj_kwarg_error::<Position>(items, "position"@), either(opt_kwarg_error::<String>(items, "color"@), either(kwarg_error::<AccidentalValue>(items, "value"@), opt_kwarg_error::<AboveBelow>(items, "placement"@))))),
            _ => Some(type_mismatch_v("accidental-mark list"@, s)),
        }
    }

    open spec fn from_sexpr_value(s: SexprV, v: AccidentalMark) -> bool {
        match s {
            SexprV::List(items) => obj_kwarg_value::<Position>(items, "position"@, v.print_style.position, position_none())
                && opt_kwarg_value::<String>(items, "color"@, v.print_style.color)
                && kwarg_value::<AccidentalValue>(items, "value"@, v.value)
                && opt_kwarg_value::<AboveBelow>(items, "placement"@, v.placement)
                && v.print_style.font == font_none(),
            _ => false,
        }
    }

    fn from_sexpr(sexpr: &Sexpr) -> (r: Result<AccidentalMark, ConvertError>) {
        let list = match sexpr.as_list() {
            Some(l) => l,
            None => return Err(ConvertError::type_mismatch("accidental-mark list", sexpr)),
        };
        expect_head(list, "accidental-mark")?;
        let position: Position = object_kwarg(list, "position", Position::empty())?;
        let color: Option<String> = optional_kwarg(list, "color")?;
        let value: AccidentalValue = require_kwarg(list, "value")?;
        let placement: Option<AboveBelow> = optional_kwarg(list, "placement")?;
        Ok(AccidentalMark { value, placement, print_style: PrintStyle { position, font: Font::empty(), color } })
    }
}

// === OtherNotation ===

impl ToSexpr for OtherNotation {
    /// `(other-notation ...)` with the keyword arguments that the value has.
    open spec fn to_sexpr_spec(&self) -> SexprV {
        SexprV::List(seq![SexprV::Symbol("other-notation"@)] + kw_pair("value"@, self.value.to_sexpr_spec()) + kw_pair("type"@, self.type_.to_sexpr_spec()) + kw_opt("number"@, self.number) + kw_opt("print-object"@, self.print_object) + kw_opt("placement"@, self.placement) + kw_if(self.print_style.position.is_set(), "position"@, self.print_style.position.to_sexpr_spec()) + kw_opt("color"@, self.print_style.color))
    }

    fn to_sexpr(&self) -> (r: Sexpr) {
        ListBuilder::new("other-notation").kwarg("value", &self.value).kwarg("type", &self.type_).kwarg_opt("number", &self.number).kwarg_opt("print-object", &self.print_object).kwarg_opt("placement", &self.placement).kwarg_when(self.print_style.position.has_any(), "position", &self.print_style.position).kwarg_opt("color", &self.print_style.color).build()
    }
}

impl FromSexpr for OtherNotation {
    /// A list headed `other-notation` whose keyword arguments convert.
    open spec fn from_sexpr_error(s: SexprV) -> Option<ConvertErrorV> {
        match s {
            SexprV::List(items) => either(head_error(items, "other-notation"@), either(obj_kwarg_error::<Position>(items, "position"@), either(opt_kwarg_error::<String>(items, "color"@), either(kwarg_error::<String>(items, "value"@), either(kwarg_error::<StartStopSingle>(items, "type"@), either(opt_kwarg_error::<u8>(items, "number"@), either(opt_kwarg_error::<YesNo>(items, "print-object"@), opt_kwarg_error::<AboveBelow>(items, "placement"@)))))))),
            _ => Some(type_mismatch_v("other-notation list"@, s)),
        }
    }

    open spec fn from_sexpr_value(s: SexprV, v: OtherNotation) -> bool {
        match s {
            SexprV::List(items) => obj_kwarg_value::<Position>(items, "position"@, v.print_style.position, position_none())
                && opt_kwarg_value::<String>(items, "color"@, v.print_style.color)
                && kwarg_value::<String>(items, "value"@, v.value)
                && kwarg_value::<StartStopSingle>(items, "type"@, v.type_)
                && opt_kwarg_value::<u8>(items, "number"@, v.number)
                && opt_kwarg_value::<YesNo>(items, "print-object"@, v.print_object)
                && opt_kwarg_value::<AboveBelow>(items, "placement"@, v.placement)
                && v.print_style.font == font_none(),
            _ => false,
        }
    }

    fn from_sexpr(sexpr: &Sexpr) -> (r: Result<OtherNotation, ConvertError>) {
        let list = match sexpr.as_list() {
            Some(l) => l,
            None => return Err(ConvertError::type_mismatch("other-notation list", sexpr)),
        };
        expect_head(list, "other-notation")?;
        let position: Position = object_kwarg(list, "position", Position::empty())?;
        let color: Option<String> = optional_kwarg(list, "color")?;
        let value: String = require_kwarg(list, "value")?;
        let type_: StartStopSingle = require_kwarg(list, "type")?;
        let number: Option<u8> = optional_kwarg(list, "number")?;
        let print_object: Option<YesNo> = optional_kwarg(list, "print-object")?;
        let placement: Option<AboveBelow> = optional_kwarg(list, "placement")?;
        Ok(OtherNotation { value, type_, number, print_object, print_style: PrintStyle { position, font: Font::empty(), color }, placement })
    }
}

// === StrongAccent ===

impl ToSexpr for StrongAccent {
    /// `(strong-accent ...)` with the keyword arguments that the value has.
    open spec fn to_sexpr_spec(&self) -> SexprV {
        SexprV::List(seq![SexprV::Symbol("strong-accent"@)] + kw_opt("type"@, self.type_) + kw_opt("placement"@, self.placement) + kw_if(self.position.is_set(), "position"@, self.position.to_sexpr_spec()))
    }

    fn to_sexpr(&self) -> (r: Sexpr) {
        ListBuilder::new("strong-accent").kwarg_opt("type", &self.type_).kwarg_opt("placement", &self.placement).kwarg_when(self.position.has_any(), "position", &self.position).build()
    }
}

impl FromSexpr for StrongAccent {
    /// A list headed `strong-accent` whose keyword arguments convert.
    open spec fn from_sexpr_error(s: SexprV) -> Option<ConvertErrorV> {
        match s {
            SexprV::List(items) => either(head_error(items, "strong-accent"@), either(obj_kwarg_error::<Position>(items, "position"@), either(opt_kwarg_error::<UpDown>(items, "type"@), opt_kwarg_error::<AboveBelow>(items, "placement"@)))),
            _ => Some(type_mismatch_v("strong-accent list"@, s)),
        }
    }

    open spec fn from_sexpr_value(s: SexprV, v: StrongAccent) -> bool {
        match s {
            SexprV::List(items) => obj_kwarg_value::<Position>(items, "position"@, v.position, position_none())
                && opt_kwarg_value::<UpDown>(items, "type"@, v.type_)
                && opt_kwarg_value::<AboveBelow>(items, "placement"@, v.placement),
            _ => false,
        }
    }

    fn from_sexpr(sexpr: &Sexpr) -> (r: Result<StrongAccent, ConvertError>) {
        let list = match sexpr.as_list() {
            Some(l) => l,
            None => return Err(ConvertError::type_mismatch("strong-accent list", sexpr)),
        };
        expect_head(list, "strong-accent")?;
        let position: Position = object_kwarg(list, "position", Position::empty())?;
        let type_: Option<UpDown> = optional_kwarg(list, "type")?;
        let placement: Option<AboveBelow> = optional_kwarg(list, "placement")?;
        Ok(StrongAccent { type_, placement, position })
    }
}

// === EmptyLine ===

impl ToSexpr for EmptyLine {
    /// `(empty-line ...)` with the keyword arguments that the value has.
    open spec fn to_sexpr_spec(&self) -> SexprV {
        SexprV::List(seq![SexprV::Symbol("empty-line"@)] + kw_opt("line-shape"@, self.line_shape) + kw_opt("line-type"@, self.line_type) + kw_opt("line-length"@, self.line_length) + kw_opt("placement"@, self.placement) + kw_if(self.position.is_set(), "position"@, self.position.to_sexpr_spec()))
    }

    fn to_sexpr(&self) -> (r: Sexpr) {
        ListBuilder::new("empty-line").kwarg_opt("line-shape", &self.line_shape).kwarg_opt("line-type", &self.line_type).kwarg_opt("line-length", &self.line_length).kwarg_opt("placement", &self.placement).kwarg_when(self.position.has_any(), "position", &self.position).build()
    }
}

impl FromSexpr for EmptyLine {
    /// A list headed `empty-line` whose keyword arguments convert.
    open spec fn from_sexpr_error(s: SexprV) -> Option<ConvertErrorV> {
        match s {
            SexprV::List(items) => either(head_error(items, "empty-line"@), either(obj_kwarg_error::<Position>(items, "position"@), either(opt_kwarg_error::<LineShape>(items, "line-shape"@), either(opt_kwarg_error::<LineType>(items, "line-type"@), either(opt_kwarg_error::<LineLength>(items, "line-length"@), opt_kwarg_error::<AboveBelow>(items, "placement"@)))))),
            _ => Some(type_mismatch_v("empty-line list"@, s)),
        }
    }

    open spec fn from_sexpr_value(s: SexprV, v: EmptyLine) -> bool {
        match s {
            SexprV::List(items) => obj_kwarg_value::<Position>(items, "position"@, v.position, position_none())
                && opt_kwarg_value::<LineShape>(items, "line-shape"@, v.line_shape)
                && opt_kwarg_value::<LineType>(items, "line-type"@, v.line_type)
                && opt_kwarg_value::<LineLength>(items, "line-length"@, v.line_length)
                && opt_kwarg_value::<AboveBelow>(items, "placement"@, v.placement),
            _ => false,
        }
    }

    fn from_sexpr(sexpr: &Sexpr) -> (r: Result<EmptyLine, ConvertError>) {
        let list = match sexpr.as_list() {
            Some(l) => l,
            None => return Err(ConvertError::type_mismatch("empty-line list", sexpr)),
        };
        expect_head(list, "empty-line")?;
        let position: Position = object_kwarg(list, "position", Position::empty())?;
        let line_shape: Option<LineShape> = optional_kwarg(list, "line-shape")?;
        let line_type: Option<LineType> = optional_kwarg(list, "line-type")?;
        let line_length: Option<LineLength> = optional_kwarg(list, "line-length")?;
        let placement: Option<AboveBelow> = optional_kwarg(list, "placement")?;
        Ok(EmptyLine { line_shape, line_type, line_length, placement, position })
    }
}

// === BreathMark ===

impl ToSexpr for BreathMark {
    /// `(breath-mark ...)` with the keyword arguments that the value has.
    open spec fn to_sexpr_spec(&self) -> SexprV {
        SexprV::List(seq![SexprV::Symbol("breath-mark"@)] + kw_pair("value"@, self.value.to_sexpr_spec()) + kw_opt("placement"@, self.placement) + kw_if(self.position.is_set(), "position"@, self.position.to_sexpr_spec()))
    }

    fn to_sexpr(&self) -> (r: Sexpr) {
        ListBuilder::new("breath-mark").kwarg("value", &self.value).kwarg_opt("placement", &self.placement).kwarg_when(self.position.has_any(), "position", &self.position).build()
    }
}

impl FromSexpr for BreathMark {
    /// A list headed `breath-mark` whose keyword arguments convert.
    open spec fn from_sexpr_error(s: SexprV) -> Option<ConvertErrorV> {
        match s {
            SexprV::List(items) => either(head_error(items, "breath-mark"@), either(obj_kwarg_error::<Position>(items, "position"@), either(kwarg_error::<BreathMarkValue>(items, "value"@), opt_kwarg_error::<AboveBelow>(items, "placement"@)))),
            _ => Some(type_mismatch_v("breath-mark list"@, s)),
        }
    }

    open spec fn from_sexpr_value(s: SexprV, v: BreathMark) -> bool {
        match s {
            SexprV::List(items) => obj_kwarg_value::<Position>(items, "position"@, v.position, position_none())
                && kwarg_value::<BreathMarkValue>(items, "value"@, v.value)
                && opt_kwarg_value::<AboveBelow>(items, "placement"@, v.placement),
            _ => false,
        }
    }

    fn from_sexpr(sexpr: &Sexpr) -> (r: Result<BreathMark, ConvertError>) {
        let list = match sexpr.as_list() {
            Some(l) => l,
            None => return Err(ConvertError::type_mismatch("breath-mark list", sexpr)),
        };
        expect_head(list, "breath-mark")?;
        let position: Position = object_kwarg(list, "position", Position::empty())?;
        let value: BreathMarkValue = require_kwarg(list, "value")?;
        let placement: Option<AboveBelow> = optional_kwarg(list, "placement")?;
        Ok(BreathMark { value, placement, position })
    }
}

// === Caesura ===

impl ToSexpr for Caesura {
    /// `(caesura ...)` with the keyword arguments that the value has.
    open spec fn to_sexpr_spec(&self) -> SexprV {
        SexprV::List(seq![SexprV::Symbol("caesura"@)] + kw_pair("value"@, self.value.to_sexpr_spec()) + kw_opt("placement"@, self.placement) + kw_if(self.position.is_set(), "position"@, self.position.to_sexpr_spec()))
    }

    fn to_sexpr(&self) -> (r: Sexpr) {
        ListBuilder::new("caesura").kwarg("value", &self.value).kwarg_opt("placement", &self.placement).kwarg_when(self.position.has_any(), "position", &self.position).build()
    }
}

impl FromSexpr for Caesura {
    /// A list headed `caesura` whose keyword arguments convert.
    open spec fn from_sexpr_error(s: SexprV) -> Option<ConvertErrorV> {
        match s {
            SexprV::List(items) => either(head_error(items, "caesura"@), either(obj_kwarg_error::<Position>(items, "position"@), either(kwarg_error::<CaesuraValue>(items, "value"@), opt_kwarg_error::<AboveBelow>(items, "placement"@)))),
            _ => Some(type_mismatch_v("caesura list"@, s)),
        }
    }

    open spec fn from_sexpr_value(s: SexprV, v: Caesura) -> bool {
        match s {
            SexprV::List(items) => obj_kwarg_value::<Position>(items, "position"@, v.position, position_none())
                && kwarg_value::<CaesuraValue>(items, "value"@, v.value)
                && opt_kwarg_value::<AboveBelow>(items, "placement"@, v.placement),
            _ => false,
        }
    }

    fn from_sexpr(sexpr: &Sexpr) -> (r: Result<Caesura, ConvertError>) {
        let list = match sexpr.as_list() {
            Some(l) => l,
            None => return Err(ConvertError::type_mismatch("caesura list", sexpr)),
        };
        expect_head(list, "caesura")?;
        let position: Position = object_kwarg(list, "position", Position::empty())?;
        let value: CaesuraValue = require_kwarg(list, "value")?;
        let placement: Option<AboveBelow> = optional_kwarg(list, "placement")?;
        Ok(Caesura { value, placement, position })
    }
}

// === OtherArticulation ===

impl ToSexpr for OtherArticulation {
    /// `(other-articulation ...)` with the keyword arguments that the value has.
    open spec fn to_sexpr_spec(&self) -> SexprV {
        SexprV::List(seq![SexprV::Symbol("other-articulation"@)] + kw_pair("value"@, self.value.to_sexpr_spec()) + kw_opt("placement"@, self.placement) + kw_if(self.print_style.position.is_set(), "position"@, self.print_style.position.to_sexpr_spec()) + kw_opt("color"@, self.print_style.color))
    }

    fn to_sexpr(&self) -> (r: Sexpr) {
        ListBuilder::new("other-articulation").kwarg("value", &self.value).kwarg_opt("placement", &self.placement).kwarg_when(self.print_style.position.has_any(), "position", &self.print_style.position).kwarg_opt("color", &self.print_style.color).build()
    }
}

impl FromSexpr for OtherArticulation {
    /// A list headed `other-articulation` whose keyword arguments convert.
    open spec fn from_sexpr_error(s: SexprV) -> Option<ConvertErrorV> {
        match s {
            SexprV::List(items) => either(head_error(items, "other-articulation"@), either(obj_kwarg_error::<Position>(items, "position"@), either(opt_kwarg_error::<String>(items, "color"@), either(kwarg_error::<String>(items, "value"@), opt_kwarg_error::<AboveBelow>(items, "placement"@))))),
            _ => Some(type_mismatch_v("other-articulation list"@, s)),
        }
    }

    open spec fn from_sexpr_value(s: SexprV, v: OtherArticulation) -> bool {
        match s {
            SexprV::List(items) => obj_kwarg_value::<Position>(items, "position"@, v.print_style.position, position_none())
                && opt_kwarg_value::<String>(items, "color"@, v.print_style.color)
                && kwarg_value::<String>(items, "value"@, v.value)
                && opt_kwarg_value::<AboveBelow>(items, "placement"@, v.placement)
                && v.print_style.font == font_none(),
            _ => false,
        }
    }

    fn from_sexpr(sexpr: &Sexpr) -> (r: Result<OtherArticulation, ConvertError>) {
        let list = match sexpr.as_list() {
            Some(l) => l,
            None => return Err(ConvertError::type_mismatch("other-articulation list", sexpr)),
        };
        expect_head(list, "other-articulation")?;
        let position: Position = object_kwarg(list, "position", Position::empty())?;
        let color: Option<String> = optional_kwarg(list, "color")?;
        let value: String = require_kwarg(list, "value")?;
        let placement: Option<AboveBelow> = optional_kwarg(list, "placement")?;
        Ok(OtherArticulation { value, placement, print_style: PrintStyle { position, font: Font::empty(), color } })
    }
}

// === EmptyTrillSound ===

impl ToSexpr for EmptyTrillSound {
    /// `(empty-trill-sound ...)` with the keyword arguments that the value has.
    open spec fn to_sexpr_spec(&self) -> SexprV {
        SexprV::List(seq![SexprV::Symbol("empty-trill-sound"@)] + kw_opt("placement"@, self.placement) + kw_opt("start-note"@, self.start_note) + kw_opt("trill-step"@, self.trill_step) + kw_opt("two-note-turn"@, self.two_note_turn) + kw_opt("accelerate"@, self.accelerate) + kw_opt("beats"@, self.beats) + kw_opt("second-beat"@, self.second_beat) + kw_opt("last-beat"@, self.last_beat) + kw_if(self.position.is_set(), "position"@, self.position.to_sexpr_spec()))
    }

    fn to_sexpr(&self) -> (r: Sexpr) {
        ListBuilder::new("empty-trill-sound").kwarg_opt("placement", &self.placement).kwarg_opt("start-note", &self.start_note).kwarg_opt("trill-step", &self.trill_step).kwarg_opt("two-note-turn", &self.two_note_turn).kwarg_opt("accelerate", &self.accelerate).kwarg_opt("beats", &self.beats).kwarg_opt("second-beat", &self.second_beat).kwarg_opt("last-beat", &self.last_beat).kwarg_when(self.position.has_any(), "position", &self.position).build()
    }
}

impl FromSexpr for EmptyTrillSound {
    /// A list headed `empty-trill-sound` whose keyword arguments convert.
    open spec fn from_sexpr_error(s: SexprV) -> Option<ConvertErrorV> {
        match s {
            SexprV::List(items) => either(head_error(items, "empty-trill-sound"@), either(obj_kwarg_error::<Position>(items, "position"@), either(opt_kwarg_error::<AboveBelow>(items, "placement"@), either(opt_kwarg_error::<StartNote>(items, "start-note"@), either(opt_kwarg_error::<TrillStep>(items, "trill-step"@), either(opt_kwarg_error::<TwoNoteTurn>(items, "two-note-turn"@), either(opt_kwarg_error::<YesNo>(items, "accelerate"@), either(opt_kwarg_error::<Decimal>(items, "beats"@), either(opt_kwarg_error::<Decimal>(items, "second-beat"@), opt_kwarg_error::<Decimal>(items, "last-beat"@)))))))))),
            _ => Some(type_mismatch_v("empty-trill-sound list"@, s)),
        }
    }

    open spec fn from_sexpr_value(s: SexprV, v: EmptyTrillSound) -> bool {
        match s {
            SexprV::List(items) => obj_kwarg_value::<Position>(items, "position"@, v.position, position_none())
                && opt_kwarg_value::<AboveBelow>(items, "placement"@, v.placement)
                && opt_kwarg_value::<StartNote>(items, "start-note"@, v.start_note)
                && opt_kwarg_value::<TrillStep>(items, "trill-step"@, v.trill_step)
                && opt_kwarg_value::<TwoNoteTurn>(items, "two-note-turn"@, v.two_note_turn)
                && opt_kwarg_value::<YesNo>(items, "accelerate"@, v.accelerate)
                && opt_kwarg_value::<Decimal>(items, "beats"@, v.beats)
                && opt_kwarg_value::<Decimal>(items, "second-beat"@, v.second_beat)
                && opt_kwarg_value::<Decimal>(items, "last-beat"@, v.last_beat),
            _ => false,
        }
    }

    fn from_sexpr(sexpr: &Sexpr) -> (r: Result<EmptyTrillSound, ConvertError>) {
        let list = match sexpr.as_list() {
            Some(l) => l,
            None => return Err(ConvertError::type_mismatch("empty-trill-sound list", sexpr)),
        };
        expect_head(list, "empty-trill-sound")?;
        let position: Position = object_kwarg(list, "position", Position::empty())?;
        let placement: Option<AboveBelow> = optional_kwarg(list, "placement")?;
        let start_note: Option<StartNote> = optional_kwarg(list, "start-note")?;
        let trill_step: Option<TrillStep> = optional_kwarg(list, "trill-step")?;
        let two_note_turn: Option<TwoNoteTurn> = optional_kwarg(list, "two-note-turn")?;
        let accelerate: Option<YesNo> = optional_kwarg(list, "accelerate")?;
        let beats: Option<Decimal> = optional_kwarg(list, "beats")?;
        let second_beat: Option<Decimal> = optional_kwarg(list, "second-beat")?;
        let last_beat: Option<Decimal> = optional_kwarg(list, "last-beat")?;
        Ok(EmptyTrillSound { placement, position, start_note, trill_step, two_note_turn, accelerate, beats, second_beat, last_beat })
    }
}

// === Turn ===

impl ToSexpr for Turn {
    /// `(turn ...)` with the keyword arguments that the value has.
    open spec fn to_sexpr_spec(&self) -> SexprV {
        SexprV::List(seq![SexprV::Symbol("turn"@)] + kw_opt("slash"@, self.slash) + kw_opt("placement"@, self.placement) + kw_opt("start-note"@, self.start_note) + kw_opt("trill-step"@, self.trill_step) + kw_opt("two-note-turn"@, self.two_note_turn) + kw_opt("accelerate"@, self.accelerate) + kw_opt("beats"@, self.beats) + kw_opt("second-beat"@, self.second_beat) + kw_opt("last-beat"@, self.last_beat) + kw_if(self.position.is_set(), "position"@, self.position.to_sexpr_spec()))
    }

    fn to_sexpr(&self) -> (r: Sexpr) {
        ListBuilder::new("turn").kwarg_opt("slash", &self.slash).kwarg_opt("placement", &self.placement).kwarg_opt("start-note", &self.start_note).kwarg_opt("trill-step", &self.trill_step).kwarg_opt("two-note-turn", &self.two_note_turn).kwarg_opt("accelerate", &self.accelerate).kwarg_opt("beats", &self.beats).kwarg_opt("second-beat", &self.second_beat).kwarg_opt("last-beat", &self.last_beat).kwarg_when(self.position.has_any(), "position", &self.position).build()
    }
}

impl FromSexpr for Turn {
    /// A list headed `turn` whose keyword arguments convert.
    open spec fn from_sexpr_error(s: SexprV) -> Option<ConvertErrorV> {
        match s {
            SexprV::List(items) => either(head_error(items, "turn"@), either(obj_kwarg_error::<Position>(items, "position"@), either(opt_kwarg_error::<YesNo>(items, "slash"@), either(opt_kwarg_error::<AboveBelow>(items, "placement"@), either(opt_kwarg_error::<StartNote>(items, "start-note"@), either(opt_kwarg_error::<TrillStep>(items, "trill-step"@), either(opt_kwarg_error::<TwoNoteTurn>(items, "two-note-turn"@), either(opt_kwarg_error::<YesNo>(items, "accelerate"@), either(opt_kwarg_error::<Decimal>(items, "beats"@), either(opt_kwarg_error::<Decimal>(items, "second-beat"@), opt_kwarg_error::<Decimal>(items, "last-beat"@))))))))))),
            _ => Some(type_mismatch_v("turn list"@, s)),
        }
    }

    open spec fn from_sexpr_value(s: SexprV, v: Turn) -> bool {
        match s {
            SexprV::List(items) => obj_kwarg_value::<Position>(items, "position"@, v.position, position_none())
                && opt_kwarg_value::<YesNo>(items, "slash"@, v.slash)
                && opt_kwarg_value::<AboveBelow>(items, "placement"@, v.placement)
                && opt_kwarg_value::<StartNote>(items, "start-note"@, v.start_note)
                && opt_kwarg_value::<TrillStep>(items, "trill-step"@, v.trill_step)
                && opt_kwarg_value::<TwoNoteTurn>(items, "two-note-turn"@, v.two_note_turn)
                && opt_kwarg_value::<YesNo>(items, "accelerate"@, v.accelerate)
                && opt_kwarg_value::<Decimal>(items, "beats"@, v.beats)
                && opt_kwarg_value::<Decimal>(items, "second-beat"@, v.second_beat)
                && opt_kwarg_value::<Decimal>(items, "last-beat"@, v.last_beat),
            _ => false,
        }
    }

    fn from_sexpr(sexpr: &Sexpr) -> (r: Result<Turn, ConvertError>) {
        let list = match sexpr.as_list() {
            Some(l) => l,
            None => return Err(ConvertError::type_mismatch("turn list", sexpr)),
        };
        expect_head(list, "turn")?;
        let position: Position = object_kwarg(list, "position", Position::empty())?;
        let slash: Option<YesNo> = optional_kwarg(list, "slash")?;
        let placement: Option<AboveBelow> = optional_kwarg(list, "placement")?;
        let start_note: Option<StartNote> = optional_kwarg(list, "start-note")?;
        let trill_step: Option<TrillStep> = optional_kwarg(list, "trill-step")?;
        let two_note_turn: Option<TwoNoteTurn> = optional_kwarg(list, "two-note-turn")?;
        let accelerate: Option<YesNo> = optional_kwarg(list, "accelerate")?;
        let beats: Option<Decimal> = optional_kwarg(list, "beats")?;
        let second_beat: Option<Decimal> = optional_kwarg(list, "second-beat")?;
        let last_beat: Option<Decimal> = optional_kwarg(list, "last-beat")?;
        Ok(Turn { slash, placement, position, start_note, trill_step, two_note_turn, accelerate, beats, second_beat, last_beat })
    }
}

// === Mordent ===

impl ToSexpr for Mordent {
    /// `(mordent ...)` with the keyword arguments that the value has.
    open spec fn to_sexpr_spec(&self) -> SexprV {
        SexprV::List(seq![SexprV::Symbol("mordent"@)] + kw_opt("long"@, self.long) + kw_opt("approach"@, self.approach) + kw_opt("departure"@, self.departure) + kw_opt("placement"@, self.placement) + kw_opt("start-note"@, self.start_note) + kw_opt("trill-step"@, self.trill_step) + kw_opt("two-note-turn"@, self.two_note_turn) + kw_opt("accelerate"@, self.accelerate) + kw_opt("beats"@, self.beats) + kw_opt("second-beat"@, self.second_beat) + kw_opt("last-beat"@, self.last_beat) + kw_if(self.position.is_set(), "position"@, self.position.to_sexpr_spec()))
    }

    fn to_sexpr(&self) -> (r: Sexpr) {
        ListBuilder::new("mordent").kwarg_opt("long", &self.long).kwarg_opt("approach", &self.approach).kwarg_opt("departure", &self.departure).kwarg_opt("placement", &self.placement).kwarg_opt("start-note", &self.start_note).kwarg_opt("trill-step", &self.trill_step).kwarg_opt("two-note-turn", &self.two_note_turn).kwarg_opt("accelerate", &self.accelerate).kwarg_opt("beats", &self.beats).kwarg_opt("second-beat", &self.second_beat).kwarg_opt("last-beat", &self.last_beat).kwarg_when(self.position.has_any(), "position", &self.position).build()
    }
}

impl FromSexpr for Mordent {
    /// A list headed `mordent` whose keyword arguments convert.
    open spec fn from_sexpr_error(s: SexprV) -> Option<ConvertErrorV> {
        match s {
            SexprV::List(items) => either(head_error(items, "mordent"@), either(obj_kwarg_error::<Position>(items, "position"@), either(opt_kwarg_error::<YesNo>(items, "long"@), either(opt_kwarg_error::<AboveBelow>(items, "approach"@), either(opt_kwarg_error::<AboveBelow>(items, "departure"@), either(opt_kwarg_error::<AboveBelow>(items, "placement"@), either(opt_kwarg_error::<StartNote>(items, "start-note"@), either(opt_kwarg_error::<TrillStep>(items, "trill-step"@), either(opt_kwarg_error::<TwoNoteTurn>(items, "two-note-turn"@), either(opt_kwarg_error::<YesNo>(items, "accelerate"@), either(opt_kwarg_error::<Decimal>(items, "beats"@), either(opt_kwarg_error::<Decimal>(items, "second-beat"@), opt_kwarg_error::<Decimal>(items, "last-beat"@))))))))))))),
            _ => Some(type_mismatch_v("mordent list"@, s)),
        }
    }

    open spec fn from_sexpr_value(s: SexprV, v: Mordent) -> bool {
        match s {
            SexprV::List(items) => obj_kwarg_value::<Position>(items, "position"@, v.position, position_none())
                && opt_kwarg_value::<YesNo>(items, "long"@, v.long)
                && opt_kwarg_value::<AboveBelow>(items, "approach"@, v.approach)
                && opt_kwarg_value::<AboveBelow>(items, "departure"@, v.departure)
                && opt_kwarg_value::<AboveBelow>(items, "placement"@, v.placement)
                && opt_kwarg_value::<StartNote>(items, "start-note"@, v.start_note)
                && opt_kwarg_value::<TrillStep>(items, "trill-step"@, v.trill_step)
                && opt_kwarg_value::<TwoNoteTurn>(items, "two-note-turn"@, v.two_note_turn)
                && opt_kwarg_value::<YesNo>(items, "accelerate"@, v.accelerate)
                && opt_kwarg_value::<Decimal>(items, "beats"@, v.beats)
                && opt_kwarg_value::<Decimal>(items, "second-beat"@, v.second_beat)
                && opt_kwarg_value::<Decimal>(items, "last-beat"@, v.last_beat),
            _ => false,
        }
    }

    fn from_sexpr(sexpr: &Sexpr) -> (r: Result<Mordent, ConvertError>) {
        let list = match sexpr.as_list() {
            Some(l) => l,
            None => return Err(ConvertError::type_mismatch("mordent list", sexpr)),
        };
        expect_head(list, "mordent")?;
        let position: Position = object_kwarg(list, "position", Position::empty())?;
        let long: Option<YesNo> = optional_kwarg(list, "long")?;
        let approach: Option<AboveBelow> = optional_kwarg(list, "approach")?;
        let departure: Option<AboveBelow> = optional_kwarg(list, "departure")?;
        let placement: Option<AboveBelow> = optional_kwarg(list, "placement")?;
        let start_note: Option<StartNote> = optional_kwarg(list, "start-note")?;
        let trill_step: Option<TrillStep> = optional_kwarg(list, "trill-step")?;
        let two_note_turn: Option<TwoNoteTurn> = optional_kwarg(list, "two-note-turn")?;
        let accelerate: Option<YesNo> = optional_kwarg(list, "accelerate")?;
        let beats: Option<Decimal> = optional_kwarg(list, "beats")?;
        let second_beat: Option<Decimal> = optional_kwarg(list, "second-beat")?;
        let last_beat: Option<Decimal> = optional_kwarg(list, "last-beat")?;
        Ok(Mordent { long, approach, departure, placement, position, start_note, trill_step, two_note_turn, accelerate, beats, second_beat, last_beat })
    }
}

// === Tremolo ===

impl ToSexpr for Tremolo {
    /// `(tremolo ...)` with the keyword arguments that the value has.
    open spec fn to_sexpr_spec(&self) -> SexprV {
        SexprV::List(seq![SexprV::Symbol("tremolo"@)] + kw_pair("value"@, self.value.to_sexpr_spec()) + kw_opt("type"@, self.type_) + kw_opt("placement"@, self.placement) + kw_if(self.position.is_set(), "position"@, self.position.to_sexpr_spec()))
    }

    fn to_sexpr(&self) -> (r: Sexpr) {
        ListBuilder::new("tremolo").kwarg("value", &self.value).kwarg_opt("type", &self.type_).kwarg_opt("placement", &self.placement).kwarg_when(self.position.has_any(), "position", &self.position).build()
    }
}

impl FromSexpr for Tremolo {
    /// A list headed `tremolo` whose keyword arguments convert.
    open spec fn from_sexpr_error(s: SexprV) -> Option<ConvertErrorV> {
        match s {
            SexprV::List(items) => either(head_error(items, "tremolo"@), either(obj_kwarg_error::<Position>(items, "position"@), either(kwarg_error::<u8>(items, "value"@), either(opt_kwarg_error::<TremoloType>(items, "type"@), opt_kwarg_error::<AboveBelow>(items, "placement"@))))),
            _ => Some(type_mismatch_v("tremolo list"@, s)),
        }
    }

    open spec fn from_sexpr_value(s: SexprV, v: Tremolo) -> bool {
        match s {
            SexprV::List(items) => obj_kwarg_value::<Position>(items, "position"@, v.position, position_none())
                && kwarg_value::<u8>(items, "value"@, v.value)
                && opt_kwarg_value::<TremoloType>(items, "type"@, v.type_)
                && opt_kwarg_value::<AboveBelow>(items, "placement"@, v.placement),
            _ => false,
        }
    }

    fn from_sexpr(sexpr: &Sexpr) -> (r: Result<Tremolo, ConvertError>) {
        let list = match sexpr.as_list() {
            Some(l) => l,
            None => return Err(ConvertError::type_mismatch("tremolo list", sexpr)),
        };
        expect_head(list, "tremolo")?;
        let position: Position = object_kwarg(list, "position", Position::empty())?;
        let value: u8 = require_kwarg(list, "value")?;
        let type_: Option<TremoloType> = optional_kwarg(list, "type")?;
        let placement: Option<AboveBelow> = optional_kwarg(list, "placement")?;
        Ok(Tremolo { value, type_, placement, position })
    }
}

// === OtherOrnament ===

impl ToSexpr for OtherOrnament {
    /// `(other-ornament ...)` with the keyword arguments that the value has.
    open spec fn to_sexpr_spec(&self) -> SexprV {
        SexprV::List(seq![SexprV::Symbol("other-ornament"@)] + kw_pair("value"@, self.value.to_sexpr_spec()) + kw_opt("placement"@, self.placement) + kw_if(self.print_style.position.is_set(), "position"@, self.print_style.position.to_sexpr_spec()) + kw_opt("color"@, self.print_style.color))
    }

    fn to_sexpr(&self) -> (r: Sexpr) {
        ListBuilder::new("other-ornament").kwarg("value", &self.value).kwarg_opt("placement", &self.placement).kwarg_when(self.print_style.position.has_any(), "position", &self.print_style.position).kwarg_opt("color", &self.print_style.color).build()
    }
}

impl FromSexpr for OtherOrnament {
    /// A list headed `other-ornament` whose keyword arguments convert.
    open spec fn from_sexpr_error(s: SexprV) -> Option<ConvertErrorV> {
        match s {
            SexprV::List(items) => either(head_error(items, "other-ornament"@), either(obj_kwarg_error::<Position>(items, "position"@), either(opt_kwarg_error::<String>(items, "color"@), either(kwarg_error::<String>(items, "value"@), opt_kwarg_error::<AboveBelow>(items, "placement"@))))),
            _ => Some(type_mismatch_v("other-ornament list"@, s)),
        }
    }

    open spec fn from_sexpr_value(s: SexprV, v: OtherOrnament) -> bool {
        match s {
            SexprV::List(items) => obj_kwarg_value::<Position>(items, "position"@, v.print_style.position, position_none())
                && opt_kwarg_value::<String>(items, "color"@, v.print_style.color)
                && kwarg_value::<String>(items, "value"@, v.value)
                && opt_kwarg_value::<AboveBelow>(items, "placement"@, v.placement)
                && v.print_style.font == font_none(),
            _ => false,
        }
    }

    fn from_sexpr(sexpr: &Sexpr) -> (r: Result<OtherOrnament, ConvertError>) {
        let list = match sexpr.as_list() {
            Some(l) => l,
            None => return Err(ConvertError::type_mismatch("other-ornament list", sexpr)),
        };
        expect_head(list, "other-ornament")?;
        let position: Position = object_kwarg(list, "position", Position::empty())?;
        let color: Option<String> = optional_kwarg(list, "color")?;
        let value: String = require_kwarg(list, "value")?;
        let placement: Option<AboveBelow> = optional_kwarg(list, "placement")?;
        Ok(OtherOrnament { value, placement, print_style: PrintStyle { position, font: Font::empty(), color } })
    }
}

// === OrnamentWithAccidentals ===

impl ToSexpr for OrnamentWithAccidentals {
    /// `(ornament-with-accidentals ...)` with the keyword arguments that the value has.
    open spec fn to_sexpr_spec(&self) -> SexprV {
        SexprV::List(seq![SexprV::Symbol("ornament-with-accidentals"@)] + kw_pair("ornament"@, self.ornament.to_sexpr_spec()) + kw_if(self.accidental_marks@.len() > 0, "accidental-marks"@, self.accidental_marks.to_sexpr_spec()))
    }

    fn to_sexpr(&self) -> (r: Sexpr) {
        ListBuilder::new("ornament-with-accidentals").kwarg("ornament", &self.ornament).kwarg_when(self.accidental_marks.len() > 0, "accidental-marks", &self.accidental_marks).build()
    }
}

impl FromSexpr for OrnamentWithAccidentals {
    /// A list headed `ornament-with-accidentals` whose keyword arguments convert.
    open spec fn from_sexpr_error(s: SexprV) -> Option<ConvertErrorV> {
        match s {
            SexprV::List(items) => either(head_error(items, "ornament-with-accidentals"@), either(kwarg_error::<OrnamentElement>(items, "ornament"@), opt_kwarg_error::<Vec<AccidentalMark>>(items, "accidental-marks"@))),
            _ => Some(type_mismatch_v("ornament-with-accidentals list"@, s)),
        }
    }

    open spec fn from_sexpr_value(s: SexprV, v: OrnamentWithAccidentals) -> bool {
        match s {
            SexprV::List(items) => kwarg_value::<OrnamentElement>(items, "ornament"@, v.ornament)
                && list_kwarg_value::<AccidentalMark>(items, "accidental-marks"@, v.accidental_marks),
            _ => false,
        }
    }

    fn from_sexpr(sexpr: &Sexpr) -> (r: Result<OrnamentWithAccidentals, ConvertError>) {
        let list = match sexpr.as_list() {
            Some(l) => l,
            None => return Err(ConvertError::type_mismatch("ornament-with-accidentals list", sexpr)),
        };
        expect_head(list, "ornament-with-accidentals")?;
        let ornament: OrnamentElement = require_kwarg(list, "ornament")?;
        let accidental_marks: Vec<AccidentalMark> = list_kwarg(list, "accidental-marks")?;
        Ok(OrnamentWithAccidentals { ornament, accidental_marks })
    }
}

// === Ornaments ===

impl ToSexpr for Ornaments {
    /// `(ornaments ...)` with the keyword arguments that the value has.
    open spec fn to_sexpr_spec(&self) -> SexprV {
        SexprV::List(seq![SexprV::Symbol("ornaments"@)] + kw_if(self.content@.len() > 0, "content"@, self.content.to_sexpr_spec()))
    }

    fn to_sexpr(&self) -> (r: Sexpr) {
        ListBuilder::new("ornaments").kwarg_when(self.content.len() > 0, "content", &self.content).build()
    }
}

impl FromSexpr for Ornaments {
    /// A list headed `ornaments` whose keyword arguments convert.
    open spec fn from_sexpr_error(s: SexprV) -> Option<ConvertErrorV> {
        match s {
            SexprV::List(items) => either(head_error(items, "ornaments"@), opt_kwarg_error::<Vec<OrnamentWithAccidentals>>(items, "content"@)),
            _ => Some(type_mismatch_v("ornaments list"@, s)),
        }
    }

    open spec fn from_sexpr_value(s: SexprV, v: Ornaments) -> bool {
        match s {
            SexprV::List(items) => list_kwarg_value::<OrnamentWithAccidentals>(items, "content"@, v.content),
            _ => false,
        }
    }

    fn from_sexpr(sexpr: &Sexpr) -> (r: Result<Ornaments, ConvertError>) {
        let list = match sexpr.as_list() {
            Some(l) => l,
            None => return Err(ConvertError::type_mismatch("ornaments list", sexpr)),
        };
        expect_head(list, "ornaments")?;
        let content: Vec<OrnamentWithAccidentals> = list_kwarg(list, "content")?;
        Ok(Ornaments { content })
    }
}

// === Articulations ===

impl ToSexpr for Articulations {
    /// `(articulations ...)` with the keyword arguments that the value has.
    open spec fn to_sexpr_spec(&self) -> SexprV {
        SexprV::List(seq![SexprV::Symbol("articulations"@)] + kw_if(self.content@.len() > 0, "content"@, self.content.to_sexpr_spec()))
    }

    fn to_sexpr(&self) -> (r: Sexpr) {
        ListBuilder::new("articulations").kwarg_when(self.content.len() > 0, "content", &self.content).build()
    }
}

impl FromSexpr for Articulations {
    /// A list headed `articulations` whose keyword arguments convert.
    open spec fn from_sexpr_error(s: SexprV) -> Option<ConvertErrorV> {
        match s {
            SexprV::List(items) => either(head_error(items, "articulations"@), opt_kwarg_error::<Vec<ArticulationElement>>(items, "content"@)),
            _ => Some(type_mismatch_v("articulations list"@, s)),
        }
    }

    open spec fn from_sexpr_value(s: SexprV, v: Articulations) -> bool {
        match s {
            SexprV::List(items) => list_kwarg_value::<ArticulationElement>(items, "content"@, v.content),
            _ => false,
        }
    }

    fn from_sexpr(sexpr: &Sexpr) -> (r: Result<Articulations, ConvertError>) {
        let list = match sexpr.as_list() {
            Some(l) => l,
            None => return Err(ConvertError::type_mismatch("articulations list", sexpr)),
        };
        expect_head(list, "articulations")?;
        let content: Vec<ArticulationElement> = list_kwarg(list, "content")?;
        Ok(Articulations { content })
    }
}

// === Harmonic ===

impl ToSexpr for Harmonic {
    /// `(harmonic ...)` with the keyword arguments that the value has.
    open spec fn to_sexpr_spec(&self) -> SexprV {
        SexprV::List(seq![SexprV::Symbol("harmonic"@)] + kw_if(self.natural, "natural"@, SexprV::Symbol("t"@)) + kw_if(self.artificial, "artificial"@, SexprV::Symbol("t"@)) + kw_if(self.base_pitch, "base-pitch"@, SexprV::Symbol("t"@)) + kw_if(self.touching_pitch, "touching-pitch"@, SexprV::Symbol("t"@)) + kw_if(self.sounding_pitch, "sounding-pitch"@, SexprV::Symbol("t"@)) + kw_opt("placement"@, self.placement) + kw_opt("print-object"@, self.print_object))
    }

    fn to_sexpr(&self) -> (r: Sexpr) {
        ListBuilder::new("harmonic").kwarg_when(self.natural, "natural", &true).kwarg_when(self.artificial, "artificial", &true).kwarg_when(self.base_pitch, "base-pitch", &true).kwarg_when(self.touching_pitch, "touching-pitch", &true).kwarg_when(self.sounding_pitch, "sounding-pitch", &true).kwarg_opt("placement", &self.placement).kwarg_opt("print-object", &self.print_object).build()
    }
}

impl FromSexpr for Harmonic {
    /// A list headed `harmonic` whose keyword arguments convert.
    open spec fn from_sexpr_error(s: SexprV) -> Option<ConvertErrorV> {
        match s {
            SexprV::List(items) => either(head_error(items, "harmonic"@), either(opt_kwarg_error::<bool>(items, "natural"@), either(opt_kwarg_error::<bool>(items, "artificial"@), either(opt_kwarg_error::<bool>(items, "base-pitch"@), either(opt_kwarg_error::<bool>(items, "touching-pitch"@), either(opt_kwarg_error::<bool>(items, "sounding-pitch"@), either(opt_kwarg_error::<AboveBelow>(items, "placement"@), opt_kwarg_error::<YesNo>(items, "print-object"@)))))))),
            _ => Some(type_mismatch_v("harmonic list"@, s)),
        }
    }

    open spec fn from_sexpr_value(s: SexprV, v: Harmonic) -> bool {
        match s {
            SexprV::List(items) => flag_kwarg_value(items, "natural"@, v.natural)
                && flag_kwarg_value(items, "artificial"@, v.artificial)
                && flag_kwarg_value(items, "base-pitch"@, v.base_pitch)
                && flag_kwarg_value(items, "touching-pitch"@, v.touching_pitch)
                && flag_kwarg_value(items, "sounding-pitch"@, v.sounding_pitch)
                && opt_kwarg_value::<AboveBelow>(items, "placement"@, v.placement)
                && opt_kwarg_value::<YesNo>(items, "print-object"@, v.print_object),
            _ => false,
        }
    }

    fn from_sexpr(sexpr: &Sexpr) -> (r: Result<Harmonic, ConvertError>) {
        let list = match sexpr.as_list() {
            Some(l) => l,
            None => return Err(ConvertError::type_mismatch("harmonic list", sexpr)),
        };
        expect_head(list, "harmonic")?;
        let natural: bool = flag_kwarg(list, "natural")?;
        let artificial: bool = flag_kwarg(list, "artificial")?;
        let base_pitch: bool = flag_kwarg(list, "base-pitch")?;
        let touching_pitch: bool = flag_kwarg(list, "touching-pitch")?;
        let sounding_pitch: bool = flag_kwarg(list, "sounding-pitch")?;
        let placement: Option<AboveBelow> = optional_kwarg(list, "placement")?;
        let print_object: Option<YesNo> = optional_kwarg(list, "print-object")?;
        Ok(Harmonic { natural, artificial, base_pitch, touching_pitch, sounding_pitch, placement, print_object })
    }
}

// === Fingering ===

impl ToSexpr for Fingering {
    /// `(fingering ...)` with the keyword arguments that the value has.
    open spec fn to_sexpr_spec(&self) -> SexprV {
        SexprV::List(seq![SexprV::Symbol("fingering"@)] + kw_pair("value"@, self.value.to_sexpr_spec()) + kw_opt("substitution"@, self.substitution) + kw_opt("alternate"@, self.alternate) + kw_opt("placement"@, self.placement) + kw_if(self.print_style.position.is_set(), "position"@, self.print_style.position.to_sexpr_spec()) + kw_opt("color"@, self.print_style.color))
    }

    fn to_sexpr(&self) -> (r: Sexpr) {
        ListBuilder::new("fingering").kwarg("value", &self.value).kwarg_opt("substitution", &self.substitution).kwarg_opt("alternate", &self.alternate).kwarg_opt("placement", &self.placement).kwarg_when(self.print_style.position.has_any(), "position", &self.print_style.position).kwarg_opt("color", &self.print_style.color).build()
    }
}

impl FromSexpr for Fingering {
    /// A list headed `fingering` whose keyword arguments convert.
    open spec fn from_sexpr_error(s: SexprV) -> Option<ConvertErrorV> {
        match s {
            SexprV::List(items) => either(head_error(items, "fingering"@), either(obj_kwarg_error::<Position>(items, "position"@), either(opt_kwarg_error::<String>(items, "color"@), either(kwarg_error::<String>(items, "value"@), either(opt_kwarg_error::<YesNo>(items, "substitution"@), either(opt_kwarg_error::<YesNo>(items, "alternate"@), opt_kwarg_error::<AboveBelow>(items, "placement"@))))))),
            _ => Some(type_mismatch_v("fingering list"@, s)),
        }
    }

    open spec fn from_sexpr_value(s: SexprV, v: Fingering) -> bool {
        match s {
            SexprV::List(items) => obj_kwarg_value::<Position>(items, "position"@, v.print_style.position, position_none())
                && opt_kwarg_value::<String>(items, "color"@, v.print_style.color)
                && kwarg_value::<String>(items, "value"@, v.value)
                && opt_kwarg_value::<YesNo>(items, "substitution"@, v.substitution)
                && opt_kwarg_value::<YesNo>(items, "alternate"@, v.alternate)
                && opt_kwarg_value::<AboveBelow>(items, "placement"@, v.placement)
                && v.print_style.font == font_none(),
            _ => false,
        }
    }

    fn from_sexpr(sexpr: &Sexpr) -> (r: Result<Fingering, ConvertError>) {
        let list = match sexpr.as_list() {
            Some(l) => l,
            None => return Err(ConvertError::type_mismatch("fingering list", sexpr)),
        };
        expect_head(list, "fingering")?;
        let position: Position = object_kwarg(list, "position", Position::empty())?;
        let color: Option<String> = optional_kwarg(list, "color")?;
        let value: String = require_kwarg(list, "value")?;
        let substitution: Option<YesNo> = optional_kwarg(list, "substitution")?;
        let alternate: Option<YesNo> = optional_kwarg(list, "alternate")?;
        let placement: Option<AboveBelow> = optional_kwarg(list, "placement")?;
        Ok(Fingering { value, substitution, alternate, placement, print_style: PrintStyle { position, font: Font::empty(), color } })
    }
}

// === Pluck ===

impl ToSexpr for Pluck {
    /// `(pluck ...)` with the keyword arguments that the value has.
    open spec fn to_sexpr_spec(&self) -> SexprV {
        SexprV::List(seq![SexprV::Symbol("pluck"@)] + kw_pair("value"@, self.value.to_sexpr_spec()) + kw_opt("placement"@, self.placement))
    }

    fn to_sexpr(&self) -> (r: Sexpr) {
        ListBuilder::new("pluck").kwarg("value", &self.value).kwarg_opt("placement", &self.placement).build()
    }
}

impl FromSexpr for Pluck {
    /// A list headed `pluck` whose keyword arguments convert.
    open spec fn from_sexpr_error(s: SexprV) -> Option<ConvertErrorV> {
        match s {
            SexprV::List(items) => either(head_error(items, "pluck"@), either(kwarg_error::<String>(items, "value"@), opt_kwarg_error::<AboveBelow>(items, "placement"@))),
            _ => Some(type_mismatch_v("pluck list"@, s)),
        }
    }

    open spec fn from_sexpr_value(s: SexprV, v: Pluck) -> bool {
        match s {
            SexprV::List(items) => kwarg_value::<String>(items, "value"@, v.value)
                && opt_kwarg_value::<AboveBelow>(items, "placement"@, v.placement),
            _ => false,
        }
    }

    fn from_sexpr(sexpr: &Sexpr) -> (r: Result<Pluck, ConvertError>) {
        let list = match sexpr.as_list() {
            Some(l) => l,
            None => return Err(ConvertError::type_mismatch("pluck list", sexpr)),
        };
        expect_head(list, "pluck")?;
        let value: String = require_kwarg(list, "value")?;
        let placement: Option<AboveBelow> = optional_kwarg(list, "placement")?;
        Ok(Pluck { value, placement })
    }
}

// === Fret ===

impl ToSexpr for Fret {
    /// `(fret ...)` with the keyword arguments that the value has.
    open spec fn to_sexpr_spec(&self) -> SexprV {
        SexprV::List(seq![SexprV::Symbol("fret"@)] + kw_pair("value"@, self.value.to_sexpr_spec()) + kw_if(self.font.is_set(), "font"@, self.font.to_sexpr_spec()) + kw_opt("color"@, self.color))
    }

    fn to_sexpr(&self) -> (r: Sexpr) {
        ListBuilder::new("fret").kwarg("value", &self.value).kwarg_when(self.font.has_any(), "font", &self.font).kwarg_opt("color", &self.color).build()
    }
}

impl FromSexpr for Fret {
    /// A list headed `fret` whose keyword arguments convert.
    open spec fn from_sexpr_error(s: SexprV) -> Option<ConvertErrorV> {
        match s {
            SexprV::List(items) => either(head_error(items, "fret"@), either(obj_kwarg_error::<Font>(items, "font"@), either(kwarg_error::<u32>(items, "value"@), opt_kwarg_error::<String>(items, "color"@)))),
            _ => Some(type_mismatch_v("fret list"@, s)),
        }
    }

    open spec fn from_sexpr_value(s: SexprV, v: Fret) -> bool {
        match s {
            SexprV::List(items) => obj_kwarg_value::<Font>(items, "font"@, v.font, font_none())
                && kwarg_value::<u32>(items, "value"@, v.value)
                && opt_kwarg_value::<String>(items, "color"@, v.color),
            _ => false,
        }
    }

    fn from_sexpr(sexpr: &Sexpr) -> (r: Result<Fret, ConvertError>) {
        let list = match sexpr.as_list() {
            Some(l) => l,
            None => return Err(ConvertError::type_mismatch("fret list", sexpr)),
        };
        expect_head(list, "fret")?;
        let font: Font = object_kwarg(list, "font", Font::empty())?;
        let value: u32 = require_kwarg(list, "value")?;
        let color: Option<String> = optional_kwarg(list, "color")?;
        Ok(Fret { value, font, color })
    }
}

// === StringNumber ===

impl ToSexpr for StringNumber {
    /// `(string-number ...)` with the keyword arguments that the value has.
    open spec fn to_sexpr_spec(&self) -> SexprV {
        SexprV::List(seq![SexprV::Symbol("string-number"@)] + kw_pair("value"@, self.value.to_sexpr_spec()) + kw_opt("placement"@, self.placement) + kw_if(self.print_style.position.is_set(), "position"@, self.print_style.position.to_sexpr_spec()) + kw_opt("color"@, self.print_style.color))
    }

    fn to_sexpr(&self) -> (r: Sexpr) {
        ListBuilder::new("string-number").kwarg("value", &self.value).kwarg_opt("placement", &self.placement).kwarg_when(self.print_style.position.has_any(), "position", &self.print_style.position).kwarg_opt("color", &self.print_style.color).build()
    }
}

impl FromSexpr for StringNumber {
    /// A list headed `string-number` whose keyword arguments convert.
    open spec fn from_sexpr_error(s: SexprV) -> Option<ConvertErrorV> {
        match s {
            SexprV::List(items) => either(head_error(items, "string-number"@), either(obj_kwarg_error::<Position>(items, "position"@), either(opt_kwarg_error::<String>(items, "color"@), either(kwarg_error::<u32>(items, "value"@), opt_kwarg_error::<AboveBelow>(items, "placement"@))))),
            _ => Some(type_mismatch_v("string-number list"@, s)),
        }
    }

    open spec fn from_sexpr_value(s: SexprV, v: StringNumber) -> bool {
        match s {
            SexprV::List(items) => obj_kwarg_value::<Position>(items, "position"@, v.print_style.position, position_none())
                && opt_kwarg_value::<String>(items, "color"@, v.print_style.color)
                && kwarg_value::<u32>(items, "value"@, v.value)
                && opt_kwarg_value::<AboveBelow>(items, "placement"@, v.placement)
                && v.print_style.font == font_none(),
            _ => false,
        }
    }

    fn from_sexpr(sexpr: &Sexpr) -> (r: Result<StringNumber, ConvertError>) {
        let list = match sexpr.as_list() {
            Some(l) => l,
            None => return Err(ConvertError::type_mismatch("string-number list", sexpr)),
        };
        expect_head(list, "string-number")?;
        let position: Position = object_kwarg(list, "position", Position::empty())?;
        let color: Option<String> = optional_kwarg(list, "color")?;
        let value: u32 = require_kwarg(list, "value")?;
        let placement: Option<AboveBelow> = optional_kwarg(list, "placement")?;
        Ok(StringNumber { value, placement, print_style: PrintStyle { position, font: Font::empty(), color } })
    }
}

// === HammerPull ===

impl ToSexpr for HammerPull {
    /// `(hammer-pull ...)` with the keyword arguments that the value has.
    open spec fn to_sexpr_spec(&self) -> SexprV {
        SexprV::List(seq![SexprV::Symbol("hammer-pull"@)] + kw_pair("value"@, self.value.to_sexpr_spec()) + kw_pair("type"@, self.type_.to_sexpr_spec()) + kw_opt("number"@, self.number) + kw_opt("placement"@, self.placement))
    }

    fn to_sexpr(&self) -> (r: Sexpr) {
        ListBuilder::new("hammer-pull").kwarg("value", &self.value).kwarg("type", &self.type_).kwarg_opt("number", &self.number).kwarg_opt("placement", &self.placement).build()
    }
}

impl FromSexpr for HammerPull {
    /// A list headed `hammer-pull` whose keyword arguments convert.
    open spec fn from_sexpr_error(s: SexprV) -> Option<ConvertErrorV> {
        match s {
            SexprV::List(items) => either(head_error(items, "hammer-pull"@), either(kwarg_error::<String>(items, "value"@), either(kwarg_error::<StartStop>(items, "type"@), either(opt_kwarg_error::<u8>(items, "number"@), opt_kwarg_error::<AboveBelow>(items, "placement"@))))),
            _ => Some(type_mismatch_v("hammer-pull list"@, s)),
        }
    }

    open spec fn from_sexpr_value(s: SexprV, v: HammerPull) -> bool {
        match s {
            SexprV::List(items) => kwarg_value::<String>(items, "value"@, v.value)
                && kwarg_value::<StartStop>(items, "type"@, v.type_)
                && opt_kwarg_value::<u8>(items, "number"@, v.number)
                && opt_kwarg_value::<AboveBelow>(items, "placement"@, v.placement),
            _ => false,
        }
    }

    fn from_sexpr(sexpr: &Sexpr) -> (r: Result<HammerPull, ConvertError>) {
        let list = match sexpr.as_list() {
            Some(l) => l,
            None => return Err(ConvertError::type_mismatch("hammer-pull list", sexpr)),
        };
        expect_head(list, "hammer-pull")?;
        let value: String = require_kwarg(list, "value")?;
        let type_: StartStop = require_kwarg(list, "type")?;
        let number: Option<u8> = optional_kwarg(list, "number")?;
        let placement: Option<AboveBelow> = optional_kwarg(list, "placement")?;
        Ok(HammerPull { value, type_, number, placement })
    }
}

// === Bend ===

impl ToSexpr for Bend {
    /// `(bend ...)` with the keyword arguments that the value has.
    open spec fn to_sexpr_spec(&self) -> SexprV {
        SexprV::List(seq![SexprV::Symbol("bend"@)] + kw_pair("bend-alter"@, self.bend_alter.to_sexpr_spec()) + kw_if(self.pre_bend, "pre-bend"@, SexprV::Symbol("t"@)) + kw_opt("release"@, self.release) + kw_opt("with-bar"@, self.with_bar))
    }

    fn to_sexpr(&self) -> (r: Sexpr) {
        ListBuilder::new("bend").kwarg("bend-alter", &self.bend_alter).kwarg_when(self.pre_bend, "pre-bend", &true).kwarg_opt("release", &self.release).kwarg_opt("with-bar", &self.with_bar).build()
    }
}

impl FromSexpr for Bend {
    /// A list headed `bend` whose keyword arguments convert.
    open spec fn from_sexpr_error(s: SexprV) -> Option<ConvertErrorV> {
        match s {
            SexprV::List(items) => either(head_error(items, "bend"@), either(kwarg_error::<Decimal>(items, "bend-alter"@), either(opt_kwarg_error::<bool>(items, "pre-bend"@), either(opt_kwarg_error::<BendRelease>(items, "release"@), opt_kwarg_error::<String>(items, "with-bar"@))))),
            _ => Some(type_mismatch_v("bend list"@, s)),
        }
    }

    open spec fn from_sexpr_value(s: SexprV, v: Bend) -> bool {
        match s {
            SexprV::List(items) => kwarg_value::<Decimal>(items, "bend-alter"@, v.bend_alter)
                && flag_kwarg_value(items, "pre-bend"@, v.pre_bend)
                && opt_kwarg_value::<BendRelease>(items, "release"@, v.release)
                && opt_kwarg_value::<String>(items, "with-bar"@, v.with_bar),
            _ => false,
        }
    }

    fn from_sexpr(sexpr: &Sexpr) -> (r: Result<Bend, ConvertError>) {
        let list = match sexpr.as_list() {
            Some(l) => l,
            None => return Err(ConvertError::type_mismatch("bend list", sexpr)),
        };
        expect_head(list, "bend")?;
        let bend_alter: Decimal = require_kwarg(list, "bend-alter")?;
        let pre_bend: bool = flag_kwarg(list, "pre-bend")?;
        let release: Option<BendRelease> = optional_kwarg(list, "release")?;
        let with_bar: Option<String> = optional_kwarg(list, "with-bar")?;
        Ok(Bend { bend_alter, pre_bend, release, with_bar })
    }
}

// === Tap ===

impl ToSexpr for Tap {
    /// `(tap ...)` with the keyword arguments that the value has.
    open spec fn to_sexpr_spec(&self) -> SexprV {
        SexprV::List(seq![SexprV::Symbol("tap"@)] + kw_pair("value"@, self.value.to_sexpr_spec()) + kw_opt("hand"@, self.hand))
    }

    fn to_sexpr(&self) -> (r: Sexpr) {
        ListBuilder::new("tap").kwarg("value", &self.value).kwarg_opt("hand", &self.hand).build()
    }
}

impl FromSexpr for Tap {
    /// A list headed `tap` whose keyword arguments convert.
    open spec fn from_sexpr_error(s: SexprV) -> Option<ConvertErrorV> {
        match s {
            SexprV::List(items) => either(head_error(items, "tap"@), either(kwarg_error::<String>(items, "value"@), opt_kwarg_error::<TapHand>(items, "hand"@))),
            _ => Some(type_mismatch_v("tap list"@, s)),
        }
    }

    open spec fn from_sexpr_value(s: SexprV, v: Tap) -> bool {
        match s {
            SexprV::List(items) => kwarg_value::<String>(items, "value"@, v.value)
                && opt_kwarg_value::<TapHand>(items, "hand"@, v.hand),
            _ => false,
        }
    }

    fn from_sexpr(sexpr: &Sexpr) -> (r: Result<Tap, ConvertError>) {
        let list = match sexpr.as_list() {
            Some(l) => l,
            None => return Err(ConvertError::type_mismatch("tap list", sexpr)),
        };
        expect_head(list, "tap")?;
        let value: String = require_kwarg(list, "value")?;
        let hand: Option<TapHand> = optional_kwarg(list, "hand")?;
        Ok(Tap { value, hand })
    }
}

// === HeelToe ===

impl ToSexpr for HeelToe {
    /// `(heel-toe ...)` with the keyword arguments that the value has.
    open spec fn to_sexpr_spec(&self) -> SexprV {
        SexprV::List(seq![SexprV::Symbol("heel-toe"@)] + kw_opt("substitution"@, self.substitution) + kw_opt("placement"@, self.placement))
    }

    fn to_sexpr(&self) -> (r: Sexpr) {
        ListBuilder::new("heel-toe").kwarg_opt("substitution", &self.substitution).kwarg_opt("placement", &self.placement).build()
    }
}

impl FromSexpr for HeelToe {
    /// A list headed `heel-toe` whose keyword arguments convert.
    open spec fn from_sexpr_error(s: SexprV) -> Option<ConvertErrorV> {
        match s {
            SexprV::List(items) => either(head_error(items, "heel-toe"@), either(opt_kwarg_error::<YesNo>(items, "substitution"@), opt_kwarg_error::<AboveBelow>(items, "placement"@))),
            _ => Some(type_mismatch_v("heel-toe list"@, s)),
        }
    }

    open spec fn from_sexpr_value(s: SexprV, v: HeelToe) -> bool {
        match s {
            SexprV::List(items) => opt_kwarg_value::<YesNo>(items, "substitution"@, v.substitution)
                && opt_kwarg_value::<AboveBelow>(items, "placement"@, v.placement),
            _ => false,
        }
    }

    fn from_sexpr(sexpr: &Sexpr) -> (r: Result<HeelToe, ConvertError>) {
        let list = match sexpr.as_list() {
            Some(l) => l,
            None => return Err(ConvertError::type_mismatch("heel-toe list", sexpr)),
        };
        expect_head(list, "heel-toe")?;
        let substitution: Option<YesNo> = optional_kwarg(list, "substitution")?;
        let placement: Option<AboveBelow> = optional_kwarg(list, "placement")?;
        Ok(HeelToe { substitution, placement })
    }
}

// === HoleClosed ===

impl ToSexpr for HoleClosed {
    /// `(hole-closed ...)` with the keyword arguments that the value has.
    open spec fn to_sexpr_spec(&self) -> SexprV {
        SexprV::List(seq![SexprV::Symbol("hole-closed"@)] + kw_pair("value"@, self.value.to_sexpr_spec()) + kw_opt("location"@, self.location))
    }

    fn to_sexpr(&self) -> (r: Sexpr) {
        ListBuilder::new("hole-closed").kwarg("value", &self.value).kwarg_opt("location", &self.location).build()
    }
}

impl FromSexpr for HoleClosed {
    /// A list headed `hole-closed` whose keyword arguments convert.
    open spec fn from_sexpr_error(s: SexprV) -> Option<ConvertErrorV> {
        match s {
            SexprV::List(items) => either(head_error(items, "hole-closed"@), either(kwarg_error::<HoleClosedValue>(items, "value"@), opt_kwarg_error::<HoleClosedLocation>(items, "location"@))),
            _ => Some(type_mismatch_v("hole-closed list"@, s)),
        }
    }

    open spec fn from_sexpr_value(s: SexprV, v: HoleClosed) -> bool {
        match s {
            SexprV::List(items) => kwarg_value::<HoleClosedValue>(items, "value"@, v.value)
                && opt_kwarg_value::<HoleClosedLocation>(items, "location"@, v.location),
            _ => false,
        }
    }

    fn from_sexpr(sexpr: &Sexpr) -> (r: Result<HoleClosed, ConvertError>) {
        let list = match sexpr.as_list() {
            Some(l) => l,
            None => return Err(ConvertError::type_mismatch("hole-closed list", sexpr)),
        };
        expect_head(list, "hole-closed")?;
        let value: HoleClosedValue = require_kwarg(list, "value")?;
        let location: Option<HoleClosedLocation> = optional_kwarg(list, "location")?;
        Ok(HoleClosed { value, location })
    }
}

// === Hole ===

impl ToSexpr for Hole {
    /// `(hole ...)` with the keyword arguments that the value has.
    open spec fn to_sexpr_spec(&self) -> SexprV {
        SexprV::List(seq![SexprV::Symbol("hole"@)] + kw_opt("hole-type"@, self.hole_type) + kw_pair("hole-closed"@, self.hole_closed.to_sexpr_spec()) + kw_opt("hole-shape"@, self.hole_shape))
    }

    fn to_sexpr(&self) -> (r: Sexpr) {
        ListBuilder::new("hole").kwarg_opt("hole-type", &self.hole_type).kwarg("hole-closed", &self.hole_closed).kwarg_opt("hole-shape", &self.hole_shape).build()
    }
}

impl FromSexpr for Hole {
    /// A list headed `hole` whose keyword arguments convert.
    open spec fn from_sexpr_error(s: SexprV) -> Option<ConvertErrorV> {
        match s {
            SexprV::List(items) => either(head_error(items, "hole"@), either(opt_kwarg_error::<String>(items, "hole-type"@), either(kwarg_error::<HoleClosed>(items, "hole-closed"@), opt_kwarg_error::<String>(items, "hole-shape"@)))),
            _ => Some(type_mismatch_v("hole list"@, s)),
        }
    }

    open spec fn from_sexpr_value(s: SexprV, v: Hole) -> bool {
        match s {
            SexprV::List(items) => opt_kwarg_value::<String>(items, "hole-type"@, v.hole_type)
                && kwarg_value::<HoleClosed>(items, "hole-closed"@, v.hole_closed)
                && opt_kwarg_value::<String>(items, "hole-shape"@, v.hole_shape),
            _ => false,
        }
    }

    fn from_sexpr(sexpr: &Sexpr) -> (r: Result<Hole, ConvertError>) {
        let list = match sexpr.as_list() {
            Some(l) => l,
            None => return Err(ConvertError::type_mismatch("hole list", sexpr)),
        };
        expect_head(list, "hole")?;
        let hole_type: Option<String> = optional_kwarg(list, "hole-type")?;
        let hole_closed: HoleClosed = require_kwarg(list, "hole-closed")?;
        let hole_shape: Option<String> = optional_kwarg(list, "hole-shape")?;
        Ok(Hole { hole_type, hole_closed, hole_shape })
    }
}

// === Arrow ===

impl ToSexpr for Arrow {
    /// `(arrow ...)` with the keyword arguments that the value has.
    open spec fn to_sexpr_spec(&self) -> SexprV {
        SexprV::List(seq![SexprV::Symbol("arrow"@)] + kw_opt("direction"@, self.direction) + kw_opt("style"@, self.style) + kw_opt("smufl"@, self.smufl))
    }

    fn to_sexpr(&self) -> (r: Sexpr) {
        ListBuilder::new("arrow").kwarg_opt("direction", &self.direction).kwarg_opt("style", &self.style).kwarg_opt("smufl", &self.smufl).build()
    }
}

impl FromSexpr for Arrow {
    /// A list headed `arrow` whose keyword arguments convert.
    open spec fn from_sexpr_error(s: SexprV) -> Option<ConvertErrorV> {
        match s {
            SexprV::List(items) => either(head_error(items, "arrow"@), either(opt_kwarg_error::<ArrowDirection>(items, "direction"@), either(opt_kwarg_error::<ArrowStyle>(items, "style"@), opt_kwarg_error::<String>(items, "smufl"@)))),
            _ => Some(type_mismatch_v("arrow list"@, s)),
        }
    }

    open spec fn from_sexpr_value(s: SexprV, v: Arrow) -> bool {
        match s {
            SexprV::List(items) => opt_kwarg_value::<ArrowDirection>(items, "direction"@, v.direction)
                && opt_kwarg_value::<ArrowStyle>(items, "style"@, v.style)
                && opt_kwarg_value::<String>(items, "smufl"@, v.smufl),
            _ => false,
        }
    }

    fn from_sexpr(sexpr: &Sexpr) -> (r: Result<Arrow, ConvertError>) {
        let list = match sexpr.as_list() {
            Some(l) => l,
            None => return Err(ConvertError::type_mismatch("arrow list", sexpr)),
        };
        expect_head(list, "arrow")?;
        let direction: Option<ArrowDirection> = optional_kwarg(list, "direction")?;
        let style: Option<ArrowStyle> = optional_kwarg(list, "style")?;
        let smufl: Option<String> = optional_kwarg(list, "smufl")?;
        Ok(Arrow { direction, style, smufl })
    }
}

// === Handbell ===

impl ToSexpr for Handbell {
    /// `(handbell ...)` with the keyword arguments that the value has.
    open spec fn to_sexpr_spec(&self) -> SexprV {
        SexprV::List(seq![SexprV::Symbol("handbell"@)] + kw_pair("value"@, self.value.to_sexpr_spec()))
    }

    fn to_sexpr(&self) -> (r: Sexpr) {
        ListBuilder::new("handbell").kwarg("value", &self.value).build()
    }
}

impl FromSexpr for Handbell {
    /// A list headed `handbell` whose keyword arguments convert.
    open spec fn from_sexpr_error(s: SexprV) -> Option<ConvertErrorV> {
        match s {
            SexprV::List(items) => either(head_error(items, "handbell"@), kwarg_error::<HandbellValue>(items, "value"@)),
            _ => Some(type_mismatch_v("handbell list"@, s)),
        }
    }

    open spec fn from_sexpr_value(s: SexprV, v: Handbell) -> bool {
        match s {
            SexprV::List(items) => kwarg_value::<HandbellValue>(items, "value"@, v.value),
            _ => false,
        }
    }

    fn from_sexpr(sexpr: &Sexpr) -> (r: Result<Handbell, ConvertError>) {
        let list = match sexpr.as_list() {
            Some(l) => l,
            None => return Err(ConvertError::type_mismatch("handbell list", sexpr)),
        };
        expect_head(list, "handbell")?;
        let value: HandbellValue = require_kwarg(list, "value")?;
        Ok(Handbell { value })
    }
}

// === HarmonMute ===

impl ToSexpr for HarmonMute {
    /// `(harmon-mute ...)` with the keyword arguments that the value has.
    open spec fn to_sexpr_spec(&self) -> SexprV {
        SexprV::List(seq![SexprV::Symbol("harmon-mute"@)] + kw_if(self.open, "open"@, SexprV::Symbol("t"@)) + kw_if(self.half, "half"@, SexprV::Symbol("t"@)))
    }

    fn to_sexpr(&self) -> (r: Sexpr) {
        ListBuilder::new("harmon-mute").kwarg_when(self.open, "open", &true).kwarg_when(self.half, "half", &true).build()
    }
}

impl FromSexpr for HarmonMute {
    /// A list headed `harmon-mute` whose keyword arguments convert.
    open spec fn from_sexpr_error(s: SexprV) -> Option<ConvertErrorV> {
        match s {
            SexprV::List(items) => either(head_error(items, "harmon-mute"@), either(opt_kwarg_error::<bool>(items, "open"@), opt_kwarg_error::<bool>(items, "half"@))),
            _ => Some(type_mismatch_v("harmon-mute list"@, s)),
        }
    }

    open spec fn from_sexpr_value(s: SexprV, v: HarmonMute) -> bool {
        match s {
            SexprV::List(items) => flag_kwarg_value(items, "open"@, v.open)
                && flag_kwarg_value(items, "half"@, v.half),
            _ => false,
        }
    }

    fn from_sexpr(sexpr: &Sexpr) -> (r: Result<HarmonMute, ConvertError>) {
        let list = match sexpr.as_list() {
            Some(l) => l,
            None => return Err(ConvertError::type_mismatch("harmon-mute list", sexpr)),
        };
        expect_head(list, "harmon-mute")?;
        let open: bool = flag_kwarg(list, "open")?;
        let half: bool = flag_kwarg(list, "half")?;
        Ok(HarmonMute { open, half })
    }
}

// === OtherTechnical ===

impl ToSexpr for OtherTechnical {
    /// `(other-technical ...)` with the keyword arguments that the value has.
    open spec fn to_sexpr_spec(&self) -> SexprV {
        SexprV::List(seq![SexprV::Symbol("other-technical"@)] + kw_pair("value"@, self.value.to_sexpr_spec()) + kw_opt("placement"@, self.placement) + kw_if(self.print_style.position.is_set(), "position"@, self.print_style.position.to_sexpr_spec()) + kw_opt("color"@, self.print_style.color))
    }

    fn to_sexpr(&self) -> (r: Sexpr) {
        ListBuilder::new("other-technical").kwarg("value", &self.value).kwarg_opt("placement", &self.placement).kwarg_when(self.print_style.position.has_any(), "position", &self.print_style.position).kwarg_opt("color", &self.print_style.color).build()
    }
}

impl FromSexpr for OtherTechnical {
    /// A list headed `other-technical` whose keyword arguments convert.
    open spec fn from_sexpr_error(s: SexprV) -> Option<ConvertErrorV> {
        match s {
            SexprV::List(items) => either(head_error(items, "other-technical"@), either(obj_kwarg_error::<Position>(items, "position"@), either(opt_kwarg_error::<String>(items, "color"@), either(kwarg_error::<String>(items, "value"@), opt_kwarg_error::<AboveBelow>(items, "placement"@))))),
            _ => Some(type_mismatch_v("other-technical list"@, s)),
        }
    }

    open spec fn from_sexpr_value(s: SexprV, v: OtherTechnical) -> bool {
        match s {
            SexprV::List(items) => obj_kwarg_value::<Position>(items, "position"@, v.print_style.position, position_none())
                && opt_kwarg_value::<String>(items, "color"@, v.print_style.color)
                && kwarg_value::<String>(items, "value"@, v.value)
                && opt_kwarg_value::<AboveBelow>(items, "placement"@, v.placement)
                && v.print_style.font == font_none(),
            _ => false,
        }
    }

    fn from_sexpr(sexpr: &Sexpr) -> (r: Result<OtherTechnical, ConvertError>) {
        let list = match sexpr.as_list() {
            Some(l) => l,
            None => return Err(ConvertError::type_mismatch("other-technical list", sexpr)),
        };
        expect_head(list, "other-technical")?;
        let position: Position = object_kwarg(list, "position", Position::empty())?;
        let color: Option<String> = optional_kwarg(list, "color")?;
        let value: String = require_kwarg(list, "value")?;
        let placement: Option<AboveBelow> = optional_kwarg(list, "placement")?;
        Ok(OtherTechnical { value, placement, print_style: PrintStyle { position, font: Font::empty(), color } })
    }
}

// === Technical ===

impl ToSexpr for Technical {
    /// `(technical ...)` with the keyword arguments that the value has.
    open spec fn to_sexpr_spec(&self) -> SexprV {
        SexprV::List(seq![SexprV::Symbol("technical"@)] + kw_if(self.content@.len() > 0, "content"@, self.content.to_sexpr_spec()))
    }

    fn to_sexpr(&self) -> (r: Sexpr) {
        ListBuilder::new("technical").kwarg_when(self.content.len() > 0, "content", &self.content).build()
    }
}

impl FromSexpr for Technical {
    /// A list headed `technical` whose keyword arguments convert.
    open spec fn from_sexpr_error(s: SexprV) -> Option<ConvertErrorV> {
        match s {
            SexprV::List(items) => either(head_error(items, "technical"@), opt_kwarg_error::<Vec<TechnicalElement>>(items, "content"@)),
            _ => Some(type_mismatch_v("technical list"@, s)),
        }
    }

    open spec fn from_sexpr_value(s: SexprV, v: Technical) -> bool {
        match s {
            SexprV::List(items) => list_kwarg_value::<TechnicalElement>(items, "content"@, v.content),
            _ => false,
        }
    }

    fn from_sexpr(sexpr: &Sexpr) -> (r: Result<Technical, ConvertError>) {
        let list = match sexpr.as_list() {
            Some(l) => l,
            None => return Err(ConvertError::type_mismatch("technical list", sexpr)),
        };
        expect_head(list, "technical")?;
        let content: Vec<TechnicalElement> = list_kwarg(list, "content")?;
        Ok(Technical { content })
    }
}

// === Fermata ===

impl ToSexpr for Fermata {
    /// `(fermata ...)` with the keyword arguments that the value has.
    open spec fn to_sexpr_spec(&self) -> SexprV {
        SexprV::List(seq![SexprV::Symbol("fermata"@)] + kw_opt("shape"@, self.shape) + kw_opt("type"@, self.type_) + kw_if(self.print_style.position.is_set(), "position"@, self.print_style.position.to_sexpr_spec()) + kw_opt("color"@, self.print_style.color))
    }

    fn to_sexpr(&self) -> (r: Sexpr) {
        ListBuilder::new("fermata").kwarg_opt("shape", &self.shape).kwarg_opt("type", &self.type_).kwarg_when(self.print_style.position.has_any(), "position", &self.print_style.position).kwarg_opt("color", &self.print_style.color).build()
    }
}

impl FromSexpr for Fermata {
    /// A list headed `fermata` whose keyword arguments convert.
    open spec fn from_sexpr_error(s: SexprV) -> Option<ConvertErrorV> {
        match s {
            SexprV::List(items) => either(head_error(items, "fermata"@), either(obj_kwarg_error::<Position>(items, "position"@), either(opt_kwarg_error::<String>(items, "color"@), either(opt_kwarg_error::<FermataShape>(items, "shape"@), opt_kwarg_error::<UprightInverted>(items, "type"@))))),
            _ => Some(type_mismatch_v("fermata list"@, s)),
        }
    }

    open spec fn from_sexpr_value(s: SexprV, v: Fermata) -> bool {
        match s {
            SexprV::List(items) => obj_kwarg_value::<Position>(items, "position"@, v.print_style.position, position_none())
                && opt_kwarg_value::<String>(items, "color"@, v.print_style.color)
                && opt_kwarg_value::<FermataShape>(items, "shape"@, v.shape)
                && opt_kwarg_value::<UprightInverted>(items, "type"@, v.type_)
                && v.print_style.font == font_none(),
            _ => false,
        }
    }

    fn from_sexpr(sexpr: &Sexpr) -> (r: Result<Fermata, ConvertError>) {
        let list = match sexpr.as_list() {
            Some(l) => l,
            None => return Err(ConvertError::type_mismatch("fermata list", sexpr)),
        };
        expect_head(list, "fermata")?;
        let position: Position = object_kwarg(list, "position", Position::empty())?;
        let color: Option<String> = optional_kwarg(list, "color")?;
        let shape: Option<FermataShape> = optional_kwarg(list, "shape")?;
        let type_: Option<UprightInverted> = optional_kwarg(list, "type")?;
        Ok(Fermata { shape, type_, print_style: PrintStyle { position, font: Font::empty(), color } })
    }
}

// === Notations ===

impl ToSexpr for Notations {
    /// `(notations ...)` with the keyword arguments that the value has.
    open spec fn to_sexpr_spec(&self) -> SexprV {
        SexprV::List(seq![SexprV::Symbol("notations"@)] + kw_opt("print-object"@, self.print_object) + kw_if(self.content@.len() > 0, "content"@, self.content.to_sexpr_spec()))
    }

    fn to_sexpr(&self) -> (r: Sexpr) {
        ListBuilder::new("notations").kwarg_opt("print-object", &self.print_object).kwarg_when(self.content.len() > 0, "content", &self.content).build()
    }
}

impl FromSexpr for Notations {
    /// A list headed `notations` whose keyword arguments convert.
    open spec fn from_sexpr_error(s: SexprV) -> Option<ConvertErrorV> {
        match s {
            SexprV::List(items) => either(head_error(items, "notations"@), either(opt_kwarg_error::<YesNo>(items, "print-object"@), opt_kwarg_error::<Vec<NotationContent>>(items, "content"@))),
            _ => Some(type_mismatch_v("notations list"@, s)),
        }
    }

    open spec fn from_sexpr_value(s: SexprV, v: Notations) -> bool {
        match s {
            SexprV::List(items) => opt_kwarg_value::<YesNo>(items, "print-object"@, v.print_object)
                && list_kwarg_value::<NotationContent>(items, "content"@, v.content)
                && v.editorial == editorial_none(),
            _ => false,
        }
    }

    fn from_sexpr(sexpr: &Sexpr) -> (r: Result<Notations, ConvertError>) {
        let list = match sexpr.as_list() {
            Some(l) => l,
            None => return Err(ConvertError::type_mismatch("notations list", sexpr)),
        };
        expect_head(list, "notations")?;
        let print_object: Option<YesNo> = optional_kwarg(list, "print-object")?;
        let content: Vec<NotationContent> = list_kwarg(list, "content")?;
        Ok(Notations { print_object, content, editorial: Editorial::empty() })
    }
}

// === ArticulationElement ===

impl ToSexpr for ArticulationElement {
    /// A variant given by its own list, or a list headed by the variant's name
    /// with the value under `:data`.
    open spec fn to_sexpr_spec(&self) -> SexprV {
        match self {
            ArticulationElement::Accent(x) => SexprV::List(seq![SexprV::Symbol("accent"@)] + kw_pair("data"@, x.to_sexpr_spec())),
            ArticulationElement::StrongAccent(x) => x.to_sexpr_spec(),
            ArticulationElement::Staccato(x) => SexprV::List(seq![SexprV::Symbol("staccato"@)] + kw_pair("data"@, x.to_sexpr_spec())),
            ArticulationElement::Tenuto(x) => SexprV::List(seq![SexprV::Symbol("tenuto"@)] + kw_pair("data"@, x.to_sexpr_spec())),
            ArticulationElement::DetachedLegato(x) => SexprV::List(seq![SexprV::Symbol("detached-legato"@)] + kw_pair("data"@, x.to_sexpr_spec())),
            ArticulationElement::Staccatissimo(x) => SexprV::List(seq![SexprV::Symbol("staccatissimo"@)] + kw_pair("data"@, x.to_sexpr_spec())),
            ArticulationElement::Spiccato(x) => SexprV::List(seq![SexprV::Symbol("spiccato"@)] + kw_pair("data"@, x.to_sexpr_spec())),
            ArticulationElement::Scoop(x) => SexprV::List(seq![SexprV::Symbol("scoop"@)] + kw_pair("data"@, x.to_sexpr_spec())),
            ArticulationElement::Plop(x) => SexprV::List(seq![SexprV::Symbol("plop"@)] + kw_pair("data"@, x.to_sexpr_spec())),
            ArticulationElement::Doit(x) => SexprV::List(seq![SexprV::Symbol("doit"@)] + kw_pair("data"@, x.to_sexpr_spec())),
            ArticulationElement::Falloff(x) => SexprV::List(seq![SexprV::Symbol("falloff"@)] + kw_pair("data"@, x.to_sexpr_spec())),
            ArticulationElement::BreathMark(x) => x.to_sexpr_spec(),
            ArticulationElement::Caesura(x) => x.to_sexpr_spec(),
            ArticulationElement::Stress(x) => SexprV::List(seq![SexprV::Symbol("stress"@)] + kw_pair("data"@, x.to_sexpr_spec())),
            ArticulationElement::Unstress(x) => SexprV::List(seq![SexprV::Symbol("unstress"@)] + kw_pair("data"@, x.to_sexpr_spec())),
            ArticulationElement::SoftAccent(x) => SexprV::List(seq![SexprV::Symbol("soft-accent"@)] + kw_pair("data"@, x.to_sexpr_spec())),
            ArticulationElement::OtherArticulation(x) => x.to_sexpr_spec(),
        }
    }

    fn to_sexpr(&self) -> (r: Sexpr) {
        match self {
            ArticulationElement::Accent(x) => ListBuilder::new("accent").kwarg("data", x).build(),
            ArticulationElement::StrongAccent(x) => x.to_sexpr(),
            ArticulationElement::Staccato(x) => ListBuilder::new("staccato").kwarg("data", x).build(),
            ArticulationElement::Tenuto(x) => ListBuilder::new("tenuto").kwarg("data", x).build(),
            ArticulationElement::DetachedLegato(x) => ListBuilder::new("detached-legato").kwarg("data", x).build(),
            ArticulationElement::Staccatissimo(x) => ListBuilder::new("staccatissimo").kwarg("data", x).build(),
            ArticulationElement::Spiccato(x) => ListBuilder::new("spiccato").kwarg("data", x).build(),
            ArticulationElement::Scoop(x) => ListBuilder::new("scoop").kwarg("data", x).build(),
            ArticulationElement::Plop(x) => ListBuilder::new("plop").kwarg("data", x).build(),
            ArticulationElement::Doit(x) => ListBuilder::new("doit").kwarg("data", x).build(),
            ArticulationElement::Falloff(x) => ListBuilder::new("falloff").kwarg("data", x).build(),
            ArticulationElement::BreathMark(x) => x.to_sexpr(),
            ArticulationElement::Caesura(x) => x.to_sexpr(),
            ArticulationElement::Stress(x) => ListBuilder::new("stress").kwarg("data", x).build(),
            ArticulationElement::Unstress(x) => ListBuilder::new("unstress").kwarg("data", x).build(),
            ArticulationElement::SoftAccent(x) => ListBuilder::new("soft-accent").kwarg("data", x).build(),
            ArticulationElement::OtherArticulation(x) => x.to_sexpr(),
        }
    }
}

impl FromSexpr for ArticulationElement {
    /// A list whose head names a variant.
    open spec fn from_sexpr_error(s: SexprV) -> Option<ConvertErrorV> {
        match s {
            SexprV::List(items) => match head_name(items) {
                None => Some(ConvertErrorV::ExpectedHead("symbol"@)),
                Some(h) => if h == "accent"@ {
                    kwarg_error::<EmptyPlacement>(items, "data"@)
                } else if h == "strong-accent"@ {
                    StrongAccent::from_sexpr_error(s)
                } else if h == "staccato"@ {
                    kwarg_error::<EmptyPlacement>(items, "data"@)
                } else if h == "tenuto"@ {
                    kwarg_error::<EmptyPlacement>(items, "data"@)
                } else if h == "detached-legato"@ {
                    kwarg_error::<EmptyPlacement>(items, "data"@)
                } else if h == "staccatissimo"@ {
                    kwarg_error::<EmptyPlacement>(items, "data"@)
                } else if h == "spiccato"@ {
                    kwarg_error::<EmptyPlacement>(items, "data"@)
                } else if h == "scoop"@ {
                    kwarg_error::<EmptyLine>(items, "data"@)
                } else if h == "plop"@ {
                    kwarg_error::<EmptyLine>(items, "data"@)
                } else if h == "doit"@ {
                    kwarg_error::<EmptyLine>(items, "data"@)
                } else if h == "falloff"@ {
                    kwarg_error::<EmptyLine>(items, "data"@)
                } else if h == "breath-mark"@ {
                    BreathMark::from_sexpr_error(s)
                } else if h == "caesura"@ {
                    Caesura::from_sexpr_error(s)
                } else if h == "stress"@ {
                    kwarg_error::<EmptyPlacement>(items, "data"@)
                } else if h == "unstress"@ {
                    kwarg_error::<EmptyPlacement>(items, "data"@)
                } else if h == "soft-accent"@ {
                    kwarg_error::<EmptyPlacement>(items, "data"@)
                } else if h == "other-articulation"@ {
                    OtherArticulation::from_sexpr_error(s)
                } else {
                    Some(type_mismatch_v("articulation-element variant"@, s))
                },
            },
            _ => Some(type_mismatch_v("articulation-element"@, s)),
        }
    }

    open spec fn from_sexpr_value(s: SexprV, v: ArticulationElement) -> bool {
        match s {
            SexprV::List(items) => match v {
                ArticulationElement::Accent(x) => head_name(items) == Some("accent"@) && kwarg_value::<EmptyPlacement>(items, "data"@, x),
                ArticulationElement::StrongAccent(x) => head_name(items) == Some("strong-accent"@) && StrongAccent::from_sexpr_value(s, x),
                ArticulationElement::Staccato(x) => head_name(items) == Some("staccato"@) && kwarg_value::<EmptyPlacement>(items, "data"@, x),
                ArticulationElement::Tenuto(x) => head_name(items) == Some("tenuto"@) && kwarg_value::<EmptyPlacement>(items, "data"@, x),
                ArticulationElement::DetachedLegato(x) => head_name(items) == Some("detached-legato"@) && kwarg_value::<EmptyPlacement>(items, "data"@, x),
                ArticulationElement::Staccatissimo(x) => head_name(items) == Some("staccatissimo"@) && kwarg_value::<EmptyPlacement>(items, "data"@, x),
                ArticulationElement::Spiccato(x) => head_name(items) == Some("spiccato"@) && kwarg_value::<EmptyPlacement>(items, "data"@, x),
                ArticulationElement::Scoop(x) => head_name(items) == Some("scoop"@) && kwarg_value::<EmptyLine>(items, "data"@, x),
                ArticulationElement::Plop(x) => head_name(items) == Some("plop"@) && kwarg_value::<EmptyLine>(items, "data"@, x),
                ArticulationElement::Doit(x) => head_name(items) == Some("doit"@) && kwarg_value::<EmptyLine>(items, "data"@, x),
                ArticulationElement::Falloff(x) => head_name(items) == Some("falloff"@) && kwarg_value::<EmptyLine>(items, "data"@, x),
                ArticulationElement::BreathMark(x) => head_name(items) == Some("breath-mark"@) && BreathMark::from_sexpr_value(s, x),
                ArticulationElement::Caesura(x) => head_name(items) == Some("caesura"@) && Caesura::from_sexpr_value(s, x),
                ArticulationElement::Stress(x) => head_name(items) == Some("stress"@) && kwarg_value::<EmptyPlacement>(items, "data"@, x),
                ArticulationElement::Unstress(x) => head_name(items) == Some("unstress"@) && kwarg_value::<EmptyPlacement>(items, "data"@, x),
                ArticulationElement::SoftAccent(x) => head_name(items) == Some("soft-accent"@) && kwarg_value::<EmptyPlacement>(items, "data"@, x),
                ArticulationElement::OtherArticulation(x) => head_name(items) == Some("other-articulation"@) && OtherArticulation::from_sexpr_value(s, x),
            },
            _ => false,
        }
    }

    fn from_sexpr(sexpr: &Sexpr) -> (r: Result<ArticulationElement, ConvertError>) {
        let list = match sexpr.as_list() {
            Some(l) => l,
            None => return Err(ConvertError::type_mismatch("articulation-element", sexpr)),
        };
        let h = get_head(list)?;
        if str_eq(h, "accent") {
            let data: EmptyPlacement = require_kwarg(list, "data")?;
            Ok(ArticulationElement::Accent(data))
        } else if str_eq(h, "strong-accent") {
            let data: StrongAccent = StrongAccent::from_sexpr(sexpr)?;
            Ok(ArticulationElement::StrongAccent(data))
        } else if str_eq(h, "staccato") {
            let data: EmptyPlacement = require_kwarg(list, "data")?;
            Ok(ArticulationElement::Staccato(data))
        } else if str_eq(h, "tenuto") {
            let data: EmptyPlacement = require_kwarg(list, "data")?;
            Ok(ArticulationElement::Tenuto(data))
        } else if str_eq(h, "detached-legato") {
            let data: EmptyPlacement = require_kwarg(list, "data")?;
            Ok(ArticulationElement::DetachedLegato(data))
        } else if str_eq(h, "staccatissimo") {
            let data: EmptyPlacement = require_kwarg(list, "data")?;
            Ok(ArticulationElement::Staccatissimo(data))
        } else if str_eq(h, "spiccato") {
            let data: EmptyPlacement = require_kwarg(list, "data")?;
            Ok(ArticulationElement::Spiccato(data))
        } else if str_eq(h, "scoop") {
            let data: EmptyLine = require_kwarg(list, "data")?;
            Ok(ArticulationElement::Scoop(data))
        } else if str_eq(h, "plop") {
            let data: EmptyLine = require_kwarg(list, "data")?;
            Ok(ArticulationElement::Plop(data))
        } else if str_eq(h, "doit") {
            let data: EmptyLine = require_kwarg(list, "data")?;
            Ok(ArticulationElement::Doit(data))
        } else if str_eq(h, "falloff") {
            let data: EmptyLine = require_kwarg(list, "data")?;
            Ok(ArticulationElement::Falloff(data))
        } else if str_eq(h, "breath-mark") {
            let data: BreathMark = BreathMark::from_sexpr(sexpr)?;
            Ok(ArticulationElement::BreathMark(data))
        } else if str_eq(h, "caesura") {
            let data: Caesura = Caesura::from_sexpr(sexpr)?;
            Ok(ArticulationElement::Caesura(data))
        } else if str_eq(h, "stress") {
            let data: EmptyPlacement = require_kwarg(list, "data")?;
            Ok(ArticulationElement::Stress(data))
        } else if str_eq(h, "unstress") {
            let data: EmptyPlacement = require_kwarg(list, "data")?;
            Ok(ArticulationElement::Unstress(data))
        } else if str_eq(h, "soft-accent") {
            let data: EmptyPlacement = require_kwarg(list, "data")?;
            Ok(ArticulationElement::SoftAccent(data))
        } else if str_eq(h, "other-articulation") {
            let data: OtherArticulation = OtherArticulation::from_sexpr(sexpr)?;
            Ok(ArticulationElement::OtherArticulation(data))
        } else {
            Err(ConvertError::type_mismatch("articulation-element variant", sexpr))
        }
    }
}

// === OrnamentElement ===

impl ToSexpr for OrnamentElement {
    /// A variant given by its own list, or a list headed by the variant's name
    /// with the value under `:data`.
    open spec fn to_sexpr_spec(&self) -> SexprV {
        match self {
            OrnamentElement::TrillMark(x) => SexprV::List(seq![SexprV::Symbol("trill-mark"@)] + kw_pair("data"@, x.to_sexpr_spec())),
            OrnamentElement::Turn(x) => x.to_sexpr_spec(),
            OrnamentElement::DelayedTurn(x) => SexprV::List(seq![SexprV::Symbol("delayed-turn"@)] + kw_pair("data"@, x.to_sexpr_spec())),
            OrnamentElement::InvertedTurn(x) => SexprV::List(seq![SexprV::Symbol("inverted-turn"@)] + kw_pair("data"@, x.to_sexpr_spec())),
            OrnamentElement::DelayedInvertedTurn(x) => SexprV::List(seq![SexprV::Symbol("delayed-inverted-turn"@)] + kw_pair("data"@, x.to_sexpr_spec())),
            OrnamentElement::VerticalTurn(x) => SexprV::List(seq![SexprV::Symbol("vertical-turn"@)] + kw_pair("data"@, x.to_sexpr_spec())),
            OrnamentElement::InvertedVerticalTurn(x) => SexprV::List(seq![SexprV::Symbol("inverted-vertical-turn"@)] + kw_pair("data"@, x.to_sexpr_spec())),
            OrnamentElement::Shake(x) => SexprV::List(seq![SexprV::Symbol("shake"@)] + kw_pair("data"@, x.to_sexpr_spec())),
            OrnamentElement::WavyLine(x) => SexprV::List(seq![SexprV::Symbol("wavy-line"@)] + kw_pair("data"@, x.to_sexpr_spec())),
            OrnamentElement::Mordent(x) => x.to_sexpr_spec(),
            OrnamentElement::InvertedMordent(x) => SexprV::List(seq![SexprV::Symbol("inverted-mordent"@)] + kw_pair("data"@, x.to_sexpr_spec())),
            OrnamentElement::Schleifer(x) => SexprV::List(seq![SexprV::Symbol("schleifer"@)] + kw_pair("data"@, x.to_sexpr_spec())),
            OrnamentElement::Tremolo(x) => x.to_sexpr_spec(),
            OrnamentElement::Haydn(x) => SexprV::List(seq![SexprV::Symbol("haydn"@)] + kw_pair("data"@, x.to_sexpr_spec())),
            OrnamentElement::OtherOrnament(x) => x.to_sexpr_spec(),
        }
    }

    fn to_sexpr(&self) -> (r: Sexpr) {
        match self {
            OrnamentElement::TrillMark(x) => ListBuilder::new("trill-mark").kwarg("data", x).build(),
            OrnamentElement::Turn(x) => x.to_sexpr(),
            OrnamentElement::DelayedTurn(x) => ListBuilder::new("delayed-turn").kwarg("data", x).build(),
            OrnamentElement::InvertedTurn(x) => ListBuilder::new("inverted-turn").kwarg("data", x).build(),
            OrnamentElement::DelayedInvertedTurn(x) => ListBuilder::new("delayed-inverted-turn").kwarg("data", x).build(),
            OrnamentElement::VerticalTurn(x) => ListBuilder::new("vertical-turn").kwarg("data", x).build(),
            OrnamentElement::InvertedVerticalTurn(x) => ListBuilder::new("inverted-vertical-turn").kwarg("data", x).build(),
            OrnamentElement::Shake(x) => ListBuilder::new("shake").kwarg("data", x).build(),
            OrnamentElement::WavyLine(x) => ListBuilder::new("wavy-line").kwarg("data", x).build(),
            OrnamentElement::Mordent(x) => x.to_sexpr(),
            OrnamentElement::InvertedMordent(x) => ListBuilder::new("inverted-mordent").kwarg("data", x).build(),
            OrnamentElement::Schleifer(x) => ListBuilder::new("schleifer").kwarg("data", x).build(),
            OrnamentElement::Tremolo(x) => x.to_sexpr(),
            OrnamentElement::Haydn(x) => ListBuilder::new("haydn").kwarg("data", x).build(),
            OrnamentElement::OtherOrnament(x) => x.to_sexpr(),
        }
    }
}

impl FromSexpr for OrnamentElement {
    /// A list whose head names a variant.
    open spec fn from_sexpr_error(s: SexprV) -> Option<ConvertErrorV> {
        match s {
            SexprV::List(items) => match head_name(items) {
                None => Some(ConvertErrorV::ExpectedHead("symbol"@)),
                Some(h) => if h == "trill-mark"@ {
                    kwarg_error::<EmptyTrillSound>(items, "data"@)
                } else if h == "turn"@ {
                    Turn::from_sexpr_error(s)
                } else if h == "delayed-turn"@ {
                    kwarg_error::<Turn>(items, "data"@)
                } else if h == "inverted-turn"@ {
                    kwarg_error::<Turn>(items, "data"@)
                } else if h == "delayed-inverted-turn"@ {
                    kwarg_error::<Turn>(items, "data"@)
                } else if h == "vertical-turn"@ {
                    kwarg_error::<EmptyTrillSound>(items, "data"@)
                } else if h == "inverted-vertical-turn"@ {
                    kwarg_error::<EmptyTrillSound>(items, "data"@)
                } else if h == "shake"@ {
                    kwarg_error::<EmptyTrillSound>(items, "data"@)
                } else if h == "wavy-line"@ {
                    kwarg_error::<WavyLine>(items, "data"@)
                } else if h == "mordent"@ {
                    Mordent::from_sexpr_error(s)
                } else if h == "inverted-mordent"@ {
                    kwarg_error::<Mordent>(items, "data"@)
                } else if h == "schleifer"@ {
                    kwarg_error::<EmptyPlacement>(items, "data"@)
                } else if h == "tremolo"@ {
                    Tremolo::from_sexpr_error(s)
                } else if h == "haydn"@ {
                    kwarg_error::<EmptyTrillSound>(items, "data"@)
                } else if h == "other-ornament"@ {
                    OtherOrnament::from_sexpr_error(s)
                } else {
                    Some(type_mismatch_v("ornament-element variant"@, s))
                },
            },
            _ => Some(type_mismatch_v("ornament-element"@, s)),
        }
    }

    open spec fn from_sexpr_value(s: SexprV, v: OrnamentElement) -> bool {
        match s {
            SexprV::List(items) => match v {
                OrnamentElement::TrillMark(x) => head_name(items) == Some("trill-mark"@) && kwarg_value::<EmptyTrillSound>(items, "data"@, x),
                OrnamentElement::Turn(x) => head_name(items) == Some("turn"@) && Turn::from_sexpr_value(s, x),
                OrnamentElement::DelayedTurn(x) => head_name(items) == Some("delayed-turn"@) && kwarg_value::<Turn>(items, "data"@, x),
                OrnamentElement::InvertedTurn(x) => head_name(items) == Some("inverted-turn"@) && kwarg_value::<Turn>(items, "data"@, x),
                OrnamentElement::DelayedInvertedTurn(x) => head_name(items) == Some("delayed-inverted-turn"@) && kwarg_value::<Turn>(items, "data"@, x),
                OrnamentElement::VerticalTurn(x) => head_name(items) == Some("vertical-turn"@) && kwarg_value::<EmptyTrillSound>(items, "data"@, x),
                OrnamentElement::InvertedVerticalTurn(x) => head_name(items) == Some("inverted-vertical-turn"@) && kwarg_value::<EmptyTrillSound>(items, "data"@, x),
                OrnamentElement::Shake(x) => head_name(items) == Some("shake"@) && kwarg_value::<EmptyTrillSound>(items, "data"@, x),
                OrnamentElement::WavyLine(x) => head_name(items) == Some("wavy-line"@) && kwarg_value::<WavyLine>(items, "data"@, x),
                OrnamentElement::Mordent(x) => head_name(items) == Some("mordent"@) && Mordent::from_sexpr_value(s, x),
                OrnamentElement::InvertedMordent(x) => head_name(items) == Some("inverted-mordent"@) && kwarg_value::<Mordent>(items, "data"@, x),
                OrnamentElement::Schleifer(x) => head_name(items) == Some("schleifer"@) && kwarg_value::<EmptyPlacement>(items, "data"@, x),
                OrnamentElement::Tremolo(x) => head_name(items) == Some("tremolo"@) && Tremolo::from_sexpr_value(s, x),
                OrnamentElement::Haydn(x) => head_name(items) == Some("haydn"@) && kwarg_value::<EmptyTrillSound>(items, "data"@, x),
                OrnamentElement::OtherOrnament(x) => head_name(items) == Some("other-ornament"@) && OtherOrnament::from_sexpr_value(s, x),
            },
            _ => false,
        }
    }

    fn from_sexpr(sexpr: &Sexpr) -> (r: Result<OrnamentElement, ConvertError>) {
        let list = match sexpr.as_list() {
            Some(l) => l,
            None => return Err(ConvertError::type_mismatch("ornament-element", sexpr)),
        };
        let h = get_head(list)?;
        if str_eq(h, "trill-mark") {
            let data: EmptyTrillSound = require_kwarg(list, "data")?;
            Ok(OrnamentElement::TrillMark(data))
        } else if str_eq(h, "turn") {
            let data: Turn = Turn::from_sexpr(sexpr)?;
            Ok(OrnamentElement::Turn(data))
        } else if str_eq(h, "delayed-turn") {
            let data: Turn = require_kwarg(list, "data")?;
            Ok(OrnamentElement::DelayedTurn(data))
        } else if str_eq(h, "inverted-turn") {
            let data: Turn = require_kwarg(list, "data")?;
            Ok(OrnamentElement::InvertedTurn(data))
        } else if str_eq(h, "delayed-inverted-turn") {
            let data: Turn = require_kwarg(list, "data")?;
            Ok(OrnamentElement::DelayedInvertedTurn(data))
        } else if str_eq(h, "vertical-turn") {
            let data: EmptyTrillSound = require_kwarg(list, "data")?;
            Ok(OrnamentElement::VerticalTurn(data))
        } else if str_eq(h, "inverted-vertical-turn") {
            let data: EmptyTrillSound = require_kwarg(list, "data")?;
            Ok(OrnamentElement::InvertedVerticalTurn(data))
        } else if str_eq(h, "shake") {
            let data: EmptyTrillSound = require_kwarg(list, "data")?;
            Ok(OrnamentElement::Shake(data))
        } else if str_eq(h, "wavy-line") {
            let data: WavyLine = require_kwarg(list, "data")?;
            Ok(OrnamentElement::WavyLine(data))
        } else if str_eq(h, "mordent") {
            let data: Mordent = Mordent::from_sexpr(sexpr)?;
            Ok(OrnamentElement::Mordent(data))
        } else if str_eq(h, "inverted-mordent") {
            let data: Mordent = require_kwarg(list, "data")?;
            Ok(OrnamentElement::InvertedMordent(data))
        } else if str_eq(h, "schleifer") {
            let data: EmptyPlacement = require_kwarg(list, "data")?;
            Ok(OrnamentElement::Schleifer(data))
        } else if str_eq(h, "tremolo") {
            let data: Tremolo = Tremolo::from_sexpr(sexpr)?;
            Ok(OrnamentElement::Tremolo(data))
        } else if str_eq(h, "haydn") {
            let data: EmptyTrillSound = require_kwarg(list, "data")?;
            Ok(OrnamentElement::Haydn(data))
        } else if str_eq(h, "other-ornament") {
            let data: OtherOrnament = OtherOrnament::from_sexpr(sexpr)?;
            Ok(OrnamentElement::OtherOrnament(data))
        } else {
            Err(ConvertError::type_mismatch("ornament-element variant", sexpr))
        }
    }
}

// === TechnicalElement ===

impl ToSexpr for TechnicalElement {
    /// A variant given by its own list, or a list headed by the variant's name
    /// with the value under `:data`.
    open spec fn to_sexpr_spec(&self) -> SexprV {
        match self {
            TechnicalElement::UpBow(x) => SexprV::List(seq![SexprV::Symbol("up-bow"@)] + kw_pair("data"@, x.to_sexpr_spec())),
            TechnicalElement::DownBow(x) => SexprV::List(seq![SexprV::Symbol("down-bow"@)] + kw_pair("data"@, x.to_sexpr_spec())),
            TechnicalElement::Harmonic(x) => x.to_sexpr_spec(),
            TechnicalElement::OpenString(x) => SexprV::List(seq![SexprV::Symbol("open-string"@)] + kw_pair("data"@, x.to_sexpr_spec())),
            TechnicalElement::ThumbPosition(x) => SexprV::List(seq![SexprV::Symbol("thumb-position"@)] + kw_pair("data"@, x.to_sexpr_spec())),
            TechnicalElement::Fingering(x) => x.to_sexpr_spec(),
            TechnicalElement::Pluck(x) => x.to_sexpr_spec(),
            TechnicalElement::DoubleTongue(x) => SexprV::List(seq![SexprV::Symbol("double-tongue"@)] + kw_pair("data"@, x.to_sexpr_spec())),
            TechnicalElement::TripleTongue(x) => SexprV::List(seq![SexprV::Symbol("triple-tongue"@)] + kw_pair("data"@, x.to_sexpr_spec())),
            TechnicalElement::Stopped(x) => SexprV::List(seq![SexprV::Symbol("stopped"@)] + kw_pair("data"@, x.to_sexpr_spec())),
            TechnicalElement::SnapPizzicato(x) => SexprV::List(seq![SexprV::Symbol("snap-pizzicato"@)] + kw_pair("data"@, x.to_sexpr_spec())),
            TechnicalElement::Fret(x) => x.to_sexpr_spec(),
            TechnicalElement::String(x) => x.to_sexpr_spec(),
            TechnicalElement::HammerOn(x) => SexprV::List(seq![SexprV::Symbol("hammer-on"@)] + kw_pair("data"@, x.to_sexpr_spec())),
            TechnicalElement::PullOff(x) => SexprV::List(seq![SexprV::Symbol("pull-off"@)] + kw_pair("data"@, x.to_sexpr_spec())),
            TechnicalElement::Bend(x) => x.to_sexpr_spec(),
            TechnicalElement::Tap(x) => x.to_sexpr_spec(),
            TechnicalElement::Heel(x) => SexprV::List(seq![SexprV::Symbol("heel"@)] + kw_pair("data"@, x.to_sexpr_spec())),
            TechnicalElement::Toe(x) => SexprV::List(seq![SexprV::Symbol("toe"@)] + kw_pair("data"@, x.to_sexpr_spec())),
            TechnicalElement::Fingernails(x) => SexprV::List(seq![SexprV::Symbol("fingernails"@)] + kw_pair("data"@, x.to_sexpr_spec())),
            TechnicalElement::Hole(x) => x.to_sexpr_spec(),
            TechnicalElement::Arrow(x) => x.to_sexpr_spec(),
            TechnicalElement::Handbell(x) => x.to_sexpr_spec(),
            TechnicalElement::BrassBend(x) => SexprV::List(seq![SexprV::Symbol("brass-bend"@)] + kw_pair("data"@, x.to_sexpr_spec())),
            TechnicalElement::Flip(x) => SexprV::List(seq![SexprV::Symbol("flip"@)] + kw_pair("data"@, x.to_sexpr_spec())),
            TechnicalElement::Smear(x) => SexprV::List(seq![SexprV::Symbol("smear"@)] + kw_pair("data"@, x.to_sexpr_spec())),
            TechnicalElement::Open(x) => SexprV::List(seq![SexprV::Symbol("open"@)] + kw_pair("data"@, x.to_sexpr_spec())),
            TechnicalElement::HalfMuted(x) => SexprV::List(seq![SexprV::Symbol("half-muted"@)] + kw_pair("data"@, x.to_sexpr_spec())),
            TechnicalElement::HarmonMute(x) => x.to_sexpr_spec(),
            TechnicalElement::Golpe(x) => SexprV::List(seq![SexprV::Symbol("golpe"@)] + kw_pair("data"@, x.to_sexpr_spec())),
            TechnicalElement::OtherTechnical(x) => x.to_sexpr_spec(),
        }
    }

    fn to_sexpr(&self) -> (r: Sexpr) {
        match self {
            TechnicalElement::UpBow(x) => ListBuilder::new("up-bow").kwarg("data", x).build(),
            TechnicalElement::DownBow(x) => ListBuilder::new("down-bow").kwarg("data", x).build(),
            TechnicalElement::Harmonic(x) => x.to_sexpr(),
            TechnicalElement::OpenString(x) => ListBuilder::new("open-string").kwarg("data", x).build(),
            TechnicalElement::ThumbPosition(x) => ListBuilder::new("thumb-position").kwarg("data", x).build(),
            TechnicalElement::Fingering(x) => x.to_sexpr(),
            TechnicalElement::Pluck(x) => x.to_sexpr(),
            TechnicalElement::DoubleTongue(x) => ListBuilder::new("double-tongue").kwarg("data", x).build(),
            TechnicalElement::TripleTongue(x) => ListBuilder::new("triple-tongue").kwarg("data", x).build(),
            TechnicalElement::Stopped(x) => ListBuilder::new("stopped").kwarg("data", x).build(),
            TechnicalElement::SnapPizzicato(x) => ListBuilder::new("snap-pizzicato").kwarg("data", x).build(),
            TechnicalElement::Fret(x) => x.to_sexpr(),
            TechnicalElement::String(x) => x.to_sexpr(),
            TechnicalElement::HammerOn(x) => ListBuilder::new("hammer-on").kwarg("data", x).build(),
            TechnicalElement::PullOff(x) => ListBuilder::new("pull-off").kwarg("data", x).build(),
            TechnicalElement::Bend(x) => x.to_sexpr(),
            TechnicalElement::Tap(x) => x.to_sexpr(),
            TechnicalElement::Heel(x) => ListBuilder::new("heel").kwarg("data", x).build(),
            TechnicalElement::Toe(x) => ListBuilder::new("toe").kwarg("data", x).build(),
            TechnicalElement::Fingernails(x) => ListBuilder::new("fingernails").kwarg("data", x).build(),
            TechnicalElement::Hole(x) => x.to_sexpr(),
            TechnicalElement::Arrow(x) => x.to_sexpr(),
            TechnicalElement::Handbell(x) => x.to_sexpr(),
            TechnicalElement::BrassBend(x) => ListBuilder::new("brass-bend").kwarg("data", x).build(),
            TechnicalElement::Flip(x) => ListBuilder::new("flip").kwarg("data", x).build(),
            TechnicalElement::Smear(x) => ListBuilder::new("smear").kwarg("data", x).build(),
            TechnicalElement::Open(x) => ListBuilder::new("open").kwarg("data", x).build(),
            TechnicalElement::HalfMuted(x) => ListBuilder::new("half-muted").kwarg("data", x).build(),
            TechnicalElement::HarmonMute(x) => x.to_sexpr(),
            TechnicalElement::Golpe(x) => ListBuilder::new("golpe").kwarg("data", x).build(),
            TechnicalElement::OtherTechnical(x) => x.to_sexpr(),
        }
    }
}

impl FromSexpr for TechnicalElement {
    /// A list whose head names a variant.
    open spec fn from_sexpr_error(s: SexprV) -> Option<ConvertErrorV> {
        match s {
            SexprV::List(items) => match head_name(items) {
                None => Some(ConvertErrorV::ExpectedHead("symbol"@)),
                Some(h) => if h == "up-bow"@ {
                    kwarg_error::<EmptyPlacement>(items, "data"@)
                } else if h == "down-bow"@ {
                    kwarg_error::<EmptyPlacement>(items, "data"@)
                } else if h == "harmonic"@ {
                    Harmonic::from_sexpr_error(s)
                } else if h == "open-string"@ {
                    kwarg_error::<EmptyPlacement>(items, "data"@)
                } else if h == "thumb-position"@ {
                    kwarg_error::<EmptyPlacement>(items, "data"@)
                } else if h == "fingering"@ {
                    Fingering::from_sexpr_error(s)
                } else if h == "pluck"@ {
                    Pluck::from_sexpr_error(s)
                } else if h == "double-tongue"@ {
                    kwarg_error::<EmptyPlacement>(items, "data"@)
                } else if h == "triple-tongue"@ {
                    kwarg_error::<EmptyPlacement>(items, "data"@)
                } else if h == "stopped"@ {
                    kwarg_error::<EmptyPlacement>(items, "data"@)
                } else if h == "snap-pizzicato"@ {
                    kwarg_error::<EmptyPlacement>(items, "data"@)
                } else if h == "fret"@ {
                    Fret::from_sexpr_error(s)
                } else if h == "string-number"@ {
                    StringNumber::from_sexpr_error(s)
                } else if h == "hammer-on"@ {
                    kwarg_error::<HammerPull>(items, "data"@)
                } else if h == "pull-off"@ {
                    kwarg_error::<HammerPull>(items, "data"@)
                } else if h == "bend"@ {
                    Bend::from_sexpr_error(s)
                } else if h == "tap"@ {
                    Tap::from_sexpr_error(s)
                } else if h == "heel"@ {
                    kwarg_error::<HeelToe>(items, "data"@)
                } else if h == "toe"@ {
                    kwarg_error::<HeelToe>(items, "data"@)
                } else if h == "fingernails"@ {
                    kwarg_error::<EmptyPlacement>(items, "data"@)
                } else if h == "hole"@ {
                    Hole::from_sexpr_error(s)
                } else if h == "arrow"@ {
                    Arrow::from_sexpr_error(s)
                } else if h == "handbell"@ {
                    Handbell::from_sexpr_error(s)
                } else if h == "brass-bend"@ {
                    kwarg_error::<EmptyPlacement>(items, "data"@)
                } else if h == "flip"@ {
                    kwarg_error::<EmptyPlacement>(items, "data"@)
                } else if h == "smear"@ {
                    kwarg_error::<EmptyPlacement>(items, "data"@)
                } else if h == "open"@ {
                    kwarg_error::<EmptyPlacement>(items, "data"@)
                } else if h == "half-muted"@ {
                    kwarg_error::<EmptyPlacement>(items, "data"@)
                } else if h == "harmon-mute"@ {
                    HarmonMute::from_sexpr_error(s)
                } else if h == "golpe"@ {
                    kwarg_error::<EmptyPlacement>(items, "data"@)
                } else if h == "other-technical"@ {
                    OtherTechnical::from_sexpr_error(s)
                } else {
                    Some(type_mismatch_v("technical-element variant"@, s))
                },
            },
            _ => Some(type_mismatch_v("technical-element"@, s)),
        }
    }

    open spec fn from_sexpr_value(s: SexprV, v: TechnicalElement) -> bool {
        match s {
            SexprV::List(items) => match v {
                TechnicalElement::UpBow(x) => head_name(items) == Some("up-bow"@) && kwarg_value::<EmptyPlacement>(items, "data"@, x),
                TechnicalElement::DownBow(x) => head_name(items) == Some("down-bow"@) && kwarg_value::<EmptyPlacement>(items, "data"@, x),
                TechnicalElement::Harmonic(x) => head_name(items) == Some("harmonic"@) && Harmonic::from_sexpr_value(s, x),
                TechnicalElement::OpenString(x) => head_name(items) == Some("open-string"@) && kwarg_value::<EmptyPlacement>(items, "data"@, x),
                TechnicalElement::ThumbPosition(x) => head_name(items) == Some("thumb-position"@) && kwarg_value::<EmptyPlacement>(items, "data"@, x),
                TechnicalElement::Fingering(x) => head_name(items) == Some("fingering"@) && Fingering::from_sexpr_value(s, x),
                TechnicalElement::Pluck(x) => head_name(items) == Some("pluck"@) && Pluck::from_sexpr_value(s, x),
                TechnicalElement::DoubleTongue(x) => head_name(items) == Some("double-tongue"@) && kwarg_value::<EmptyPlacement>(items, "data"@, x),
                TechnicalElement::TripleTongue(x) => head_name(items) == Some("triple-tongue"@) && kwarg_value::<EmptyPlacement>(items, "data"@, x),
                TechnicalElement::Stopped(x) => head_name(items) == Some("stopped"@) && kwarg_value::<EmptyPlacement>(items, "data"@, x),
                TechnicalElement::SnapPizzicato(x) => head_name(items) == Some("snap-pizzicato"@) && kwarg_value::<EmptyPlacement>(items, "data"@, x),
                TechnicalElement::Fret(x) => head_name(items) == Some("fret"@) && Fret::from_sexpr_value(s, x),
                TechnicalElement::String(x) => head_name(items) == Some("string-number"@) && StringNumber::from_sexpr_value(s, x),
                TechnicalElement::HammerOn(x) => head_name(items) == Some("hammer-on"@) && kwarg_value::<HammerPull>(items, "data"@, x),
                TechnicalElement::PullOff(x) => head_name(items) == Some("pull-off"@) && kwarg_value::<HammerPull>(items, "data"@, x),
                TechnicalElement::Bend(x) => head_name(items) == Some("bend"@) && Bend::from_sexpr_value(s, x),
                TechnicalElement::Tap(x) => head_name(items) == Some("tap"@) && Tap::from_sexpr_value(s, x),
                TechnicalElement::Heel(x) => head_name(items) == Some("heel"@) && kwarg_value::<HeelToe>(items, "data"@, x),
                TechnicalElement::Toe(x) => head_name(items) == Some("toe"@) && kwarg_value::<HeelToe>(items, "data"@, x),
                TechnicalElement::Fingernails(x) => head_name(items) == Some("fingernails"@) && kwarg_value::<EmptyPlacement>(items, "data"@, x),
                TechnicalElement::Hole(x) => head_name(items) == Some("hole"@) && Hole::from_sexpr_value(s, x),
                TechnicalElement::Arrow(x) => head_name(items) == Some("arrow"@) && Arrow::from_sexpr_value(s, x),
                TechnicalElement::Handbell(x) => head_name(items) == Some("handbell"@) && Handbell::from_sexpr_value(s, x),
                TechnicalElement::BrassBend(x) => head_name(items) == Some("brass-bend"@) && kwarg_value::<EmptyPlacement>(items, "data"@, x),
                TechnicalElement::Flip(x) => head_name(items) == Some("flip"@) && kwarg_value::<EmptyPlacement>(items, "data"@, x),
                TechnicalElement::Smear(x) => head_name(items) == Some("smear"@) && kwarg_value::<EmptyPlacement>(items, "data"@, x),
                TechnicalElement::Open(x) => head_name(items) == Some("open"@) && kwarg_value::<EmptyPlacement>(items, "data"@, x),
                TechnicalElement::HalfMuted(x) => head_name(items) == Some("half-muted"@) && kwarg_value::<EmptyPlacement>(items, "data"@, x),
                TechnicalElement::HarmonMute(x) => head_name(items) == Some("harmon-mute"@) && HarmonMute::from_sexpr_value(s, x),
                TechnicalElement::Golpe(x) => head_name(items) == Some("golpe"@) && kwarg_value::<EmptyPlacement>(items, "data"@, x),
                TechnicalElement::OtherTechnical(x) => head_name(items) == Some("other-technical"@) && OtherTechnical::from_sexpr_value(s, x),
            },
            _ => false,
        }
    }

    fn from_sexpr(sexpr: &Sexpr) -> (r: Result<TechnicalElement, ConvertError>) {
        let list = match sexpr.as_list() {
            Some(l) => l,
            None => return Err(ConvertError::type_mismatch("technical-element", sexpr)),
        };
        let h = get_head(list)?;
        if str_eq(h, "up-bow") {
            let data: EmptyPlacement = require_kwarg(list, "data")?;
            Ok(TechnicalElement::UpBow(data))
        } else if str_eq(h, "down-bow") {
            let data: EmptyPlacement = require_kwarg(list, "data")?;
            Ok(TechnicalElement::DownBow(data))
        } else if str_eq(h, "harmonic") {
            let data: Harmonic = Harmonic::from_sexpr(sexpr)?;
            Ok(TechnicalElement::Harmonic(data))
        } else if str_eq(h, "open-string") {
            let data: EmptyPlacement = require_kwarg(list, "data")?;
            Ok(TechnicalElement::OpenString(data))
        } else if str_eq(h, "thumb-position") {
            let data: EmptyPlacement = require_kwarg(list, "data")?;
            Ok(TechnicalElement::ThumbPosition(data))
        } else if str_eq(h, "fingering") {
            let data: Fingering = Fingering::from_sexpr(sexpr)?;
            Ok(TechnicalElement::Fingering(data))
        } else if str_eq(h, "pluck") {
            let data: Pluck = Pluck::from_sexpr(sexpr)?;
            Ok(TechnicalElement::Pluck(data))
        } else if str_eq(h, "double-tongue") {
            let data: EmptyPlacement = require_kwarg(list, "data")?;
            Ok(TechnicalElement::DoubleTongue(data))
        } else if str_eq(h, "triple-tongue") {
            let data: EmptyPlacement = require_kwarg(list, "data")?;
            Ok(TechnicalElement::TripleTongue(data))
        } else if str_eq(h, "stopped") {
            let data: EmptyPlacement = require_kwarg(list, "data")?;
            Ok(TechnicalElement::Stopped(data))
        } else if str_eq(h, "snap-pizzicato") {
            let data: EmptyPlacement = require_kwarg(list, "data")?;
            Ok(TechnicalElement::SnapPizzicato(data))
        } else if str_eq(h, "fret") {
            let data: Fret = Fret::from_sexpr(sexpr)?;
            Ok(TechnicalElement::Fret(data))
        } else if str_eq(h, "string-number") {
            let data: StringNumber = StringNumber::from_sexpr(sexpr)?;
            Ok(TechnicalElement::String(data))
        } else if str_eq(h, "hammer-on") {
            let data: HammerPull = require_kwarg(list, "data")?;
            Ok(TechnicalElement::HammerOn(data))
        } else if str_eq(h, "pull-off") {
            let data: HammerPull = require_kwarg(list, "data")?;
            Ok(TechnicalElement::PullOff(data))
        } else if str_eq(h, "bend") {
            let data: Bend = Bend::from_sexpr(sexpr)?;
            Ok(TechnicalElement::Bend(data))
        } else if str_eq(h, "tap") {
            let data: Tap = Tap::from_sexpr(sexpr)?;
            Ok(TechnicalElement::Tap(data))
        } else if str_eq(h, "heel") {
            let data: HeelToe = require_kwarg(list, "data")?;
            Ok(TechnicalElement::Heel(data))
        } else if str_eq(h, "toe") {
            let data: HeelToe = require_kwarg(list, "data")?;
            Ok(TechnicalElement::Toe(data))
        } else if str_eq(h, "fingernails") {
            let data: EmptyPlacement = require_kwarg(list, "data")?;
            Ok(TechnicalElement::Fingernails(data))
        } else if str_eq(h, "hole") {
            let data: Hole = Hole::from_sexpr(sexpr)?;
            Ok(TechnicalElement::Hole(data))
        } else if str_eq(h, "arrow") {
            let data: Arrow = Arrow::from_sexpr(sexpr)?;
            Ok(TechnicalElement::Arrow(data))
        } else if str_eq(h, "handbell") {
            let data: Handbell = Handbell::from_sexpr(sexpr)?;
            Ok(TechnicalElement::Handbell(data))
        } else if str_eq(h, "brass-bend") {
            let data: EmptyPlacement = require_kwarg(list, "data")?;
            Ok(TechnicalElement::BrassBend(data))
        } else if str_eq(h, "flip") {
            let data: EmptyPlacement = require_kwarg(list, "data")?;
            Ok(TechnicalElement::Flip(data))
        } else if str_eq(h, "smear") {
            let data: EmptyPlacement = require_kwarg(list, "data")?;
            Ok(TechnicalElement::Smear(data))
        } else if str_eq(h, "open") {
            let data: EmptyPlacement = require_kwarg(list, "data")?;
            Ok(TechnicalElement::Open(data))
        } else if str_eq(h, "half-muted") {
            let data: EmptyPlacement = require_kwarg(list, "data")?;
            Ok(TechnicalElement::HalfMuted(data))
        } else if str_eq(h, "harmon-mute") {
            let data: HarmonMute = HarmonMute::from_sexpr(sexpr)?;
            Ok(TechnicalElement::HarmonMute(data))
        } else if str_eq(h, "golpe") {
            let data: EmptyPlacement = require_kwarg(list, "data")?;
            Ok(TechnicalElement::Golpe(data))
        } else if str_eq(h, "other-technical") {
            let data: OtherTechnical = OtherTechnical::from_sexpr(sexpr)?;
            Ok(TechnicalElement::OtherTechnical(data))
        } else {
            Err(ConvertError::type_mismatch("technical-element variant", sexpr))
        }
    }
}

// === NotationContent ===

impl ToSexpr for NotationContent {
    /// A variant given by its own list, or a list headed by the variant's name
    /// with the value under `:data`.
    open spec fn to_sexpr_spec(&self) -> SexprV {
        match self {
            NotationContent::Tied(x) => x.to_sexpr_spec(),
            NotationContent::Slur(x) => x.to_sexpr_spec(),
            NotationContent::Tuplet(x) => x.to_sexpr_spec(),
            NotationContent::Glissando(x) => x.to_sexpr_spec(),
            NotationContent::Slide(x) => x.to_sexpr_spec(),
            NotationContent::Ornaments(x) => x.to_sexpr_spec(),
            NotationContent::Technical(x) => x.to_sexpr_spec(),
            NotationContent::Articulations(x) => x.to_sexpr_spec(),
            NotationContent::Dynamics(x) => x.to_sexpr_spec(),
            NotationContent::Fermata(x) => x.to_sexpr_spec(),
            NotationContent::Arpeggiate(x) => x.to_sexpr_spec(),
            NotationContent::NonArpeggiate(x) => x.to_sexpr_spec(),
            NotationContent::AccidentalMark(x) => x.to_sexpr_spec(),
            NotationContent::OtherNotation(x) => x.to_sexpr_spec(),
        }
    }

    fn to_sexpr(&self) -> (r: Sexpr) {
        match self {
            NotationContent::Tied(x) => x.to_sexpr(),
            NotationContent::Slur(x) => x.to_sexpr(),
            NotationContent::Tuplet(x) => x.to_sexpr(),
            NotationContent::Glissando(x) => x.to_sexpr(),
            NotationContent::Slide(x) => x.to_sexpr(),
            NotationContent::Ornaments(x) => x.to_sexpr(),
            NotationContent::Technical(x) => x.to_sexpr(),
            NotationContent::Articulations(x) => x.to_sexpr(),
            NotationContent::Dynamics(x) => x.to_sexpr(),
            NotationContent::Fermata(x) => x.to_sexpr(),
            NotationContent::Arpeggiate(x) => x.to_sexpr(),
            NotationContent::NonArpeggiate(x) => x.to_sexpr(),
            NotationContent::AccidentalMark(x) => x.to_sexpr(),
            NotationContent::OtherNotation(x) => x.to_sexpr(),
        }
    }
}

impl FromSexpr for NotationContent {
    /// A list whose head names a variant.
    open spec fn from_sexpr_error(s: SexprV) -> Option<ConvertErrorV> {
        match s {
            SexprV::List(items) => match head_name(items) {
                None => Some(ConvertErrorV::ExpectedHead("symbol"@)),
                Some(h) => if h == "tied"@ {
                    Tied::from_sexpr_error(s)
                } else if h == "slur"@ {
                    Slur::from_sexpr_error(s)
                } else if h == "tuplet"@ {
                    Box::<Tuplet>::from_sexpr_error(s)
                } else if h == "glissando"@ {
                    Glissando::from_sexpr_error(s)
                } else if h == "slide"@ {
                    Slide::from_sexpr_error(s)
                } else if h == "ornaments"@ {
                    Box::<Ornaments>::from_sexpr_error(s)
                } else if h == "technical"@ {
                    Box::<Technical>::from_sexpr_error(s)
                } else if h == "articulations"@ {
                    Box::<Articulations>::from_sexpr_error(s)
                } else if h == "dynamics"@ {
                    Box::<Dynamics>::from_sexpr_error(s)
                } else if h == "fermata"@ {
                    Fermata::from_sexpr_error(s)
                } else if h == "arpeggiate"@ {
                    Arpeggiate::from_sexpr_error(s)
                } else if h == "non-arpeggiate"@ {
                    NonArpeggiate::from_sexpr_error(s)
                } else if h == "accidental-mark"@ {
                    AccidentalMark::from_sexpr_error(s)
                } else if h == "other-notation"@ {
                    OtherNotation::from_sexpr_error(s)
                } else {
                    Some(type_mismatch_v("notation-content variant"@, s))
                },
            },
            _ => Some(type_mismatch_v("notation-content"@, s)),
        }
    }

    open spec fn from_sexpr_value(s: SexprV, v: NotationContent) -> bool {
        match s {
            SexprV::List(items) => match v {
                NotationContent::Tied(x) => head_name(items) == Some("tied"@) && Tied::from_sexpr_value(s, x),
                NotationContent::Slur(x) => head_name(items) == Some("slur"@) && Slur::from_sexpr_value(s, x),
                NotationContent::Tuplet(x) => head_name(items) == Some("tuplet"@) && Box::<Tuplet>::from_sexpr_value(s, x),
                NotationContent::Glissando(x) => head_name(items) == Some("glissando"@) && Glissando::from_sexpr_value(s, x),
                NotationContent::Slide(x) => head_name(items) == Some("slide"@) && Slide::from_sexpr_value(s, x),
                NotationContent::Ornaments(x) => head_name(items) == Some("ornaments"@) && Box::<Ornaments>::from_sexpr_value(s, x),
                NotationContent::Technical(x) => head_name(items) == Some("technical"@) && Box::<Technical>::from_sexpr_value(s, x),
                NotationContent::Articulations(x) => head_name(items) == Some("articulations"@) && Box::<Articulations>::from_sexpr_value(s, x),
                NotationContent::Dynamics(x) => head_name(items) == Some("dynamics"@) && Box::<Dynamics>::from_sexpr_value(s, x),
                NotationContent::Fermata(x) => head_name(items) == Some("fermata"@) && Fermata::from_sexpr_value(s, x),
                NotationContent::Arpeggiate(x) => head_name(items) == Some("arpeggiate"@) && Arpeggiate::from_sexpr_value(s, x),
                NotationContent::NonArpeggiate(x) => head_name(items) == Some("non-arpeggiate"@) && NonArpeggiate::from_sexpr_value(s, x),
                NotationContent::AccidentalMark(x) => head_name(items) == Some("accidental-mark"@) && AccidentalMark::from_sexpr_value(s, x),
                NotationContent::OtherNotation(x) => head_name(items) == Some("other-notation"@) && OtherNotation::from_sexpr_value(s, x),
            },
            _ => false,
        }
    }

    fn from_sexpr(sexpr: &Sexpr) -> (r: Result<NotationContent, ConvertError>) {
        let list = match sexpr.as_list() {
            Some(l) => l,
            None => return Err(ConvertError::type_mismatch("notation-content", sexpr)),
        };
        let h = get_head(list)?;
        if str_eq(h, "tied") {
            let data: Tied = Tied::from_sexpr(sexpr)?;
            Ok(NotationContent::Tied(data))
        } else if str_eq(h, "slur") {
            let data: Slur = Slur::from_sexpr(sexpr)?;
            Ok(NotationContent::Slur(data))
        } else if str_eq(h, "tuplet") {
            let data: Box<Tuplet> = Box::<Tuplet>::from_sexpr(sexpr)?;
            Ok(NotationContent::Tuplet(data))
        } else if str_eq(h, "glissando") {
            let data: Glissando = Glissando::from_sexpr(sexpr)?;
            Ok(NotationContent::Glissando(data))
        } else if str_eq(h, "slide") {
            let data: Slide = Slide::from_sexpr(sexpr)?;
            Ok(NotationContent::Slide(data))
        } else if str_eq(h, "ornaments") {
            let data: Box<Ornaments> = Box::<Ornaments>::from_sexpr(sexpr)?;
            Ok(NotationContent::Ornaments(data))
        } else if str_eq(h, "technical") {
            let data: Box<Technical> = Box::<Technical>::from_sexpr(sexpr)?;
            Ok(NotationContent::Technical(data))
        } else if str_eq(h, "articulations") {
            let data: Box<Articulations> = Box::<Articulations>::from_sexpr(sexpr)?;
            Ok(NotationContent::Articulations(data))
        } else if str_eq(h, "dynamics") {
            let data: Box<Dynamics> = Box::<Dynamics>::from_sexpr(sexpr)?;
            Ok(NotationContent::Dynamics(data))
        } else if str_eq(h, "fermata") {
            let data: Fermata = Fermata::from_sexpr(sexpr)?;
            Ok(NotationContent::Fermata(data))
        } else if str_eq(h, "arpeggiate") {
            let data: Arpeggiate = Arpeggiate::from_sexpr(sexpr)?;
            Ok(NotationContent::Arpeggiate(data))
        } else if str_eq(h, "non-arpeggiate") {
            let data: NonArpeggiate = NonArpeggiate::from_sexpr(sexpr)?;
            Ok(NotationContent::NonArpeggiate(data))
        } else if str_eq(h, "accidental-mark") {
            let data: AccidentalMark = AccidentalMark::from_sexpr(sexpr)?;
            Ok(NotationContent::AccidentalMark(data))
        } else if str_eq(h, "other-notation") {
            let data: OtherNotation = OtherNotation::from_sexpr(sexpr)?;
            Ok(NotationContent::OtherNotation(data))
        } else {
            Err(ConvertError::type_mismatch("notation-content variant", sexpr))
        }
    }
}

// === Reading back ===

impl RoundTrip for ShowTuplet {
    /// Every value.
    open spec fn writable(&self) -> bool {
        true
    }

    open spec fn same(&self, other: &Self) -> bool {
        *self == *other
    }

    proof fn lemma_not_keyword(&self) {
    }

    proof fn lemma_no_error(&self) {
        reveal_strlit("actual");
        assert("actual"@.len() == 6);
        reveal_strlit("both");
        assert("both"@.len() == 4);
        reveal_strlit("none");
        assert("none"@.len() == 4);
        assert("both"@[0] == 'b');
        assert("none"@[0] == 'n');
    }

    proof fn lemma_value(&self, v: Self) {
        reveal_strlit("actual");
        assert("actual"@.len() == 6);
        reveal_strlit("both");
        assert("both"@.len() == 4);
        reveal_strlit("none");
        assert("none"@.len() == 4);
        assert("both"@[0] == 'b');
        assert("none"@[0] == 'n');
    }
}

impl RoundTrip for LineShape {
    /// Every value.
    open spec fn writable(&self) -> bool {
        true
    }

    open spec fn same(&self, other: &Self) -> bool {
        *self == *other
    }

    proof fn lemma_not_keyword(&self) {
    }

    proof fn lemma_no_error(&self) {
        reveal_strlit("straight");
        assert("straight"@.len() == 8);
        reveal_strlit("curved");
        assert("curved"@.len() == 6);
    }

    proof fn lemma_value(&self, v: Self) {
        reveal_strlit("straight");
        assert("straight"@.len() == 8);
        reveal_strlit("curved");
        assert("curved"@.len() == 6);
    }
}

impl RoundTrip for TopBottom {
    /// Every value.
    open spec fn writable(&self) -> bool {
        true
    }

    open spec fn same(&self, other: &Self) -> bool {
        *self == *other
    }

    proof fn lemma_not_keyword(&self) {
    }

    proof fn lemma_no_error(&self) {
        reveal_strlit("top");
        assert("top"@.len() == 3);
        reveal_strlit("bottom");
        assert("bottom"@.len() == 6);
    }

    proof fn lemma_value(&self, v: Self) {
        reveal_strlit("top");
        assert("top"@.len() == 3);
        reveal_strlit("bottom");
        assert("bottom"@.len() == 6);
    }
}

impl RoundTrip for LineLength {
    /// Every value.
    open spec fn writable(&self) -> bool {
        true
    }

    open spec fn same(&self, other: &Self) -> bool {
        *self == *other
    }

    proof fn lemma_not_keyword(&self) {
    }

    proof fn lemma_no_error(&self) {
        reveal_strlit("short");
        assert("short"@.len() == 5);
        reveal_strlit("medium");
        assert("medium"@.len() == 6);
        reveal_strlit("long");
        assert("long"@.len() == 4);
    }

    proof fn lemma_value(&self, v: Self) {
        reveal_strlit("short");
        assert("short"@.len() == 5);
        reveal_strlit("medium");
        assert("medium"@.len() == 6);
        reveal_strlit("long");
        assert("long"@.len() == 4);
    }
}

impl RoundTrip for BreathMarkValue {
    /// Every value.
    open spec fn writable(&self) -> bool {
        true
    }

    open spec fn same(&self, other: &Self) -> bool {
        *self == *other
    }

    proof fn lemma_not_keyword(&self) {
    }

    proof fn lemma_no_error(&self) {
        reveal_strlit("empty");
        assert("empty"@.len() == 5);
        reveal_strlit("comma");
        assert("comma"@.len() == 5);
        reveal_strlit("tick");
        assert("tick"@.len() == 4);
        reveal_strlit("upbow");
        assert("upbow"@.len() == 5);
        reveal_strlit("salzedo");
        assert("salzedo"@.len() == 7);
        assert("empty"@[0] == 'e');
        assert("comma"@[0] == 'c');
        assert("upbow"@[0] == 'u');
    }

    proof fn lemma_value(&self, v: Self) {
        reveal_strlit("empty");
        assert("empty"@.len() == 5);
        reveal_strlit("comma");
        assert("comma"@.len() == 5);
        reveal_strlit("tick");
        assert("tick"@.len() == 4);
        reveal_strlit("upbow");
        assert("upbow"@.len() == 5);
        reveal_strlit("salzedo");
        assert("salzedo"@.len() == 7);
        assert("empty"@[0] == 'e');
        assert("comma"@[0] == 'c');
        assert("upbow"@[0] == 'u');
    }
}

impl RoundTrip for CaesuraValue {
    /// Every value.
    open spec fn writable(&self) -> bool {
        true
    }

    open spec fn same(&self, other: &Self) -> bool {
        *self == *other
    }

    proof fn lemma_not_keyword(&self) {
    }

    proof fn lemma_no_error(&self) {
        reveal_strlit("normal");
        assert("normal"@.len() == 6);
        reveal_strlit("thick");
        assert("thick"@.len() == 5);
        reveal_strlit("short");
        assert("short"@.len() == 5);
        reveal_strlit("curved");
        assert("curved"@.len() == 6);
        reveal_strlit("single");
        assert("single"@.len() == 6);
        assert("normal"@[0] == 'n');
        assert("curved"@[0] == 'c');
        assert("single"@[0] == 's');
        assert("thick"@[0] == 't');
        assert("short"@[0] == 's');
    }

    proof fn lemma_value(&self, v: Self) {
        reveal_strlit("normal");
        assert("normal"@.len() == 6);
        reveal_strlit("thick");
        assert("thick"@.len() == 5);
        reveal_strlit("short");
        assert("short"@.len() == 5);
        reveal_strlit("curved");
        assert("curved"@.len() == 6);
        reveal_strlit("single");
        assert("single"@.len() == 6);
        assert("normal"@[0] == 'n');
        assert("curved"@[0] == 'c');
        assert("single"@[0] == 's');
        assert("thick"@[0] == 't');
        assert("short"@[0] == 's');
    }
}

impl RoundTrip for StartNote {
    /// Every value.
    open spec fn writable(&self) -> bool {
        true
    }

    open spec fn same(&self, other: &Self) -> bool {
        *self == *other
    }

    proof fn lemma_not_keyword(&self) {
    }

    proof fn lemma_no_error(&self) {
        reveal_strlit("upper");
        assert("upper"@.len() == 5);
        reveal_strlit("main");
        assert("main"@.len() == 4);
        reveal_strlit("below");
        assert("below"@.len() == 5);
        assert("upper"@[0] == 'u');
        assert("below"@[0] == 'b');
    }

    proof fn lemma_value(&self, v: Self) {
        reveal_strlit("upper");
        assert("upper"@.len() == 5);
        reveal_strlit("main");
        assert("main"@.len() == 4);
        reveal_strlit("below");
        assert("below"@.len() == 5);
        assert("upper"@[0] == 'u');
        assert("below"@[0] == 'b');
    }
}

impl RoundTrip for TrillStep {
    /// Every value.
    open spec fn writable(&self) -> bool {
        true
    }

    open spec fn same(&self, other: &Self) -> bool {
        *self == *other
    }

    proof fn lemma_not_keyword(&self) {
    }

    proof fn lemma_no_error(&self) {
        reveal_strlit("whole");
        assert("whole"@.len() == 5);
        reveal_strlit("half");
        assert("half"@.len() == 4);
        reveal_strlit("unison");
        assert("unison"@.len() == 6);
    }

    proof fn lemma_value(&self, v: Self) {
        reveal_strlit("whole");
        assert("whole"@.len() == 5);
        reveal_strlit("half");
        assert("half"@.len() == 4);
        reveal_strlit("unison");
        assert("unison"@.len() == 6);
    }
}

impl RoundTrip for TwoNoteTurn {
    /// Every value.
    open spec fn writable(&self) -> bool {
        true
    }

    open spec fn same(&self, other: &Self) -> bool {
        *self == *other
    }

    proof fn lemma_not_keyword(&self) {
    }

    proof fn lemma_no_error(&self) {
        reveal_strlit("whole");
        assert("whole"@.len() == 5);
        reveal_strlit("half");
        assert("half"@.len() == 4);
        reveal_strlit("none");
        assert("none"@.len() == 4);
        assert("half"@[0] == 'h');
        assert("none"@[0] == 'n');
    }

    proof fn lemma_value(&self, v: Self) {
        reveal_strlit("whole");
        assert("whole"@.len() == 5);
        reveal_strlit("half");
        assert("half"@.len() == 4);
        reveal_strlit("none");
        assert("none"@.len() == 4);
        assert("half"@[0] == 'h');
        assert("none"@[0] == 'n');
    }
}

impl RoundTrip for TremoloType {
    /// Every value.
    open spec fn writable(&self) -> bool {
        true
    }

    open spec fn same(&self, other: &Self) -> bool {
        *self == *other
    }

    proof fn lemma_not_keyword(&self) {
    }

    proof fn lemma_no_error(&self) {
        reveal_strlit("start");
        assert("start"@.len() == 5);
        reveal_strlit("stop");
        assert("stop"@.len() == 4);
        reveal_strlit("single");
        assert("single"@.len() == 6);
        reveal_strlit("unmeasured");
        assert("unmeasured"@.len() == 10);
    }

    proof fn lemma_value(&self, v: Self) {
        reveal_strlit("start");
        assert("start"@.len() == 5);
        reveal_strlit("stop");
        assert("stop"@.len() == 4);
        reveal_strlit("single");
        assert("single"@.len() == 6);
        reveal_strlit("unmeasured");
        assert("unmeasured"@.len() == 10);
    }
}

impl RoundTrip for BendRelease {
    /// Every value.
    open spec fn writable(&self) -> bool {
        true
    }

    open spec fn same(&self, other: &Self) -> bool {
        *self == *other
    }

    proof fn lemma_not_keyword(&self) {
    }

    proof fn lemma_no_error(&self) {
        reveal_strlit("early");
        assert("early"@.len() == 5);
        reveal_strlit("late");
        assert("late"@.len() == 4);
    }

    proof fn lemma_value(&self, v: Self) {
        reveal_strlit("early");
        assert("early"@.len() == 5);
        reveal_strlit("late");
        assert("late"@.len() == 4);
    }
}

impl RoundTrip for TapHand {
    /// Every value.
    open spec fn writable(&self) -> bool {
        true
    }

    open spec fn same(&self, other: &Self) -> bool {
        *self == *other
    }

    proof fn lemma_not_keyword(&self) {
    }

    proof fn lemma_no_error(&self) {
        reveal_strlit("left");
        assert("left"@.len() == 4);
        reveal_strlit("right");
        assert("right"@.len() == 5);
    }

    proof fn lemma_value(&self, v: Self) {
        reveal_strlit("left");
        assert("left"@.len() == 4);
        reveal_strlit("right");
        assert("right"@.len() == 5);
    }
}

impl RoundTrip for HoleClosedValue {
    /// Every value.
    open spec fn writable(&self) -> bool {
        true
    }

    open spec fn same(&self, other: &Self) -> bool {
        *self == *other
    }

    proof fn lemma_not_keyword(&self) {
    }

    proof fn lemma_no_error(&self) {
        reveal_strlit("yes");
        assert("yes"@.len() == 3);
        reveal_strlit("no");
        assert("no"@.len() == 2);
        reveal_strlit("half");
        assert("half"@.len() == 4);
    }

    proof fn lemma_value(&self, v: Self) {
        reveal_strlit("yes");
        assert("yes"@.len() == 3);
        reveal_strlit("no");
        assert("no"@.len() == 2);
        reveal_strlit("half");
        assert("half"@.len() == 4);
    }
}

impl RoundTrip for HoleClosedLocation {
    /// Every value.
    open spec fn writable(&self) -> bool {
        true
    }

    open spec fn same(&self, other: &Self) -> bool {
        *self == *other
    }

    proof fn lemma_not_keyword(&self) {
    }

    proof fn lemma_no_error(&self) {
        reveal_strlit("right");
        assert("right"@.len() == 5);
        reveal_strlit("bottom");
        assert("bottom"@.len() == 6);
        reveal_strlit("left");
        assert("left"@.len() == 4);
        reveal_strlit("top");
        assert("top"@.len() == 3);
    }

    proof fn lemma_value(&self, v: Self) {
        reveal_strlit("right");
        assert("right"@.len() == 5);
        reveal_strlit("bottom");
        assert("bottom"@.len() == 6);
        reveal_strlit("left");
        assert("left"@.len() == 4);
        reveal_strlit("top");
        assert("top"@.len() == 3);
    }
}

impl RoundTrip for ArrowDirection {
    /// Every value.
    open spec fn writable(&self) -> bool {
        true
    }

    open spec fn same(&self, other: &Self) -> bool {
        *self == *other
    }

    proof fn lemma_not_keyword(&self) {
    }

    proof fn lemma_no_error(&self) {
        reveal_strlit("left");
        assert("left"@.len() == 4);
        reveal_strlit("up");
        assert("up"@.len() == 2);
        reveal_strlit("right");
        assert("right"@.len() == 5);
        reveal_strlit("down");
        assert("down"@.len() == 4);
        reveal_strlit("northwest");
        assert("northwest"@.len() == 9);
        reveal_strlit("northeast");
        assert("northeast"@.len() == 9);
        reveal_strlit("southeast");
        assert("southeast"@.len() == 9);
        reveal_strlit("southwest");
        assert("southwest"@.len() == 9);
        reveal_strlit("left-right");
        assert("left-right"@.len() == 10);
        reveal_strlit("up-down");
        assert("up-down"@.len() == 7);
        reveal_strlit("northwest-southeast");
        assert("northwest-southeast"@.len() == 19);
        reveal_strlit("northeast-southwest");
        assert("northeast-southwest"@.len() == 19);
        reveal_strlit("other");
        assert("other"@.len() == 5);
        assert("left"@[0] == 'l');
        assert("down"@[0] == 'd');
        assert("right"@[0] == 'r');
        assert("other"@[0] == 'o');
        assert("northwest"@[5] == 'w');
        assert("northeast"@[5] == 'e');
        assert("northwest"@[0] == 'n');
        assert("southeast"@[0] == 's');
        assert("southwest"@[0] == 's');
        assert("northeast"@[0] == 'n');
        assert("southeast"@[5] == 'e');
        assert("southwest"@[5] == 'w');
        assert("northwest-southeast"@[5] == 'w');
        assert("northeast-southwest"@[5] == 'e');
    }

    proof fn lemma_value(&self, v: Self) {
        reveal_strlit("left");
        assert("left"@.len() == 4);
        reveal_strlit("up");
        assert("up"@.len() == 2);
        reveal_strlit("right");
        assert("right"@.len() == 5);
        reveal_strlit("down");
        assert("down"@.len() == 4);
        reveal_strlit("northwest");
        assert("northwest"@.len() == 9);
        reveal_strlit("northeast");
        assert("northeast"@.len() == 9);
        reveal_strlit("southeast");
        assert("southeast"@.len() == 9);
        reveal_strlit("southwest");
        assert("southwest"@.len() == 9);
        reveal_strlit("left-right");
        assert("left-right"@.len() == 10);
        reveal_strlit("up-down");
        assert("up-down"@.len() == 7);
        reveal_strlit("northwest-southeast");
        assert("northwest-southeast"@.len() == 19);
        reveal_strlit("northeast-southwest");
        assert("northeast-southwest"@.len() == 19);
        reveal_strlit("other");
        assert("other"@.len() == 5);
        assert("left"@[0] == 'l');
        assert("down"@[0] == 'd');
        assert("right"@[0] == 'r');
        assert("other"@[0] == 'o');
        assert("northwest"@[5] == 'w');
        assert("northeast"@[5] == 'e');
        assert("northwest"@[0] == 'n');
        assert("southeast"@[0] == 's');
        assert("southwest"@[0] == 's');
        assert("northeast"@[0] == 'n');
        assert("southeast"@[5] == 'e');
        assert("southwest"@[5] == 'w');
        assert("northwest-southeast"@[5] == 'w');
        assert("northeast-southwest"@[5] == 'e');
    }
}

impl RoundTrip for ArrowStyle {
    /// Every value.
    open spec fn writable(&self) -> bool {
        true
    }

    open spec fn same(&self, other: &Self) -> bool {
        *self == *other
    }

    proof fn lemma_not_keyword(&self) {
    }

    proof fn lemma_no_error(&self) {
        reveal_strlit("single");
        assert("single"@.len() == 6);
        reveal_strlit("double");
        assert("double"@.len() == 6);
        reveal_strlit("filled");
        assert("filled"@.len() == 6);
        reveal_strlit("hollow");
        assert("hollow"@.len() == 6);
        reveal_strlit("paired");
        assert("paired"@.len() == 6);
        reveal_strlit("combined");
        assert("combined"@.len() == 8);
        reveal_strlit("other");
        assert("other"@.len() == 5);
        assert("single"@[0] == 's');
        assert("double"@[0] == 'd');
        assert("filled"@[0] == 'f');
        assert("hollow"@[0] == 'h');
        assert("paired"@[0] == 'p');
    }

    proof fn lemma_value(&self, v: Self) {
        reveal_strlit("single");
        assert("single"@.len() == 6);
        reveal_strlit("double");
        assert("double"@.len() == 6);
        reveal_strlit("filled");
        assert("filled"@.len() == 6);
        reveal_strlit("hollow");
        assert("hollow"@.len() == 6);
        reveal_strlit("paired");
        assert("paired"@.len() == 6);
        reveal_strlit("combined");
        assert("combined"@.len() == 8);
        reveal_strlit("other");
        assert("other"@.len() == 5);
        assert("single"@[0] == 's');
        assert("double"@[0] == 'd');
        assert("filled"@[0] == 'f');
        assert("hollow"@[0] == 'h');
        assert("paired"@[0] == 'p');
    }
}

impl RoundTrip for HandbellValue {
    /// Every value.
    open spec fn writable(&self) -> bool {
        true
    }

    open spec fn same(&self, other: &Self) -> bool {
        *self == *other
    }

    proof fn lemma_not_keyword(&self) {
    }

    proof fn lemma_no_error(&self) {
        reveal_strlit("belltree");
        assert("belltree"@.len() == 8);
        reveal_strlit("damp");
        assert("damp"@.len() == 4);
        reveal_strlit("echo");
        assert("echo"@.len() == 4);
        reveal_strlit("gyro");
        assert("gyro"@.len() == 4);
        reveal_strlit("hand-martellato");
        assert("hand-martellato"@.len() == 15);
        reveal_strlit("mallet-lift");
        assert("mallet-lift"@.len() == 11);
        reveal_strlit("mallet-table");
        assert("mallet-table"@.len() == 12);
        reveal_strlit("martellato");
        assert("martellato"@.len() == 10);
        reveal_strlit("martellato-lift");
        assert("martellato-lift"@.len() == 15);
        reveal_strlit("muted-martellato");
        assert("muted-martellato"@.len() == 16);
        reveal_strlit("pluck-lift");
        assert("pluck-lift"@.len() == 10);
        reveal_strlit("swing");
        assert("swing"@.len() == 5);
        assert("damp"@[0] == 'd');
        assert("echo"@[0] == 'e');
        assert("gyro"@[0] == 'g');
        assert("hand-martellato"@[0] == 'h');
        assert("martellato-lift"@[0] == 'm');
        assert("martellato"@[0] == 'm');
        assert("pluck-lift"@[0] == 'p');
    }

    proof fn lemma_value(&self, v: Self) {
        reveal_strlit("belltree");
        assert("belltree"@.len() == 8);
        reveal_strlit("damp");
        assert("damp"@.len() == 4);
        reveal_strlit("echo");
        assert("echo"@.len() == 4);
        reveal_strlit("gyro");
        assert("gyro"@.len() == 4);
        reveal_strlit("hand-martellato");
        assert("hand-martellato"@.len() == 15);
        reveal_strlit("mallet-lift");
        assert("mallet-lift"@.len() == 11);
        reveal_strlit("mallet-table");
        assert("mallet-table"@.len() == 12);
        reveal_strlit("martellato");
        assert("martellato"@.len() == 10);
        reveal_strlit("martellato-lift");
        assert("martellato-lift"@.len() == 15);
        reveal_strlit("muted-martellato");
        assert("muted-martellato"@.len() == 16);
        reveal_strlit("pluck-lift");
        assert("pluck-lift"@.len() == 10);
        reveal_strlit("swing");
        assert("swing"@.len() == 5);
        assert("damp"@[0] == 'd');
        assert("echo"@[0] == 'e');
        assert("gyro"@[0] == 'g');
        assert("hand-martellato"@[0] == 'h');
        assert("martellato-lift"@[0] == 'm');
        assert("martellato"@[0] == 'm');
        assert("pluck-lift"@[0] == 'p');
    }
}

impl RoundTrip for FermataShape {
    /// Every value.
    open spec fn writable(&self) -> bool {
        true
    }

    open spec fn same(&self, other: &Self) -> bool {
        *self == *other
    }

    proof fn lemma_not_keyword(&self) {
    }

    proof fn lemma_no_error(&self) {
        reveal_strlit("normal");
        assert("normal"@.len() == 6);
        reveal_strlit("angled");
        assert("angled"@.len() == 6);
        reveal_strlit("square");
        assert("square"@.len() == 6);
        reveal_strlit("double-angled");
        assert("double-angled"@.len() == 13);
        reveal_strlit("double-square");
        assert("double-square"@.len() == 13);
        reveal_strlit("double-dot");
        assert("double-dot"@.len() == 10);
        reveal_strlit("half-curve");
        assert("half-curve"@.len() == 10);
        reveal_strlit("curlew");
        assert("curlew"@.len() == 6);
        assert("normal"@[0] == 'n');
        assert("angled"@[0] == 'a');
        assert("square"@[0] == 's');
        assert("curlew"@[0] == 'c');
        assert("double-angled"@[7] == 'a');
        assert("double-square"@[7] == 's');
        assert("double-dot"@[0] == 'd');
        assert("half-curve"@[0] == 'h');
    }

    proof fn lemma_value(&self, v: Self) {
        reveal_strlit("normal");
        assert("normal"@.len() == 6);
        reveal_strlit("angled");
        assert("angled"@.len() == 6);
        reveal_strlit("square");
        assert("square"@.len() == 6);
        reveal_strlit("double-angled");
        assert("double-angled"@.len() == 13);
        reveal_strlit("double-square");
        assert("double-square"@.len() == 13);
        reveal_strlit("double-dot");
        assert("double-dot"@.len() == 10);
        reveal_strlit("half-curve");
        assert("half-curve"@.len() == 10);
        reveal_strlit("curlew");
        assert("curlew"@.len() == 6);
        assert("normal"@[0] == 'n');
        assert("angled"@[0] == 'a');
        assert("square"@[0] == 's');
        assert("curlew"@[0] == 'c');
        assert("double-angled"@[7] == 'a');
        assert("double-square"@[7] == 's');
        assert("double-dot"@[0] == 'd');
        assert("half-curve"@[0] == 'h');
    }
}

impl RoundTrip for UprightInverted {
    /// Every value.
    open spec fn writable(&self) -> bool {
        true
    }

    open spec fn same(&self, other: &Self) -> bool {
        *self == *other
    }

    proof fn lemma_not_keyword(&self) {
    }

    proof fn lemma_no_error(&self) {
        reveal_strlit("upright");
        assert("upright"@.len() == 7);
        reveal_strlit("inverted");
        assert("inverted"@.len() == 8);
    }

    proof fn lemma_value(&self, v: Self) {
        reveal_strlit("upright");
        assert("upright"@.len() == 7);
        reveal_strlit("inverted");
        assert("inverted"@.len() == 8);
    }
}

/// The head and keyword arguments of the S-expression of a `Tied`, part 1.
pub proof fn lemma_tied_items_0(x: Tied)
    requires
        x.writable(),
    ensures
        x.to_sexpr_spec() matches SexprV::List(items) && items.len() > 0 && items[0] == SexprV::Symbol("tied"@)
            && find_kwarg_spec(items, "type"@) == (Some(x.type_.to_sexpr_spec()))
            && find_kwarg_spec(items, "number"@) == (match x.number { Some(y) => Some(y.to_sexpr_spec()), None => None })
            && find_kwarg_spec(items, "line-type"@) == (match x.line_type { Some(y) => Some(y.to_sexpr_spec()), None => None })
            && find_kwarg_spec(items, "placement"@) == (match x.placement { Some(y) => Some(y.to_sexpr_spec()), None => None }),
{
        assert("number"@ != "type"@) by {
            reveal_strlit("number");
            assert("number"@.len() == 6);
            reveal_strlit("type");
            assert("type"@.len() == 4);
        }
        assert("line-type"@ != "type"@) by {
            reveal_strlit("line-type");
            assert("line-type"@.len() == 9);
            reveal_strlit("type");
            assert("type"@.len() == 4);
        }
        assert("placement"@ != "type"@) by {
            reveal_strlit("placement");
            assert("placement"@.len() == 9);
            reveal_strlit("type");
            assert("type"@.len() == 4);
        }
        assert("orientation"@ != "type"@) by {
            reveal_strlit("orientation");
            assert("orientation"@.len() == 11);
            reveal_strlit("type");
            assert("type"@.len() == 4);
        }
        assert("color"@ != "type"@) by {
            reveal_strlit("color");
            assert("color"@.len() == 5);
            reveal_strlit("type");
            assert("type"@.len() == 4);
        }
        assert("position"@ != "type"@) by {
            reveal_strlit("position");
            assert("position"@.len() == 8);
            reveal_strlit("type");
            assert("type"@.len() == 4);
        }
        assert("line-type"@ != "number"@) by {
            reveal_strlit("line-type");
            assert("line-type"@.len() == 9);
            reveal_strlit("number");
            assert("number"@.len() == 6);
        }
        assert("placement"@ != "number"@) by {
            reveal_strlit("placement");
            assert("placement"@.len() == 9);
            reveal_strlit("number");
            assert("number"@.len() == 6);
        }
        assert("orientation"@ != "number"@) by {
            reveal_strlit("orientation");
            assert("orientation"@.len() == 11);
            reveal_strlit("number");
            assert("number"@.len() == 6);
        }
        assert("color"@ != "number"@) by {
            reveal_strlit("color");
            assert("color"@.len() == 5);
            reveal_strlit("number");
            assert("number"@.len() == 6);
        }
        assert("position"@ != "number"@) by {
            reveal_strlit("position");
            assert("position"@.len() == 8);
            reveal_strlit("number");
            assert("number"@.len() == 6);
        }
        assert("placement"@ != "line-type"@) by {
            reveal_strlit("placement");
            assert("placement"@.len() == 9);
            reveal_strlit("line-type");
            assert("line-type"@.len() == 9);
            assert("placement"@[0] == 'p');
            assert("line-type"@[0] == 'l');
        }
        assert("orientation"@ != "line-type"@) by {
            reveal_strlit("orientation");
            assert("orientation"@.len() == 11);
            reveal_strlit("line-type");
            assert("line-type"@.len() == 9);
        }
        assert("color"@ != "line-type"@) by {
            reveal_strlit("color");
            assert("color"@.len() == 5);
            reveal_strlit("line-type");
            assert("line-type"@.len() == 9);
        }
        assert("position"@ != "line-type"@) by {
            reveal_strlit("position");
            assert("position"@.len() == 8);
            reveal_strlit("line-type");
            assert("line-type"@.len() == 9);
        }
        assert("orientation"@ != "placement"@) by {
            reveal_strlit("orientation");
            assert("orientation"@.len() == 11);
            reveal_strlit("placement");
            assert("placement"@.len() == 9);
        }
        assert("color"@ != "placement"@) by {
            reveal_strlit("color");
            assert("color"@.len() == 5);
            reveal_strlit("placement");
            assert("placement"@.len() == 9);
        }
        assert("position"@ != "placement"@) by {
            reveal_strlit("position");
            assert("position"@.len() == 8);
            reveal_strlit("placement");
            assert("placement"@.len() == 9);
        }
        let ghost s0 = seq![SexprV::Symbol("tied"@)];
        assert(ends_clean(s0));
        let ghost p1 = kw_pair("type"@, x.type_.to_sexpr_spec());
        x.type_.lemma_not_keyword();
        lemma_pair_piece("type"@, x.type_.to_sexpr_spec());
        let ghost s1 = s0 + p1;
        lemma_ends_clean(s0, p1);
        let ghost p2 = kw_opt("number"@, x.number);
        lemma_opt_piece("number"@, x.number);
        let ghost s2 = s1 + p2;
        lemma_ends_clean(s1, p2);
        let ghost p3 = kw_opt("line-type"@, x.line_type);
        lemma_opt_piece("line-type"@, x.line_type);
        let ghost s3 = s2 + p3;
        lemma_ends_clean(s2, p3);
        let ghost p4 = kw_opt("placement"@, x.placement);
        lemma_opt_piece("placement"@, x.placement);
        let ghost s4 = s3 + p4;
        lemma_ends_clean(s3, p4);
        let ghost p5 = kw_opt("orientation"@, x.orientation);
        lemma_opt_piece("orientation"@, x.orientation);
        let ghost s5 = s4 + p5;
        lemma_ends_clean(s4, p5);
        let ghost p6 = kw_opt("color"@, x.color);
        lemma_opt_piece("color"@, x.color);
        let ghost s6 = s5 + p6;
        lemma_ends_clean(s5, p6);
        let ghost p7 = kw_if(x.position.is_set(), "position"@, x.position.to_sexpr_spec());
        x.position.lemma_not_keyword();
        lemma_if_piece(x.position.is_set(), "position"@, x.position.to_sexpr_spec());
        let ghost s7 = s6 + p7;
        lemma_ends_clean(s6, p7);
        assert(x.to_sexpr_spec() == SexprV::List(s7));
        assert(s7[0] == SexprV::Symbol("tied"@)) by {
            assert(s1[0] == s0[0]);
            assert(s2[0] == s1[0]);
            assert(s3[0] == s2[0]);
            assert(s4[0] == s3[0]);
            assert(s5[0] == s4[0]);
            assert(s6[0] == s5[0]);
            assert(s7[0] == s6[0]);
        }
        assert(find_kwarg_spec(s7, "type"@) == (Some(x.type_.to_sexpr_spec()))) by {
            lemma_find_head_key("tied"@, "type"@);
            if p1.len() == 2 { lemma_find_hit(s0, p1, "type"@); } else { lemma_find_skip(s0, p1, "type"@); }
            lemma_find_skip(s1, p2, "type"@);
            lemma_find_skip(s2, p3, "type"@);
            lemma_find_skip(s3, p4, "type"@);
            lemma_find_skip(s4, p5, "type"@);
            lemma_find_skip(s5, p6, "type"@);
            lemma_find_skip(s6, p7, "type"@);
        }
        assert(find_kwarg_spec(s7, "number"@) == (match x.number { Some(y) => Some(y.to_sexpr_spec()), None => None })) by {
            lemma_find_head_key("tied"@, "number"@);
            lemma_find_skip(s0, p1, "number"@);
            if p2.len() == 2 { lemma_find_hit(s1, p2, "number"@); } else { lemma_find_skip(s1, p2, "number"@); }
            lemma_find_skip(s2, p3, "number"@);
            lemma_find_skip(s3, p4, "number"@);
            lemma_find_skip(s4, p5, "number"@);
            lemma_find_skip(s5, p6, "number"@);
            lemma_find_skip(s6, p7, "number"@);
        }
        assert(find_kwarg_spec(s7, "line-type"@) == (match x.line_type { Some(y) => Some(y.to_sexpr_spec()), None => None })) by {
            lemma_find_head_key("tied"@, "line-type"@);
            lemma_find_skip(s0, p1, "line-type"@);
            lemma_find_skip(s1, p2, "line-type"@);
            if p3.len() == 2 { lemma_find_hit(s2, p3, "line-type"@); } else { lemma_find_skip(s2, p3, "line-type"@); }
            lemma_find_skip(s3, p4, "line-type"@);
            lemma_find_skip(s4, p5, "line-type"@);
            lemma_find_skip(s5, p6, "line-type"@);
            lemma_find_skip(s6, p7, "line-type"@);
        }
        assert(find_kwarg_spec(s7, "placement"@) == (match x.placement { Some(y) => Some(y.to_sexpr_spec()), None => None })) by {
            lemma_find_head_key("tied"@, "placement"@);
            lemma_find_skip(s0, p1, "placement"@);
            lemma_find_skip(s1, p2, "placement"@);
            lemma_find_skip(s2, p3, "placement"@);
            if p4.len() == 2 { lemma_find_hit(s3, p4, "placement"@); } else { lemma_find_skip(s3, p4, "placement"@); }
            lemma_find_skip(s4, p5, "placement"@);
            lemma_find_skip(s5, p6, "placement"@);
            lemma_find_skip(s6, p7, "placement"@);
        }
}

/// The head and keyword arguments of the S-expression of a `Tied`, part 2.
pub proof fn lemma_tied_items_1(x: Tied)
    requires
        x.writable(),
    ensures
        x.to_sexpr_spec() matches SexprV::List(items)
            && find_kwarg_spec(items, "orientation"@) == (match x.orientation { Some(y) => Some(y.to_sexpr_spec()), None => None })
            && find_kwarg_spec(items, "color"@) == (match x.color { Some(y) => Some(y.to_sexpr_spec()), None => None })
            && find_kwarg_spec(items, "position"@) == (if x.position.is_set() { Some(x.position.to_sexpr_spec()) } else { None }),
{
        assert("type"@ != "orientation"@) by {
            reveal_strlit("type");
            assert("type"@.len() == 4);
            reveal_strlit("orientation");
            assert("orientation"@.len() == 11);
        }
        assert("number"@ != "orientation"@) by {
            reveal_strlit("number");
            assert("number"@.len() == 6);
            reveal_strlit("orientation");
            assert("orientation"@.len() == 11);
        }
        assert("line-type"@ != "orientation"@) by {
            reveal_strlit("line-type");
            assert("line-type"@.len() == 9);
            reveal_strlit("orientation");
            assert("orientation"@.len() == 11);
        }
        assert("placement"@ != "orientation"@) by {
            reveal_strlit("placement");
            assert("placement"@.len() == 9);
            reveal_strlit("orientation");
            assert("orientation"@.len() == 11);
        }
        assert("color"@ != "orientation"@) by {
            reveal_strlit("color");
            assert("color"@.len() == 5);
            reveal_strlit("orientation");
            assert("orientation"@.len() == 11);
        }
        assert("position"@ != "orientation"@) by {
            reveal_strlit("position");
            assert("position"@.len() == 8);
            reveal_strlit("orientation");
            assert("orientation"@.len() == 11);
        }
        assert("type"@ != "color"@) by {
            reveal_strlit("type");
            assert("type"@.len() == 4);
            reveal_strlit("color");
            assert("color"@.len() == 5);
        }
        assert("number"@ != "color"@) by {
            reveal_strlit("number");
            assert("number"@.len() == 6);
            reveal_strlit("color");
            assert("color"@.len() == 5);
        }
        assert("line-type"@ != "color"@) by {
            reveal_strlit("line-type");
            assert("line-type"@.len() == 9);
            reveal_strlit("color");
            assert("color"@.len() == 5);
        }
        assert("placement"@ != "color"@) by {
            reveal_strlit("placement");
            assert("placement"@.len() == 9);
            reveal_strlit("color");
            assert("color"@.len() == 5);
        }
        assert("position"@ != "color"@) by {
            reveal_strlit("position");
            assert("position"@.len() == 8);
            reveal_strlit("color");
            assert("color"@.len() == 5);
        }
        assert("type"@ != "position"@) by {
            reveal_strlit("type");
            assert("type"@.len() == 4);
            reveal_strlit("position");
            assert("position"@.len() == 8);
        }
        assert("number"@ != "position"@) by {
            reveal_strlit("number");
            assert("number"@.len() == 6);
            reveal_strlit("position");
            assert("position"@.len() == 8);
        }
        assert("line-type"@ != "position"@) by {
            reveal_strlit("line-type");
            assert("line-type"@.len() == 9);
            reveal_strlit("position");
            assert("position"@.len() == 8);
        }
        assert("placement"@ != "position"@) by {
            reveal_strlit("placement");
            assert("placement"@.len() == 9);
            reveal_strlit("position");
            assert("position"@.len() == 8);
        }
        let ghost s0 = seq![SexprV::Symbol("tied"@)];
        assert(ends_clean(s0));
        let ghost p1 = kw_pair("type"@, x.type_.to_sexpr_spec());
        x.type_.lemma_not_keyword();
        lemma_pair_piece("type"@, x.type_.to_sexpr_spec());
        let ghost s1 = s0 + p1;
        lemma_ends_clean(s0, p1);
        let ghost p2 = kw_opt("number"@, x.number);
        lemma_opt_piece("number"@, x.number);
        let ghost s2 = s1 + p2;
        lemma_ends_clean(s1, p2);
        let ghost p3 = kw_opt("line-type"@, x.line_type);
        lemma_opt_piece("line-type"@, x.line_type);
        let ghost s3 = s2 + p3;
        lemma_ends_clean(s2, p3);
        let ghost p4 = kw_opt("placement"@, x.placement);
        lemma_opt_piece("placement"@, x.placement);
        let ghost s4 = s3 + p4;
        lemma_ends_clean(s3, p4);
        let ghost p5 = kw_opt("orientation"@, x.orientation);
        lemma_opt_piece("orientation"@, x.orientation);
        let ghost s5 = s4 + p5;
        lemma_ends_clean(s4, p5);
        let ghost p6 = kw_opt("color"@, x.color);
        lemma_opt_piece("color"@, x.color);
        let ghost s6 = s5 + p6;
        lemma_ends_clean(s5, p6);
        let ghost p7 = kw_if(x.position.is_set(), "position"@, x.position.to_sexpr_spec());
        x.position.lemma_not_keyword();
        lemma_if_piece(x.position.is_set(), "position"@, x.position.to_sexpr_spec());
        let ghost s7 = s6 + p7;
        lemma_ends_clean(s6, p7);
        assert(x.to_sexpr_spec() == SexprV::List(s7));
        assert(find_kwarg_spec(s7, "orientation"@) == (match x.orientation { Some(y) => Some(y.to_sexpr_spec()), None => None })) by {
            lemma_find_head_key("tied"@, "orientation"@);
            lemma_find_skip(s0, p1, "orientation"@);
            lemma_find_skip(s1, p2, "orientation"@);
            lemma_find_skip(s2, p3, "orientation"@);
            lemma_find_skip(s3, p4, "orientation"@);
            if p5.len() == 2 { lemma_find_hit(s4, p5, "orientation"@); } else { lemma_find_skip(s4, p5, "orientation"@); }
            lemma_find_skip(s5, p6, "orientation"@);
            lemma_find_skip(s6, p7, "orientation"@);
        }
        assert(find_kwarg_spec(s7, "color"@) == (match x.color { Some(y) => Some(y.to_sexpr_spec()), None => None })) by {
            lemma_find_head_key("tied"@, "color"@);
            lemma_find_skip(s0, p1, "color"@);
            lemma_find_skip(s1, p2, "color"@);
            lemma_find_skip(s2, p3, "color"@);
            lemma_find_skip(s3, p4, "color"@);
            lemma_find_skip(s4, p5, "color"@);
            if p6.len() == 2 { lemma_find_hit(s5, p6, "color"@); } else { lemma_find_skip(s5, p6, "color"@); }
            lemma_find_skip(s6, p7, "color"@);
        }
        assert(find_kwarg_spec(s7, "position"@) == (if x.position.is_set() { Some(x.position.to_sexpr_spec()) } else { None })) by {
            lemma_find_head_key("tied"@, "position"@);
            lemma_find_skip(s0, p1, "position"@);
            lemma_find_skip(s1, p2, "position"@);
            lemma_find_skip(s2, p3, "position"@);
            lemma_find_skip(s3, p4, "position"@);
            lemma_find_skip(s4, p5, "position"@);
            lemma_find_skip(s5, p6, "position"@);
            if p7.len() == 2 { lemma_find_hit(s6, p7, "position"@); } else { lemma_find_skip(s6, p7, "position"@); }
        }
}

/// The head and the keyword arguments of the S-expression of a `Tied`.
pub proof fn lemma_tied_items(x: Tied)
    requires
        x.writable(),
    ensures
        x.to_sexpr_spec() matches SexprV::List(items) && items.len() > 0 && items[0] == SexprV::Symbol("tied"@)
            && find_kwarg_spec(items, "type"@) == (Some(x.type_.to_sexpr_spec()))
            && find_kwarg_spec(items, "number"@) == (match x.number { Some(y) => Some(y.to_sexpr_spec()), None => None })
            && find_kwarg_spec(items, "line-type"@) == (match x.line_type { Some(y) => Some(y.to_sexpr_spec()), None => None })
            && find_kwarg_spec(items, "placement"@) == (match x.placement { Some(y) => Some(y.to_sexpr_spec()), None => None })
            && find_kwarg_spec(items, "orientation"@) == (match x.orientation { Some(y) => Some(y.to_sexpr_spec()), None => None })
            && find_kwarg_spec(items, "color"@) == (match x.color { Some(y) => Some(y.to_sexpr_spec()), None => None })
            && find_kwarg_spec(items, "position"@) == (if x.position.is_set() { Some(x.position.to_sexpr_spec()) } else { None }),
{
    lemma_tied_items_0(x);
    lemma_tied_items_1(x);
}

impl RoundTrip for Tied {
    /// A value whose parts are writable.
    open spec fn writable(&self) -> bool {
        self.position.writable()
            && self.type_.writable()
            && self.number.writable()
            && self.line_type.writable()
            && self.placement.writable()
            && self.orientation.writable()
            && self.color.writable()
    }

    open spec fn same(&self, other: &Self) -> bool {
        self.position.same(&other.position)
            && self.type_.same(&other.type_)
            && self.number.same(&other.number)
            && self.line_type.same(&other.line_type)
            && self.placement.same(&other.placement)
            && self.orientation.same(&other.orientation)
            && self.color.same(&other.color)
    }

    proof fn lemma_not_keyword(&self) {
    }

    proof fn lemma_no_error(&self) {
        lemma_tied_items(*self);
        self.position.lemma_no_error();
        self.type_.lemma_no_error();
        self.number.lemma_no_error();
        self.line_type.lemma_no_error();
        self.placement.lemma_no_error();
        self.orientation.lemma_no_error();
        self.color.lemma_no_error();
    }

    proof fn lemma_value(&self, v: Self) {
        lemma_tied_items(*self);
        self.type_.lemma_value(v.type_);
        self.number.lemma_value(v.number);
        self.line_type.lemma_value(v.line_type);
        self.placement.lemma_value(v.placement);
        self.orientation.lemma_value(v.orientation);
        self.color.lemma_value(v.color);
        if self.position.is_set() {
            self.position.lemma_value(v.position);
        }
    }
}

/// The head and keyword arguments of the S-expression of a `Slur`, part 1.
pub proof fn lemma_slur_items_0(x: Slur)
    requires
        x.writable(),
    ensures
        x.to_sexpr_spec() matches SexprV::List(items) && items.len() > 0 && items[0] == SexprV::Symbol("slur"@)
            && find_kwarg_spec(items, "type"@) == (Some(x.type_.to_sexpr_spec()))
            && find_kwarg_spec(items, "number"@) == (Some(x.number.to_sexpr_spec()))
            && find_kwarg_spec(items, "line-type"@) == (match x.line_type { Some(y) => Some(y.to_sexpr_spec()), None => None })
            && find_kwarg_spec(items, "placement"@) == (match x.placement { Some(y) => Some(y.to_sexpr_spec()), None => None }),
{
        assert("number"@ != "type"@) by {
            reveal_strlit("number");
            assert("number"@.len() == 6);
            reveal_strlit("type");
            assert("type"@.len() == 4);
        }
        assert("line-type"@ != "type"@) by {
            reveal_strlit("line-type");
            assert("line-type"@.len() == 9);
            reveal_strlit("type");
            assert("type"@.len() == 4);
        }
        assert("placement"@ != "type"@) by {
            reveal_strlit("placement");
            assert("placement"@.len() == 9);
            reveal_strlit("type");
            assert("type"@.len() == 4);
        }
        assert("orientation"@ != "type"@) by {
            reveal_strlit("orientation");
            assert("orientation"@.len() == 11);
            reveal_strlit("type");
            assert("type"@.len() == 4);
        }
        assert("color"@ != "type"@) by {
            reveal_strlit("color");
            assert("color"@.len() == 5);
            reveal_strlit("type");
            assert("type"@.len() == 4);
        }
        assert("position"@ != "type"@) by {
            reveal_strlit("position");
            assert("position"@.len() == 8);
            reveal_strlit("type");
            assert("type"@.len() == 4);
        }
        assert("line-type"@ != "number"@) by {
            reveal_strlit("line-type");
            assert("line-type"@.len() == 9);
            reveal_strlit("number");
            assert("number"@.len() == 6);
        }
        assert("placement"@ != "number"@) by {
            reveal_strlit("placement");
            assert("placement"@.len() == 9);
            reveal_strlit("number");
            assert("number"@.len() == 6);
        }
        assert("orientation"@ != "number"@) by {
            reveal_strlit("orientation");
            assert("orientation"@.len() == 11);
            reveal_strlit("number");
            assert("number"@.len() == 6);
        }
        assert("color"@ != "number"@) by {
            reveal_strlit("color");
            assert("color"@.len() == 5);
            reveal_strlit("number");
            assert("number"@.len() == 6);
        }
        assert("position"@ != "number"@) by {
            reveal_strlit("position");
            assert("position"@.len() == 8);
            reveal_strlit("number");
            assert("number"@.len() == 6);
        }
        assert("placement"@ != "line-type"@) by {
            reveal_strlit("placement");
            assert("placement"@.len() == 9);
            reveal_strlit("line-type");
            assert("line-type"@.len() == 9);
            assert("placement"@[0] == 'p');
            assert("line-type"@[0] == 'l');
        }
        assert("orientation"@ != "line-type"@) by {
            reveal_strlit("orientation");
            assert("orientation"@.len() == 11);
            reveal_strlit("line-type");
            assert("line-type"@.len() == 9);
        }
        assert("color"@ != "line-type"@) by {
            reveal_strlit("color");
            assert("color"@.len() == 5);
            reveal_strlit("line-type");
            assert("line-type"@.len() == 9);
        }
        assert("position"@ != "line-type"@) by {
            reveal_strlit("position");
            assert("position"@.len() == 8);
            reveal_strlit("line-type");
            assert("line-type"@.len() == 9);
        }
        assert("orientation"@ != "placement"@) by {
            reveal_strlit("orientation");
            assert("orientation"@.len() == 11);
            reveal_strlit("placement");
            assert("placement"@.len() == 9);
        }
        assert("color"@ != "placement"@) by {
            reveal_strlit("color");
            assert("color"@.len() == 5);
            reveal_strlit("placement");
            assert("placement"@.len() == 9);
        }
        assert("position"@ != "placement"@) by {
            reveal_strlit("position");
            assert("position"@.len() == 8);
            reveal_strlit("placement");
            assert("placement"@.len() == 9);
        }
        let ghost s0 = seq![SexprV::Symbol("slur"@)];
        assert(ends_clean(s0));
        let ghost p1 = kw_pair("type"@, x.type_.to_sexpr_spec());
        x.type_.lemma_not_keyword();
        lemma_pair_piece("type"@, x.type_.to_sexpr_spec());
        let ghost s1 = s0 + p1;
        lemma_ends_clean(s0, p1);
        let ghost p2 = kw_pair("number"@, x.number.to_sexpr_spec());
        x.number.lemma_not_keyword();
        lemma_pair_piece("number"@, x.number.to_sexpr_spec());
        let ghost s2 = s1 + p2;
        lemma_ends_clean(s1, p2);
        let ghost p3 = kw_opt("line-type"@, x.line_type);
        lemma_opt_piece("line-type"@, x.line_type);
        let ghost s3 = s2 + p3;
        lemma_ends_clean(s2, p3);
        let ghost p4 = kw_opt("placement"@, x.placement);
        lemma_opt_piece("placement"@, x.placement);
        let ghost s4 = s3 + p4;
        lemma_ends_clean(s3, p4);
        let ghost p5 = kw_opt("orientation"@, x.orientation);
        lemma_opt_piece("orientation"@, x.orientation);
        let ghost s5 = s4 + p5;
        lemma_ends_clean(s4, p5);
        let ghost p6 = kw_opt("color"@, x.color);
        lemma_opt_piece("color"@, x.color);
        let ghost s6 = s5 + p6;
        lemma_ends_clean(s5, p6);
        let ghost p7 = kw_if(x.position.is_set(), "position"@, x.position.to_sexpr_spec());
        x.position.lemma_not_keyword();
        lemma_if_piece(x.position.is_set(), "position"@, x.position.to_sexpr_spec());
        let ghost s7 = s6 + p7;
        lemma_ends_clean(s6, p7);
        assert(x.to_sexpr_spec() == SexprV::List(s7));
        assert(s7[0] == SexprV::Symbol("slur"@)) by {
            assert(s1[0] == s0[0]);
            assert(s2[0] == s1[0]);
            assert(s3[0] == s2[0]);
            assert(s4[0] == s3[0]);
            assert(s5[0] == s4[0]);
            assert(s6[0] == s5[0]);
            assert(s7[0] == s6[0]);
        }
        assert(find_kwarg_spec(s7, "type"@) == (Some(x.type_.to_sexpr_spec()))) by {
            lemma_find_head_key("slur"@, "type"@);
            if p1.len() == 2 { lemma_find_hit(s0, p1, "type"@); } else { lemma_find_skip(s0, p1, "type"@); }
            lemma_find_skip(s1, p2, "type"@);
            lemma_find_skip(s2, p3, "type"@);
            lemma_find_skip(s3, p4, "type"@);
            lemma_find_skip(s4, p5, "type"@);
            lemma_find_skip(s5, p6, "type"@);
            lemma_find_skip(s6, p7, "type"@);
        }
        assert(find_kwarg_spec(s7, "number"@) == (Some(x.number.to_sexpr_spec()))) by {
            lemma_find_head_key("slur"@, "number"@);
            lemma_find_skip(s0, p1, "number"@);
            if p2.len() == 2 { lemma_find_hit(s1, p2, "number"@); } else { lemma_find_skip(s1, p2, "number"@); }
            lemma_find_skip(s2, p3, "number"@);
            lemma_find_skip(s3, p4, "number"@);
            lemma_find_skip(s4, p5, "number"@);
            lemma_find_skip(s5, p6, "number"@);
            lemma_find_skip(s6, p7, "number"@);
        }
        assert(find_kwarg_spec(s7, "line-type"@) == (match x.line_type { Some(y) => Some(y.to_sexpr_spec()), None => None })) by {
            lemma_find_head_key("slur"@, "line-type"@);
            lemma_find_skip(s0, p1, "line-type"@);
            lemma_find_skip(s1, p2, "line-type"@);
            if p3.len() == 2 { lemma_find_hit(s2, p3, "line-type"@); } else { lemma_find_skip(s2, p3, "line-type"@); }
            lemma_find_skip(s3, p4, "line-type"@);
            lemma_find_skip(s4, p5, "line-type"@);
            lemma_find_skip(s5, p6, "line-type"@);
            lemma_find_skip(s6, p7, "line-type"@);
        }
        assert(find_kwarg_spec(s7, "placement"@) == (match x.placement { Some(y) => Some(y.to_sexpr_spec()), None => None })) by {
            lemma_find_head_key("slur"@, "placement"@);
            lemma_find_skip(s0, p1, "placement"@);
            lemma_find_skip(s1, p2, "placement"@);
            lemma_find_skip(s2, p3, "placement"@);
            if p4.len() == 2 { lemma_find_hit(s3, p4, "placement"@); } else { lemma_find_skip(s3, p4, "placement"@); }
            lemma_find_skip(s4, p5, "placement"@);
            lemma_find_skip(s5, p6, "placement"@);
            lemma_find_skip(s6, p7, "placement"@);
        }
}

/// The head and keyword arguments of the S-expression of a `Slur`, part 2.
pub proof fn lemma_slur_items_1(x: Slur)
    requires
        x.writable(),
    ensures
        x.to_sexpr_spec() matches SexprV::List(items)
            && find_kwarg_spec(items, "orientation"@) == (match x.orientation { Some(y) => Some(y.to_sexpr_spec()), None => None })
            && find_kwarg_spec(items, "color"@) == (match x.color { Some(y) => Some(y.to_sexpr_spec()), None => None })
            && find_kwarg_spec(items, "position"@) == (if x.position.is_set() { Some(x.position.to_sexpr_spec()) } else { None }),
{
        assert("type"@ != "orientation"@) by {
            reveal_strlit("type");
            assert("type"@.len() == 4);
            reveal_strlit("orientation");
            assert("orientation"@.len() == 11);
        }
        assert("number"@ != "orientation"@) by {
            reveal_strlit("number");
            assert("number"@.len() == 6);
            reveal_strlit("orientation");
            assert("orientation"@.len() == 11);
        }
        assert("line-type"@ != "orientation"@) by {
            reveal_strlit("line-type");
            assert("line-type"@.len() == 9);
            reveal_strlit("orientation");
            assert("orientation"@.len() == 11);
        }
        assert("placement"@ != "orientation"@) by {
            reveal_strlit("placement");
            assert("placement"@.len() == 9);
            reveal_strlit("orientation");
            assert("orientation"@.len() == 11);
        }
        assert("color"@ != "orientation"@) by {
            reveal_strlit("color");
            assert("color"@.len() == 5);
            reveal_strlit("orientation");
            assert("orientation"@.len() == 11);
        }
        assert("position"@ != "orientation"@) by {
            reveal_strlit("position");
            assert("position"@.len() == 8);
            reveal_strlit("orientation");
            assert("orientation"@.len() == 11);
        }
        assert("type"@ != "color"@) by {
            reveal_strlit("type");
            assert("type"@.len() == 4);
            reveal_strlit("color");
            assert("color"@.len() == 5);
        }
        assert("number"@ != "color"@) by {
            reveal_strlit("number");
            assert("number"@.len() == 6);
            reveal_strlit("color");
            assert("color"@.len() == 5);
        }
        assert("line-type"@ != "color"@) by {
            reveal_strlit("line-type");
            assert("line-type"@.len() == 9);
            reveal_strlit("color");
            assert("color"@.len() == 5);
        }
        assert("placement"@ != "color"@) by {
            reveal_strlit("placement");
            assert("placement"@.len() == 9);
            reveal_strlit("color");
            assert("color"@.len() == 5);
        }
        assert("position"@ != "color"@) by {
            reveal_strlit("position");
            assert("position"@.len() == 8);
            reveal_strlit("color");
            assert("color"@.len() == 5);
        }
        assert("type"@ != "position"@) by {
            reveal_strlit("type");
            assert("type"@.len() == 4);
            reveal_strlit("position");
            assert("position"@.len() == 8);
        }
        assert("number"@ != "position"@) by {
            reveal_strlit("number");
            assert("number"@.len() == 6);
            reveal_strlit("position");
            assert("position"@.len() == 8);
        }
        assert("line-type"@ != "position"@) by {
            reveal_strlit("line-type");
            assert("line-type"@.len() == 9);
            reveal_strlit("position");
            assert("position"@.len() == 8);
        }
        assert("placement"@ != "position"@) by {
            reveal_strlit("placement");
            assert("placement"@.len() == 9);
            reveal_strlit("position");
            assert("position"@.len() == 8);
        }
        let ghost s0 = seq![SexprV::Symbol("slur"@)];
        assert(ends_clean(s0));
        let ghost p1 = kw_pair("type"@, x.type_.to_sexpr_spec());
        x.type_.lemma_not_keyword();
        lemma_pair_piece("type"@, x.type_.to_sexpr_spec());
        let ghost s1 = s0 + p1;
        lemma_ends_clean(s0, p1);
        let ghost p2 = kw_pair("number"@, x.number.to_sexpr_spec());
        x.number.lemma_not_keyword();
        lemma_pair_piece("number"@, x.number.to_sexpr_spec());
        let ghost s2 = s1 + p2;
        lemma_ends_clean(s1, p2);
        let ghost p3 = kw_opt("line-type"@, x.line_type);
        lemma_opt_piece("line-type"@, x.line_type);
        let ghost s3 = s2 + p3;
        lemma_ends_clean(s2, p3);
        let ghost p4 = kw_opt("placement"@, x.placement);
        lemma_opt_piece("placement"@, x.placement);
        let ghost s4 = s3 + p4;
        lemma_ends_clean(s3, p4);
        let ghost p5 = kw_opt("orientation"@, x.orientation);
        lemma_opt_piece("orientation"@, x.orientation);
        let ghost s5 = s4 + p5;
        lemma_ends_clean(s4, p5);
        let ghost p6 = kw_opt("color"@, x.color);
        lemma_opt_piece("color"@, x.color);
        let ghost s6 = s5 + p6;
        lemma_ends_clean(s5, p6);
        let ghost p7 = kw_if(x.position.is_set(), "position"@, x.position.to_sexpr_spec());
        x.position.lemma_not_keyword();
        lemma_if_piece(x.position.is_set(), "position"@, x.position.to_sexpr_spec());
        let ghost s7 = s6 + p7;
        lemma_ends_clean(s6, p7);
        assert(x.to_sexpr_spec() == SexprV::List(s7));
        assert(find_kwarg_spec(s7, "orientation"@) == (match x.orientation { Some(y) => Some(y.to_sexpr_spec()), None => None })) by {
            lemma_find_head_key("slur"@, "orientation"@);
            lemma_find_skip(s0, p1, "orientation"@);
            lemma_find_skip(s1, p2, "orientation"@);
            lemma_find_skip(s2, p3, "orientation"@);
            lemma_find_skip(s3, p4, "orientation"@);
            if p5.len() == 2 { lemma_find_hit(s4, p5, "orientation"@); } else { lemma_find_skip(s4, p5, "orientation"@); }
            lemma_find_skip(s5, p6, "orientation"@);
            lemma_find_skip(s6, p7, "orientation"@);
        }
        assert(find_kwarg_spec(s7, "color"@) == (match x.color { Some(y) => Some(y.to_sexpr_spec()), None => None })) by {
            lemma_find_head_key("slur"@, "color"@);
            lemma_find_skip(s0, p1, "color"@);
            lemma_find_skip(s1, p2, "color"@);
            lemma_find_skip(s2, p3, "color"@);
            lemma_find_skip(s3, p4, "color"@);
            lemma_find_skip(s4, p5, "color"@);
            if p6.len() == 2 { lemma_find_hit(s5, p6, "color"@); } else { lemma_find_skip(s5, p6, "color"@); }
            lemma_find_skip(s6, p7, "color"@);
        }
        assert(find_kwarg_spec(s7, "position"@) == (if x.position.is_set() { Some(x.position.to_sexpr_spec()) } else { None })) by {
            lemma_find_head_key("slur"@, "position"@);
            lemma_find_skip(s0, p1, "position"@);
            lemma_find_skip(s1, p2, "position"@);
            lemma_find_skip(s2, p3, "position"@);
            lemma_find_skip(s3, p4, "position"@);
            lemma_find_skip(s4, p5, "position"@);
            lemma_find_skip(s5, p6, "position"@);
            if p7.len() == 2 { lemma_find_hit(s6, p7, "position"@); } else { lemma_find_skip(s6, p7, "position"@); }
        }
}

/// The head and the keyword arguments of the S-expression of a `Slur`.
pub proof fn lemma_slur_items(x: Slur)
    requires
        x.writable(),
    ensures
        x.to_sexpr_spec() matches SexprV::List(items) && items.len() > 0 && items[0] == SexprV::Symbol("slur"@)
            && find_kwarg_spec(items, "type"@) == (Some(x.type_.to_sexpr_spec()))
            && find_kwarg_spec(items, "number"@) == (Some(x.number.to_sexpr_spec()))
            && find_kwarg_spec(items, "line-type"@) == (match x.line_type { Some(y) => Some(y.to_sexpr_spec()), None => None })
            && find_kwarg_spec(items, "placement"@) == (match x.placement { Some(y) => Some(y.to_sexpr_spec()), None => None })
            && find_kwarg_spec(items, "orientation"@) == (match x.orientation { Some(y) => Some(y.to_sexpr_spec()), None => None })
            && find_kwarg_spec(items, "color"@) == (match x.color { Some(y) => Some(y.to_sexpr_spec()), None => None })
            && find_kwarg_spec(items, "position"@) == (if x.position.is_set() { Some(x.position.to_sexpr_spec()) } else { None }),
{
    lemma_slur_items_0(x);
    lemma_slur_items_1(x);
}

impl RoundTrip for Slur {
    /// A value whose parts are writable.
    open spec fn writable(&self) -> bool {
        self.position.writable()
            && self.type_.writable()
            && self.number.writable()
            && self.line_type.writable()
            && self.placement.writable()
            && self.orientation.writable()
            && self.color.writable()
    }

    open spec fn same(&self, other: &Self) -> bool {
        self.position.same(&other.position)
            && self.type_.same(&other.type_)
            && self.number.same(&other.number)
            && self.line_type.same(&other.line_type)
            && self.placement.same(&other.placement)
            && self.orientation.same(&other.orientation)
            && self.color.same(&other.color)
    }

    proof fn lemma_not_keyword(&self) {
    }

    proof fn lemma_no_error(&self) {
        lemma_slur_items(*self);
        self.position.lemma_no_error();
        self.type_.lemma_no_error();
        self.number.lemma_no_error();
        self.line_type.lemma_no_error();
        self.placement.lemma_no_error();
        self.orientation.lemma_no_error();
        self.color.lemma_no_error();
    }

    proof fn lemma_value(&self, v: Self) {
        lemma_slur_items(*self);
        self.type_.lemma_value(v.type_);
        self.number.lemma_value(v.number);
        self.line_type.lemma_value(v.line_type);
        self.placement.lemma_value(v.placement);
        self.orientation.lemma_value(v.orientation);
        self.color.lemma_value(v.color);
        if self.position.is_set() {
            self.position.lemma_value(v.position);
        }
    }
}

/// The head and keyword arguments of the S-expression of a `Glissando`.
pub proof fn lemma_glissando_items(x: Glissando)
    requires
        x.writable(),
    ensures
        x.to_sexpr_spec() matches SexprV::List(items) && items.len() > 0 && items[0] == SexprV::Symbol("glissando"@)
            && find_kwarg_spec(items, "type"@) == (Some(x.type_.to_sexpr_spec()))
            && find_kwarg_spec(items, "number"@) == (match x.number { Some(y) => Some(y.to_sexpr_spec()), None => None })
            && find_kwarg_spec(items, "text"@) == (match x.text { Some(y) => Some(y.to_sexpr_spec()), None => None })
            && find_kwarg_spec(items, "line-type"@) == (match x.line_type { Some(y) => Some(y.to_sexpr_spec()), None => None })
            && find_kwarg_spec(items, "position"@) == (if x.position.is_set() { Some(x.position.to_sexpr_spec()) } else { None }),
{
        assert("number"@ != "type"@) by {
            reveal_strlit("number");
            assert("number"@.len() == 6);
            reveal_strlit("type");
            assert("type"@.len() == 4);
        }
        assert("text"@ != "type"@) by {
            reveal_strlit("text");
            assert("text"@.len() == 4);
            reveal_strlit("type");
            assert("type"@.len() == 4);
            assert("text"@[1] == 'e');
            assert("type"@[1] == 'y');
        }
        assert("line-type"@ != "type"@) by {
            reveal_strlit("line-type");
            assert("line-type"@.len() == 9);
            reveal_strlit("type");
            assert("type"@.len() == 4);
        }
        assert("position"@ != "type"@) by {
            reveal_strlit("position");
            assert("position"@.len() == 8);
            reveal_strlit("type");
            assert("type"@.len() == 4);
        }
        assert("text"@ != "number"@) by {
            reveal_strlit("text");
            assert("text"@.len() == 4);
            reveal_strlit("number");
            assert("number"@.len() == 6);
        }
        assert("line-type"@ != "number"@) by {
            reveal_strlit("line-type");
            assert("line-type"@.len() == 9);
            reveal_strlit("number");
            assert("number"@.len() == 6);
        }
        assert("position"@ != "number"@) by {
            reveal_strlit("position");
            assert("position"@.len() == 8);
            reveal_strlit("number");
            assert("number"@.len() == 6);
        }
        assert("line-type"@ != "text"@) by {
            reveal_strlit("line-type");
            assert("line-type"@.len() == 9);
            reveal_strlit("text");
            assert("text"@.len() == 4);
        }
        assert("position"@ != "text"@) by {
            reveal_strlit("position");
            assert("position"@.len() == 8);
            reveal_strlit("text");
            assert("text"@.len() == 4);
        }
        assert("position"@ != "line-type"@) by {
            reveal_strlit("position");
            assert("position"@.len() == 8);
            reveal_strlit("line-type");
            assert("line-type"@.len() == 9);
        }
        let ghost s0 = seq![SexprV::Symbol("glissando"@)];
        assert(ends_clean(s0));
        let ghost p1 = kw_pair("type"@, x.type_.to_sexpr_spec());
        x.type_.lemma_not_keyword();
        lemma_pair_piece("type"@, x.type_.to_sexpr_spec());
        let ghost s1 = s0 + p1;
        lemma_ends_clean(s0, p1);
        let ghost p2 = kw_opt("number"@, x.number);
        lemma_opt_piece("number"@, x.number);
        let ghost s2 = s1 + p2;
        lemma_ends_clean(s1, p2);
        let ghost p3 = kw_opt("text"@, x.text);
        lemma_opt_piece("text"@, x.text);
        let ghost s3 = s2 + p3;
        lemma_ends_clean(s2, p3);
        let ghost p4 = kw_opt("line-type"@, x.line_type);
        lemma_opt_piece("line-type"@, x.line_type);
        let ghost s4 = s3 + p4;
        lemma_ends_clean(s3, p4);
        let ghost p5 = kw_if(x.position.is_set(), "position"@, x.position.to_sexpr_spec());
        x.position.lemma_not_keyword();
        lemma_if_piece(x.position.is_set(), "position"@, x.position.to_sexpr_spec());
        let ghost s5 = s4 + p5;
        lemma_ends_clean(s4, p5);
        assert(x.to_sexpr_spec() == SexprV::List(s5));
        assert(s5[0] == SexprV::Symbol("glissando"@)) by {
            assert(s1[0] == s0[0]);
            assert(s2[0] == s1[0]);
            assert(s3[0] == s2[0]);
            assert(s4[0] == s3[0]);
            assert(s5[0] == s4[0]);
        }
        assert(find_kwarg_spec(s5, "type"@) == (Some(x.type_.to_sexpr_spec()))) by {
            lemma_find_head_key("glissando"@, "type"@);
            if p1.len() == 2 { lemma_find_hit(s0, p1, "type"@); } else { lemma_find_skip(s0, p1, "type"@); }
            lemma_find_skip(s1, p2, "type"@);
            lemma_find_skip(s2, p3, "type"@);
            lemma_find_skip(s3, p4, "type"@);
            lemma_find_skip(s4, p5, "type"@);
        }
        assert(find_kwarg_spec(s5, "number"@) == (match x.number { Some(y) => Some(y.to_sexpr_spec()), None => None })) by {
            lemma_find_head_key("glissando"@, "number"@);
            lemma_find_skip(s0, p1, "number"@);
            if p2.len() == 2 { lemma_find_hit(s1, p2, "number"@); } else { lemma_find_skip(s1, p2, "number"@); }
            lemma_find_skip(s2, p3, "number"@);
            lemma_find_skip(s3, p4, "number"@);
            lemma_find_skip(s4, p5, "number"@);
        }
        assert(find_kwarg_spec(s5, "text"@) == (match x.text { Some(y) => Some(y.to_sexpr_spec()), None => None })) by {
            lemma_find_head_key("glissando"@, "text"@);
            lemma_find_skip(s0, p1, "text"@);
            lemma_find_skip(s1, p2, "text"@);
            if p3.len() == 2 { lemma_find_hit(s2, p3, "text"@); } else { lemma_find_skip(s2, p3, "text"@); }
            lemma_find_skip(s3, p4, "text"@);
            lemma_find_skip(s4, p5, "text"@);
        }
        assert(find_kwarg_spec(s5, "line-type"@) == (match x.line_type { Some(y) => Some(y.to_sexpr_spec()), None => None })) by {
            lemma_find_head_key("glissando"@, "line-type"@);
            lemma_find_skip(s0, p1, "line-type"@);
            lemma_find_skip(s1, p2, "line-type"@);
            lemma_find_skip(s2, p3, "line-type"@);
            if p4.len() == 2 { lemma_find_hit(s3, p4, "line-type"@); } else { lemma_find_skip(s3, p4, "line-type"@); }
            lemma_find_skip(s4, p5, "line-type"@);
        }
        assert(find_kwarg_spec(s5, "position"@) == (if x.position.is_set() { Some(x.position.to_sexpr_spec()) } else { None })) by {
            lemma_find_head_key("glissando"@, "position"@);
            lemma_find_skip(s0, p1, "position"@);
            lemma_find_skip(s1, p2, "position"@);
            lemma_find_skip(s2, p3, "position"@);
            lemma_find_skip(s3, p4, "position"@);
            if p5.len() == 2 { lemma_find_hit(s4, p5, "position"@); } else { lemma_find_skip(s4, p5, "position"@); }
        }
}

impl RoundTrip for Glissando {
    /// A value whose parts are writable.
    open spec fn writable(&self) -> bool {
        self.position.writable()
            && self.type_.writable()
            && self.number.writable()
            && self.text.writable()
            && self.line_type.writable()
    }

    open spec fn same(&self, other: &Self) -> bool {
        self.position.same(&other.position)
            && self.type_.same(&other.type_)
            && self.number.same(&other.number)
            && self.text.same(&other.text)
            && self.line_type.same(&other.line_type)
    }

    proof fn lemma_not_keyword(&self) {
    }

    proof fn lemma_no_error(&self) {
        lemma_glissando_items(*self);
        self.position.lemma_no_error();
        self.type_.lemma_no_error();
        self.number.lemma_no_error();
        self.text.lemma_no_error();
        self.line_type.lemma_no_error();
    }

    proof fn lemma_value(&self, v: Self) {
        lemma_glissando_items(*self);
        self.type_.lemma_value(v.type_);
        self.number.lemma_value(v.number);
        self.text.lemma_value(v.text);
        self.line_type.lemma_value(v.line_type);
        if self.position.is_set() {
            self.position.lemma_value(v.position);
        }
    }
}

/// The head and keyword arguments of the S-expression of a `Slide`.
pub proof fn lemma_slide_items(x: Slide)
    requires
        x.writable(),
    ensures
        x.to_sexpr_spec() matches SexprV::List(items) && items.len() > 0 && items[0] == SexprV::Symbol("slide"@)
            && find_kwarg_spec(items, "type"@) == (Some(x.type_.to_sexpr_spec()))
            && find_kwarg_spec(items, "number"@) == (match x.number { Some(y) => Some(y.to_sexpr_spec()), None => None })
            && find_kwarg_spec(items, "text"@) == (match x.text { Some(y) => Some(y.to_sexpr_spec()), None => None })
            && find_kwarg_spec(items, "line-type"@) == (match x.line_type { Some(y) => Some(y.to_sexpr_spec()), None => None })
            && find_kwarg_spec(items, "position"@) == (if x.position.is_set() { Some(x.position.to_sexpr_spec()) } else { None }),
{
        assert("number"@ != "type"@) by {
            reveal_strlit("number");
            assert("number"@.len() == 6);
            reveal_strlit("type");
            assert("type"@.len() == 4);
        }
        assert("text"@ != "type"@) by {
            reveal_strlit("text");
            assert("text"@.len() == 4);
            reveal_strlit("type");
            assert("type"@.len() == 4);
            assert("text"@[1] == 'e');
            assert("type"@[1] == 'y');
        }
        assert("line-type"@ != "type"@) by {
            reveal_strlit("line-type");
            assert("line-type"@.len() == 9);
            reveal_strlit("type");
            assert("type"@.len() == 4);
        }
        assert("position"@ != "type"@) by {
            reveal_strlit("position");
            assert("position"@.len() == 8);
            reveal_strlit("type");
            assert("type"@.len() == 4);
        }
        assert("text"@ != "number"@) by {
            reveal_strlit("text");
            assert("text"@.len() == 4);
            reveal_strlit("number");
            assert("number"@.len() == 6);
        }
        assert("line-type"@ != "number"@) by {
            reveal_strlit("line-type");
            assert("line-type"@.len() == 9);
            reveal_strlit("number");
            assert("number"@.len() == 6);
        }
        assert("position"@ != "number"@) by {
            reveal_strlit("position");
            assert("position"@.len() == 8);
            reveal_strlit("number");
            assert("number"@.len() == 6);
        }
        assert("line-type"@ != "text"@) by {
            reveal_strlit("line-type");
            assert("line-type"@.len() == 9);
            reveal_strlit("text");
            assert("text"@.len() == 4);
        }
        assert("position"@ != "text"@) by {
            reveal_strlit("position");
            assert("position"@.len() == 8);
            reveal_strlit("text");
            assert("text"@.len() == 4);
        }
        assert("position"@ != "line-type"@) by {
            reveal_strlit("position");
            assert("position"@.len() == 8);
            reveal_strlit("line-type");
            assert("line-type"@.len() == 9);
        }
        let ghost s0 = seq![SexprV::Symbol("slide"@)];
        assert(ends_clean(s0));
        let ghost p1 = kw_pair("type"@, x.type_.to_sexpr_spec());
        x.type_.lemma_not_keyword();
        lemma_pair_piece("type"@, x.type_.to_sexpr_spec());
        let ghost s1 = s0 + p1;
        lemma_ends_clean(s0, p1);
        let ghost p2 = kw_opt("number"@, x.number);
        lemma_opt_piece("number"@, x.number);
        let ghost s2 = s1 + p2;
        lemma_ends_clean(s1, p2);
        let ghost p3 = kw_opt("text"@, x.text);
        lemma_opt_piece("text"@, x.text);
        let ghost s3 = s2 + p3;
        lemma_ends_clean(s2, p3);
        let ghost p4 = kw_opt("line-type"@, x.line_type);
        lemma_opt_piece("line-type"@, x.line_type);
        let ghost s4 = s3 + p4;
        lemma_ends_clean(s3, p4);
        let ghost p5 = kw_if(x.position.is_set(), "position"@, x.position.to_sexpr_spec());
        x.position.lemma_not_keyword();
        lemma_if_piece(x.position.is_set(), "position"@, x.position.to_sexpr_spec());
        let ghost s5 = s4 + p5;
        lemma_ends_clean(s4, p5);
        assert(x.to_sexpr_spec() == SexprV::List(s5));
        assert(s5[0] == SexprV::Symbol("slide"@)) by {
            assert(s1[0] == s0[0]);
            assert(s2[0] == s1[0]);
            assert(s3[0] == s2[0]);
            assert(s4[0] == s3[0]);
            assert(s5[0] == s4[0]);
        }
        assert(find_kwarg_spec(s5, "type"@) == (Some(x.type_.to_sexpr_spec()))) by {
            lemma_find_head_key("slide"@, "type"@);
            if p1.len() == 2 { lemma_find_hit(s0, p1, "type"@); } else { lemma_find_skip(s0, p1, "type"@); }
            lemma_find_skip(s1, p2, "type"@);
            lemma_find_skip(s2, p3, "type"@);
            lemma_find_skip(s3, p4, "type"@);
            lemma_find_skip(s4, p5, "type"@);
        }
        assert(find_kwarg_spec(s5, "number"@) == (match x.number { Some(y) => Some(y.to_sexpr_spec()), None => None })) by {
            lemma_find_head_key("slide"@, "number"@);
            lemma_find_skip(s0, p1, "number"@);
            if p2.len() == 2 { lemma_find_hit(s1, p2, "number"@); } else { lemma_find_skip(s1, p2, "number"@); }
            lemma_find_skip(s2, p3, "number"@);
            lemma_find_skip(s3, p4, "number"@);
            lemma_find_skip(s4, p5, "number"@);
        }
        assert(find_kwarg_spec(s5, "text"@) == (match x.text { Some(y) => Some(y.to_sexpr_spec()), None => None })) by {
            lemma_find_head_key("slide"@, "text"@);
            lemma_find_skip(s0, p1, "text"@);
            lemma_find_skip(s1, p2, "text"@);
            if p3.len() == 2 { lemma_find_hit(s2, p3, "text"@); } else { lemma_find_skip(s2, p3, "text"@); }
            lemma_find_skip(s3, p4, "text"@);
            lemma_find_skip(s4, p5, "text"@);
        }
        assert(find_kwarg_spec(s5, "line-type"@) == (match x.line_type { Some(y) => Some(y.to_sexpr_spec()), None => None })) by {
            lemma_find_head_key("slide"@, "line-type"@);
            lemma_find_skip(s0, p1, "line-type"@);
            lemma_find_skip(s1, p2, "line-type"@);
            lemma_find_skip(s2, p3, "line-type"@);
            if p4.len() == 2 { lemma_find_hit(s3, p4, "line-type"@); } else { lemma_find_skip(s3, p4, "line-type"@); }
            lemma_find_skip(s4, p5, "line-type"@);
        }
        assert(find_kwarg_spec(s5, "position"@) == (if x.position.is_set() { Some(x.position.to_sexpr_spec()) } else { None })) by {
            lemma_find_head_key("slide"@, "position"@);
            lemma_find_skip(s0, p1, "position"@);
            lemma_find_skip(s1, p2, "position"@);
            lemma_find_skip(s2, p3, "position"@);
            lemma_find_skip(s3, p4, "position"@);
            if p5.len() == 2 { lemma_find_hit(s4, p5, "position"@); } else { lemma_find_skip(s4, p5, "position"@); }
        }
}

impl RoundTrip for Slide {
    /// A value whose parts are writable.
    open spec fn writable(&self) -> bool {
        self.position.writable()
            && self.type_.writable()
            && self.number.writable()
            && self.text.writable()
            && self.line_type.writable()
    }

    open spec fn same(&self, other: &Self) -> bool {
        self.position.same(&other.position)
            && self.type_.same(&other.type_)
            && self.number.same(&other.number)
            && self.text.same(&other.text)
            && self.line_type.same(&other.line_type)
    }

    proof fn lemma_not_keyword(&self) {
    }

    proof fn lemma_no_error(&self) {
        lemma_slide_items(*self);
        self.position.lemma_no_error();
        self.type_.lemma_no_error();
        self.number.lemma_no_error();
        self.text.lemma_no_error();
        self.line_type.lemma_no_error();
    }

    proof fn lemma_value(&self, v: Self) {
        lemma_slide_items(*self);
        self.type_.lemma_value(v.type_);
        self.number.lemma_value(v.number);
        self.text.lemma_value(v.text);
        self.line_type.lemma_value(v.line_type);
        if self.position.is_set() {
            self.position.lemma_value(v.position);
        }
    }
}

/// The head and keyword arguments of the S-expression of a `TupletNumber`.
pub proof fn lemma_tuplet_number_items(x: TupletNumber)
    requires
        x.writable(),
    ensures
        x.to_sexpr_spec() matches SexprV::List(items) && items.len() > 0 && items[0] == SexprV::Symbol("tuplet-number"@)
            && find_kwarg_spec(items, "value"@) == (Some(x.value.to_sexpr_spec()))
            && find_kwarg_spec(items, "font"@) == (if x.font.is_set() { Some(x.font.to_sexpr_spec()) } else { None })
            && find_kwarg_spec(items, "color"@) == (match x.color { Some(y) => Some(y.to_sexpr_spec()), None => None }),
{
        assert("font"@ != "value"@) by {
            reveal_strlit("font");
            assert("font"@.len() == 4);
            reveal_strlit("value");
            assert("value"@.len() == 5);
        }
        assert("color"@ != "value"@) by {
            reveal_strlit("color");
            assert("color"@.len() == 5);
            reveal_strlit("value");
            assert("value"@.len() == 5);
            assert("color"@[0] == 'c');
            assert("value"@[0] == 'v');
        }
        assert("color"@ != "font"@) by {
            reveal_strlit("color");
            assert("color"@.len() == 5);
            reveal_strlit("font");
            assert("font"@.len() == 4);
        }
        let ghost s0 = seq![SexprV::Symbol("tuplet-number"@)];
        assert(ends_clean(s0));
        let ghost p1 = kw_pair("value"@, x.value.to_sexpr_spec());
        x.value.lemma_not_keyword();
        lemma_pair_piece("value"@, x.value.to_sexpr_spec());
        let ghost s1 = s0 + p1;
        lemma_ends_clean(s0, p1);
        let ghost p2 = kw_if(x.font.is_set(), "font"@, x.font.to_sexpr_spec());
        x.font.lemma_not_keyword();
        lemma_if_piece(x.font.is_set(), "font"@, x.font.to_sexpr_spec());
        let ghost s2 = s1 + p2;
        lemma_ends_clean(s1, p2);
        let ghost p3 = kw_opt("color"@, x.color);
        lemma_opt_piece("color"@, x.color);
        let ghost s3 = s2 + p3;
        lemma_ends_clean(s2, p3);
        assert(x.to_sexpr_spec() == SexprV::List(s3));
        assert(s3[0] == SexprV::Symbol("tuplet-number"@)) by {
            assert(s1[0] == s0[0]);
            assert(s2[0] == s1[0]);
            assert(s3[0] == s2[0]);
        }
        assert(find_kwarg_spec(s3, "value"@) == (Some(x.value.to_sexpr_spec()))) by {
            lemma_find_head_key("tuplet-number"@, "value"@);
            if p1.len() == 2 { lemma_find_hit(s0, p1, "value"@); } else { lemma_find_skip(s0, p1, "value"@); }
            lemma_find_skip(s1, p2, "value"@);
            lemma_find_skip(s2, p3, "value"@);
        }
        assert(find_kwarg_spec(s3, "font"@) == (if x.font.is_set() { Some(x.font.to_sexpr_spec()) } else { None })) by {
            lemma_find_head_key("tuplet-number"@, "font"@);
            lemma_find_skip(s0, p1, "font"@);
            if p2.len() == 2 { lemma_find_hit(s1, p2, "font"@); } else { lemma_find_skip(s1, p2, "font"@); }
            lemma_find_skip(s2, p3, "font"@);
        }
        assert(find_kwarg_spec(s3, "color"@) == (match x.color { Some(y) => Some(y.to_sexpr_spec()), None => None })) by {
            lemma_find_head_key("tuplet-number"@, "color"@);
            lemma_find_skip(s0, p1, "color"@);
            lemma_find_skip(s1, p2, "color"@);
            if p3.len() == 2 { lemma_find_hit(s2, p3, "color"@); } else { lemma_find_skip(s2, p3, "color"@); }
        }
}

impl RoundTrip for TupletNumber {
    /// A value whose parts are writable.
    open spec fn writable(&self) -> bool {
        self.font.writable()
            && self.value.writable()
            && self.color.writable()
    }

    open spec fn same(&self, other: &Self) -> bool {
        self.font.same(&other.font)
            && self.value.same(&other.value)
            && self.color.same(&other.color)
    }

    proof fn lemma_not_keyword(&self) {
    }

    proof fn lemma_no_error(&self) {
        lemma_tuplet_number_items(*self);
        self.font.lemma_no_error();
        self.value.lemma_no_error();
        self.color.lemma_no_error();
    }

    proof fn lemma_value(&self, v: Self) {
        lemma_tuplet_number_items(*self);
        self.value.lemma_value(v.value);
        if self.font.is_set() {
            self.font.lemma_value(v.font);
        }
        self.color.lemma_value(v.color);
    }
}

/// The head and keyword arguments of the S-expression of a `TupletType`.
pub proof fn lemma_tuplet_type_items(x: TupletType)
    requires
        x.writable(),
    ensures
        x.to_sexpr_spec() matches SexprV::List(items) && items.len() > 0 && items[0] == SexprV::Symbol("tuplet-type"@)
            && find_kwarg_spec(items, "value"@) == (Some(x.value.to_sexpr_spec()))
            && find_kwarg_spec(items, "font"@) == (if x.font.is_set() { Some(x.font.to_sexpr_spec()) } else { None })
            && find_kwarg_spec(items, "color"@) == (match x.color { Some(y) => Some(y.to_sexpr_spec()), None => None }),
{
        assert("font"@ != "value"@) by {
            reveal_strlit("font");
            assert("font"@.len() == 4);
            reveal_strlit("value");
            assert("value"@.len() == 5);
        }
        assert("color"@ != "value"@) by {
            reveal_strlit("color");
            assert("color"@.len() == 5);
            reveal_strlit("value");
            assert("value"@.len() == 5);
            assert("color"@[0] == 'c');
            assert("value"@[0] == 'v');
        }
        assert("color"@ != "font"@) by {
            reveal_strlit("color");
            assert("color"@.len() == 5);
            reveal_strlit("font");
            assert("font"@.len() == 4);
        }
        let ghost s0 = seq![SexprV::Symbol("tuplet-type"@)];
        assert(ends_clean(s0));
        let ghost p1 = kw_pair("value"@, x.value.to_sexpr_spec());
        x.value.lemma_not_keyword();
        lemma_pair_piece("value"@, x.value.to_sexpr_spec());
        let ghost s1 = s0 + p1;
        lemma_ends_clean(s0, p1);
        let ghost p2 = kw_if(x.font.is_set(), "font"@, x.font.to_sexpr_spec());
        x.font.lemma_not_keyword();
        lemma_if_piece(x.font.is_set(), "font"@, x.font.to_sexpr_spec());
        let ghost s2 = s1 + p2;
        lemma_ends_clean(s1, p2);
        let ghost p3 = kw_opt("color"@, x.color);
        lemma_opt_piece("color"@, x.color);
        let ghost s3 = s2 + p3;
        lemma_ends_clean(s2, p3);
        assert(x.to_sexpr_spec() == SexprV::List(s3));
        assert(s3[0] == SexprV::Symbol("tuplet-type"@)) by {
            assert(s1[0] == s0[0]);
            assert(s2[0] == s1[0]);
            assert(s3[0] == s2[0]);
        }
        assert(find_kwarg_spec(s3, "value"@) == (Some(x.value.to_sexpr_spec()))) by {
            lemma_find_head_key("tuplet-type"@, "value"@);
            if p1.len() == 2 { lemma_find_hit(s0, p1, "value"@); } else { lemma_find_skip(s0, p1, "value"@); }
            lemma_find_skip(s1, p2, "value"@);
            lemma_find_skip(s2, p3, "value"@);
        }
        assert(find_kwarg_spec(s3, "font"@) == (if x.font.is_set() { Some(x.font.to_sexpr_spec()) } else { None })) by {
            lemma_find_head_key("tuplet-type"@, "font"@);
            lemma_find_skip(s0, p1, "font"@);
            if p2.len() == 2 { lemma_find_hit(s1, p2, "font"@); } else { lemma_find_skip(s1, p2, "font"@); }
            lemma_find_skip(s2, p3, "font"@);
        }
        assert(find_kwarg_spec(s3, "color"@) == (match x.color { Some(y) => Some(y.to_sexpr_spec()), None => None })) by {
            lemma_find_head_key("tuplet-type"@, "color"@);
            lemma_find_skip(s0, p1, "color"@);
            lemma_find_skip(s1, p2, "color"@);
            if p3.len() == 2 { lemma_find_hit(s2, p3, "color"@); } else { lemma_find_skip(s2, p3, "color"@); }
        }
}

impl RoundTrip for TupletType {
    /// A value whose parts are writable.
    open spec fn writable(&self) -> bool {
        self.font.writable()
            && self.value.writable()
            && self.color.writable()
    }

    open spec fn same(&self, other: &Self) -> bool {
        self.font.same(&other.font)
            && self.value.same(&other.value)
            && self.color.same(&other.color)
    }

    proof fn lemma_not_keyword(&self) {
    }

    proof fn lemma_no_error(&self) {
        lemma_tuplet_type_items(*self);
        self.font.lemma_no_error();
        self.value.lemma_no_error();
        self.color.lemma_no_error();
    }

    proof fn lemma_value(&self, v: Self) {
        lemma_tuplet_type_items(*self);
        self.value.lemma_value(v.value);
        if self.font.is_set() {
            self.font.lemma_value(v.font);
        }
        self.color.lemma_value(v.color);
    }
}

/// The head and keyword arguments of the S-expression of a `TupletDot`.
pub proof fn lemma_tuplet_dot_items(x: TupletDot)
    requires
        x.writable(),
    ensures
        x.to_sexpr_spec() matches SexprV::List(items) && items.len() > 0 && items[0] == SexprV::Symbol("tuplet-dot"@)
            && find_kwarg_spec(items, "font"@) == (if x.font.is_set() { Some(x.font.to_sexpr_spec()) } else { None })
            && find_kwarg_spec(items, "color"@) == (match x.color { Some(y) => Some(y.to_sexpr_spec()), None => None }),
{
        assert("color"@ != "font"@) by {
            reveal_strlit("color");
            assert("color"@.len() == 5);
            reveal_strlit("font");
            assert("font"@.len() == 4);
        }
        let ghost s0 = seq![SexprV::Symbol("tuplet-dot"@)];
        assert(ends_clean(s0));
        let ghost p1 = kw_if(x.font.is_set(), "font"@, x.font.to_sexpr_spec());
        x.font.lemma_not_keyword();
        lemma_if_piece(x.font.is_set(), "font"@, x.font.to_sexpr_spec());
        let ghost s1 = s0 + p1;
        lemma_ends_clean(s0, p1);
        let ghost p2 = kw_opt("color"@, x.color);
        lemma_opt_piece("color"@, x.color);
        let ghost s2 = s1 + p2;
        lemma_ends_clean(s1, p2);
        assert(x.to_sexpr_spec() == SexprV::List(s2));
        assert(s2[0] == SexprV::Symbol("tuplet-dot"@)) by {
            assert(s1[0] == s0[0]);
            assert(s2[0] == s1[0]);
        }
        assert(find_kwarg_spec(s2, "font"@) == (if x.font.is_set() { Some(x.font.to_sexpr_spec()) } else { None })) by {
            lemma_find_head_key("tuplet-dot"@, "font"@);
            if p1.len() == 2 { lemma_find_hit(s0, p1, "font"@); } else { lemma_find_skip(s0, p1, "font"@); }
            lemma_find_skip(s1, p2, "font"@);
        }
        assert(find_kwarg_spec(s2, "color"@) == (match x.color { Some(y) => Some(y.to_sexpr_spec()), None => None })) by {
            lemma_find_head_key("tuplet-dot"@, "color"@);
            lemma_find_skip(s0, p1, "color"@);
            if p2.len() == 2 { lemma_find_hit(s1, p2, "color"@); } else { lemma_find_skip(s1, p2, "color"@); }
        }
}

impl RoundTrip for TupletDot {
    /// A value whose parts are writable.
    open spec fn writable(&self) -> bool {
        self.font.writable()
            && self.color.writable()
    }

    open spec fn same(&self, other: &Self) -> bool {
        self.font.same(&other.font)
            && self.color.same(&other.color)
    }

    proof fn lemma_not_keyword(&self) {
    }

    proof fn lemma_no_error(&self) {
        lemma_tuplet_dot_items(*self);
        self.font.lemma_no_error();
        self.color.lemma_no_error();
    }

    proof fn lemma_value(&self, v: Self) {
        lemma_tuplet_dot_items(*self);
        if self.font.is_set() {
            self.font.lemma_value(v.font);
        }
        self.color.lemma_value(v.color);
    }
}

/// The head and keyword arguments of the S-expression of a `TupletPortion`.
pub proof fn lemma_tuplet_portion_items(x: TupletPortion)
    requires
        x.writable(),
    ensures
        x.to_sexpr_spec() matches SexprV::List(items) && items.len() > 0 && items[0] == SexprV::Symbol("tuplet-portion"@)
            && find_kwarg_spec(items, "number"@) == (match x.tuplet_number { Some(y) => Some(y.to_sexpr_spec()), None => None })
            && find_kwarg_spec(items, "type"@) == (match x.tuplet_type { Some(y) => Some(y.to_sexpr_spec()), None => None })
            && find_kwarg_spec(items, "dots"@) == (if x.tuplet_dots@.len() > 0 { Some(x.tuplet_dots.to_sexpr_spec()) } else { None }),
{
        assert("type"@ != "number"@) by {
            reveal_strlit("type");
            assert("type"@.len() == 4);
            reveal_strlit("number");
            assert("number"@.len() == 6);
        }
        assert("dots"@ != "number"@) by {
            reveal_strlit("dots");
            assert("dots"@.len() == 4);
            reveal_strlit("number");
            assert("number"@.len() == 6);
        }
        assert("dots"@ != "type"@) by {
            reveal_strlit("dots");
            assert("dots"@.len() == 4);
            reveal_strlit("type");
            assert("type"@.len() == 4);
            assert("dots"@[0] == 'd');
            assert("type"@[0] == 't');
        }
        let ghost s0 = seq![SexprV::Symbol("tuplet-portion"@)];
        assert(ends_clean(s0));
        let ghost p1 = kw_opt("number"@, x.tuplet_number);
        lemma_opt_piece("number"@, x.tuplet_number);
        let ghost s1 = s0 + p1;
        lemma_ends_clean(s0, p1);
        let ghost p2 = kw_opt("type"@, x.tuplet_type);
        lemma_opt_piece("type"@, x.tuplet_type);
        let ghost s2 = s1 + p2;
        lemma_ends_clean(s1, p2);
        let ghost p3 = kw_if(x.tuplet_dots@.len() > 0, "dots"@, x.tuplet_dots.to_sexpr_spec());
        x.tuplet_dots.lemma_not_keyword();
        lemma_if_piece(x.tuplet_dots@.len() > 0, "dots"@, x.tuplet_dots.to_sexpr_spec());
        let ghost s3 = s2 + p3;
        lemma_ends_clean(s2, p3);
        assert(x.to_sexpr_spec() == SexprV::List(s3));
        assert(s3[0] == SexprV::Symbol("tuplet-portion"@)) by {
            assert(s1[0] == s0[0]);
            assert(s2[0] == s1[0]);
            assert(s3[0] == s2[0]);
        }
        assert(find_kwarg_spec(s3, "number"@) == (match x.tuplet_number { Some(y) => Some(y.to_sexpr_spec()), None => None })) by {
            lemma_find_head_key("tuplet-portion"@, "number"@);
            if p1.len() == 2 { lemma_find_hit(s0, p1, "number"@); } else { lemma_find_skip(s0, p1, "number"@); }
            lemma_find_skip(s1, p2, "number"@);
            lemma_find_skip(s2, p3, "number"@);
        }
        assert(find_kwarg_spec(s3, "type"@) == (match x.tuplet_type { Some(y) => Some(y.to_sexpr_spec()), None => None })) by {
            lemma_find_head_key("tuplet-portion"@, "type"@);
            lemma_find_skip(s0, p1, "type"@);
            if p2.len() == 2 { lemma_find_hit(s1, p2, "type"@); } else { lemma_find_skip(s1, p2, "type"@); }
            lemma_find_skip(s2, p3, "type"@);
        }
        assert(find_kwarg_spec(s3, "dots"@) == (if x.tuplet_dots@.len() > 0 { Some(x.tuplet_dots.to_sexpr_spec()) } else { None })) by {
            lemma_find_head_key("tuplet-portion"@, "dots"@);
            lemma_find_skip(s0, p1, "dots"@);
            lemma_find_skip(s1, p2, "dots"@);
            if p3.len() == 2 { lemma_find_hit(s2, p3, "dots"@); } else { lemma_find_skip(s2, p3, "dots"@); }
        }
}

impl RoundTrip for TupletPortion {
    /// A value whose parts are writable.
    open spec fn writable(&self) -> bool {
        self.tuplet_number.writable()
            && self.tuplet_type.writable()
            && self.tuplet_dots.writable()
    }

    open spec fn same(&self, other: &Self) -> bool {
        self.tuplet_number.same(&other.tuplet_number)
            && self.tuplet_type.same(&other.tuplet_type)
            && self.tuplet_dots.same(&other.tuplet_dots)
    }

    proof fn lemma_not_keyword(&self) {
    }

    proof fn lemma_no_error(&self) {
        lemma_tuplet_portion_items(*self);
        self.tuplet_number.lemma_no_error();
        self.tuplet_type.lemma_no_error();
        self.tuplet_dots.lemma_no_error();
    }

    proof fn lemma_value(&self, v: Self) {
        lemma_tuplet_portion_items(*self);
        self.tuplet_number.lemma_value(v.tuplet_number);
        self.tuplet_type.lemma_value(v.tuplet_type);
        if self.tuplet_dots@.len() > 0 {
            self.tuplet_dots.lemma_value(v.tuplet_dots);
        }
    }
}

/// The head and keyword arguments of the S-expression of a `Tuplet`, part 1.
pub proof fn lemma_tuplet_items_0(x: Tuplet)
    requires
        x.writable(),
    ensures
        x.to_sexpr_spec() matches SexprV::List(items) && items.len() > 0 && items[0] == SexprV::Symbol("tuplet"@)
            && find_kwarg_spec(items, "type"@) == (Some(x.type_.to_sexpr_spec()))
            && find_kwarg_spec(items, "number"@) == (match x.number { Some(y) => Some(y.to_sexpr_spec()), None => None })
            && find_kwarg_spec(items, "bracket"@) == (match x.bracket { Some(y) => Some(y.to_sexpr_spec()), None => None })
            && find_kwarg_spec(items, "show-number"@) == (match x.show_number { Some(y) => Some(y.to_sexpr_spec()), None => None }),
{
        assert("number"@ != "type"@) by {
            reveal_strlit("number");
            assert("number"@.len() == 6);
            reveal_strlit("type");
            assert("type"@.len() == 4);
        }
        assert("bracket"@ != "type"@) by {
            reveal_strlit("bracket");
            assert("bracket"@.len() == 7);
            reveal_strlit("type");
            assert("type"@.len() == 4);
        }
        assert("show-number"@ != "type"@) by {
            reveal_strlit("show-number");
            assert("show-number"@.len() == 11);
            reveal_strlit("type");
            assert("type"@.len() == 4);
        }
        assert("show-type"@ != "type"@) by {
            reveal_strlit("show-type");
            assert("show-type"@.len() == 9);
            reveal_strlit("type");
            assert("type"@.len() == 4);
        }
        assert("line-shape"@ != "type"@) by {
            reveal_strlit("line-shape");
            assert("line-shape"@.len() == 10);
            reveal_strlit("type");
            assert("type"@.len() == 4);
        }
        assert("placement"@ != "type"@) by {
            reveal_strlit("placement");
            assert("placement"@.len() == 9);
            reveal_strlit("type");
            assert("type"@.len() == 4);
        }
        assert("position"@ != "type"@) by {
            reveal_strlit("position");
            assert("position"@.len() == 8);
            reveal_strlit("type");
            assert("type"@.len() == 4);
        }
        assert("actual"@ != "type"@) by {
            reveal_strlit("actual");
            assert("actual"@.len() == 6);
            reveal_strlit("type");
            assert("type"@.len() == 4);
        }
        assert("normal"@ != "type"@) by {
            reveal_strlit("normal");
            assert("normal"@.len() == 6);
            reveal_strlit("type");
            assert("type"@.len() == 4);
        }
        assert("bracket"@ != "number"@) by {
            reveal_strlit("bracket");
            assert("bracket"@.len() == 7);
            reveal_strlit("number");
            assert("number"@.len() == 6);
        }
        assert("show-number"@ != "number"@) by {
            reveal_strlit("show-number");
            assert("show-number"@.len() == 11);
            reveal_strlit("number");
            assert("number"@.len() == 6);
        }
        assert("show-type"@ != "number"@) by {
            reveal_strlit("show-type");
            assert("show-type"@.len() == 9);
            reveal_strlit("number");
            assert("number"@.len() == 6);
        }
        assert("line-shape"@ != "number"@) by {
            reveal_strlit("line-shape");
            assert("line-shape"@.len() == 10);
            reveal_strlit("number");
            assert("number"@.len() == 6);
        }
        assert("placement"@ != "number"@) by {
            reveal_strlit("placement");
            assert("placement"@.len() == 9);
            reveal_strlit("number");
            assert("number"@.len() == 6);
        }
        assert("position"@ != "number"@) by {
            reveal_strlit("position");
            assert("position"@.len() == 8);
            reveal_strlit("number");
            assert("number"@.len() == 6);
        }
        assert("actual"@ != "number"@) by {
            reveal_strlit("actual");
            assert("actual"@.len() == 6);
            reveal_strlit("number");
            assert("number"@.len() == 6);
            assert("actual"@[0] == 'a');
            assert("number"@[0] == 'n');
        }
        assert("normal"@ != "number"@) by {
            reveal_strlit("normal");
            assert("normal"@.len() == 6);
            reveal_strlit("number");
            assert("number"@.len() == 6);
            assert("normal"@[1] == 'o');
            assert("number"@[1] == 'u');
        }
        assert("show-number"@ != "bracket"@) by {
            reveal_strlit("show-number");
            assert("show-number"@.len() == 11);
            reveal_strlit("bracket");
            assert("bracket"@.len() == 7);
        }
        assert("show-type"@ != "bracket"@) by {
            reveal_strlit("show-type");
            assert("show-type"@.len() == 9);
            reveal_strlit("bracket");
            assert("bracket"@.len() == 7);
        }
        assert("line-shape"@ != "bracket"@) by {
            reveal_strlit("line-shape");
            assert("line-shape"@.len() == 10);
            reveal_strlit("bracket");
            assert("bracket"@.len() == 7);
        }
        assert("placement"@ != "bracket"@) by {
            reveal_strlit("placement");
            assert("placement"@.len() == 9);
            reveal_strlit("bracket");
            assert("bracket"@.len() == 7);
        }
        assert("position"@ != "bracket"@) by {
            reveal_strlit("position");
            assert("position"@.len() == 8);
            reveal_strlit("bracket");
            assert("bracket"@.len() == 7);
        }
        assert("actual"@ != "bracket"@) by {
            reveal_strlit("actual");
            assert("actual"@.len() == 6);
            reveal_strlit("bracket");
            assert("bracket"@.len() == 7);
        }
        assert("normal"@ != "bracket"@) by {
            reveal_strlit("normal");
            assert("normal"@.len() == 6);
            reveal_strlit("bracket");
            assert("bracket"@.len() == 7);
        }
        assert("show-type"@ != "show-number"@) by {
            reveal_strlit("show-type");
            assert("show-type"@.len() == 9);
            reveal_strlit("show-number");
            assert("show-number"@.len() == 11);
        }
        assert("line-shape"@ != "show-number"@) by {
            reveal_strlit("line-shape");
            assert("line-shape"@.len() == 10);
            reveal_strlit("show-number");
            assert("show-number"@.len() == 11);
        }
        assert("placement"@ != "show-number"@) by {
            reveal_strlit("placement");
            assert("placement"@.len() == 9);
            reveal_strlit("show-number");
            assert("show-number"@.len() == 11);
        }
        assert("position"@ != "show-number"@) by {
            reveal_strlit("position");
            assert("position"@.len() == 8);
            reveal_strlit("show-number");
            assert("show-number"@.len() == 11);
        }
        assert("actual"@ != "show-number"@) by {
            reveal_strlit("actual");
            assert("actual"@.len() == 6);
            reveal_strlit("show-number");
            assert("show-number"@.len() == 11);
        }
        assert("normal"@ != "show-number"@) by {
            reveal_strlit("normal");
            assert("normal"@.len() == 6);
            reveal_strlit("show-number");
            assert("show-number"@.len() == 11);
        }
        let ghost s0 = seq![SexprV::Symbol("tuplet"@)];
        assert(ends_clean(s0));
        let ghost p1 = kw_pair("type"@, x.type_.to_sexpr_spec());
        x.type_.lemma_not_keyword();
        lemma_pair_piece("type"@, x.type_.to_sexpr_spec());
        let ghost s1 = s0 + p1;
        lemma_ends_clean(s0, p1);
        let ghost p2 = kw_opt("number"@, x.number);
        lemma_opt_piece("number"@, x.number);
        let ghost s2 = s1 + p2;
        lemma_ends_clean(s1, p2);
        let ghost p3 = kw_opt("bracket"@, x.bracket);
        lemma_opt_piece("bracket"@, x.bracket);
        let ghost s3 = s2 + p3;
        lemma_ends_clean(s2, p3);
        let ghost p4 = kw_opt("show-number"@, x.show_number);
        lemma_opt_piece("show-number"@, x.show_number);
        let ghost s4 = s3 + p4;
        lemma_ends_clean(s3, p4);
        let ghost p5 = kw_opt("show-type"@, x.show_type);
        lemma_opt_piece("show-type"@, x.show_type);
        let ghost s5 = s4 + p5;
        lemma_ends_clean(s4, p5);
        let ghost p6 = kw_opt("line-shape"@, x.line_shape);
        lemma_opt_piece("line-shape"@, x.line_shape);
        let ghost s6 = s5 + p6;
        lemma_ends_clean(s5, p6);
        let ghost p7 = kw_opt("placement"@, x.placement);
        lemma_opt_piece("placement"@, x.placement);
        let ghost s7 = s6 + p7;
        lemma_ends_clean(s6, p7);
        let ghost p8 = kw_if(x.position.is_set(), "position"@, x.position.to_sexpr_spec());
        x.position.lemma_not_keyword();
        lemma_if_piece(x.position.is_set(), "position"@, x.position.to_sexpr_spec());
        let ghost s8 = s7 + p8;
        lemma_ends_clean(s7, p8);
        let ghost p9 = kw_opt("actual"@, x.tuplet_actual);
        lemma_opt_piece("actual"@, x.tuplet_actual);
        let ghost s9 = s8 + p9;
        lemma_ends_clean(s8, p9);
        let ghost p10 = kw_opt("normal"@, x.tuplet_normal);
        lemma_opt_piece("normal"@, x.tuplet_normal);
        let ghost s10 = s9 + p10;
        lemma_ends_clean(s9, p10);
        assert(x.to_sexpr_spec() == SexprV::List(s10));
        assert(s10[0] == SexprV::Symbol("tuplet"@)) by {
            assert(s1[0] == s0[0]);
            assert(s2[0] == s1[0]);
            assert(s3[0] == s2[0]);
            assert(s4[0] == s3[0]);
            assert(s5[0] == s4[0]);
            assert(s6[0] == s5[0]);
            assert(s7[0] == s6[0]);
            assert(s8[0] == s7[0]);
            assert(s9[0] == s8[0]);
            assert(s10[0] == s9[0]);
        }
        assert(find_kwarg_spec(s10, "type"@) == (Some(x.type_.to_sexpr_spec()))) by {
            lemma_find_head_key("tuplet"@, "type"@);
            if p1.len() == 2 { lemma_find_hit(s0, p1, "type"@); } else { lemma_find_skip(s0, p1, "type"@); }
            lemma_find_skip(s1, p2, "type"@);
            lemma_find_skip(s2, p3, "type"@);
            lemma_find_skip(s3, p4, "type"@);
            lemma_find_skip(s4, p5, "type"@);
            lemma_find_skip(s5, p6, "type"@);
            lemma_find_skip(s6, p7, "type"@);
            lemma_find_skip(s7, p8, "type"@);
            lemma_find_skip(s8, p9, "type"@);
            lemma_find_skip(s9, p10, "type"@);
        }
        assert(find_kwarg_spec(s10, "number"@) == (match x.number { Some(y) => Some(y.to_sexpr_spec()), None => None })) by {
            lemma_find_head_key("tuplet"@, "number"@);
            lemma_find_skip(s0, p1, "number"@);
            if p2.len() == 2 { lemma_find_hit(s1, p2, "number"@); } else { lemma_find_skip(s1, p2, "number"@); }
            lemma_find_skip(s2, p3, "number"@);
            lemma_find_skip(s3, p4, "number"@);
            lemma_find_skip(s4, p5, "number"@);
            lemma_find_skip(s5, p6, "number"@);
            lemma_find_skip(s6, p7, "number"@);
            lemma_find_skip(s7, p8, "number"@);
            lemma_find_skip(s8, p9, "number"@);
            lemma_find_skip(s9, p10, "number"@);
        }
        assert(find_kwarg_spec(s10, "bracket"@) == (match x.bracket { Some(y) => Some(y.to_sexpr_spec()), None => None })) by {
            lemma_find_head_key("tuplet"@, "bracket"@);
            lemma_find_skip(s0, p1, "bracket"@);
            lemma_find_skip(s1, p2, "bracket"@);
            if p3.len() == 2 { lemma_find_hit(s2, p3, "bracket"@); } else { lemma_find_skip(s2, p3, "bracket"@); }
            lemma_find_skip(s3, p4, "bracket"@);
            lemma_find_skip(s4, p5, "bracket"@);
            lemma_find_skip(s5, p6, "bracket"@);
            lemma_find_skip(s6, p7, "bracket"@);
            lemma_find_skip(s7, p8, "bracket"@);
            lemma_find_skip(s8, p9, "bracket"@);
            lemma_find_skip(s9, p10, "bracket"@);
        }
        assert(find_kwarg_spec(s10, "show-number"@) == (match x.show_number { Some(y) => Some(y.to_sexpr_spec()), None => None })) by {
            lemma_find_head_key("tuplet"@, "show-number"@);
            lemma_find_skip(s0, p1, "show-number"@);
            lemma_find_skip(s1, p2, "show-number"@);
            lemma_find_skip(s2, p3, "show-number"@);
            if p4.len() == 2 { lemma_find_hit(s3, p4, "show-number"@); } else { lemma_find_skip(s3, p4, "show-number"@); }
            lemma_find_skip(s4, p5, "show-number"@);
            lemma_find_skip(s5, p6, "show-number"@);
            lemma_find_skip(s6, p7, "show-number"@);
            lemma_find_skip(s7, p8, "show-number"@);
            lemma_find_skip(s8, p9, "show-number"@);
            lemma_find_skip(s9, p10, "show-number"@);
        }
}

/// The head and keyword arguments of the S-expression of a `Tuplet`, part 2.
pub proof fn lemma_tuplet_items_1(x: Tuplet)
    requires
        x.writable(),
    ensures
        x.to_sexpr_spec() matches SexprV::List(items)
            && find_kwarg_spec(items, "show-type"@) == (match x.show_type { Some(y) => Some(y.to_sexpr_spec()), None => None })
            && find_kwarg_spec(items, "line-shape"@) == (match x.line_shape { Some(y) => Some(y.to_sexpr_spec()), None => None })
            && find_kwarg_spec(items, "placement"@) == (match x.placement { Some(y) => Some(y.to_sexpr_spec()), None => None })
            && find_kwarg_spec(items, "position"@) == (if x.position.is_set() { Some(x.position.to_sexpr_spec()) } else { None }),
{
        assert("type"@ != "show-type"@) by {
            reveal_strlit("type");
            assert("type"@.len() == 4);
            reveal_strlit("show-type");
            assert("show-type"@.len() == 9);
        }
        assert("number"@ != "show-type"@) by {
            reveal_strlit("number");
            assert("number"@.len() == 6);
            reveal_strlit("show-type");
            assert("show-type"@.len() == 9);
        }
        assert("bracket"@ != "show-type"@) by {
            reveal_strlit("bracket");
            assert("bracket"@.len() == 7);
            reveal_strlit("show-type");
            assert("show-type"@.len() == 9);
        }
        assert("show-number"@ != "show-type"@) by {
            reveal_strlit("show-number");
            assert("show-number"@.len() == 11);
            reveal_strlit("show-type");
            assert("show-type"@.len() == 9);
        }
        assert("line-shape"@ != "show-type"@) by {
            reveal_strlit("line-shape");
            assert("line-shape"@.len() == 10);
            reveal_strlit("show-type");
            assert("show-type"@.len() == 9);
        }
        assert("placement"@ != "show-type"@) by {
            reveal_strlit("placement");
            assert("placement"@.len() == 9);
            reveal_strlit("show-type");
            assert("show-type"@.len() == 9);
            assert("placement"@[0] == 'p');
            assert("show-type"@[0] == 's');
        }
        assert("position"@ != "show-type"@) by {
            reveal_strlit("position");
            assert("position"@.len() == 8);
            reveal_strlit("show-type");
            assert("show-type"@.len() == 9);
        }
        assert("actual"@ != "show-type"@) by {
            reveal_strlit("actual");
            assert("actual"@.len() == 6);
            reveal_strlit("show-type");
            assert("show-type"@.len() == 9);
        }
        assert("normal"@ != "show-type"@) by {
            reveal_strlit("normal");
            assert("normal"@.len() == 6);
            reveal_strlit("show-type");
            assert("show-type"@.len() == 9);
        }
        assert("type"@ != "line-shape"@) by {
            reveal_strlit("type");
            assert("type"@.len() == 4);
            reveal_strlit("line-shape");
            assert("line-shape"@.len() == 10);
        }
        assert("number"@ != "line-shape"@) by {
            reveal_strlit("number");
            assert("number"@.len() == 6);
            reveal_strlit("line-shape");
            assert("line-shape"@.len() == 10);
        }
        assert("bracket"@ != "line-shape"@) by {
            reveal_strlit("bracket");
            assert("bracket"@.len() == 7);
            reveal_strlit("line-shape");
            assert("line-shape"@.len() == 10);
        }
        assert("show-number"@ != "line-shape"@) by {
            reveal_strlit("show-number");
            assert("show-number"@.len() == 11);
            reveal_strlit("line-shape");
            assert("line-shape"@.len() == 10);
        }
        assert("placement"@ != "line-shape"@) by {
            reveal_strlit("placement");
            assert("placement"@.len() == 9);
            reveal_strlit("line-shape");
            assert("line-shape"@.len() == 10);
        }
        assert("position"@ != "line-shape"@) by {
            reveal_strlit("position");
            assert("position"@.len() == 8);
            reveal_strlit("line-shape");
            assert("line-shape"@.len() == 10);
        }
        assert("actual"@ != "line-shape"@) by {
            reveal_strlit("actual");
            assert("actual"@.len() == 6);
            reveal_strlit("line-shape");
            assert("line-shape"@.len() == 10);
        }
        assert("normal"@ != "line-shape"@) by {
            reveal_strlit("normal");
            assert("normal"@.len() == 6);
            reveal_strlit("line-shape");
            assert("line-shape"@.len() == 10);
        }
        assert("type"@ != "placement"@) by {
            reveal_strlit("type");
            assert("type"@.len() == 4);
            reveal_strlit("placement");
            assert("placement"@.len() == 9);
        }
        assert("number"@ != "placement"@) by {
            reveal_strlit("number");
            assert("number"@.len() == 6);
            reveal_strlit("placement");
            assert("placement"@.len() == 9);
        }
        assert("bracket"@ != "placement"@) by {
            reveal_strlit("bracket");
            assert("bracket"@.len() == 7);
            reveal_strlit("placement");
            assert("placement"@.len() == 9);
        }
        assert("show-number"@ != "placement"@) by {
            reveal_strlit("show-number");
            assert("show-number"@.len() == 11);
            reveal_strlit("placement");
            assert("placement"@.len() == 9);
        }
        assert("position"@ != "placement"@) by {
            reveal_strlit("position");
            assert("position"@.len() == 8);
            reveal_strlit("placement");
            assert("placement"@.len() == 9);
        }
        assert("actual"@ != "placement"@) by {
            reveal_strlit("actual");
            assert("actual"@.len() == 6);
            reveal_strlit("placement");
            assert("placement"@.len() == 9);
        }
        assert("normal"@ != "placement"@) by {
            reveal_strlit("normal");
            assert("normal"@.len() == 6);
            reveal_strlit("placement");
            assert("placement"@.len() == 9);
        }
        assert("type"@ != "position"@) by {
            reveal_strlit("type");
            assert("type"@.len() == 4);
            reveal_strlit("position");
            assert("position"@.len() == 8);
        }
        assert("number"@ != "position"@) by {
            reveal_strlit("number");
            assert("number"@.len() == 6);
            reveal_strlit("position");
            assert("position"@.len() == 8);
        }
        assert("bracket"@ != "position"@) by {
            reveal_strlit("bracket");
            assert("bracket"@.len() == 7);
            reveal_strlit("position");
            assert("position"@.len() == 8);
        }
        assert("show-number"@ != "position"@) by {
            reveal_strlit("show-number");
            assert("show-number"@.len() == 11);
            reveal_strlit("position");
            assert("position"@.len() == 8);
        }
        assert("actual"@ != "position"@) by {
            reveal_strlit("actual");
            assert("actual"@.len() == 6);
            reveal_strlit("position");
            assert("position"@.len() == 8);
        }
        assert("normal"@ != "position"@) by {
            reveal_strlit("normal");
            assert("normal"@.len() == 6);
            reveal_strlit("position");
            assert("position"@.len() == 8);
        }
        let ghost s0 = seq![SexprV::Symbol("tuplet"@)];
        assert(ends_clean(s0));
        let ghost p1 = kw_pair("type"@, x.type_.to_sexpr_spec());
        x.type_.lemma_not_keyword();
        lemma_pair_piece("type"@, x.type_.to_sexpr_spec());
        let ghost s1 = s0 + p1;
        lemma_ends_clean(s0, p1);
        let ghost p2 = kw_opt("number"@, x.number);
        lemma_opt_piece("number"@, x.number);
        let ghost s2 = s1 + p2;
        lemma_ends_clean(s1, p2);
        let ghost p3 = kw_opt("bracket"@, x.bracket);
        lemma_opt_piece("bracket"@, x.bracket);
        let ghost s3 = s2 + p3;
        lemma_ends_clean(s2, p3);
        let ghost p4 = kw_opt("show-number"@, x.show_number);
        lemma_opt_piece("show-number"@, x.show_number);
        let ghost s4 = s3 + p4;
        lemma_ends_clean(s3, p4);
        let ghost p5 = kw_opt("show-type"@, x.show_type);
        lemma_opt_piece("show-type"@, x.show_type);
        let ghost s5 = s4 + p5;
        lemma_ends_clean(s4, p5);
        let ghost p6 = kw_opt("line-shape"@, x.line_shape);
        lemma_opt_piece("line-shape"@, x.line_shape);
        let ghost s6 = s5 + p6;
        lemma_ends_clean(s5, p6);
        let ghost p7 = kw_opt("placement"@, x.placement);
        lemma_opt_piece("placement"@, x.placement);
        let ghost s7 = s6 + p7;
        lemma_ends_clean(s6, p7);
        let ghost p8 = kw_if(x.position.is_set(), "position"@, x.position.to_sexpr_spec());
        x.position.lemma_not_keyword();
        lemma_if_piece(x.position.is_set(), "position"@, x.position.to_sexpr_spec());
        let ghost s8 = s7 + p8;
        lemma_ends_clean(s7, p8);
        let ghost p9 = kw_opt("actual"@, x.tuplet_actual);
        lemma_opt_piece("actual"@, x.tuplet_actual);
        let ghost s9 = s8 + p9;
        lemma_ends_clean(s8, p9);
        let ghost p10 = kw_opt("normal"@, x.tuplet_normal);
        lemma_opt_piece("normal"@, x.tuplet_normal);
        let ghost s10 = s9 + p10;
        lemma_ends_clean(s9, p10);
        assert(x.to_sexpr_spec() == SexprV::List(s10));
        assert(find_kwarg_spec(s10, "show-type"@) == (match x.show_type { Some(y) => Some(y.to_sexpr_spec()), None => None })) by {
            lemma_find_head_key("tuplet"@, "show-type"@);
            lemma_find_skip(s0, p1, "show-type"@);
            lemma_find_skip(s1, p2, "show-type"@);
            lemma_find_skip(s2, p3, "show-type"@);
            lemma_find_skip(s3, p4, "show-type"@);
            if p5.len() == 2 { lemma_find_hit(s4, p5, "show-type"@); } else { lemma_find_skip(s4, p5, "show-type"@); }
            lemma_find_skip(s5, p6, "show-type"@);
            lemma_find_skip(s6, p7, "show-type"@);
            lemma_find_skip(s7, p8, "show-type"@);
            lemma_find_skip(s8, p9, "show-type"@);
            lemma_find_skip(s9, p10, "show-type"@);
        }
        assert(find_kwarg_spec(s10, "line-shape"@) == (match x.line_shape { Some(y) => Some(y.to_sexpr_spec()), None => None })) by {
            lemma_find_head_key("tuplet"@, "line-shape"@);
            lemma_find_skip(s0, p1, "line-shape"@);
            lemma_find_skip(s1, p2, "line-shape"@);
            lemma_find_skip(s2, p3, "line-shape"@);
            lemma_find_skip(s3, p4, "line-shape"@);
            lemma_find_skip(s4, p5, "line-shape"@);
            if p6.len() == 2 { lemma_find_hit(s5, p6, "line-shape"@); } else { lemma_find_skip(s5, p6, "line-shape"@); }
            lemma_find_skip(s6, p7, "line-shape"@);
            lemma_find_skip(s7, p8, "line-shape"@);
            lemma_find_skip(s8, p9, "line-shape"@);
            lemma_find_skip(s9, p10, "line-shape"@);
        }
        assert(find_kwarg_spec(s10, "placement"@) == (match x.placement { Some(y) => Some(y.to_sexpr_spec()), None => None })) by {
            lemma_find_head_key("tuplet"@, "placement"@);
            lemma_find_skip(s0, p1, "placement"@);
            lemma_find_skip(s1, p2, "placement"@);
            lemma_find_skip(s2, p3, "placement"@);
            lemma_find_skip(s3, p4, "placement"@);
            lemma_find_skip(s4, p5, "placement"@);
            lemma_find_skip(s5, p6, "placement"@);
            if p7.len() == 2 { lemma_find_hit(s6, p7, "placement"@); } else { lemma_find_skip(s6, p7, "placement"@); }
            lemma_find_skip(s7, p8, "placement"@);
            lemma_find_skip(s8, p9, "placement"@);
            lemma_find_skip(s9, p10, "placement"@);
        }
        assert(find_kwarg_spec(s10, "position"@) == (if x.position.is_set() { Some(x.position.to_sexpr_spec()) } else { None })) by {
            lemma_find_head_key("tuplet"@, "position"@);
            lemma_find_skip(s0, p1, "position"@);
            lemma_find_skip(s1, p2, "position"@);
            lemma_find_skip(s2, p3, "position"@);
            lemma_find_skip(s3, p4, "position"@);
            lemma_find_skip(s4, p5, "position"@);
            lemma_find_skip(s5, p6, "position"@);
            lemma_find_skip(s6, p7, "position"@);
            if p8.len() == 2 { lemma_find_hit(s7, p8, "position"@); } else { lemma_find_skip(s7, p8, "position"@); }
            lemma_find_skip(s8, p9, "position"@);
            lemma_find_skip(s9, p10, "position"@);
        }
}

/// The head and keyword arguments of the S-expression of a `Tuplet`, part 3.
pub proof fn lemma_tuplet_items_2(x: Tuplet)
    requires
        x.writable(),
    ensures
        x.to_sexpr_spec() matches SexprV::List(items)
            && find_kwarg_spec(items, "actual"@) == (match x.tuplet_actual { Some(y) => Some(y.to_sexpr_spec()), None => None })
            && find_kwarg_spec(items, "normal"@) == (match x.tuplet_normal { Some(y) => Some(y.to_sexpr_spec()), None => None }),
{
        assert("type"@ != "actual"@) by {
            reveal_strlit("type");
            assert("type"@.len() == 4);
            reveal_strlit("actual");
            assert("actual"@.len() == 6);
        }
        assert("number"@ != "actual"@) by {
            reveal_strlit("number");
            assert("number"@.len() == 6);
            reveal_strlit("actual");
            assert("actual"@.len() == 6);
            assert("number"@[0] == 'n');
            assert("actual"@[0] == 'a');
        }
        assert("bracket"@ != "actual"@) by {
            reveal_strlit("bracket");
            assert("bracket"@.len() == 7);
            reveal_strlit("actual");
            assert("actual"@.len() == 6);
        }
        assert("show-number"@ != "actual"@) by {
            reveal_strlit("show-number");
            assert("show-number"@.len() == 11);
            reveal_strlit("actual");
            assert("actual"@.len() == 6);
        }
        assert("show-type"@ != "actual"@) by {
            reveal_strlit("show-type");
            assert("show-type"@.len() == 9);
            reveal_strlit("actual");
            assert("actual"@.len() == 6);
        }
        assert("line-shape"@ != "actual"@) by {
            reveal_strlit("line-shape");
            assert("line-shape"@.len() == 10);
            reveal_strlit("actual");
            assert("actual"@.len() == 6);
        }
        assert("placement"@ != "actual"@) by {
            reveal_strlit("placement");
            assert("placement"@.len() == 9);
            reveal_strlit("actual");
            assert("actual"@.len() == 6);
        }
        assert("position"@ != "actual"@) by {
            reveal_strlit("position");
            assert("position"@.len() == 8);
            reveal_strlit("actual");
            assert("actual"@.len() == 6);
        }
        assert("normal"@ != "actual"@) by {
            reveal_strlit("normal");
            assert("normal"@.len() == 6);
            reveal_strlit("actual");
            assert("actual"@.len() == 6);
            assert("normal"@[0] == 'n');
            assert("actual"@[0] == 'a');
        }
        assert("type"@ != "normal"@) by {
            reveal_strlit("type");
            assert("type"@.len() == 4);
            reveal_strlit("normal");
            assert("normal"@.len() == 6);
        }
        assert("number"@ != "normal"@) by {
            reveal_strlit("number");
            assert("number"@.len() == 6);
            reveal_strlit("normal");
            assert("normal"@.len() == 6);
            assert("number"@[1] == 'u');
            assert("normal"@[1] == 'o');
        }
        assert("bracket"@ != "normal"@) by {
            reveal_strlit("bracket");
            assert("bracket"@.len() == 7);
            reveal_strlit("normal");
            assert("normal"@.len() == 6);
        }
        assert("show-number"@ != "normal"@) by {
            reveal_strlit("show-number");
            assert("show-number"@.len() == 11);
            reveal_strlit("normal");
            assert("normal"@.len() == 6);
        }
        assert("show-type"@ != "normal"@) by {
            reveal_strlit("show-type");
            assert("show-type"@.len() == 9);
            reveal_strlit("normal");
            assert("normal"@.len() == 6);
        }
        assert("line-shape"@ != "normal"@) by {
            reveal_strlit("line-shape");
            assert("line-shape"@.len() == 10);
            reveal_strlit("normal");
            assert("normal"@.len() == 6);
        }
        assert("placement"@ != "normal"@) by {
            reveal_strlit("placement");
            assert("placement"@.len() == 9);
            reveal_strlit("normal");
            assert("normal"@.len() == 6);
        }
        assert("position"@ != "normal"@) by {
            reveal_strlit("position");
            assert("position"@.len() == 8);
            reveal_strlit("normal");
            assert("normal"@.len() == 6);
        }
        let ghost s0 = seq![SexprV::Symbol("tuplet"@)];
        assert(ends_clean(s0));
        let ghost p1 = kw_pair("type"@, x.type_.to_sexpr_spec());
        x.type_.lemma_not_keyword();
        lemma_pair_piece("type"@, x.type_.to_sexpr_spec());
        let ghost s1 = s0 + p1;
        lemma_ends_clean(s0, p1);
        let ghost p2 = kw_opt("number"@, x.number);
        lemma_opt_piece("number"@, x.number);
        let ghost s2 = s1 + p2;
        lemma_ends_clean(s1, p2);
        let ghost p3 = kw_opt("bracket"@, x.bracket);
        lemma_opt_piece("bracket"@, x.bracket);
        let ghost s3 = s2 + p3;
        lemma_ends_clean(s2, p3);
        let ghost p4 = kw_opt("show-number"@, x.show_number);
        lemma_opt_piece("show-number"@, x.show_number);
        let ghost s4 = s3 + p4;
        lemma_ends_clean(s3, p4);
        let ghost p5 = kw_opt("show-type"@, x.show_type);
        lemma_opt_piece("show-type"@, x.show_type);
        let ghost s5 = s4 + p5;
        lemma_ends_clean(s4, p5);
        let ghost p6 = kw_opt("line-shape"@, x.line_shape);
        lemma_opt_piece("line-shape"@, x.line_shape);
        let ghost s6 = s5 + p6;
        lemma_ends_clean(s5, p6);
        let ghost p7 = kw_opt("placement"@, x.placement);
        lemma_opt_piece("placement"@, x.placement);
        let ghost s7 = s6 + p7;
        lemma_ends_clean(s6, p7);
        let ghost p8 = kw_if(x.position.is_set(), "position"@, x.position.to_sexpr_spec());
        x.position.lemma_not_keyword();
        lemma_if_piece(x.position.is_set(), "position"@, x.position.to_sexpr_spec());
        let ghost s8 = s7 + p8;
        lemma_ends_clean(s7, p8);
        let ghost p9 = kw_opt("actual"@, x.tuplet_actual);
        lemma_opt_piece("actual"@, x.tuplet_actual);
        let ghost s9 = s8 + p9;
        lemma_ends_clean(s8, p9);
        let ghost p10 = kw_opt("normal"@, x.tuplet_normal);
        lemma_opt_piece("normal"@, x.tuplet_normal);
        let ghost s10 = s9 + p10;
        lemma_ends_clean(s9, p10);
        assert(x.to_sexpr_spec() == SexprV::List(s10));
        assert(find_kwarg_spec(s10, "actual"@) == (match x.tuplet_actual { Some(y) => Some(y.to_sexpr_spec()), None => None })) by {
            lemma_find_head_key("tuplet"@, "actual"@);
            lemma_find_skip(s0, p1, "actual"@);
            lemma_find_skip(s1, p2, "actual"@);
            lemma_find_skip(s2, p3, "actual"@);
            lemma_find_skip(s3, p4, "actual"@);
            lemma_find_skip(s4, p5, "actual"@);
            lemma_find_skip(s5, p6, "actual"@);
            lemma_find_skip(s6, p7, "actual"@);
            lemma_find_skip(s7, p8, "actual"@);
            if p9.len() == 2 { lemma_find_hit(s8, p9, "actual"@); } else { lemma_find_skip(s8, p9, "actual"@); }
            lemma_find_skip(s9, p10, "actual"@);
        }
        assert(find_kwarg_spec(s10, "normal"@) == (match x.tuplet_normal { Some(y) => Some(y.to_sexpr_spec()), None => None })) by {
            lemma_find_head_key("tuplet"@, "normal"@);
            lemma_find_skip(s0, p1, "normal"@);
            lemma_find_skip(s1, p2, "normal"@);
            lemma_find_skip(s2, p3, "normal"@);
            lemma_find_skip(s3, p4, "normal"@);
            lemma_find_skip(s4, p5, "normal"@);
            lemma_find_skip(s5, p6, "normal"@);
            lemma_find_skip(s6, p7, "normal"@);
            lemma_find_skip(s7, p8, "normal"@);
            lemma_find_skip(s8, p9, "normal"@);
            if p10.len() == 2 { lemma_find_hit(s9, p10, "normal"@); } else { lemma_find_skip(s9, p10, "normal"@); }
        }
}

/// The head and the keyword arguments of the S-expression of a `Tuplet`.
pub proof fn lemma_tuplet_items(x: Tuplet)
    requires
        x.writable(),
    ensures
        x.to_sexpr_spec() matches SexprV::List(items) && items.len() > 0 && items[0] == SexprV::Symbol("tuplet"@)
            && find_kwarg_spec(items, "type"@) == (Some(x.type_.to_sexpr_spec()))
            && find_kwarg_spec(items, "number"@) == (match x.number { Some(y) => Some(y.to_sexpr_spec()), None => None })
            && find_kwarg_spec(items, "bracket"@) == (match x.bracket { Some(y) => Some(y.to_sexpr_spec()), None => None })
            && find_kwarg_spec(items, "show-number"@) == (match x.show_number { Some(y) => Some(y.to_sexpr_spec()), None => None })
            && find_kwarg_spec(items, "show-type"@) == (match x.show_type { Some(y) => Some(y.to_sexpr_spec()), None => None })
            && find_kwarg_spec(items, "line-shape"@) == (match x.line_shape { Some(y) => Some(y.to_sexpr_spec()), None => None })
            && find_kwarg_spec(items, "placement"@) == (match x.placement { Some(y) => Some(y.to_sexpr_spec()), None => None })
            && find_kwarg_spec(items, "position"@) == (if x.position.is_set() { Some(x.position.to_sexpr_spec()) } else { None })
            && find_kwarg_spec(items, "actual"@) == (match x.tuplet_actual { Some(y) => Some(y.to_sexpr_spec()), None => None })
            && find_kwarg_spec(items, "normal"@) == (match x.tuplet_normal { Some(y) => Some(y.to_sexpr_spec()), None => None }),
{
    lemma_tuplet_items_0(x);
    lemma_tuplet_items_1(x);
    lemma_tuplet_items_2(x);
}

impl RoundTrip for Tuplet {
    /// A value whose parts are writable.
    open spec fn writable(&self) -> bool {
        self.position.writable()
            && self.type_.writable()
            && self.number.writable()
            && self.bracket.writable()
            && self.show_number.writable()
            && self.show_type.writable()
            && self.line_shape.writable()
            && self.placement.writable()
            && self.tuplet_actual.writable()
            && self.tuplet_normal.writable()
    }

    open spec fn same(&self, other: &Self) -> bool {
        self.position.same(&other.position)
            && self.type_.same(&other.type_)
            && self.number.same(&other.number)
            && self.bracket.same(&other.bracket)
            && self.show_number.same(&other.show_number)
            && self.show_type.same(&other.show_type)
            && self.line_shape.same(&other.line_shape)
            && self.placement.same(&other.placement)
            && self.tuplet_actual.same(&other.tuplet_actual)
            && self.tuplet_normal.same(&other.tuplet_normal)
    }

    proof fn lemma_not_keyword(&self) {
    }

    proof fn lemma_no_error(&self) {
        lemma_tuplet_items(*self);
        self.position.lemma_no_error();
        self.type_.lemma_no_error();
        self.number.lemma_no_error();
        self.bracket.lemma_no_error();
        self.show_number.lemma_no_error();
        self.show_type.lemma_no_error();
        self.line_shape.lemma_no_error();
        self.placement.lemma_no_error();
        self.tuplet_actual.lemma_no_error();
        self.tuplet_normal.lemma_no_error();
    }

    proof fn lemma_value(&self, v: Self) {
        lemma_tuplet_items(*self);
        self.type_.lemma_value(v.type_);
        self.number.lemma_value(v.number);
        self.bracket.lemma_value(v.bracket);
        self.show_number.lemma_value(v.show_number);
        self.show_type.lemma_value(v.show_type);
        self.line_shape.lemma_value(v.line_shape);
        self.placement.lemma_value(v.placement);
        if self.position.is_set() {
            self.position.lemma_value(v.position);
        }
        self.tuplet_actual.lemma_value(v.tuplet_actual);
        self.tuplet_normal.lemma_value(v.tuplet_normal);
    }
}

/// The head and keyword arguments of the S-expression of a `Arpeggiate`.
pub proof fn lemma_arpeggiate_items(x: Arpeggiate)
    requires
        x.writable(),
    ensures
        x.to_sexpr_spec() matches SexprV::List(items) && items.len() > 0 && items[0] == SexprV::Symbol("arpeggiate"@)
            && find_kwarg_spec(items, "number"@) == (match x.number { Some(y) => Some(y.to_sexpr_spec()), None => None })
            && find_kwarg_spec(items, "direction"@) == (match x.direction { Some(y) => Some(y.to_sexpr_spec()), None => None })
            && find_kwarg_spec(items, "color"@) == (match x.color { Some(y) => Some(y.to_sexpr_spec()), None => None })
            && find_kwarg_spec(items, "position"@) == (if x.position.is_set() { Some(x.position.to_sexpr_spec()) } else { None }),
{
        assert("direction"@ != "number"@) by {
            reveal_strlit("direction");
            assert("direction"@.len() == 9);
            reveal_strlit("number");
            assert("number"@.len() == 6);
        }
        assert("color"@ != "number"@) by {
            reveal_strlit("color");
            assert("color"@.len() == 5);
            reveal_strlit("number");
            assert("number"@.len() == 6);
        }
        assert("position"@ != "number"@) by {
            reveal_strlit("position");
            assert("position"@.len() == 8);
            reveal_strlit("number");
            assert("number"@.len() == 6);
        }
        assert("color"@ != "direction"@) by {
            reveal_strlit("color");
            assert("color"@.len() == 5);
            reveal_strlit("direction");
            assert("direction"@.len() == 9);
        }
        assert("position"@ != "direction"@) by {
            reveal_strlit("position");
            assert("position"@.len() == 8);
            reveal_strlit("direction");
            assert("direction"@.len() == 9);
        }
        assert("position"@ != "color"@) by {
            reveal_strlit("position");
            assert("position"@.len() == 8);
            reveal_strlit("color");
            assert("color"@.len() == 5);
        }
        let ghost s0 = seq![SexprV::Symbol("arpeggiate"@)];
        assert(ends_clean(s0));
        let ghost p1 = kw_opt("number"@, x.number);
        lemma_opt_piece("number"@, x.number);
        let ghost s1 = s0 + p1;
        lemma_ends_clean(s0, p1);
        let ghost p2 = kw_opt("direction"@, x.direction);
        lemma_opt_piece("direction"@, x.direction);
        let ghost s2 = s1 + p2;
        lemma_ends_clean(s1, p2);
        let ghost p3 = kw_opt("color"@, x.color);
        lemma_opt_piece("color"@, x.color);
        let ghost s3 = s2 + p3;
        lemma_ends_clean(s2, p3);
        let ghost p4 = kw_if(x.position.is_set(), "position"@, x.position.to_sexpr_spec());
        x.position.lemma_not_keyword();
        lemma_if_piece(x.position.is_set(), "position"@, x.position.to_sexpr_spec());
        let ghost s4 = s3 + p4;
        lemma_ends_clean(s3, p4);
        assert(x.to_sexpr_spec() == SexprV::List(s4));
        assert(s4[0] == SexprV::Symbol("arpeggiate"@)) by {
            assert(s1[0] == s0[0]);
            assert(s2[0] == s1[0]);
            assert(s3[0] == s2[0]);
            assert(s4[0] == s3[0]);
        }
        assert(find_kwarg_spec(s4, "number"@) == (match x.number { Some(y) => Some(y.to_sexpr_spec()), None => None })) by {
            lemma_find_head_key("arpeggiate"@, "number"@);
            if p1.len() == 2 { lemma_find_hit(s0, p1, "number"@); } else { lemma_find_skip(s0, p1, "number"@); }
            lemma_find_skip(s1, p2, "number"@);
            lemma_find_skip(s2, p3, "number"@);
            lemma_find_skip(s3, p4, "number"@);
        }
        assert(find_kwarg_spec(s4, "direction"@) == (match x.direction { Some(y) => Some(y.to_sexpr_spec()), None => None })) by {
            lemma_find_head_key("arpeggiate"@, "direction"@);
            lemma_find_skip(s0, p1, "direction"@);
            if p2.len() == 2 { lemma_find_hit(s1, p2, "direction"@); } else { lemma_find_skip(s1, p2, "direction"@); }
            lemma_find_skip(s2, p3, "direction"@);
            lemma_find_skip(s3, p4, "direction"@);
        }
        assert(find_kwarg_spec(s4, "color"@) == (match x.color { Some(y) => Some(y.to_sexpr_spec()), None => None })) by {
            lemma_find_head_key("arpeggiate"@, "color"@);
            lemma_find_skip(s0, p1, "color"@);
            lemma_find_skip(s1, p2, "color"@);
            if p3.len() == 2 { lemma_find_hit(s2, p3, "color"@); } else { lemma_find_skip(s2, p3, "color"@); }
            lemma_find_skip(s3, p4, "color"@);
        }
        assert(find_kwarg_spec(s4, "position"@) == (if x.position.is_set() { Some(x.position.to_sexpr_spec()) } else { None })) by {
            lemma_find_head_key("arpeggiate"@, "position"@);
            lemma_find_skip(s0, p1, "position"@);
            lemma_find_skip(s1, p2, "position"@);
            lemma_find_skip(s2, p3, "position"@);
            if p4.len() == 2 { lemma_find_hit(s3, p4, "position"@); } else { lemma_find_skip(s3, p4, "position"@); }
        }
}

impl RoundTrip for Arpeggiate {
    /// A value whose parts are writable.
    open spec fn writable(&self) -> bool {
        self.position.writable()
            && self.number.writable()
            && self.direction.writable()
            && self.color.writable()
    }

    open spec fn same(&self, other: &Self) -> bool {
        self.position.same(&other.position)
            && self.number.same(&other.number)
            && self.direction.same(&other.direction)
            && self.color.same(&other.color)
    }

    proof fn lemma_not_keyword(&self) {
    }

    proof fn lemma_no_error(&self) {
        lemma_arpeggiate_items(*self);
        self.position.lemma_no_error();
        self.number.lemma_no_error();
        self.direction.lemma_no_error();
        self.color.lemma_no_error();
    }

    proof fn lemma_value(&self, v: Self) {
        lemma_arpeggiate_items(*self);
        self.number.lemma_value(v.number);
        self.direction.lemma_value(v.direction);
        self.color.lemma_value(v.color);
        if self.position.is_set() {
            self.position.lemma_value(v.position);
        }
    }
}

/// The head and keyword arguments of the S-expression of a `NonArpeggiate`.
pub proof fn lemma_non_arpeggiate_items(x: NonArpeggiate)
    requires
        x.writable(),
    ensures
        x.to_sexpr_spec() matches SexprV::List(items) && items.len() > 0 && items[0] == SexprV::Symbol("non-arpeggiate"@)
            && find_kwarg_spec(items, "type"@) == (Some(x.type_.to_sexpr_spec()))
            && find_kwarg_spec(items, "number"@) == (match x.number { Some(y) => Some(y.to_sexpr_spec()), None => None })
            && find_kwarg_spec(items, "color"@) == (match x.color { Some(y) => Some(y.to_sexpr_spec()), None => None })
            && find_kwarg_spec(items, "position"@) == (if x.position.is_set() { Some(x.position.to_sexpr_spec()) } else { None }),
{
        assert("number"@ != "type"@) by {
            reveal_strlit("number");
            assert("number"@.len() == 6);
            reveal_strlit("type");
            assert("type"@.len() == 4);
        }
        assert("color"@ != "type"@) by {
            reveal_strlit("color");
            assert("color"@.len() == 5);
            reveal_strlit("type");
            assert("type"@.len() == 4);
        }
        assert("position"@ != "type"@) by {
            reveal_strlit("position");
            assert("position"@.len() == 8);
            reveal_strlit("type");
            assert("type"@.len() == 4);
        }
        assert("color"@ != "number"@) by {
            reveal_strlit("color");
            assert("color"@.len() == 5);
            reveal_strlit("number");
            assert("number"@.len() == 6);
        }
        assert("position"@ != "number"@) by {
            reveal_strlit("position");
            assert("position"@.len() == 8);
            reveal_strlit("number");
            assert("number"@.len() == 6);
        }
        assert("position"@ != "color"@) by {
            reveal_strlit("position");
            assert("position"@.len() == 8);
            reveal_strlit("color");
            assert("color"@.len() == 5);
        }
        let ghost s0 = seq![SexprV::Symbol("non-arpeggiate"@)];
        assert(ends_clean(s0));
        let ghost p1 = kw_pair("type"@, x.type_.to_sexpr_spec());
        x.type_.lemma_not_keyword();
        lemma_pair_piece("type"@, x.type_.to_sexpr_spec());
        let ghost s1 = s0 + p1;
        lemma_ends_clean(s0, p1);
        let ghost p2 = kw_opt("number"@, x.number);
        lemma_opt_piece("number"@, x.number);
        let ghost s2 = s1 + p2;
        lemma_ends_clean(s1, p2);
        let ghost p3 = kw_opt("color"@, x.color);
        lemma_opt_piece("color"@, x.color);
        let ghost s3 = s2 + p3;
        lemma_ends_clean(s2, p3);
        let ghost p4 = kw_if(x.position.is_set(), "position"@, x.position.to_sexpr_spec());
        x.position.lemma_not_keyword();
        lemma_if_piece(x.position.is_set(), "position"@, x.position.to_sexpr_spec());
        let ghost s4 = s3 + p4;
        lemma_ends_clean(s3, p4);
        assert(x.to_sexpr_spec() == SexprV::List(s4));
        assert(s4[0] == SexprV::Symbol("non-arpeggiate"@)) by {
            assert(s1[0] == s0[0]);
            assert(s2[0] == s1[0]);
            assert(s3[0] == s2[0]);
            assert(s4[0] == s3[0]);
        }
        assert(find_kwarg_spec(s4, "type"@) == (Some(x.type_.to_sexpr_spec()))) by {
            lemma_find_head_key("non-arpeggiate"@, "type"@);
            if p1.len() == 2 { lemma_find_hit(s0, p1, "type"@); } else { lemma_find_skip(s0, p1, "type"@); }
            lemma_find_skip(s1, p2, "type"@);
            lemma_find_skip(s2, p3, "type"@);
            lemma_find_skip(s3, p4, "type"@);
        }
        assert(find_kwarg_spec(s4, "number"@) == (match x.number { Some(y) => Some(y.to_sexpr_spec()), None => None })) by {
            lemma_find_head_key("non-arpeggiate"@, "number"@);
            lemma_find_skip(s0, p1, "number"@);
            if p2.len() == 2 { lemma_find_hit(s1, p2, "number"@); } else { lemma_find_skip(s1, p2, "number"@); }
            lemma_find_skip(s2, p3, "number"@);
            lemma_find_skip(s3, p4, "number"@);
        }
        assert(find_kwarg_spec(s4, "color"@) == (match x.color { Some(y) => Some(y.to_sexpr_spec()), None => None })) by {
            lemma_find_head_key("non-arpeggiate"@, "color"@);
            lemma_find_skip(s0, p1, "color"@);
            lemma_find_skip(s1, p2, "color"@);
            if p3.len() == 2 { lemma_find_hit(s2, p3, "color"@); } else { lemma_find_skip(s2, p3, "color"@); }
            lemma_find_skip(s3, p4, "color"@);
        }
        assert(find_kwarg_spec(s4, "position"@) == (if x.position.is_set() { Some(x.position.to_sexpr_spec()) } else { None })) by {
            lemma_find_head_key("non-arpeggiate"@, "position"@);
            lemma_find_skip(s0, p1, "position"@);
            lemma_find_skip(s1, p2, "position"@);
            lemma_find_skip(s2, p3, "position"@);
            if p4.len() == 2 { lemma_find_hit(s3, p4, "position"@); } else { lemma_find_skip(s3, p4, "position"@); }
        }
}

impl RoundTrip for NonArpeggiate {
    /// A value whose parts are writable.
    open spec fn writable(&self) -> bool {
        self.position.writable()
            && self.type_.writable()
            && self.number.writable()
            && self.color.writable()
    }

    open spec fn same(&self, other: &Self) -> bool {
        self.position.same(&other.position)
            && self.type_.same(&other.type_)
            && self.number.same(&other.number)
            && self.color.same(&other.color)
    }

    proof fn lemma_not_keyword(&self) {
    }

    proof fn lemma_no_error(&self) {
        lemma_non_arpeggiate_items(*self);
        self.position.lemma_no_error();
        self.type_.lemma_no_error();
        self.number.lemma_no_error();
        self.color.lemma_no_error();
    }

    proof fn lemma_value(&self, v: Self) {
        lemma_non_arpeggiate_items(*self);
        self.type_.lemma_value(v.type_);
        self.number.lemma_value(v.number);
        self.color.lemma_value(v.color);
        if self.position.is_set() {
            self.position.lemma_value(v.position);
        }
    }
}

/// The head and keyword arguments of the S-expression of a `AccidentalMark`.
pub proof fn lemma_accidental_mark_items(x: AccidentalMark)
    requires
        x.writable(),
    ensures
        x.to_sexpr_spec() matches SexprV::List(items) && items.len() > 0 && items[0] == SexprV::Symbol("accidental-mark"@)
            && find_kwarg_spec(items, "value"@) == (Some(x.value.to_sexpr_spec()))
            && find_kwarg_spec(items, "placement"@) == (match x.placement { Some(y) => Some(y.to_sexpr_spec()), None => None })
            && find_kwarg_spec(items, "position"@) == (if x.print_style.position.is_set() { Some(x.print_style.position.to_sexpr_spec()) } else { None })
            && find_kwarg_spec(items, "color"@) == (match x.print_style.color { Some(y) => Some(y.to_sexpr_spec()), None => None }),
{
        assert("placement"@ != "value"@) by {
            reveal_strlit("placement");
            assert("placement"@.len() == 9);
            reveal_strlit("value");
            assert("value"@.len() == 5);
        }
        assert("position"@ != "value"@) by {
            reveal_strlit("position");
            assert("position"@.len() == 8);
            reveal_strlit("value");
            assert("value"@.len() == 5);
        }
        assert("color"@ != "value"@) by {
            reveal_strlit("color");
            assert("color"@.len() == 5);
            reveal_strlit("value");
            assert("value"@.len() == 5);
            assert("color"@[0] == 'c');
            assert("value"@[0] == 'v');
        }
        assert("position"@ != "placement"@) by {
            reveal_strlit("position");
            assert("position"@.len() == 8);
            reveal_strlit("placement");
            assert("placement"@.len() == 9);
        }
        assert("color"@ != "placement"@) by {
            reveal_strlit("color");
            assert("color"@.len() == 5);
            reveal_strlit("placement");
            assert("placement"@.len() == 9);
        }
        assert("color"@ != "position"@) by {
            reveal_strlit("color");
            assert("color"@.len() == 5);
            reveal_strlit("position");
            assert("position"@.len() == 8);
        }
        let ghost s0 = seq![SexprV::Symbol("accidental-mark"@)];
        assert(ends_clean(s0));
        let ghost p1 = kw_pair("value"@, x.value.to_sexpr_spec());
        x.value.lemma_not_keyword();
        lemma_pair_piece("value"@, x.value.to_sexpr_spec());
        let ghost s1 = s0 + p1;
        lemma_ends_clean(s0, p1);
        let ghost p2 = kw_opt("placement"@, x.placement);
        lemma_opt_piece("placement"@, x.placement);
        let ghost s2 = s1 + p2;
        lemma_ends_clean(s1, p2);
        let ghost p3 = kw_if(x.print_style.position.is_set(), "position"@, x.print_style.position.to_sexpr_spec());
        x.print_style.position.lemma_not_keyword();
        lemma_if_piece(x.print_style.position.is_set(), "position"@, x.print_style.position.to_sexpr_spec());
        let ghost s3 = s2 + p3;
        lemma_ends_clean(s2, p3);
        let ghost p4 = kw_opt("color"@, x.print_style.color);
        lemma_opt_piece("color"@, x.print_style.color);
        let ghost s4 = s3 + p4;
        lemma_ends_clean(s3, p4);
        assert(x.to_sexpr_spec() == SexprV::List(s4));
        assert(s4[0] == SexprV::Symbol("accidental-mark"@)) by {
            assert(s1[0] == s0[0]);
            assert(s2[0] == s1[0]);
            assert(s3[0] == s2[0]);
            assert(s4[0] == s3[0]);
        }
        assert(find_kwarg_spec(s4, "value"@) == (Some(x.value.to_sexpr_spec()))) by {
            lemma_find_head_key("accidental-mark"@, "value"@);
            if p1.len() == 2 { lemma_find_hit(s0, p1, "value"@); } else { lemma_find_skip(s0, p1, "value"@); }
            lemma_find_skip(s1, p2, "value"@);
            lemma_find_skip(s2, p3, "value"@);
            lemma_find_skip(s3, p4, "value"@);
        }
        assert(find_kwarg_spec(s4, "placement"@) == (match x.placement { Some(y) => Some(y.to_sexpr_spec()), None => None })) by {
            lemma_find_head_key("accidental-mark"@, "placement"@);
            lemma_find_skip(s0, p1, "placement"@);
            if p2.len() == 2 { lemma_find_hit(s1, p2, "placement"@); } else { lemma_find_skip(s1, p2, "placement"@); }
            lemma_find_skip(s2, p3, "placement"@);
            lemma_find_skip(s3, p4, "placement"@);
        }
        assert(find_kwarg_spec(s4, "position"@) == (if x.print_style.position.is_set() { Some(x.print_style.position.to_sexpr_spec()) } else { None })) by {
            lemma_find_head_key("accidental-mark"@, "position"@);
            lemma_find_skip(s0, p1, "position"@);
            lemma_find_skip(s1, p2, "position"@);
            if p3.len() == 2 { lemma_find_hit(s2, p3, "position"@); } else { lemma_find_skip(s2, p3, "position"@); }
            lemma_find_skip(s3, p4, "position"@);
        }
        assert(find_kwarg_spec(s4, "color"@) == (match x.print_style.color { Some(y) => Some(y.to_sexpr_spec()), None => None })) by {
            lemma_find_head_key("accidental-mark"@, "color"@);
            lemma_find_skip(s0, p1, "color"@);
            lemma_find_skip(s1, p2, "color"@);
            lemma_find_skip(s2, p3, "color"@);
            if p4.len() == 2 { lemma_find_hit(s3, p4, "color"@); } else { lemma_find_skip(s3, p4, "color"@); }
        }
}

impl RoundTrip for AccidentalMark {
    /// A value whose parts are writable and whose unwritten parts are as reading gives them.
    open spec fn writable(&self) -> bool {
        self.print_style.position.writable()
            && self.print_style.color.writable()
            && self.value.writable()
            && self.placement.writable()
            && self.print_style.font == font_none()
    }

    open spec fn same(&self, other: &Self) -> bool {
        self.print_style.position.same(&other.print_style.position)
            && self.print_style.color.same(&other.print_style.color)
            && self.value.same(&other.value)
            && self.placement.same(&other.placement)
            && self.print_style.font == other.print_style.font
    }

    proof fn lemma_not_keyword(&self) {
    }

    proof fn lemma_no_error(&self) {
        lemma_accidental_mark_items(*self);
        self.print_style.position.lemma_no_error();
        self.print_style.color.lemma_no_error();
        self.value.lemma_no_error();
        self.placement.lemma_no_error();
    }

    proof fn lemma_value(&self, v: Self) {
        lemma_accidental_mark_items(*self);
        self.value.lemma_value(v.value);
        self.placement.lemma_value(v.placement);
        if self.print_style.position.is_set() {
            self.print_style.position.lemma_value(v.print_style.position);
        }
        self.print_style.color.lemma_value(v.print_style.color);
    }
}

/// The head and keyword arguments of the S-expression of a `OtherNotation`, part 1.
pub proof fn lemma_other_notation_items_0(x: OtherNotation)
    requires
        x.writable(),
    ensures
        x.to_sexpr_spec() matches SexprV::List(items) && items.len() > 0 && items[0] == SexprV::Symbol("other-notation"@)
            && find_kwarg_spec(items, "value"@) == (Some(x.value.to_sexpr_spec()))
            && find_kwarg_spec(items, "type"@) == (Some(x.type_.to_sexpr_spec()))
            && find_kwarg_spec(items, "number"@) == (match x.number { Some(y) => Some(y.to_sexpr_spec()), None => None })
            && find_kwarg_spec(items, "print-object"@) == (match x.print_object { Some(y) => Some(y.to_sexpr_spec()), None => None }),
{
        assert("type"@ != "value"@) by {
            reveal_strlit("type");
            assert("type"@.len() == 4);
            reveal_strlit("value");
            assert("value"@.len() == 5);
        }
        assert("number"@ != "value"@) by {
            reveal_strlit("number");
            assert("number"@.len() == 6);
            reveal_strlit("value");
            assert("value"@.len() == 5);
        }
        assert("print-object"@ != "value"@) by {
            reveal_strlit("print-object");
            assert("print-object"@.len() == 12);
            reveal_strlit("value");
            assert("value"@.len() == 5);
        }
        assert("placement"@ != "value"@) by {
            reveal_strlit("placement");
            assert("placement"@.len() == 9);
            reveal_strlit("value");
            assert("value"@.len() == 5);
        }
        assert("position"@ != "value"@) by {
            reveal_strlit("position");
            assert("position"@.len() == 8);
            reveal_strlit("value");
            assert("value"@.len() == 5);
        }
        assert("color"@ != "value"@) by {
            reveal_strlit("color");
            assert("color"@.len() == 5);
            reveal_strlit("value");
            assert("value"@.len() == 5);
            assert("color"@[0] == 'c');
            assert("value"@[0] == 'v');
        }
        assert("number"@ != "type"@) by {
            reveal_strlit("number");
            assert("number"@.len() == 6);
            reveal_strlit("type");
            assert("type"@.len() == 4);
        }
        assert("print-object"@ != "type"@) by {
            reveal_strlit("print-object");
            assert("print-object"@.len() == 12);
            reveal_strlit("type");
            assert("type"@.len() == 4);
        }
        assert("placement"@ != "type"@) by {
            reveal_strlit("placement");
            assert("placement"@.len() == 9);
            reveal_strlit("type");
            assert("type"@.len() == 4);
        }
        assert("position"@ != "type"@) by {
            reveal_strlit("position");
            assert("position"@.len() == 8);
            reveal_strlit("type");
            assert("type"@.len() == 4);
        }
        assert("color"@ != "type"@) by {
            reveal_strlit("color");
            assert("color"@.len() == 5);
            reveal_strlit("type");
            assert("type"@.len() == 4);
        }
        assert("print-object"@ != "number"@) by {
            reveal_strlit("print-object");
            assert("print-object"@.len() == 12);
            reveal_strlit("number");
            assert("number"@.len() == 6);
        }
        assert("placement"@ != "number"@) by {
            reveal_strlit("placement");
            assert("placement"@.len() == 9);
            reveal_strlit("number");
            assert("number"@.len() == 6);
        }
        assert("position"@ != "number"@) by {
            reveal_strlit("position");
            assert("position"@.len() == 8);
            reveal_strlit("number");
            assert("number"@.len() == 6);
        }
        assert("color"@ != "number"@) by {
            reveal_strlit("color");
            assert("color"@.len() == 5);
            reveal_strlit("number");
            assert("number"@.len() == 6);
        }
        assert("placement"@ != "print-object"@) by {
            reveal_strlit("placement");
            assert("placement"@.len() == 9);
            reveal_strlit("print-object");
            assert("print-object"@.len() == 12);
        }
        assert("position"@ != "print-object"@) by {
            reveal_strlit("position");
            assert("position"@.len() == 8);
            reveal_strlit("print-object");
            assert("print-object"@.len() == 12);
        }
        assert("color"@ != "print-object"@) by {
            reveal_strlit("color");
            assert("color"@.len() == 5);
            reveal_strlit("print-object");
            assert("print-object"@.len() == 12);
        }
        let ghost s0 = seq![SexprV::Symbol("other-notation"@)];
        assert(ends_clean(s0));
        let ghost p1 = kw_pair("value"@, x.value.to_sexpr_spec());
        x.value.lemma_not_keyword();
        lemma_pair_piece("value"@, x.value.to_sexpr_spec());
        let ghost s1 = s0 + p1;
        lemma_ends_clean(s0, p1);
        let ghost p2 = kw_pair("type"@, x.type_.to_sexpr_spec());
        x.type_.lemma_not_keyword();
        lemma_pair_piece("type"@, x.type_.to_sexpr_spec());
        let ghost s2 = s1 + p2;
        lemma_ends_clean(s1, p2);
        let ghost p3 = kw_opt("number"@, x.number);
        lemma_opt_piece("number"@, x.number);
        let ghost s3 = s2 + p3;
        lemma_ends_clean(s2, p3);
        let ghost p4 = kw_opt("print-object"@, x.print_object);
        lemma_opt_piece("print-object"@, x.print_object);
        let ghost s4 = s3 + p4;
        lemma_ends_clean(s3, p4);
        let ghost p5 = kw_opt("placement"@, x.placement);
        lemma_opt_piece("placement"@, x.placement);
        let ghost s5 = s4 + p5;
        lemma_ends_clean(s4, p5);
        let ghost p6 = kw_if(x.print_style.position.is_set(), "position"@, x.print_style.position.to_sexpr_spec());
        x.print_style.position.lemma_not_keyword();
        lemma_if_piece(x.print_style.position.is_set(), "position"@, x.print_style.position.to_sexpr_spec());
        let ghost s6 = s5 + p6;
        lemma_ends_clean(s5, p6);
        let ghost p7 = kw_opt("color"@, x.print_style.color);
        lemma_opt_piece("color"@, x.print_style.color);
        let ghost s7 = s6 + p7;
        lemma_ends_clean(s6, p7);
        assert(x.to_sexpr_spec() == SexprV::List(s7));
        assert(s7[0] == SexprV::Symbol("other-notation"@)) by {
            assert(s1[0] == s0[0]);
            assert(s2[0] == s1[0]);
            assert(s3[0] == s2[0]);
            assert(s4[0] == s3[0]);
            assert(s5[0] == s4[0]);
            assert(s6[0] == s5[0]);
            assert(s7[0] == s6[0]);
        }
        assert(find_kwarg_spec(s7, "value"@) == (Some(x.value.to_sexpr_spec()))) by {
            lemma_find_head_key("other-notation"@, "value"@);
            if p1.len() == 2 { lemma_find_hit(s0, p1, "value"@); } else { lemma_find_skip(s0, p1, "value"@); }
            lemma_find_skip(s1, p2, "value"@);
            lemma_find_skip(s2, p3, "value"@);
            lemma_find_skip(s3, p4, "value"@);
            lemma_find_skip(s4, p5, "value"@);
            lemma_find_skip(s5, p6, "value"@);
            lemma_find_skip(s6, p7, "value"@);
        }
        assert(find_kwarg_spec(s7, "type"@) == (Some(x.type_.to_sexpr_spec()))) by {
            lemma_find_head_key("other-notation"@, "type"@);
            lemma_find_skip(s0, p1, "type"@);
            if p2.len() == 2 { lemma_find_hit(s1, p2, "type"@); } else { lemma_find_skip(s1, p2, "type"@); }
            lemma_find_skip(s2, p3, "type"@);
            lemma_find_skip(s3, p4, "type"@);
            lemma_find_skip(s4, p5, "type"@);
            lemma_find_skip(s5, p6, "type"@);
            lemma_find_skip(s6, p7, "type"@);
        }
        assert(find_kwarg_spec(s7, "number"@) == (match x.number { Some(y) => Some(y.to_sexpr_spec()), None => None })) by {
            lemma_find_head_key("other-notation"@, "number"@);
            lemma_find_skip(s0, p1, "number"@);
            lemma_find_skip(s1, p2, "number"@);
            if p3.len() == 2 { lemma_find_hit(s2, p3, "number"@); } else { lemma_find_skip(s2, p3, "number"@); }
            lemma_find_skip(s3, p4, "number"@);
            lemma_find_skip(s4, p5, "number"@);
            lemma_find_skip(s5, p6, "number"@);
            lemma_find_skip(s6, p7, "number"@);
        }
        assert(find_kwarg_spec(s7, "print-object"@) == (match x.print_object { Some(y) => Some(y.to_sexpr_spec()), None => None })) by {
            lemma_find_head_key("other-notation"@, "print-object"@);
            lemma_find_skip(s0, p1, "print-object"@);
            lemma_find_skip(s1, p2, "print-object"@);
            lemma_find_skip(s2, p3, "print-object"@);
            if p4.len() == 2 { lemma_find_hit(s3, p4, "print-object"@); } else { lemma_find_skip(s3, p4, "print-object"@); }
            lemma_find_skip(s4, p5, "print-object"@);
            lemma_find_skip(s5, p6, "print-object"@);
            lemma_find_skip(s6, p7, "print-object"@);
        }
}

/// The head and keyword arguments of the S-expression of a `OtherNotation`, part 2.
pub proof fn lemma_other_notation_items_1(x: OtherNotation)
    requires
        x.writable(),
    ensures
        x.to_sexpr_spec() matches SexprV::List(items)
            && find_kwarg_spec(items, "placement"@) == (match x.placement { Some(y) => Some(y.to_sexpr_spec()), None => None })
            && find_kwarg_spec(items, "position"@) == (if x.print_style.position.is_set() { Some(x.print_style.position.to_sexpr_spec()) } else { None })
            && find_kwarg_spec(items, "color"@) == (match x.print_style.color { Some(y) => Some(y.to_sexpr_spec()), None => None }),
{
        assert("value"@ != "placement"@) by {
            reveal_strlit("value");
            assert("value"@.len() == 5);
            reveal_strlit("placement");
            assert("placement"@.len() == 9);
        }
        assert("type"@ != "placement"@) by {
            reveal_strlit("type");
            assert("type"@.len() == 4);
            reveal_strlit("placement");
            assert("placement"@.len() == 9);
        }
        assert("number"@ != "placement"@) by {
            reveal_strlit("number");
            assert("number"@.len() == 6);
            reveal_strlit("placement");
            assert("placement"@.len() == 9);
        }
        assert("print-object"@ != "placement"@) by {
            reveal_strlit("print-object");
            assert("print-object"@.len() == 12);
            reveal_strlit("placement");
            assert("placement"@.len() == 9);
        }
        assert("position"@ != "placement"@) by {
            reveal_strlit("position");
            assert("position"@.len() == 8);
            reveal_strlit("placement");
            assert("placement"@.len() == 9);
        }
        assert("color"@ != "placement"@) by {
            reveal_strlit("color");
            assert("color"@.len() == 5);
            reveal_strlit("placement");
            assert("placement"@.len() == 9);
        }
        assert("value"@ != "position"@) by {
            reveal_strlit("value");
            assert("value"@.len() == 5);
            reveal_strlit("position");
            assert("position"@.len() == 8);
        }
        assert("type"@ != "position"@) by {
            reveal_strlit("type");
            assert("type"@.len() == 4);
            reveal_strlit("position");
            assert("position"@.len() == 8);
        }
        assert("number"@ != "position"@) by {
            reveal_strlit("number");
            assert("number"@.len() == 6);
            reveal_strlit("position");
            assert("position"@.len() == 8);
        }
        assert("print-object"@ != "position"@) by {
            reveal_strlit("print-object");
            assert("print-object"@.len() == 12);
            reveal_strlit("position");
            assert("position"@.len() == 8);
        }
        assert("color"@ != "position"@) by {
            reveal_strlit("color");
            assert("color"@.len() == 5);
            reveal_strlit("position");
            assert("position"@.len() == 8);
        }
        assert("value"@ != "color"@) by {
            reveal_strlit("value");
            assert("value"@.len() == 5);
            reveal_strlit("color");
            assert("color"@.len() == 5);
            assert("value"@[0] == 'v');
            assert("color"@[0] == 'c');
        }
        assert("type"@ != "color"@) by {
            reveal_strlit("type");
            assert("type"@.len() == 4);
            reveal_strlit("color");
            assert("color"@.len() == 5);
        }
        assert("number"@ != "color"@) by {
            reveal_strlit("number");
            assert("number"@.len() == 6);
            reveal_strlit("color");
            assert("color"@.len() == 5);
        }
        assert("print-object"@ != "color"@) by {
            reveal_strlit("print-object");
            assert("print-object"@.len() == 12);
            reveal_strlit("color");
            assert("color"@.len() == 5);
        }
        let ghost s0 = seq![SexprV::Symbol("other-notation"@)];
        assert(ends_clean(s0));
        let ghost p1 = kw_pair("value"@, x.value.to_sexpr_spec());
        x.value.lemma_not_keyword();
        lemma_pair_piece("value"@, x.value.to_sexpr_spec());
        let ghost s1 = s0 + p1;
        lemma_ends_clean(s0, p1);
        let ghost p2 = kw_pair("type"@, x.type_.to_sexpr_spec());
        x.type_.lemma_not_keyword();
        lemma_pair_piece("type"@, x.type_.to_sexpr_spec());
        let ghost s2 = s1 + p2;
        lemma_ends_clean(s1, p2);
        let ghost p3 = kw_opt("number"@, x.number);
        lemma_opt_piece("number"@, x.number);
        let ghost s3 = s2 + p3;
        lemma_ends_clean(s2, p3);
        let ghost p4 = kw_opt("print-object"@, x.print_object);
        lemma_opt_piece("print-object"@, x.print_object);
        let ghost s4 = s3 + p4;
        lemma_ends_clean(s3, p4);
        let ghost p5 = kw_opt("placement"@, x.placement);
        lemma_opt_piece("placement"@, x.placement);
        let ghost s5 = s4 + p5;
        lemma_ends_clean(s4, p5);
        let ghost p6 = kw_if(x.print_style.position.is_set(), "position"@, x.print_style.position.to_sexpr_spec());
        x.print_style.position.lemma_not_keyword();
        lemma_if_piece(x.print_style.position.is_set(), "position"@, x.print_style.position.to_sexpr_spec());
        let ghost s6 = s5 + p6;
        lemma_ends_clean(s5, p6);
        let ghost p7 = kw_opt("color"@, x.print_style.color);
        lemma_opt_piece("color"@, x.print_style.color);
        let ghost s7 = s6 + p7;
        lemma_ends_clean(s6, p7);
        assert(x.to_sexpr_spec() == SexprV::List(s7));
        assert(find_kwarg_spec(s7, "placement"@) == (match x.placement { Some(y) => Some(y.to_sexpr_spec()), None => None })) by {
            lemma_find_head_key("other-notation"@, "placement"@);
            lemma_find_skip(s0, p1, "placement"@);
            lemma_find_skip(s1, p2, "placement"@);
            lemma_find_skip(s2, p3, "placement"@);
            lemma_find_skip(s3, p4, "placement"@);
            if p5.len() == 2 { lemma_find_hit(s4, p5, "placement"@); } else { lemma_find_skip(s4, p5, "placement"@); }
            lemma_find_skip(s5, p6, "placement"@);
            lemma_find_skip(s6, p7, "placement"@);
        }
        assert(find_kwarg_spec(s7, "position"@) == (if x.print_style.position.is_set() { Some(x.print_style.position.to_sexpr_spec()) } else { None })) by {
            lemma_find_head_key("other-notation"@, "position"@);
            lemma_find_skip(s0, p1, "position"@);
            lemma_find_skip(s1, p2, "position"@);
            lemma_find_skip(s2, p3, "position"@);
            lemma_find_skip(s3, p4, "position"@);
            lemma_find_skip(s4, p5, "position"@);
            if p6.len() == 2 { lemma_find_hit(s5, p6, "position"@); } else { lemma_find_skip(s5, p6, "position"@); }
            lemma_find_skip(s6, p7, "position"@);
        }
        assert(find_kwarg_spec(s7, "color"@) == (match x.print_style.color { Some(y) => Some(y.to_sexpr_spec()), None => None })) by {
            lemma_find_head_key("other-notation"@, "color"@);
            lemma_find_skip(s0, p1, "color"@);
            lemma_find_skip(s1, p2, "color"@);
            lemma_find_skip(s2, p3, "color"@);
            lemma_find_skip(s3, p4, "color"@);
            lemma_find_skip(s4, p5, "color"@);
            lemma_find_skip(s5, p6, "color"@);
            if p7.len() == 2 { lemma_find_hit(s6, p7, "color"@); } else { lemma_find_skip(s6, p7, "color"@); }
        }
}

/// The head and the keyword arguments of the S-expression of a `OtherNotation`.
pub proof fn lemma_other_notation_items(x: OtherNotation)
    requires
        x.writable(),
    ensures
        x.to_sexpr_spec() matches SexprV::List(items) && items.len() > 0 && items[0] == SexprV::Symbol("other-notation"@)
            && find_kwarg_spec(items, "value"@) == (Some(x.value.to_sexpr_spec()))
            && find_kwarg_spec(items, "type"@) == (Some(x.type_.to_sexpr_spec()))
            && find_kwarg_spec(items, "number"@) == (match x.number { Some(y) => Some(y.to_sexpr_spec()), None => None })
            && find_kwarg_spec(items, "print-object"@) == (match x.print_object { Some(y) => Some(y.to_sexpr_spec()), None => None })
            && find_kwarg_spec(items, "placement"@) == (match x.placement { Some(y) => Some(y.to_sexpr_spec()), None => None })
            && find_kwarg_spec(items, "position"@) == (if x.print_style.position.is_set() { Some(x.print_style.position.to_sexpr_spec()) } else { None })
            && find_kwarg_spec(items, "color"@) == (match x.print_style.color { Some(y) => Some(y.to_sexpr_spec()), None => None }),
{
    lemma_other_notation_items_0(x);
    lemma_other_notation_items_1(x);
}

impl RoundTrip for OtherNotation {
    /// A value whose parts are writable and whose unwritten parts are as reading gives them.
    open spec fn writable(&self) -> bool {
        self.print_style.position.writable()
            && self.print_style.color.writable()
            && self.value.writable()
            && self.type_.writable()
            && self.number.writable()
            && self.print_object.writable()
            && self.placement.writable()
            && self.print_style.font == font_none()
    }

    open spec fn same(&self, other: &Self) -> bool {
        self.print_style.position.same(&other.print_style.position)
            && self.print_style.color.same(&other.print_style.color)
            && self.value.same(&other.value)
            && self.type_.same(&other.type_)
            && self.number.same(&other.number)
            && self.print_object.same(&other.print_object)
            && self.placement.same(&other.placement)
            && self.print_style.font == other.print_style.font
    }

    proof fn lemma_not_keyword(&self) {
    }

    proof fn lemma_no_error(&self) {
        lemma_other_notation_items(*self);
        self.print_style.position.lemma_no_error();
        self.print_style.color.lemma_no_error();
        self.value.lemma_no_error();
        self.type_.lemma_no_error();
        self.number.lemma_no_error();
        self.print_object.lemma_no_error();
        self.placement.lemma_no_error();
    }

    proof fn lemma_value(&self, v: Self) {
        lemma_other_notation_items(*self);
        self.value.lemma_value(v.value);
        self.type_.lemma_value(v.type_);
        self.number.lemma_value(v.number);
        self.print_object.lemma_value(v.print_object);
        self.placement.lemma_value(v.placement);
        if self.print_style.position.is_set() {
            self.print_style.position.lemma_value(v.print_style.position);
        }
        self.print_style.color.lemma_value(v.print_style.color);
    }
}

/// The head and keyword arguments of the S-expression of a `StrongAccent`.
pub proof fn lemma_strong_accent_items(x: StrongAccent)
    requires
        x.writable(),
    ensures
        x.to_sexpr_spec() matches SexprV::List(items) && items.len() > 0 && items[0] == SexprV::Symbol("strong-accent"@)
            && find_kwarg_spec(items, "type"@) == (match x.type_ { Some(y) => Some(y.to_sexpr_spec()), None => None })
            && find_kwarg_spec(items, "placement"@) == (match x.placement { Some(y) => Some(y.to_sexpr_spec()), None => None })
            && find_kwarg_spec(items, "position"@) == (if x.position.is_set() { Some(x.position.to_sexpr_spec()) } else { None }),
{
        assert("placement"@ != "type"@) by {
            reveal_strlit("placement");
            assert("placement"@.len() == 9);
            reveal_strlit("type");
            assert("type"@.len() == 4);
        }
        assert("position"@ != "type"@) by {
            reveal_strlit("position");
            assert("position"@.len() == 8);
            reveal_strlit("type");
            assert("type"@.len() == 4);
        }
        assert("position"@ != "placement"@) by {
            reveal_strlit("position");
            assert("position"@.len() == 8);
            reveal_strlit("placement");
            assert("placement"@.len() == 9);
        }
        let ghost s0 = seq![SexprV::Symbol("strong-accent"@)];
        assert(ends_clean(s0));
        let ghost p1 = kw_opt("type"@, x.type_);
        lemma_opt_piece("type"@, x.type_);
        let ghost s1 = s0 + p1;
        lemma_ends_clean(s0, p1);
        let ghost p2 = kw_opt("placement"@, x.placement);
        lemma_opt_piece("placement"@, x.placement);
        let ghost s2 = s1 + p2;
        lemma_ends_clean(s1, p2);
        let ghost p3 = kw_if(x.position.is_set(), "position"@, x.position.to_sexpr_spec());
        x.position.lemma_not_keyword();
        lemma_if_piece(x.position.is_set(), "position"@, x.position.to_sexpr_spec());
        let ghost s3 = s2 + p3;
        lemma_ends_clean(s2, p3);
        assert(x.to_sexpr_spec() == SexprV::List(s3));
        assert(s3[0] == SexprV::Symbol("strong-accent"@)) by {
            assert(s1[0] == s0[0]);
            assert(s2[0] == s1[0]);
            assert(s3[0] == s2[0]);
        }
        assert(find_kwarg_spec(s3, "type"@) == (match x.type_ { Some(y) => Some(y.to_sexpr_spec()), None => None })) by {
            lemma_find_head_key("strong-accent"@, "type"@);
            if p1.len() == 2 { lemma_find_hit(s0, p1, "type"@); } else { lemma_find_skip(s0, p1, "type"@); }
            lemma_find_skip(s1, p2, "type"@);
            lemma_find_skip(s2, p3, "type"@);
        }
        assert(find_kwarg_spec(s3, "placement"@) == (match x.placement { Some(y) => Some(y.to_sexpr_spec()), None => None })) by {
            lemma_find_head_key("strong-accent"@, "placement"@);
            lemma_find_skip(s0, p1, "placement"@);
            if p2.len() == 2 { lemma_find_hit(s1, p2, "placement"@); } else { lemma_find_skip(s1, p2, "placement"@); }
            lemma_find_skip(s2, p3, "placement"@);
        }
        assert(find_kwarg_spec(s3, "position"@) == (if x.position.is_set() { Some(x.position.to_sexpr_spec()) } else { None })) by {
            lemma_find_head_key("strong-accent"@, "position"@);
            lemma_find_skip(s0, p1, "position"@);
            lemma_find_skip(s1, p2, "position"@);
            if p3.len() == 2 { lemma_find_hit(s2, p3, "position"@); } else { lemma_find_skip(s2, p3, "position"@); }
        }
}

impl RoundTrip for StrongAccent {
    /// A value whose parts are writable.
    open spec fn writable(&self) -> bool {
        self.position.writable()
            && self.type_.writable()
            && self.placement.writable()
    }

    open spec fn same(&self, other: &Self) -> bool {
        self.position.same(&other.position)
            && self.type_.same(&other.type_)
            && self.placement.same(&other.placement)
    }

    proof fn lemma_not_keyword(&self) {
    }

    proof fn lemma_no_error(&self) {
        lemma_strong_accent_items(*self);
        self.position.lemma_no_error();
        self.type_.lemma_no_error();
        self.placement.lemma_no_error();
    }

    proof fn lemma_value(&self, v: Self) {
        lemma_strong_accent_items(*self);
        self.type_.lemma_value(v.type_);
        self.placement.lemma_value(v.placement);
        if self.position.is_set() {
            self.position.lemma_value(v.position);
        }
    }
}

/// The head and keyword arguments of the S-expression of a `EmptyLine`.
pub proof fn lemma_empty_line_items(x: EmptyLine)
    requires
        x.writable(),
    ensures
        x.to_sexpr_spec() matches SexprV::List(items) && items.len() > 0 && items[0] == SexprV::Symbol("empty-line"@)
            && find_kwarg_spec(items, "line-shape"@) == (match x.line_shape { Some(y) => Some(y.to_sexpr_spec()), None => None })
            && find_kwarg_spec(items, "line-type"@) == (match x.line_type { Some(y) => Some(y.to_sexpr_spec()), None => None })
            && find_kwarg_spec(items, "line-length"@) == (match x.line_length { Some(y) => Some(y.to_sexpr_spec()), None => None })
            && find_kwarg_spec(items, "placement"@) == (match x.placement { Some(y) => Some(y.to_sexpr_spec()), None => None })
            && find_kwarg_spec(items, "position"@) == (if x.position.is_set() { Some(x.position.to_sexpr_spec()) } else { None }),
{
        assert("line-type"@ != "line-shape"@) by {
            reveal_strlit("line-type");
            assert("line-type"@.len() == 9);
            reveal_strlit("line-shape");
            assert("line-shape"@.len() == 10);
        }
        assert("line-length"@ != "line-shape"@) by {
            reveal_strlit("line-length");
            assert("line-length"@.len() == 11);
            reveal_strlit("line-shape");
            assert("line-shape"@.len() == 10);
        }
        assert("placement"@ != "line-shape"@) by {
            reveal_strlit("placement");
            assert("placement"@.len() == 9);
            reveal_strlit("line-shape");
            assert("line-shape"@.len() == 10);
        }
        assert("position"@ != "line-shape"@) by {
            reveal_strlit("position");
            assert("position"@.len() == 8);
            reveal_strlit("line-shape");
            assert("line-shape"@.len() == 10);
        }
        assert("line-length"@ != "line-type"@) by {
            reveal_strlit("line-length");
            assert("line-length"@.len() == 11);
            reveal_strlit("line-type");
            assert("line-type"@.len() == 9);
        }
        assert("placement"@ != "line-type"@) by {
            reveal_strlit("placement");
            assert("placement"@.len() == 9);
            reveal_strlit("line-type");
            assert("line-type"@.len() == 9);
            assert("placement"@[0] == 'p');
            assert("line-type"@[0] == 'l');
        }
        assert("position"@ != "line-type"@) by {
            reveal_strlit("position");
            assert("position"@.len() == 8);
            reveal_strlit("line-type");
            assert("line-type"@.len() == 9);
        }
        assert("placement"@ != "line-length"@) by {
            reveal_strlit("placement");
            assert("placement"@.len() == 9);
            reveal_strlit("line-length");
            assert("line-length"@.len() == 11);
        }
        assert("position"@ != "line-length"@) by {
            reveal_strlit("position");
            assert("position"@.len() == 8);
            reveal_strlit("line-length");
            assert("line-length"@.len() == 11);
        }
        assert("position"@ != "placement"@) by {
            reveal_strlit("position");
            assert("position"@.len() == 8);
            reveal_strlit("placement");
            assert("placement"@.len() == 9);
        }
        let ghost s0 = seq![SexprV::Symbol("empty-line"@)];
        assert(ends_clean(s0));
        let ghost p1 = kw_opt("line-shape"@, x.line_shape);
        lemma_opt_piece("line-shape"@, x.line_shape);
        let ghost s1 = s0 + p1;
        lemma_ends_clean(s0, p1);
        let ghost p2 = kw_opt("line-type"@, x.line_type);
        lemma_opt_piece("line-type"@, x.line_type);
        let ghost s2 = s1 + p2;
        lemma_ends_clean(s1, p2);
        let ghost p3 = kw_opt("line-length"@, x.line_length);
        lemma_opt_piece("line-length"@, x.line_length);
        let ghost s3 = s2 + p3;
        lemma_ends_clean(s2, p3);
        let ghost p4 = kw_opt("placement"@, x.placement);
        lemma_opt_piece("placement"@, x.placement);
        let ghost s4 = s3 + p4;
        lemma_ends_clean(s3, p4);
        let ghost p5 = kw_if(x.position.is_set(), "position"@, x.position.to_sexpr_spec());
        x.position.lemma_not_keyword();
        lemma_if_piece(x.position.is_set(), "position"@, x.position.to_sexpr_spec());
        let ghost s5 = s4 + p5;
        lemma_ends_clean(s4, p5);
        assert(x.to_sexpr_spec() == SexprV::List(s5));
        assert(s5[0] == SexprV::Symbol("empty-line"@)) by {
            assert(s1[0] == s0[0]);
            assert(s2[0] == s1[0]);
            assert(s3[0] == s2[0]);
            assert(s4[0] == s3[0]);
            assert(s5[0] == s4[0]);
        }
        assert(find_kwarg_spec(s5, "line-shape"@) == (match x.line_shape { Some(y) => Some(y.to_sexpr_spec()), None => None })) by {
            lemma_find_head_key("empty-line"@, "line-shape"@);
            if p1.len() == 2 { lemma_find_hit(s0, p1, "line-shape"@); } else { lemma_find_skip(s0, p1, "line-shape"@); }
            lemma_find_skip(s1, p2, "line-shape"@);
            lemma_find_skip(s2, p3, "line-shape"@);
            lemma_find_skip(s3, p4, "line-shape"@);
            lemma_find_skip(s4, p5, "line-shape"@);
        }
        assert(find_kwarg_spec(s5, "line-type"@) == (match x.line_type { Some(y) => Some(y.to_sexpr_spec()), None => None })) by {
            lemma_find_head_key("empty-line"@, "line-type"@);
            lemma_find_skip(s0, p1, "line-type"@);
            if p2.len() == 2 { lemma_find_hit(s1, p2, "line-type"@); } else { lemma_find_skip(s1, p2, "line-type"@); }
            lemma_find_skip(s2, p3, "line-type"@);
            lemma_find_skip(s3, p4, "line-type"@);
            lemma_find_skip(s4, p5, "line-type"@);
        }
        assert(find_kwarg_spec(s5, "line-length"@) == (match x.line_length { Some(y) => Some(y.to_sexpr_spec()), None => None })) by {
            lemma_find_head_key("empty-line"@, "line-length"@);
            lemma_find_skip(s0, p1, "line-length"@);
            lemma_find_skip(s1, p2, "line-length"@);
            if p3.len() == 2 { lemma_find_hit(s2, p3, "line-length"@); } else { lemma_find_skip(s2, p3, "line-length"@); }
            lemma_find_skip(s3, p4, "line-length"@);
            lemma_find_skip(s4, p5, "line-length"@);
        }
        assert(find_kwarg_spec(s5, "placement"@) == (match x.placement { Some(y) => Some(y.to_sexpr_spec()), None => None })) by {
            lemma_find_head_key("empty-line"@, "placement"@);
            lemma_find_skip(s0, p1, "placement"@);
            lemma_find_skip(s1, p2, "placement"@);
            lemma_find_skip(s2, p3, "placement"@);
            if p4.len() == 2 { lemma_find_hit(s3, p4, "placement"@); } else { lemma_find_skip(s3, p4, "placement"@); }
            lemma_find_skip(s4, p5, "placement"@);
        }
        assert(find_kwarg_spec(s5, "position"@) == (if x.position.is_set() { Some(x.position.to_sexpr_spec()) } else { None })) by {
            lemma_find_head_key("empty-line"@, "position"@);
            lemma_find_skip(s0, p1, "position"@);
            lemma_find_skip(s1, p2, "position"@);
            lemma_find_skip(s2, p3, "position"@);
            lemma_find_skip(s3, p4, "position"@);
            if p5.len() == 2 { lemma_find_hit(s4, p5, "position"@); } else { lemma_find_skip(s4, p5, "position"@); }
        }
}

impl RoundTrip for EmptyLine {
    /// A value whose parts are writable.
    open spec fn writable(&self) -> bool {
        self.position.writable()
            && self.line_shape.writable()
            && self.line_type.writable()
            && self.line_length.writable()
            && self.placement.writable()
    }

    open spec fn same(&self, other: &Self) -> bool {
        self.position.same(&other.position)
            && self.line_shape.same(&other.line_shape)
            && self.line_type.same(&other.line_type)
            && self.line_length.same(&other.line_length)
            && self.placement.same(&other.placement)
    }

    proof fn lemma_not_keyword(&self) {
    }

    proof fn lemma_no_error(&self) {
        lemma_empty_line_items(*self);
        self.position.lemma_no_error();
        self.line_shape.lemma_no_error();
        self.line_type.lemma_no_error();
        self.line_length.lemma_no_error();
        self.placement.lemma_no_error();
    }

    proof fn lemma_value(&self, v: Self) {
        lemma_empty_line_items(*self);
        self.line_shape.lemma_value(v.line_shape);
        self.line_type.lemma_value(v.line_type);
        self.line_length.lemma_value(v.line_length);
        self.placement.lemma_value(v.placement);
        if self.position.is_set() {
            self.position.lemma_value(v.position);
        }
    }
}

/// The head and keyword arguments of the S-expression of a `BreathMark`.
pub proof fn lemma_breath_mark_items(x: BreathMark)
    requires
        x.writable(),
    ensures
        x.to_sexpr_spec() matches SexprV::List(items) && items.len() > 0 && items[0] == SexprV::Symbol("breath-mark"@)
            && find_kwarg_spec(items, "value"@) == (Some(x.value.to_sexpr_spec()))
            && find_kwarg_spec(items, "placement"@) == (match x.placement { Some(y) => Some(y.to_sexpr_spec()), None => None })
            && find_kwarg_spec(items, "position"@) == (if x.position.is_set() { Some(x.position.to_sexpr_spec()) } else { None }),
{
        assert("placement"@ != "value"@) by {
            reveal_strlit("placement");
            assert("placement"@.len() == 9);
            reveal_strlit("value");
            assert("value"@.len() == 5);
        }
        assert("position"@ != "value"@) by {
            reveal_strlit("position");
            assert("position"@.len() == 8);
            reveal_strlit("value");
            assert("value"@.len() == 5);
        }
        assert("position"@ != "placement"@) by {
            reveal_strlit("position");
            assert("position"@.len() == 8);
            reveal_strlit("placement");
            assert("placement"@.len() == 9);
        }
        let ghost s0 = seq![SexprV::Symbol("breath-mark"@)];
        assert(ends_clean(s0));
        let ghost p1 = kw_pair("value"@, x.value.to_sexpr_spec());
        x.value.lemma_not_keyword();
        lemma_pair_piece("value"@, x.value.to_sexpr_spec());
        let ghost s1 = s0 + p1;
        lemma_ends_clean(s0, p1);
        let ghost p2 = kw_opt("placement"@, x.placement);
        lemma_opt_piece("placement"@, x.placement);
        let ghost s2 = s1 + p2;
        lemma_ends_clean(s1, p2);
        let ghost p3 = kw_if(x.position.is_set(), "position"@, x.position.to_sexpr_spec());
        x.position.lemma_not_keyword();
        lemma_if_piece(x.position.is_set(), "position"@, x.position.to_sexpr_spec());
        let ghost s3 = s2 + p3;
        lemma_ends_clean(s2, p3);
        assert(x.to_sexpr_spec() == SexprV::List(s3));
        assert(s3[0] == SexprV::Symbol("breath-mark"@)) by {
            assert(s1[0] == s0[0]);
            assert(s2[0] == s1[0]);
            assert(s3[0] == s2[0]);
        }
        assert(find_kwarg_spec(s3, "value"@) == (Some(x.value.to_sexpr_spec()))) by {
            lemma_find_head_key("breath-mark"@, "value"@);
            if p1.len() == 2 { lemma_find_hit(s0, p1, "value"@); } else { lemma_find_skip(s0, p1, "value"@); }
            lemma_find_skip(s1, p2, "value"@);
            lemma_find_skip(s2, p3, "value"@);
        }
        assert(find_kwarg_spec(s3, "placement"@) == (match x.placement { Some(y) => Some(y.to_sexpr_spec()), None => None })) by {
            lemma_find_head_key("breath-mark"@, "placement"@);
            lemma_find_skip(s0, p1, "placement"@);
            if p2.len() == 2 { lemma_find_hit(s1, p2, "placement"@); } else { lemma_find_skip(s1, p2, "placement"@); }
            lemma_find_skip(s2, p3, "placement"@);
        }
        assert(find_kwarg_spec(s3, "position"@) == (if x.position.is_set() { Some(x.position.to_sexpr_spec()) } else { None })) by {
            lemma_find_head_key("breath-mark"@, "position"@);
            lemma_find_skip(s0, p1, "position"@);
            lemma_find_skip(s1, p2, "position"@);
            if p3.len() == 2 { lemma_find_hit(s2, p3, "position"@); } else { lemma_find_skip(s2, p3, "position"@); }
        }
}

impl RoundTrip for BreathMark {
    /// A value whose parts are writable.
    open spec fn writable(&self) -> bool {
        self.position.writable()
            && self.value.writable()
            && self.placement.writable()
    }

    open spec fn same(&self, other: &Self) -> bool {
        self.position.same(&other.position)
            && self.value.same(&other.value)
            && self.placement.same(&other.placement)
    }

    proof fn lemma_not_keyword(&self) {
    }

    proof fn lemma_no_error(&self) {
        lemma_breath_mark_items(*self);
        self.position.lemma_no_error();
        self.value.lemma_no_error();
        self.placement.lemma_no_error();
    }

    proof fn lemma_value(&self, v: Self) {
        lemma_breath_mark_items(*self);
        self.value.lemma_value(v.value);
        self.placement.lemma_value(v.placement);
        if self.position.is_set() {
            self.position.lemma_value(v.position);
        }
    }
}

/// The head and keyword arguments of the S-expression of a `Caesura`.
pub proof fn lemma_caesura_items(x: Caesura)
    requires
        x.writable(),
    ensures
        x.to_sexpr_spec() matches SexprV::List(items) && items.len() > 0 && items[0] == SexprV::Symbol("caesura"@)
            && find_kwarg_spec(items, "value"@) == (Some(x.value.to_sexpr_spec()))
            && find_kwarg_spec(items, "placement"@) == (match x.placement { Some(y) => Some(y.to_sexpr_spec()), None => None })
            && find_kwarg_spec(items, "position"@) == (if x.position.is_set() { Some(x.position.to_sexpr_spec()) } else { None }),
{
        assert("placement"@ != "value"@) by {
            reveal_strlit("placement");
            assert("placement"@.len() == 9);
            reveal_strlit("value");
            assert("value"@.len() == 5);
        }
        assert("position"@ != "value"@) by {
            reveal_strlit("position");
            assert("position"@.len() == 8);
            reveal_strlit("value");
            assert("value"@.len() == 5);
        }
        assert("position"@ != "placement"@) by {
            reveal_strlit("position");
            assert("position"@.len() == 8);
            reveal_strlit("placement");
            assert("placement"@.len() == 9);
        }
        let ghost s0 = seq![SexprV::Symbol("caesura"@)];
        assert(ends_clean(s0));
        let ghost p1 = kw_pair("value"@, x.value.to_sexpr_spec());
        x.value.lemma_not_keyword();
        lemma_pair_piece("value"@, x.value.to_sexpr_spec());
        let ghost s1 = s0 + p1;
        lemma_ends_clean(s0, p1);
        let ghost p2 = kw_opt("placement"@, x.placement);
        lemma_opt_piece("placement"@, x.placement);
        let ghost s2 = s1 + p2;
        lemma_ends_clean(s1, p2);
        let ghost p3 = kw_if(x.position.is_set(), "position"@, x.position.to_sexpr_spec());
        x.position.lemma_not_keyword();
        lemma_if_piece(x.position.is_set(), "position"@, x.position.to_sexpr_spec());
        let ghost s3 = s2 + p3;
        lemma_ends_clean(s2, p3);
        assert(x.to_sexpr_spec() == SexprV::List(s3));
        assert(s3[0] == SexprV::Symbol("caesura"@)) by {
            assert(s1[0] == s0[0]);
            assert(s2[0] == s1[0]);
            assert(s3[0] == s2[0]);
        }
        assert(find_kwarg_spec(s3, "value"@) == (Some(x.value.to_sexpr_spec()))) by {
            lemma_find_head_key("caesura"@, "value"@);
            if p1.len() == 2 { lemma_find_hit(s0, p1, "value"@); } else { lemma_find_skip(s0, p1, "value"@); }
            lemma_find_skip(s1, p2, "value"@);
            lemma_find_skip(s2, p3, "value"@);
        }
        assert(find_kwarg_spec(s3, "placement"@) == (match x.placement { Some(y) => Some(y.to_sexpr_spec()), None => None })) by {
            lemma_find_head_key("caesura"@, "placement"@);
            lemma_find_skip(s0, p1, "placement"@);
            if p2.len() == 2 { lemma_find_hit(s1, p2, "placement"@); } else { lemma_find_skip(s1, p2, "placement"@); }
            lemma_find_skip(s2, p3, "placement"@);
        }
        assert(find_kwarg_spec(s3, "position"@) == (if x.position.is_set() { Some(x.position.to_sexpr_spec()) } else { None })) by {
            lemma_find_head_key("caesura"@, "position"@);
            lemma_find_skip(s0, p1, "position"@);
            lemma_find_skip(s1, p2, "position"@);
            if p3.len() == 2 { lemma_find_hit(s2, p3, "position"@); } else { lemma_find_skip(s2, p3, "position"@); }
        }
}

impl RoundTrip for Caesura {
    /// A value whose parts are writable.
    open spec fn writable(&self) -> bool {
        self.position.writable()
            && self.value.writable()
            && self.placement.writable()
    }

    open spec fn same(&self, other: &Self) -> bool {
        self.position.same(&other.position)
            && self.value.same(&other.value)
            && self.placement.same(&other.placement)
    }

    proof fn lemma_not_keyword(&self) {
    }

    proof fn lemma_no_error(&self) {
        lemma_caesura_items(*self);
        self.position.lemma_no_error();
        self.value.lemma_no_error();
        self.placement.lemma_no_error();
    }

    proof fn lemma_value(&self, v: Self) {
        lemma_caesura_items(*self);
        self.value.lemma_value(v.value);
        self.placement.lemma_value(v.placement);
        if self.position.is_set() {
            self.position.lemma_value(v.position);
        }
    }
}

/// The head and keyword arguments of the S-expression of a `OtherArticulation`.
pub proof fn lemma_other_articulation_items(x: OtherArticulation)
    requires
        x.writable(),
    ensures
        x.to_sexpr_spec() matches SexprV::List(items) && items.len() > 0 && items[0] == SexprV::Symbol("other-articulation"@)
            && find_kwarg_spec(items, "value"@) == (Some(x.value.to_sexpr_spec()))
            && find_kwarg_spec(items, "placement"@) == (match x.placement { Some(y) => Some(y.to_sexpr_spec()), None => None })
            && find_kwarg_spec(items, "position"@) == (if x.print_style.position.is_set() { Some(x.print_style.position.to_sexpr_spec()) } else { None })
            && find_kwarg_spec(items, "color"@) == (match x.print_style.color { Some(y) => Some(y.to_sexpr_spec()), None => None }),
{
        assert("placement"@ != "value"@) by {
            reveal_strlit("placement");
            assert("placement"@.len() == 9);
            reveal_strlit("value");
            assert("value"@.len() == 5);
        }
        assert("position"@ != "value"@) by {
            reveal_strlit("position");
            assert("position"@.len() == 8);
            reveal_strlit("value");
            assert("value"@.len() == 5);
        }
        assert("color"@ != "value"@) by {
            reveal_strlit("color");
            assert("color"@.len() == 5);
            reveal_strlit("value");
            assert("value"@.len() == 5);
            assert("color"@[0] == 'c');
            assert("value"@[0] == 'v');
        }
        assert("position"@ != "placement"@) by {
            reveal_strlit("position");
            assert("position"@.len() == 8);
            reveal_strlit("placement");
            assert("placement"@.len() == 9);
        }
        assert("color"@ != "placement"@) by {
            reveal_strlit("color");
            assert("color"@.len() == 5);
            reveal_strlit("placement");
            assert("placement"@.len() == 9);
        }
        assert("color"@ != "position"@) by {
            reveal_strlit("color");
            assert("color"@.len() == 5);
            reveal_strlit("position");
            assert("position"@.len() == 8);
        }
        let ghost s0 = seq![SexprV::Symbol("other-articulation"@)];
        assert(ends_clean(s0));
        let ghost p1 = kw_pair("value"@, x.value.to_sexpr_spec());
        x.value.lemma_not_keyword();
        lemma_pair_piece("value"@, x.value.to_sexpr_spec());
        let ghost s1 = s0 + p1;
        lemma_ends_clean(s0, p1);
        let ghost p2 = kw_opt("placement"@, x.placement);
        lemma_opt_piece("placement"@, x.placement);
        let ghost s2 = s1 + p2;
        lemma_ends_clean(s1, p2);
        let ghost p3 = kw_if(x.print_style.position.is_set(), "position"@, x.print_style.position.to_sexpr_spec());
        x.print_style.position.lemma_not_keyword();
        lemma_if_piece(x.print_style.position.is_set(), "position"@, x.print_style.position.to_sexpr_spec());
        let ghost s3 = s2 + p3;
        lemma_ends_clean(s2, p3);
        let ghost p4 = kw_opt("color"@, x.print_style.color);
        lemma_opt_piece("color"@, x.print_style.color);
        let ghost s4 = s3 + p4;
        lemma_ends_clean(s3, p4);
        assert(x.to_sexpr_spec() == SexprV::List(s4));
        assert(s4[0] == SexprV::Symbol("other-articulation"@)) by {
            assert(s1[0] == s0[0]);
            assert(s2[0] == s1[0]);
            assert(s3[0] == s2[0]);
            assert(s4[0] == s3[0]);
        }
        assert(find_kwarg_spec(s4, "value"@) == (Some(x.value.to_sexpr_spec()))) by {
            lemma_find_head_key("other-articulation"@, "value"@);
            if p1.len() == 2 { lemma_find_hit(s0, p1, "value"@); } else { lemma_find_skip(s0, p1, "value"@); }
            lemma_find_skip(s1, p2, "value"@);
            lemma_find_skip(s2, p3, "value"@);
            lemma_find_skip(s3, p4, "value"@);
        }
        assert(find_kwarg_spec(s4, "placement"@) == (match x.placement { Some(y) => Some(y.to_sexpr_spec()), None => None })) by {
            lemma_find_head_key("other-articulation"@, "placement"@);
            lemma_find_skip(s0, p1, "placement"@);
            if p2.len() == 2 { lemma_find_hit(s1, p2, "placement"@); } else { lemma_find_skip(s1, p2, "placement"@); }
            lemma_find_skip(s2, p3, "placement"@);
            lemma_find_skip(s3, p4, "placement"@);
        }
        assert(find_kwarg_spec(s4, "position"@) == (if x.print_style.position.is_set() { Some(x.print_style.position.to_sexpr_spec()) } else { None })) by {
            lemma_find_head_key("other-articulation"@, "position"@);
            lemma_find_skip(s0, p1, "position"@);
            lemma_find_skip(s1, p2, "position"@);
            if p3.len() == 2 { lemma_find_hit(s2, p3, "position"@); } else { lemma_find_skip(s2, p3, "position"@); }
            lemma_find_skip(s3, p4, "position"@);
        }
        assert(find_kwarg_spec(s4, "color"@) == (match x.print_style.color { Some(y) => Some(y.to_sexpr_spec()), None => None })) by {
            lemma_find_head_key("other-articulation"@, "color"@);
            lemma_find_skip(s0, p1, "color"@);
            lemma_find_skip(s1, p2, "color"@);
            lemma_find_skip(s2, p3, "color"@);
            if p4.len() == 2 { lemma_find_hit(s3, p4, "color"@); } else { lemma_find_skip(s3, p4, "color"@); }
        }
}

impl RoundTrip for OtherArticulation {
    /// A value whose parts are writable and whose unwritten parts are as reading gives them.
    open spec fn writable(&self) -> bool {
        self.print_style.position.writable()
            && self.print_style.color.writable()
            && self.value.writable()
            && self.placement.writable()
            && self.print_style.font == font_none()
    }

    open spec fn same(&self, other: &Self) -> bool {
        self.print_style.position.same(&other.print_style.position)
            && self.print_style.color.same(&other.print_style.color)
            && self.value.same(&other.value)
            && self.placement.same(&other.placement)
            && self.print_style.font == other.print_style.font
    }

    proof fn lemma_not_keyword(&self) {
    }

    proof fn lemma_no_error(&self) {
        lemma_other_articulation_items(*self);
        self.print_style.position.lemma_no_error();
        self.print_style.color.lemma_no_error();
        self.value.lemma_no_error();
        self.placement.lemma_no_error();
    }

    proof fn lemma_value(&self, v: Self) {
        lemma_other_articulation_items(*self);
        self.value.lemma_value(v.value);
        self.placement.lemma_value(v.placement);
        if self.print_style.position.is_set() {
            self.print_style.position.lemma_value(v.print_style.position);
        }
        self.print_style.color.lemma_value(v.print_style.color);
    }
}

/// The head and keyword arguments of the S-expression of a `EmptyTrillSound`, part 1.
pub proof fn lemma_empty_trill_sound_items_0(x: EmptyTrillSound)
    requires
        x.writable(),
    ensures
        x.to_sexpr_spec() matches SexprV::List(items) && items.len() > 0 && items[0] == SexprV::Symbol("empty-trill-sound"@)
            && find_kwarg_spec(items, "placement"@) == (match x.placement { Some(y) => Some(y.to_sexpr_spec()), None => None })
            && find_kwarg_spec(items, "start-note"@) == (match x.start_note { Some(y) => Some(y.to_sexpr_spec()), None => None })
            && find_kwarg_spec(items, "trill-step"@) == (match x.trill_step { Some(y) => Some(y.to_sexpr_spec()), None => None })
            && find_kwarg_spec(items, "two-note-turn"@) == (match x.two_note_turn { Some(y) => Some(y.to_sexpr_spec()), None => None }),
{
        assert("start-note"@ != "placement"@) by {
            reveal_strlit("start-note");
            assert("start-note"@.len() == 10);
            reveal_strlit("placement");
            assert("placement"@.len() == 9);
        }
        assert("trill-step"@ != "placement"@) by {
            reveal_strlit("trill-step");
            assert("trill-step"@.len() == 10);
            reveal_strlit("placement");
            assert("placement"@.len() == 9);
        }
        assert("two-note-turn"@ != "placement"@) by {
            reveal_strlit("two-note-turn");
            assert("two-note-turn"@.len() == 13);
            reveal_strlit("placement");
            assert("placement"@.len() == 9);
        }
        assert("accelerate"@ != "placement"@) by {
            reveal_strlit("accelerate");
            assert("accelerate"@.len() == 10);
            reveal_strlit("placement");
            assert("placement"@.len() == 9);
        }
        assert("beats"@ != "placement"@) by {
            reveal_strlit("beats");
            assert("beats"@.len() == 5);
            reveal_strlit("placement");
            assert("placement"@.len() == 9);
        }
        assert("second-beat"@ != "placement"@) by {
            reveal_strlit("second-beat");
            assert("second-beat"@.len() == 11);
            reveal_strlit("placement");
            assert("placement"@.len() == 9);
        }
        assert("last-beat"@ != "placement"@) by {
            reveal_strlit("last-beat");
            assert("last-beat"@.len() == 9);
            reveal_strlit("placement");
            assert("placement"@.len() == 9);
            assert("last-beat"@[0] == 'l');
            assert("placement"@[0] == 'p');
        }
        assert("position"@ != "placement"@) by {
            reveal_strlit("position");
            assert("position"@.len() == 8);
            reveal_strlit("placement");
            assert("placement"@.len() == 9);
        }
        assert("trill-step"@ != "start-note"@) by {
            reveal_strlit("trill-step");
            assert("trill-step"@.len() == 10);
            reveal_strlit("start-note");
            assert("start-note"@.len() == 10);
            assert("trill-step"@[0] == 't');
            assert("start-note"@[0] == 's');
        }
        assert("two-note-turn"@ != "start-note"@) by {
            reveal_strlit("two-note-turn");
            assert("two-note-turn"@.len() == 13);
            reveal_strlit("start-note");
            assert("start-note"@.len() == 10);
        }
        assert("accelerate"@ != "start-note"@) by {
            reveal_strlit("accelerate");
            assert("accelerate"@.len() == 10);
            reveal_strlit("start-note");
            assert("start-note"@.len() == 10);
            assert("accelerate"@[0] == 'a');
            assert("start-note"@[0] == 's');
        }
        assert("beats"@ != "start-note"@) by {
            reveal_strlit("beats");
            assert("beats"@.len() == 5);
            reveal_strlit("start-note");
            assert("start-note"@.len() == 10);
        }
        assert("second-beat"@ != "start-note"@) by {
            reveal_strlit("second-beat");
            assert("second-beat"@.len() == 11);
            reveal_strlit("start-note");
            assert("start-note"@.len() == 10);
        }
        assert("last-beat"@ != "start-note"@) by {
            reveal_strlit("last-beat");
            assert("last-beat"@.len() == 9);
            reveal_strlit("start-note");
            assert("start-note"@.len() == 10);
        }
        assert("position"@ != "start-note"@) by {
            reveal_strlit("position");
            assert("position"@.len() == 8);
            reveal_strlit("start-note");
            assert("start-note"@.len() == 10);
        }
        assert("two-note-turn"@ != "trill-step"@) by {
            reveal_strlit("two-note-turn");
            assert("two-note-turn"@.len() == 13);
            reveal_strlit("trill-step");
            assert("trill-step"@.len() == 10);
        }
        assert("accelerate"@ != "trill-step"@) by {
            reveal_strlit("accelerate");
            assert("accelerate"@.len() == 10);
            reveal_strlit("trill-step");
            assert("trill-step"@.len() == 10);
            assert("accelerate"@[0] == 'a');
            assert("trill-step"@[0] == 't');
        }
        assert("beats"@ != "trill-step"@) by {
            reveal_strlit("beats");
            assert("beats"@.len() == 5);
            reveal_strlit("trill-step");
            assert("trill-step"@.len() == 10);
        }
        assert("second-beat"@ != "trill-step"@) by {
            reveal_strlit("second-beat");
            assert("second-beat"@.len() == 11);
            reveal_strlit("trill-step");
            assert("trill-step"@.len() == 10);
        }
        assert("last-beat"@ != "trill-step"@) by {
            reveal_strlit("last-beat");
            assert("last-beat"@.len() == 9);
            reveal_strlit("trill-step");
            assert("trill-step"@.len() == 10);
        }
        assert("position"@ != "trill-step"@) by {
            reveal_strlit("position");
            assert("position"@.len() == 8);
            reveal_strlit("trill-step");
            assert("trill-step"@.len() == 10);
        }
        assert("accelerate"@ != "two-note-turn"@) by {
            reveal_strlit("accelerate");
            assert("accelerate"@.len() == 10);
            reveal_strlit("two-note-turn");
            assert("two-note-turn"@.len() == 13);
        }
        assert("beats"@ != "two-note-turn"@) by {
            reveal_strlit("beats");
            assert("beats"@.len() == 5);
            reveal_strlit("two-note-turn");
            assert("two-note-turn"@.len() == 13);
        }
        assert("second-beat"@ != "two-note-turn"@) by {
            reveal_strlit("second-beat");
            assert("second-beat"@.len() == 11);
            reveal_strlit("two-note-turn");
            assert("two-note-turn"@.len() == 13);
        }
        assert("last-beat"@ != "two-note-turn"@) by {
            reveal_strlit("last-beat");
            assert("last-beat"@.len() == 9);
            reveal_strlit("two-note-turn");
            assert("two-note-turn"@.len() == 13);
        }
        assert("position"@ != "two-note-turn"@) by {
            reveal_strlit("position");
            assert("position"@.len() == 8);
            reveal_strlit("two-note-turn");
            assert("two-note-turn"@.len() == 13);
        }
        let ghost s0 = seq![SexprV::Symbol("empty-trill-sound"@)];
        assert(ends_clean(s0));
        let ghost p1 = kw_opt("placement"@, x.placement);
        lemma_opt_piece("placement"@, x.placement);
        let ghost s1 = s0 + p1;
        lemma_ends_clean(s0, p1);
        let ghost p2 = kw_opt("start-note"@, x.start_note);
        lemma_opt_piece("start-note"@, x.start_note);
        let ghost s2 = s1 + p2;
        lemma_ends_clean(s1, p2);
        let ghost p3 = kw_opt("trill-step"@, x.trill_step);
        lemma_opt_piece("trill-step"@, x.trill_step);
        let ghost s3 = s2 + p3;
        lemma_ends_clean(s2, p3);
        let ghost p4 = kw_opt("two-note-turn"@, x.two_note_turn);
        lemma_opt_piece("two-note-turn"@, x.two_note_turn);
        let ghost s4 = s3 + p4;
        lemma_ends_clean(s3, p4);
        let ghost p5 = kw_opt("accelerate"@, x.accelerate);
        lemma_opt_piece("accelerate"@, x.accelerate);
        let ghost s5 = s4 + p5;
        lemma_ends_clean(s4, p5);
        let ghost p6 = kw_opt("beats"@, x.beats);
        lemma_opt_piece("beats"@, x.beats);
        let ghost s6 = s5 + p6;
        lemma_ends_clean(s5, p6);
        let ghost p7 = kw_opt("second-beat"@, x.second_beat);
        lemma_opt_piece("second-beat"@, x.second_beat);
        let ghost s7 = s6 + p7;
        lemma_ends_clean(s6, p7);
        let ghost p8 = kw_opt("last-beat"@, x.last_beat);
        lemma_opt_piece("last-beat"@, x.last_beat);
        let ghost s8 = s7 + p8;
        lemma_ends_clean(s7, p8);
        let ghost p9 = kw_if(x.position.is_set(), "position"@, x.position.to_sexpr_spec());
        x.position.lemma_not_keyword();
        lemma_if_piece(x.position.is_set(), "position"@, x.position.to_sexpr_spec());
        let ghost s9 = s8 + p9;
        lemma_ends_clean(s8, p9);
        assert(x.to_sexpr_spec() == SexprV::List(s9));
        assert(s9[0] == SexprV::Symbol("empty-trill-sound"@)) by {
            assert(s1[0] == s0[0]);
            assert(s2[0] == s1[0]);
            assert(s3[0] == s2[0]);
            assert(s4[0] == s3[0]);
            assert(s5[0] == s4[0]);
            assert(s6[0] == s5[0]);
            assert(s7[0] == s6[0]);
            assert(s8[0] == s7[0]);
            assert(s9[0] == s8[0]);
        }
        assert(find_kwarg_spec(s9, "placement"@) == (match x.placement { Some(y) => Some(y.to_sexpr_spec()), None => None })) by {
            lemma_find_head_key("empty-trill-sound"@, "placement"@);
            if p1.len() == 2 { lemma_find_hit(s0, p1, "placement"@); } else { lemma_find_skip(s0, p1, "placement"@); }
            lemma_find_skip(s1, p2, "placement"@);
            lemma_find_skip(s2, p3, "placement"@);
            lemma_find_skip(s3, p4, "placement"@);
            lemma_find_skip(s4, p5, "placement"@);
            lemma_find_skip(s5, p6, "placement"@);
            lemma_find_skip(s6, p7, "placement"@);
            lemma_find_skip(s7, p8, "placement"@);
            lemma_find_skip(s8, p9, "placement"@);
        }
        assert(find_kwarg_spec(s9, "start-note"@) == (match x.start_note { Some(y) => Some(y.to_sexpr_spec()), None => None })) by {
            lemma_find_head_key("empty-trill-sound"@, "start-note"@);
            lemma_find_skip(s0, p1, "start-note"@);
            if p2.len() == 2 { lemma_find_hit(s1, p2, "start-note"@); } else { lemma_find_skip(s1, p2, "start-note"@); }
            lemma_find_skip(s2, p3, "start-note"@);
            lemma_find_skip(s3, p4, "start-note"@);
            lemma_find_skip(s4, p5, "start-note"@);
            lemma_find_skip(s5, p6, "start-note"@);
            lemma_find_skip(s6, p7, "start-note"@);
            lemma_find_skip(s7, p8, "start-note"@);
            lemma_find_skip(s8, p9, "start-note"@);
        }
        assert(find_kwarg_spec(s9, "trill-step"@) == (match x.trill_step { Some(y) => Some(y.to_sexpr_spec()), None => None })) by {
            lemma_find_head_key("empty-trill-sound"@, "trill-step"@);
            lemma_find_skip(s0, p1, "trill-step"@);
            lemma_find_skip(s1, p2, "trill-step"@);
            if p3.len() == 2 { lemma_find_hit(s2, p3, "trill-step"@); } else { lemma_find_skip(s2, p3, "trill-step"@); }
            lemma_find_skip(s3, p4, "trill-step"@);
            lemma_find_skip(s4, p5, "trill-step"@);
            lemma_find_skip(s5, p6, "trill-step"@);
            lemma_find_skip(s6, p7, "trill-step"@);
            lemma_find_skip(s7, p8, "trill-step"@);
            lemma_find_skip(s8, p9, "trill-step"@);
        }
        assert(find_kwarg_spec(s9, "two-note-turn"@) == (match x.two_note_turn { Some(y) => Some(y.to_sexpr_spec()), None => None })) by {
            lemma_find_head_key("empty-trill-sound"@, "two-note-turn"@);
            lemma_find_skip(s0, p1, "two-note-turn"@);
            lemma_find_skip(s1, p2, "two-note-turn"@);
            lemma_find_skip(s2, p3, "two-note-turn"@);
            if p4.len() == 2 { lemma_find_hit(s3, p4, "two-note-turn"@); } else { lemma_find_skip(s3, p4, "two-note-turn"@); }
            lemma_find_skip(s4, p5, "two-note-turn"@);
            lemma_find_skip(s5, p6, "two-note-turn"@);
            lemma_find_skip(s6, p7, "two-note-turn"@);
            lemma_find_skip(s7, p8, "two-note-turn"@);
            lemma_find_skip(s8, p9, "two-note-turn"@);
        }
}

/// The head and keyword arguments of the S-expression of a `EmptyTrillSound`, part 2.
pub proof fn lemma_empty_trill_sound_items_1(x: EmptyTrillSound)
    requires
        x.writable(),
    ensures
        x.to_sexpr_spec() matches SexprV::List(items)
            && find_kwarg_spec(items, "accelerate"@) == (match x.accelerate { Some(y) => Some(y.to_sexpr_spec()), None => None })
            && find_kwarg_spec(items, "beats"@) == (match x.beats { Some(y) => Some(y.to_sexpr_spec()), None => None })
            && find_kwarg_spec(items, "second-beat"@) == (match x.second_beat { Some(y) => Some(y.to_sexpr_spec()), None => None })
            && find_kwarg_spec(items, "last-beat"@) == (match x.last_beat { Some(y) => Some(y.to_sexpr_spec()), None => None }),
{
        assert("placement"@ != "accelerate"@) by {
            reveal_strlit("placement");
            assert("placement"@.len() == 9);
            reveal_strlit("accelerate");
            assert("accelerate"@.len() == 10);
        }
        assert("start-note"@ != "accelerate"@) by {
            reveal_strlit("start-note");
            assert("start-note"@.len() == 10);
            reveal_strlit("accelerate");
            assert("accelerate"@.len() == 10);
            assert("start-note"@[0] == 's');
            assert("accelerate"@[0] == 'a');
        }
        assert("trill-step"@ != "accelerate"@) by {
            reveal_strlit("trill-step");
            assert("trill-step"@.len() == 10);
            reveal_strlit("accelerate");
            assert("accelerate"@.len() == 10);
            assert("trill-step"@[0] == 't');
            assert("accelerate"@[0] == 'a');
        }
        assert("two-note-turn"@ != "accelerate"@) by {
            reveal_strlit("two-note-turn");
            assert("two-note-turn"@.len() == 13);
            reveal_strlit("accelerate");
            assert("accelerate"@.len() == 10);
        }
        assert("beats"@ != "accelerate"@) by {
            reveal_strlit("beats");
            assert("beats"@.len() == 5);
            reveal_strlit("accelerate");
            assert("accelerate"@.len() == 10);
        }
        assert("second-beat"@ != "accelerate"@) by {
            reveal_strlit("second-beat");
            assert("second-beat"@.len() == 11);
            reveal_strlit("accelerate");
            assert("accelerate"@.len() == 10);
        }
        assert("last-beat"@ != "accelerate"@) by {
            reveal_strlit("last-beat");
            assert("last-beat"@.len() == 9);
            reveal_strlit("accelerate");
            assert("accelerate"@.len() == 10);
        }
        assert("position"@ != "accelerate"@) by {
            reveal_strlit("position");
            assert("position"@.len() == 8);
            reveal_strlit("accelerate");
            assert("accelerate"@.len() == 10);
        }
        assert("placement"@ != "beats"@) by {
            reveal_strlit("placement");
            assert("placement"@.len() == 9);
            reveal_strlit("beats");
            assert("beats"@.len() == 5);
        }
        assert("start-note"@ != "beats"@) by {
            reveal_strlit("start-note");
            assert("start-note"@.len() == 10);
            reveal_strlit("beats");
            assert("beats"@.len() == 5);
        }
        assert("trill-step"@ != "beats"@) by {
            reveal_strlit("trill-step");
            assert("trill-step"@.len() == 10);
            reveal_strlit("beats");
            assert("beats"@.len() == 5);
        }
        assert("two-note-turn"@ != "beats"@) by {
            reveal_strlit("two-note-turn");
            assert("two-note-turn"@.len() == 13);
            reveal_strlit("beats");
            assert("beats"@.len() == 5);
        }
        assert("second-beat"@ != "beats"@) by {
            reveal_strlit("second-beat");
            assert("second-beat"@.len() == 11);
            reveal_strlit("beats");
            assert("beats"@.len() == 5);
        }
        assert("last-beat"@ != "beats"@) by {
            reveal_strlit("last-beat");
            assert("last-beat"@.len() == 9);
            reveal_strlit("beats");
            assert("beats"@.len() == 5);
        }
        assert("position"@ != "beats"@) by {
            reveal_strlit("position");
            assert("position"@.len() == 8);
            reveal_strlit("beats");
            assert("beats"@.len() == 5);
        }
        assert("placement"@ != "second-beat"@) by {
            reveal_strlit("placement");
            assert("placement"@.len() == 9);
            reveal_strlit("second-beat");
            assert("second-beat"@.len() == 11);
        }
        assert("start-note"@ != "second-beat"@) by {
            reveal_strlit("start-note");
            assert("start-note"@.len() == 10);
            reveal_strlit("second-beat");
            assert("second-beat"@.len() == 11);
        }
        assert("trill-step"@ != "second-beat"@) by {
            reveal_strlit("trill-step");
            assert("trill-step"@.len() == 10);
            reveal_strlit("second-beat");
            assert("second-beat"@.len() == 11);
        }
        assert("two-note-turn"@ != "second-beat"@) by {
            reveal_strlit("two-note-turn");
            assert("two-note-turn"@.len() == 13);
            reveal_strlit("second-beat");
            assert("second-beat"@.len() == 11);
        }
        assert("last-beat"@ != "second-beat"@) by {
            reveal_strlit("last-beat");
            assert("last-beat"@.len() == 9);
            reveal_strlit("second-beat");
            assert("second-beat"@.len() == 11);
        }
        assert("position"@ != "second-beat"@) by {
            reveal_strlit("position");
            assert("position"@.len() == 8);
            reveal_strlit("second-beat");
            assert("second-beat"@.len() == 11);
        }
        assert("placement"@ != "last-beat"@) by {
            reveal_strlit("placement");
            assert("placement"@.len() == 9);
            reveal_strlit("last-beat");
            assert("last-beat"@.len() == 9);
            assert("placement"@[0] == 'p');
            assert("last-beat"@[0] == 'l');
        }
        assert("start-note"@ != "last-beat"@) by {
            reveal_strlit("start-note");
            assert("start-note"@.len() == 10);
            reveal_strlit("last-beat");
            assert("last-beat"@.len() == 9);
        }
        assert("trill-step"@ != "last-beat"@) by {
            reveal_strlit("trill-step");
            assert("trill-step"@.len() == 10);
            reveal_strlit("last-beat");
            assert("last-beat"@.len() == 9);
        }
        assert("two-note-turn"@ != "last-beat"@) by {
            reveal_strlit("two-note-turn");
            assert("two-note-turn"@.len() == 13);
            reveal_strlit("last-beat");
            assert("last-beat"@.len() == 9);
        }
        assert("position"@ != "last-beat"@) by {
            reveal_strlit("position");
            assert("position"@.len() == 8);
            reveal_strlit("last-beat");
            assert("last-beat"@.len() == 9);
        }
        let ghost s0 = seq![SexprV::Symbol("empty-trill-sound"@)];
        assert(ends_clean(s0));
        let ghost p1 = kw_opt("placement"@, x.placement);
        lemma_opt_piece("placement"@, x.placement);
        let ghost s1 = s0 + p1;
        lemma_ends_clean(s0, p1);
        let ghost p2 = kw_opt("start-note"@, x.start_note);
        lemma_opt_piece("start-note"@, x.start_note);
        let ghost s2 = s1 + p2;
        lemma_ends_clean(s1, p2);
        let ghost p3 = kw_opt("trill-step"@, x.trill_step);
        lemma_opt_piece("trill-step"@, x.trill_step);
        let ghost s3 = s2 + p3;
        lemma_ends_clean(s2, p3);
        let ghost p4 = kw_opt("two-note-turn"@, x.two_note_turn);
        lemma_opt_piece("two-note-turn"@, x.two_note_turn);
        let ghost s4 = s3 + p4;
        lemma_ends_clean(s3, p4);
        let ghost p5 = kw_opt("accelerate"@, x.accelerate);
        lemma_opt_piece("accelerate"@, x.accelerate);
        let ghost s5 = s4 + p5;
        lemma_ends_clean(s4, p5);
        let ghost p6 = kw_opt("beats"@, x.beats);
        lemma_opt_piece("beats"@, x.beats);
        let ghost s6 = s5 + p6;
        lemma_ends_clean(s5, p6);
        let ghost p7 = kw_opt("second-beat"@, x.second_beat);
        lemma_opt_piece("second-beat"@, x.second_beat);
        let ghost s7 = s6 + p7;
        lemma_ends_clean(s6, p7);
        let ghost p8 = kw_opt("last-beat"@, x.last_beat);
        lemma_opt_piece("last-beat"@, x.last_beat);
        let ghost s8 = s7 + p8;
        lemma_ends_clean(s7, p8);
        let ghost p9 = kw_if(x.position.is_set(), "position"@, x.position.to_sexpr_spec());
        x.position.lemma_not_keyword();
        lemma_if_piece(x.position.is_set(), "position"@, x.position.to_sexpr_spec());
        let ghost s9 = s8 + p9;
        lemma_ends_clean(s8, p9);
        assert(x.to_sexpr_spec() == SexprV::List(s9));
        assert(find_kwarg_spec(s9, "accelerate"@) == (match x.accelerate { Some(y) => Some(y.to_sexpr_spec()), None => None })) by {
            lemma_find_head_key("empty-trill-sound"@, "accelerate"@);
            lemma_find_skip(s0, p1, "accelerate"@);
            lemma_find_skip(s1, p2, "accelerate"@);
            lemma_find_skip(s2, p3, "accelerate"@);
            lemma_find_skip(s3, p4, "accelerate"@);
            if p5.len() == 2 { lemma_find_hit(s4, p5, "accelerate"@); } else { lemma_find_skip(s4, p5, "accelerate"@); }
            lemma_find_skip(s5, p6, "accelerate"@);
            lemma_find_skip(s6, p7, "accelerate"@);
            lemma_find_skip(s7, p8, "accelerate"@);
            lemma_find_skip(s8, p9, "accelerate"@);
        }
        assert(find_kwarg_spec(s9, "beats"@) == (match x.beats { Some(y) => Some(y.to_sexpr_spec()), None => None })) by {
            lemma_find_head_key("empty-trill-sound"@, "beats"@);
            lemma_find_skip(s0, p1, "beats"@);
            lemma_find_skip(s1, p2, "beats"@);
            lemma_find_skip(s2, p3, "beats"@);
            lemma_find_skip(s3, p4, "beats"@);
            lemma_find_skip(s4, p5, "beats"@);
            if p6.len() == 2 { lemma_find_hit(s5, p6, "beats"@); } else { lemma_find_skip(s5, p6, "beats"@); }
            lemma_find_skip(s6, p7, "beats"@);
            lemma_find_skip(s7, p8, "beats"@);
            lemma_find_skip(s8, p9, "beats"@);
        }
        assert(find_kwarg_spec(s9, "second-beat"@) == (match x.second_beat { Some(y) => Some(y.to_sexpr_spec()), None => None })) by {
            lemma_find_head_key("empty-trill-sound"@, "second-beat"@);
            lemma_find_skip(s0, p1, "second-beat"@);
            lemma_find_skip(s1, p2, "second-beat"@);
            lemma_find_skip(s2, p3, "second-beat"@);
            lemma_find_skip(s3, p4, "second-beat"@);
            lemma_find_skip(s4, p5, "second-beat"@);
            lemma_find_skip(s5, p6, "second-beat"@);
            if p7.len() == 2 { lemma_find_hit(s6, p7, "second-beat"@); } else { lemma_find_skip(s6, p7, "second-beat"@); }
            lemma_find_skip(s7, p8, "second-beat"@);
            lemma_find_skip(s8, p9, "second-beat"@);
        }
        assert(find_kwarg_spec(s9, "last-beat"@) == (match x.last_beat { Some(y) => Some(y.to_sexpr_spec()), None => None })) by {
            lemma_find_head_key("empty-trill-sound"@, "last-beat"@);
            lemma_find_skip(s0, p1, "last-beat"@);
            lemma_find_skip(s1, p2, "last-beat"@);
            lemma_find_skip(s2, p3, "last-beat"@);
            lemma_find_skip(s3, p4, "last-beat"@);
            lemma_find_skip(s4, p5, "last-beat"@);
            lemma_find_skip(s5, p6, "last-beat"@);
            lemma_find_skip(s6, p7, "last-beat"@);
            if p8.len() == 2 { lemma_find_hit(s7, p8, "last-beat"@); } else { lemma_find_skip(s7, p8, "last-beat"@); }
            lemma_find_skip(s8, p9, "last-beat"@);
        }
}

/// The head and keyword arguments of the S-expression of a `EmptyTrillSound`, part 3.
pub proof fn lemma_empty_trill_sound_items_2(x: EmptyTrillSound)
    requires
        x.writable(),
    ensures
        x.to_sexpr_spec() matches SexprV::List(items)
            && find_kwarg_spec(items, "position"@) == (if x.position.is_set() { Some(x.position.to_sexpr_spec()) } else { None }),
{
        assert("placement"@ != "position"@) by {
            reveal_strlit("placement");
            assert("placement"@.len() == 9);
            reveal_strlit("position");
            assert("position"@.len() == 8);
        }
        assert("start-note"@ != "position"@) by {
            reveal_strlit("start-note");
            assert("start-note"@.len() == 10);
            reveal_strlit("position");
            assert("position"@.len() == 8);
        }
        assert("trill-step"@ != "position"@) by {
            reveal_strlit("trill-step");
            assert("trill-step"@.len() == 10);
            reveal_strlit("position");
            assert("position"@.len() == 8);
        }
        assert("two-note-turn"@ != "position"@) by {
            reveal_strlit("two-note-turn");
            assert("two-note-turn"@.len() == 13);
            reveal_strlit("position");
            assert("position"@.len() == 8);
        }
        assert("accelerate"@ != "position"@) by {
            reveal_strlit("accelerate");
            assert("accelerate"@.len() == 10);
            reveal_strlit("position");
            assert("position"@.len() == 8);
        }
        assert("beats"@ != "position"@) by {
            reveal_strlit("beats");
            assert("beats"@.len() == 5);
            reveal_strlit("position");
            assert("position"@.len() == 8);
        }
        assert("second-beat"@ != "position"@) by {
            reveal_strlit("second-beat");
            assert("second-beat"@.len() == 11);
            reveal_strlit("position");
            assert("position"@.len() == 8);
        }
        assert("last-beat"@ != "position"@) by {
            reveal_strlit("last-beat");
            assert("last-beat"@.len() == 9);
            reveal_strlit("position");
            assert("position"@.len() == 8);
        }
        let ghost s0 = seq![SexprV::Symbol("empty-trill-sound"@)];
        assert(ends_clean(s0));
        let ghost p1 = kw_opt("placement"@, x.placement);
        lemma_opt_piece("placement"@, x.placement);
        let ghost s1 = s0 + p1;
        lemma_ends_clean(s0, p1);
        let ghost p2 = kw_opt("start-note"@, x.start_note);
        lemma_opt_piece("start-note"@, x.start_note);
        let ghost s2 = s1 + p2;
        lemma_ends_clean(s1, p2);
        let ghost p3 = kw_opt("trill-step"@, x.trill_step);
        lemma_opt_piece("trill-step"@, x.trill_step);
        let ghost s3 = s2 + p3;
        lemma_ends_clean(s2, p3);
        let ghost p4 = kw_opt("two-note-turn"@, x.two_note_turn);
        lemma_opt_piece("two-note-turn"@, x.two_note_turn);
        let ghost s4 = s3 + p4;
        lemma_ends_clean(s3, p4);
        let ghost p5 = kw_opt("accelerate"@, x.accelerate);
        lemma_opt_piece("accelerate"@, x.accelerate);
        let ghost s5 = s4 + p5;
        lemma_ends_clean(s4, p5);
        let ghost p6 = kw_opt("beats"@, x.beats);
        lemma_opt_piece("beats"@, x.beats);
        let ghost s6 = s5 + p6;
        lemma_ends_clean(s5, p6);
        let ghost p7 = kw_opt("second-beat"@, x.second_beat);
        lemma_opt_piece("second-beat"@, x.second_beat);
        let ghost s7 = s6 + p7;
        lemma_ends_clean(s6, p7);
        let ghost p8 = kw_opt("last-beat"@, x.last_beat);
        lemma_opt_piece("last-beat"@, x.last_beat);
        let ghost s8 = s7 + p8;
        lemma_ends_clean(s7, p8);
        let ghost p9 = kw_if(x.position.is_set(), "position"@, x.position.to_sexpr_spec());
        x.position.lemma_not_keyword();
        lemma_if_piece(x.position.is_set(), "position"@, x.position.to_sexpr_spec());
        let ghost s9 = s8 + p9;
        lemma_ends_clean(s8, p9);
        assert(x.to_sexpr_spec() == SexprV::List(s9));
        assert(find_kwarg_spec(s9, "position"@) == (if x.position.is_set() { Some(x.position.to_sexpr_spec()) } else { None })) by {
            lemma_find_head_key("empty-trill-sound"@, "position"@);
            lemma_find_skip(s0, p1, "position"@);
            lemma_find_skip(s1, p2, "position"@);
            lemma_find_skip(s2, p3, "position"@);
            lemma_find_skip(s3, p4, "position"@);
            lemma_find_skip(s4, p5, "position"@);
            lemma_find_skip(s5, p6, "position"@);
            lemma_find_skip(s6, p7, "position"@);
            lemma_find_skip(s7, p8, "position"@);
            if p9.len() == 2 { lemma_find_hit(s8, p9, "position"@); } else { lemma_find_skip(s8, p9, "position"@); }
        }
}

/// The head and the keyword arguments of the S-expression of a `EmptyTrillSound`.
pub proof fn lemma_empty_trill_sound_items(x: EmptyTrillSound)
    requires
        x.writable(),
    ensures
        x.to_sexpr_spec() matches SexprV::List(items) && items.len() > 0 && items[0] == SexprV::Symbol("empty-trill-sound"@)
            && find_kwarg_spec(items, "placement"@) == (match x.placement { Some(y) => Some(y.to_sexpr_spec()), None => None })
            && find_kwarg_spec(items, "start-note"@) == (match x.start_note { Some(y) => Some(y.to_sexpr_spec()), None => None })
            && find_kwarg_spec(items, "trill-step"@) == (match x.trill_step { Some(y) => Some(y.to_sexpr_spec()), None => None })
            && find_kwarg_spec(items, "two-note-turn"@) == (match x.two_note_turn { Some(y) => Some(y.to_sexpr_spec()), None => None })
            && find_kwarg_spec(items, "accelerate"@) == (match x.accelerate { Some(y) => Some(y.to_sexpr_spec()), None => None })
            && find_kwarg_spec(items, "beats"@) == (match x.beats { Some(y) => Some(y.to_sexpr_spec()), None => None })
            && find_kwarg_spec(items, "second-beat"@) == (match x.second_beat { Some(y) => Some(y.to_sexpr_spec()), None => None })
            && find_kwarg_spec(items, "last-beat"@) == (match x.last_beat { Some(y) => Some(y.to_sexpr_spec()), None => None })
            && find_kwarg_spec(items, "position"@) == (if x.position.is_set() { Some(x.position.to_sexpr_spec()) } else { None }),
{
    lemma_empty_trill_sound_items_0(x);
    lemma_empty_trill_sound_items_1(x);
    lemma_empty_trill_sound_items_2(x);
}

impl RoundTrip for EmptyTrillSound {
    /// A value whose parts are writable.
    open spec fn writable(&self) -> bool {
        self.position.writable()
            && self.placement.writable()
            && self.start_note.writable()
            && self.trill_step.writable()
            && self.two_note_turn.writable()
            && self.accelerate.writable()
            && self.beats.writable()
            && self.second_beat.writable()
            && self.last_beat.writable()
    }

    open spec fn same(&self, other: &Self) -> bool {
        self.position.same(&other.position)
            && self.placement.same(&other.placement)
            && self.start_note.same(&other.start_note)
            && self.trill_step.same(&other.trill_step)
            && self.two_note_turn.same(&other.two_note_turn)
            && self.accelerate.same(&other.accelerate)
            && self.beats.same(&other.beats)
            && self.second_beat.same(&other.second_beat)
            && self.last_beat.same(&other.last_beat)
    }

    proof fn lemma_not_keyword(&self) {
    }

    proof fn lemma_no_error(&self) {
        lemma_empty_trill_sound_items(*self);
        self.position.lemma_no_error();
        self.placement.lemma_no_error();
        self.start_note.lemma_no_error();
        self.trill_step.lemma_no_error();
        self.two_note_turn.lemma_no_error();
        self.accelerate.lemma_no_error();
        self.beats.lemma_no_error();
        self.second_beat.lemma_no_error();
        self.last_beat.lemma_no_error();
    }

    proof fn lemma_value(&self, v: Self) {
        lemma_empty_trill_sound_items(*self);
        self.placement.lemma_value(v.placement);
        self.start_note.lemma_value(v.start_note);
        self.trill_step.lemma_value(v.trill_step);
        self.two_note_turn.lemma_value(v.two_note_turn);
        self.accelerate.lemma_value(v.accelerate);
        self.beats.lemma_value(v.beats);
        self.second_beat.lemma_value(v.second_beat);
        self.last_beat.lemma_value(v.last_beat);
        if self.position.is_set() {
            self.position.lemma_value(v.position);
        }
    }
}

/// The head and keyword arguments of the S-expression of a `Turn`, part 1.
pub proof fn lemma_turn_items_0(x: Turn)
    requires
        x.writable(),
    ensures
        x.to_sexpr_spec() matches SexprV::List(items) && items.len() > 0 && items[0] == SexprV::Symbol("turn"@)
            && find_kwarg_spec(items, "slash"@) == (match x.slash { Some(y) => Some(y.to_sexpr_spec()), None => None })
            && find_kwarg_spec(items, "placement"@) == (match x.placement { Some(y) => Some(y.to_sexpr_spec()), None => None })
            && find_kwarg_spec(items, "start-note"@) == (match x.start_note { Some(y) => Some(y.to_sexpr_spec()), None => None })
            && find_kwarg_spec(items, "trill-step"@) == (match x.trill_step { Some(y) => Some(y.to_sexpr_spec()), None => None }),
{
        assert("placement"@ != "slash"@) by {
            reveal_strlit("placement");
            assert("placement"@.len() == 9);
            reveal_strlit("slash");
            assert("slash"@.len() == 5);
        }
        assert("start-note"@ != "slash"@) by {
            reveal_strlit("start-note");
            assert("start-note"@.len() == 10);
            reveal_strlit("slash");
            assert("slash"@.len() == 5);
        }
        assert("trill-step"@ != "slash"@) by {
            reveal_strlit("trill-step");
            assert("trill-step"@.len() == 10);
            reveal_strlit("slash");
            assert("slash"@.len() == 5);
        }
        assert("two-note-turn"@ != "slash"@) by {
            reveal_strlit("two-note-turn");
            assert("two-note-turn"@.len() == 13);
            reveal_strlit("slash");
            assert("slash"@.len() == 5);
        }
        assert("accelerate"@ != "slash"@) by {
            reveal_strlit("accelerate");
            assert("accelerate"@.len() == 10);
            reveal_strlit("slash");
            assert("slash"@.len() == 5);
        }
        assert("beats"@ != "slash"@) by {
            reveal_strlit("beats");
            assert("beats"@.len() == 5);
            reveal_strlit("slash");
            assert("slash"@.len() == 5);
            assert("beats"@[0] == 'b');
            assert("slash"@[0] == 's');
        }
        assert("second-beat"@ != "slash"@) by {
            reveal_strlit("second-beat");
            assert("second-beat"@.len() == 11);
            reveal_strlit("slash");
            assert("slash"@.len() == 5);
        }
        assert("last-beat"@ != "slash"@) by {
            reveal_strlit("last-beat");
            assert("last-beat"@.len() == 9);
            reveal_strlit("slash");
            assert("slash"@.len() == 5);
        }
        assert("position"@ != "slash"@) by {
            reveal_strlit("position");
            assert("position"@.len() == 8);
            reveal_strlit("slash");
            assert("slash"@.len() == 5);
        }
        assert("start-note"@ != "placement"@) by {
            reveal_strlit("start-note");
            assert("start-note"@.len() == 10);
            reveal_strlit("placement");
            assert("placement"@.len() == 9);
        }
        assert("trill-step"@ != "placement"@) by {
            reveal_strlit("trill-step");
            assert("trill-step"@.len() == 10);
            reveal_strlit("placement");
            assert("placement"@.len() == 9);
        }
        assert("two-note-turn"@ != "placement"@) by {
            reveal_strlit("two-note-turn");
            assert("two-note-turn"@.len() == 13);
            reveal_strlit("placement");
            assert("placement"@.len() == 9);
        }
        assert("accelerate"@ != "placement"@) by {
            reveal_strlit("accelerate");
            assert("accelerate"@.len() == 10);
            reveal_strlit("placement");
            assert("placement"@.len() == 9);
        }
        assert("beats"@ != "placement"@) by {
            reveal_strlit("beats");
            assert("beats"@.len() == 5);
            reveal_strlit("placement");
            assert("placement"@.len() == 9);
        }
        assert("second-beat"@ != "placement"@) by {
            reveal_strlit("second-beat");
            assert("second-beat"@.len() == 11);
            reveal_strlit("placement");
            assert("placement"@.len() == 9);
        }
        assert("last-beat"@ != "placement"@) by {
            reveal_strlit("last-beat");
            assert("last-beat"@.len() == 9);
            reveal_strlit("placement");
            assert("placement"@.len() == 9);
            assert("last-beat"@[0] == 'l');
            assert("placement"@[0] == 'p');
        }
        assert("position"@ != "placement"@) by {
            reveal_strlit("position");
            assert("position"@.len() == 8);
            reveal_strlit("placement");
            assert("placement"@.len() == 9);
        }
        assert("trill-step"@ != "start-note"@) by {
            reveal_strlit("trill-step");
            assert("trill-step"@.len() == 10);
            reveal_strlit("start-note");
            assert("start-note"@.len() == 10);
            assert("trill-step"@[0] == 't');
            assert("start-note"@[0] == 's');
        }
        assert("two-note-turn"@ != "start-note"@) by {
            reveal_strlit("two-note-turn");
            assert("two-note-turn"@.len() == 13);
            reveal_strlit("start-note");
            assert("start-note"@.len() == 10);
        }
        assert("accelerate"@ != "start-note"@) by {
            reveal_strlit("accelerate");
            assert("accelerate"@.len() == 10);
            reveal_strlit("start-note");
            assert("start-note"@.len() == 10);
            assert("accelerate"@[0] == 'a');
            assert("start-note"@[0] == 's');
        }
        assert("beats"@ != "start-note"@) by {
            reveal_strlit("beats");
            assert("beats"@.len() == 5);
            reveal_strlit("start-note");
            assert("start-note"@.len() == 10);
        }
        assert("second-beat"@ != "start-note"@) by {
            reveal_strlit("second-beat");
            assert("second-beat"@.len() == 11);
            reveal_strlit("start-note");
            assert("start-note"@.len() == 10);
        }
        assert("last-beat"@ != "start-note"@) by {
            reveal_strlit("last-beat");
            assert("last-beat"@.len() == 9);
            reveal_strlit("start-note");
            assert("start-note"@.len() == 10);
        }
        assert("position"@ != "start-note"@) by {
            reveal_strlit("position");
            assert("position"@.len() == 8);
            reveal_strlit("start-note");
            assert("start-note"@.len() == 10);
        }
        assert("two-note-turn"@ != "trill-step"@) by {
            reveal_strlit("two-note-turn");
            assert("two-note-turn"@.len() == 13);
            reveal_strlit("trill-step");
            assert("trill-step"@.len() == 10);
        }
        assert("accelerate"@ != "trill-step"@) by {
            reveal_strlit("accelerate");
            assert("accelerate"@.len() == 10);
            reveal_strlit("trill-step");
            assert("trill-step"@.len() == 10);
            assert("accelerate"@[0] == 'a');
            assert("trill-step"@[0] == 't');
        }
        assert("beats"@ != "trill-step"@) by {
            reveal_strlit("beats");
            assert("beats"@.len() == 5);
            reveal_strlit("trill-step");
            assert("trill-step"@.len() == 10);
        }
        assert("second-beat"@ != "trill-step"@) by {
            reveal_strlit("second-beat");
            assert("second-beat"@.len() == 11);
            reveal_strlit("trill-step");
            assert("trill-step"@.len() == 10);
        }
        assert("last-beat"@ != "trill-step"@) by {
            reveal_strlit("last-beat");
            assert("last-beat"@.len() == 9);
            reveal_strlit("trill-step");
            assert("trill-step"@.len() == 10);
        }
        assert("position"@ != "trill-step"@) by {
            reveal_strlit("position");
            assert("position"@.len() == 8);
            reveal_strlit("trill-step");
            assert("trill-step"@.len() == 10);
        }
        let ghost s0 = seq![SexprV::Symbol("turn"@)];
        assert(ends_clean(s0));
        let ghost p1 = kw_opt("slash"@, x.slash);
        lemma_opt_piece("slash"@, x.slash);
        let ghost s1 = s0 + p1;
        lemma_ends_clean(s0, p1);
        let ghost p2 = kw_opt("placement"@, x.placement);
        lemma_opt_piece("placement"@, x.placement);
        let ghost s2 = s1 + p2;
        lemma_ends_clean(s1, p2);
        let ghost p3 = kw_opt("start-note"@, x.start_note);
        lemma_opt_piece("start-note"@, x.start_note);
        let ghost s3 = s2 + p3;
        lemma_ends_clean(s2, p3);
        let ghost p4 = kw_opt("trill-step"@, x.trill_step);
        lemma_opt_piece("trill-step"@, x.trill_step);
        let ghost s4 = s3 + p4;
        lemma_ends_clean(s3, p4);
        let ghost p5 = kw_opt("two-note-turn"@, x.two_note_turn);
        lemma_opt_piece("two-note-turn"@, x.two_note_turn);
        let ghost s5 = s4 + p5;
        lemma_ends_clean(s4, p5);
        let ghost p6 = kw_opt("accelerate"@, x.accelerate);
        lemma_opt_piece("accelerate"@, x.accelerate);
        let ghost s6 = s5 + p6;
        lemma_ends_clean(s5, p6);
        let ghost p7 = kw_opt("beats"@, x.beats);
        lemma_opt_piece("beats"@, x.beats);
        let ghost s7 = s6 + p7;
        lemma_ends_clean(s6, p7);
        let ghost p8 = kw_opt("second-beat"@, x.second_beat);
        lemma_opt_piece("second-beat"@, x.second_beat);
        let ghost s8 = s7 + p8;
        lemma_ends_clean(s7, p8);
        let ghost p9 = kw_opt("last-beat"@, x.last_beat);
        lemma_opt_piece("last-beat"@, x.last_beat);
        let ghost s9 = s8 + p9;
        lemma_ends_clean(s8, p9);
        let ghost p10 = kw_if(x.position.is_set(), "position"@, x.position.to_sexpr_spec());
        x.position.lemma_not_keyword();
        lemma_if_piece(x.position.is_set(), "position"@, x.position.to_sexpr_spec());
        let ghost s10 = s9 + p10;
        lemma_ends_clean(s9, p10);
        assert(x.to_sexpr_spec() == SexprV::List(s10));
        assert(s10[0] == SexprV::Symbol("turn"@)) by {
            assert(s1[0] == s0[0]);
            assert(s2[0] == s1[0]);
            assert(s3[0] == s2[0]);
            assert(s4[0] == s3[0]);
            assert(s5[0] == s4[0]);
            assert(s6[0] == s5[0]);
            assert(s7[0] == s6[0]);
            assert(s8[0] == s7[0]);
            assert(s9[0] == s8[0]);
            assert(s10[0] == s9[0]);
        }
        assert(find_kwarg_spec(s10, "slash"@) == (match x.slash { Some(y) => Some(y.to_sexpr_spec()), None => None })) by {
            lemma_find_head_key("turn"@, "slash"@);
            if p1.len() == 2 { lemma_find_hit(s0, p1, "slash"@); } else { lemma_find_skip(s0, p1, "slash"@); }
            lemma_find_skip(s1, p2, "slash"@);
            lemma_find_skip(s2, p3, "slash"@);
            lemma_find_skip(s3, p4, "slash"@);
            lemma_find_skip(s4, p5, "slash"@);
            lemma_find_skip(s5, p6, "slash"@);
            lemma_find_skip(s6, p7, "slash"@);
            lemma_find_skip(s7, p8, "slash"@);
            lemma_find_skip(s8, p9, "slash"@);
            lemma_find_skip(s9, p10, "slash"@);
        }
        assert(find_kwarg_spec(s10, "placement"@) == (match x.placement { Some(y) => Some(y.to_sexpr_spec()), None => None })) by {
            lemma_find_head_key("turn"@, "placement"@);
            lemma_find_skip(s0, p1, "placement"@);
            if p2.len() == 2 { lemma_find_hit(s1, p2, "placement"@); } else { lemma_find_skip(s1, p2, "placement"@); }
            lemma_find_skip(s2, p3, "placement"@);
            lemma_find_skip(s3, p4, "placement"@);
            lemma_find_skip(s4, p5, "placement"@);
            lemma_find_skip(s5, p6, "placement"@);
            lemma_find_skip(s6, p7, "placement"@);
            lemma_find_skip(s7, p8, "placement"@);
            lemma_find_skip(s8, p9, "placement"@);
            lemma_find_skip(s9, p10, "placement"@);
        }
        assert(find_kwarg_spec(s10, "start-note"@) == (match x.start_note { Some(y) => Some(y.to_sexpr_spec()), None => None })) by {
            lemma_find_head_key("turn"@, "start-note"@);
            lemma_find_skip(s0, p1, "start-note"@);
            lemma_find_skip(s1, p2, "start-note"@);
            if p3.len() == 2 { lemma_find_hit(s2, p3, "start-note"@); } else { lemma_find_skip(s2, p3, "start-note"@); }
            lemma_find_skip(s3, p4, "start-note"@);
            lemma_find_skip(s4, p5, "start-note"@);
            lemma_find_skip(s5, p6, "start-note"@);
            lemma_find_skip(s6, p7, "start-note"@);
            lemma_find_skip(s7, p8, "start-note"@);
            lemma_find_skip(s8, p9, "start-note"@);
            lemma_find_skip(s9, p10, "start-note"@);
        }
        assert(find_kwarg_spec(s10, "trill-step"@) == (match x.trill_step { Some(y) => Some(y.to_sexpr_spec()), None => None })) by {
            lemma_find_head_key("turn"@, "trill-step"@);
            lemma_find_skip(s0, p1, "trill-step"@);
            lemma_find_skip(s1, p2, "trill-step"@);
            lemma_find_skip(s2, p3, "trill-step"@);
            if p4.len() == 2 { lemma_find_hit(s3, p4, "trill-step"@); } else { lemma_find_skip(s3, p4, "trill-step"@); }
            lemma_find_skip(s4, p5, "trill-step"@);
            lemma_find_skip(s5, p6, "trill-step"@);
            lemma_find_skip(s6, p7, "trill-step"@);
            lemma_find_skip(s7, p8, "trill-step"@);
            lemma_find_skip(s8, p9, "trill-step"@);
            lemma_find_skip(s9, p10, "trill-step"@);
        }
}

/// The head and keyword arguments of the S-expression of a `Turn`, part 2.
pub proof fn lemma_turn_items_1(x: Turn)
    requires
        x.writable(),
    ensures
        x.to_sexpr_spec() matches SexprV::List(items)
            && find_kwarg_spec(items, "two-note-turn"@) == (match x.two_note_turn { Some(y) => Some(y.to_sexpr_spec()), None => None })
            && find_kwarg_spec(items, "accelerate"@) == (match x.accelerate { Some(y) => Some(y.to_sexpr_spec()), None => None })
            && find_kwarg_spec(items, "beats"@) == (match x.beats { Some(y) => Some(y.to_sexpr_spec()), None => None })
            && find_kwarg_spec(items, "second-beat"@) == (match x.second_beat { Some(y) => Some(y.to_sexpr_spec()), None => None }),
{
        assert("slash"@ != "two-note-turn"@) by {
            reveal_strlit("slash");
            assert("slash"@.len() == 5);
            reveal_strlit("two-note-turn");
            assert("two-note-turn"@.len() == 13);
        }
        assert("placement"@ != "two-note-turn"@) by {
            reveal_strlit("placement");
            assert("placement"@.len() == 9);
            reveal_strlit("two-note-turn");
            assert("two-note-turn"@.len() == 13);
        }
        assert("start-note"@ != "two-note-turn"@) by {
            reveal_strlit("start-note");
            assert("start-note"@.len() == 10);
            reveal_strlit("two-note-turn");
            assert("two-note-turn"@.len() == 13);
        }
        assert("trill-step"@ != "two-note-turn"@) by {
            reveal_strlit("trill-step");
            assert("trill-step"@.len() == 10);
            reveal_strlit("two-note-turn");
            assert("two-note-turn"@.len() == 13);
        }
        assert("accelerate"@ != "two-note-turn"@) by {
            reveal_strlit("accelerate");
            assert("accelerate"@.len() == 10);
            reveal_strlit("two-note-turn");
            assert("two-note-turn"@.len() == 13);
        }
        assert("beats"@ != "two-note-turn"@) by {
            reveal_strlit("beats");
            assert("beats"@.len() == 5);
            reveal_strlit("two-note-turn");
            assert("two-note-turn"@.len() == 13);
        }
        assert("second-beat"@ != "two-note-turn"@) by {
            reveal_strlit("second-beat");
            assert("second-beat"@.len() == 11);
            reveal_strlit("two-note-turn");
            assert("two-note-turn"@.len() == 13);
        }
        assert("last-beat"@ != "two-note-turn"@) by {
            reveal_strlit("last-beat");
            assert("last-beat"@.len() == 9);
            reveal_strlit("two-note-turn");
            assert("two-note-turn"@.len() == 13);
        }
        assert("position"@ != "two-note-turn"@) by {
            reveal_strlit("position");
            assert("position"@.len() == 8);
            reveal_strlit("two-note-turn");
            assert("two-note-turn"@.len() == 13);
        }
        assert("slash"@ != "accelerate"@) by {
            reveal_strlit("slash");
            assert("slash"@.len() == 5);
            reveal_strlit("accelerate");
            assert("accelerate"@.len() == 10);
        }
        assert("placement"@ != "accelerate"@) by {
            reveal_strlit("placement");
            assert("placement"@.len() == 9);
            reveal_strlit("accelerate");
            assert("accelerate"@.len() == 10);
        }
        assert("start-note"@ != "accelerate"@) by {
            reveal_strlit("start-note");
            assert("start-note"@.len() == 10);
            reveal_strlit("accelerate");
            assert("accelerate"@.len() == 10);
            assert("start-note"@[0] == 's');
            assert("accelerate"@[0] == 'a');
        }
        assert("trill-step"@ != "accelerate"@) by {
            reveal_strlit("trill-step");
            assert("trill-step"@.len() == 10);
            reveal_strlit("accelerate");
            assert("accelerate"@.len() == 10);
            assert("trill-step"@[0] == 't');
            assert("accelerate"@[0] == 'a');
        }
        assert("beats"@ != "accelerate"@) by {
            reveal_strlit("beats");
            assert("beats"@.len() == 5);
            reveal_strlit("accelerate");
            assert("accelerate"@.len() == 10);
        }
        assert("second-beat"@ != "accelerate"@) by {
            reveal_strlit("second-beat");
            assert("second-beat"@.len() == 11);
            reveal_strlit("accelerate");
            assert("accelerate"@.len() == 10);
        }
        assert("last-beat"@ != "accelerate"@) by {
            reveal_strlit("last-beat");
            assert("last-beat"@.len() == 9);
            reveal_strlit("accelerate");
            assert("accelerate"@.len() == 10);
        }
        assert("position"@ != "accelerate"@) by {
            reveal_strlit("position");
            assert("position"@.len() == 8);
            reveal_strlit("accelerate");
            assert("accelerate"@.len() == 10);
        }
        assert("slash"@ != "beats"@) by {
            reveal_strlit("slash");
            assert("slash"@.len() == 5);
            reveal_strlit("beats");
            assert("beats"@.len() == 5);
            assert("slash"@[0] == 's');
            assert("beats"@[0] == 'b');
        }
        assert("placement"@ != "beats"@) by {
            reveal_strlit("placement");
            assert("placement"@.len() == 9);
            reveal_strlit("beats");
            assert("beats"@.len() == 5);
        }
        assert("start-note"@ != "beats"@) by {
            reveal_strlit("start-note");
            assert("start-note"@.len() == 10);
            reveal_strlit("beats");
            assert("beats"@.len() == 5);
        }
        assert("trill-step"@ != "beats"@) by {
            reveal_strlit("trill-step");
            assert("trill-step"@.len() == 10);
            reveal_strlit("beats");
            assert("beats"@.len() == 5);
        }
        assert("second-beat"@ != "beats"@) by {
            reveal_strlit("second-beat");
            assert("second-beat"@.len() == 11);
            reveal_strlit("beats");
            assert("beats"@.len() == 5);
        }
        assert("last-beat"@ != "beats"@) by {
            reveal_strlit("last-beat");
            assert("last-beat"@.len() == 9);
            reveal_strlit("beats");
            assert("beats"@.len() == 5);
        }
        assert("position"@ != "beats"@) by {
            reveal_strlit("position");
            assert("position"@.len() == 8);
            reveal_strlit("beats");
            assert("beats"@.len() == 5);
        }
        assert("slash"@ != "second-beat"@) by {
            reveal_strlit("slash");
            assert("slash"@.len() == 5);
            reveal_strlit("second-beat");
            assert("second-beat"@.len() == 11);
        }
        assert("placement"@ != "second-beat"@) by {
            reveal_strlit("placement");
            assert("placement"@.len() == 9);
            reveal_strlit("second-beat");
            assert("second-beat"@.len() == 11);
        }
        assert("start-note"@ != "second-beat"@) by {
            reveal_strlit("start-note");
            assert("start-note"@.len() == 10);
            reveal_strlit("second-beat");
            assert("second-beat"@.len() == 11);
        }
        assert("trill-step"@ != "second-beat"@) by {
            reveal_strlit("trill-step");
            assert("trill-step"@.len() == 10);
            reveal_strlit("second-beat");
            assert("second-beat"@.len() == 11);
        }
        assert("last-beat"@ != "second-beat"@) by {
            reveal_strlit("last-beat");
            assert("last-beat"@.len() == 9);
            reveal_strlit("second-beat");
            assert("second-beat"@.len() == 11);
        }
        assert("position"@ != "second-beat"@) by {
            reveal_strlit("position");
            assert("position"@.len() == 8);
            reveal_strlit("second-beat");
            assert("second-beat"@.len() == 11);
        }
        let ghost s0 = seq![SexprV::Symbol("turn"@)];
        assert(ends_clean(s0));
        let ghost p1 = kw_opt("slash"@, x.slash);
        lemma_opt_piece("slash"@, x.slash);
        let ghost s1 = s0 + p1;
        lemma_ends_clean(s0, p1);
        let ghost p2 = kw_opt("placement"@, x.placement);
        lemma_opt_piece("placement"@, x.placement);
        let ghost s2 = s1 + p2;
        lemma_ends_clean(s1, p2);
        let ghost p3 = kw_opt("start-note"@, x.start_note);
        lemma_opt_piece("start-note"@, x.start_note);
        let ghost s3 = s2 + p3;
        lemma_ends_clean(s2, p3);
        let ghost p4 = kw_opt("trill-step"@, x.trill_step);
        lemma_opt_piece("trill-step"@, x.trill_step);
        let ghost s4 = s3 + p4;
        lemma_ends_clean(s3, p4);
        let ghost p5 = kw_opt("two-note-turn"@, x.two_note_turn);
        lemma_opt_piece("two-note-turn"@, x.two_note_turn);
        let ghost s5 = s4 + p5;
        lemma_ends_clean(s4, p5);
        let ghost p6 = kw_opt("accelerate"@, x.accelerate);
        lemma_opt_piece("accelerate"@, x.accelerate);
        let ghost s6 = s5 + p6;
        lemma_ends_clean(s5, p6);
        let ghost p7 = kw_opt("beats"@, x.beats);
        lemma_opt_piece("beats"@, x.beats);
        let ghost s7 = s6 + p7;
        lemma_ends_clean(s6, p7);
        let ghost p8 = kw_opt("second-beat"@, x.second_beat);
        lemma_opt_piece("second-beat"@, x.second_beat);
        let ghost s8 = s7 + p8;
        lemma_ends_clean(s7, p8);
        let ghost p9 = kw_opt("last-beat"@, x.last_beat);
        lemma_opt_piece("last-beat"@, x.last_beat);
        let ghost s9 = s8 + p9;
        lemma_ends_clean(s8, p9);
        let ghost p10 = kw_if(x.position.is_set(), "position"@, x.position.to_sexpr_spec());
        x.position.lemma_not_keyword();
        lemma_if_piece(x.position.is_set(), "position"@, x.position.to_sexpr_spec());
        let ghost s10 = s9 + p10;
        lemma_ends_clean(s9, p10);
        assert(x.to_sexpr_spec() == SexprV::List(s10));
        assert(find_kwarg_spec(s10, "two-note-turn"@) == (match x.two_note_turn { Some(y) => Some(y.to_sexpr_spec()), None => None })) by {
            lemma_find_head_key("turn"@, "two-note-turn"@);
            lemma_find_skip(s0, p1, "two-note-turn"@);
            lemma_find_skip(s1, p2, "two-note-turn"@);
            lemma_find_skip(s2, p3, "two-note-turn"@);
            lemma_find_skip(s3, p4, "two-note-turn"@);
            if p5.len() == 2 { lemma_find_hit(s4, p5, "two-note-turn"@); } else { lemma_find_skip(s4, p5, "two-note-turn"@); }
            lemma_find_skip(s5, p6, "two-note-turn"@);
            lemma_find_skip(s6, p7, "two-note-turn"@);
            lemma_find_skip(s7, p8, "two-note-turn"@);
            lemma_find_skip(s8, p9, "two-note-turn"@);
            lemma_find_skip(s9, p10, "two-note-turn"@);
        }
        assert(find_kwarg_spec(s10, "accelerate"@) == (match x.accelerate { Some(y) => Some(y.to_sexpr_spec()), None => None })) by {
            lemma_find_head_key("turn"@, "accelerate"@);
            lemma_find_skip(s0, p1, "accelerate"@);
            lemma_find_skip(s1, p2, "accelerate"@);
            lemma_find_skip(s2, p3, "accelerate"@);
            lemma_find_skip(s3, p4, "accelerate"@);
            lemma_find_skip(s4, p5, "accelerate"@);
            if p6.len() == 2 { lemma_find_hit(s5, p6, "accelerate"@); } else { lemma_find_skip(s5, p6, "accelerate"@); }
            lemma_find_skip(s6, p7, "accelerate"@);
            lemma_find_skip(s7, p8, "accelerate"@);
            lemma_find_skip(s8, p9, "accelerate"@);
            lemma_find_skip(s9, p10, "accelerate"@);
        }
        assert(find_kwarg_spec(s10, "beats"@) == (match x.beats { Some(y) => Some(y.to_sexpr_spec()), None => None })) by {
            lemma_find_head_key("turn"@, "beats"@);
            lemma_find_skip(s0, p1, "beats"@);
            lemma_find_skip(s1, p2, "beats"@);
            lemma_find_skip(s2, p3, "beats"@);
            lemma_find_skip(s3, p4, "beats"@);
            lemma_find_skip(s4, p5, "beats"@);
            lemma_find_skip(s5, p6, "beats"@);
            if p7.len() == 2 { lemma_find_hit(s6, p7, "beats"@); } else { lemma_find_skip(s6, p7, "beats"@); }
            lemma_find_skip(s7, p8, "beats"@);
            lemma_find_skip(s8, p9, "beats"@);
            lemma_find_skip(s9, p10, "beats"@);
        }
        assert(find_kwarg_spec(s10, "second-beat"@) == (match x.second_beat { Some(y) => Some(y.to_sexpr_spec()), None => None })) by {
            lemma_find_head_key("turn"@, "second-beat"@);
            lemma_find_skip(s0, p1, "second-beat"@);
            lemma_find_skip(s1, p2, "second-beat"@);
            lemma_find_skip(s2, p3, "second-beat"@);
            lemma_find_skip(s3, p4, "second-beat"@);
            lemma_find_skip(s4, p5, "second-beat"@);
            lemma_find_skip(s5, p6, "second-beat"@);
            lemma_find_skip(s6, p7, "second-beat"@);
            if p8.len() == 2 { lemma_find_hit(s7, p8, "second-beat"@); } else { lemma_find_skip(s7, p8, "second-beat"@); }
            lemma_find_skip(s8, p9, "second-beat"@);
            lemma_find_skip(s9, p10, "second-beat"@);
        }
}

/// The head and keyword arguments of the S-expression of a `Turn`, part 3.
pub proof fn lemma_turn_items_2(x: Turn)
    requires
        x.writable(),
    ensures
        x.to_sexpr_spec() matches SexprV::List(items)
            && find_kwarg_spec(items, "last-beat"@) == (match x.last_beat { Some(y) => Some(y.to_sexpr_spec()), None => None })
            && find_kwarg_spec(items, "position"@) == (if x.position.is_set() { Some(x.position.to_sexpr_spec()) } else { None }),
{
        assert("slash"@ != "last-beat"@) by {
            reveal_strlit("slash");
            assert("slash"@.len() == 5);
            reveal_strlit("last-beat");
            assert("last-beat"@.len() == 9);
        }
        assert("placement"@ != "last-beat"@) by {
            reveal_strlit("placement");
            assert("placement"@.len() == 9);
            reveal_strlit("last-beat");
            assert("last-beat"@.len() == 9);
            assert("placement"@[0] == 'p');
            assert("last-beat"@[0] == 'l');
        }
        assert("start-note"@ != "last-beat"@) by {
            reveal_strlit("start-note");
            assert("start-note"@.len() == 10);
            reveal_strlit("last-beat");
            assert("last-beat"@.len() == 9);
        }
        assert("trill-step"@ != "last-beat"@) by {
            reveal_strlit("trill-step");
            assert("trill-step"@.len() == 10);
            reveal_strlit("last-beat");
            assert("last-beat"@.len() == 9);
        }
        assert("two-note-turn"@ != "last-beat"@) by {
            reveal_strlit("two-note-turn");
            assert("two-note-turn"@.len() == 13);
            reveal_strlit("last-beat");
            assert("last-beat"@.len() == 9);
        }
        assert("accelerate"@ != "last-beat"@) by {
            reveal_strlit("accelerate");
            assert("accelerate"@.len() == 10);
            reveal_strlit("last-beat");
            assert("last-beat"@.len() == 9);
        }
        assert("beats"@ != "last-beat"@) by {
            reveal_strlit("beats");
            assert("beats"@.len() == 5);
            reveal_strlit("last-beat");
            assert("last-beat"@.len() == 9);
        }
        assert("second-beat"@ != "last-beat"@) by {
            reveal_strlit("second-beat");
            assert("second-beat"@.len() == 11);
            reveal_strlit("last-beat");
            assert("last-beat"@.len() == 9);
        }
        assert("position"@ != "last-beat"@) by {
            reveal_strlit("position");
            assert("position"@.len() == 8);
            reveal_strlit("last-beat");
            assert("last-beat"@.len() == 9);
        }
        assert("slash"@ != "position"@) by {
            reveal_strlit("slash");
            assert("slash"@.len() == 5);
            reveal_strlit("position");
            assert("position"@.len() == 8);
        }
        assert("placement"@ != "position"@) by {
            reveal_strlit("placement");
            assert("placement"@.len() == 9);
            reveal_strlit("position");
            assert("position"@.len() == 8);
        }
        assert("start-note"@ != "position"@) by {
            reveal_strlit("start-note");
            assert("start-note"@.len() == 10);
            reveal_strlit("position");
            assert("position"@.len() == 8);
        }
        assert("trill-step"@ != "position"@) by {
            reveal_strlit("trill-step");
            assert("trill-step"@.len() == 10);
            reveal_strlit("position");
            assert("position"@.len() == 8);
        }
        assert("two-note-turn"@ != "position"@) by {
            reveal_strlit("two-note-turn");
            assert("two-note-turn"@.len() == 13);
            reveal_strlit("position");
            assert("position"@.len() == 8);
        }
        assert("accelerate"@ != "position"@) by {
            reveal_strlit("accelerate");
            assert("accelerate"@.len() == 10);
            reveal_strlit("position");
            assert("position"@.len() == 8);
        }
        assert("beats"@ != "position"@) by {
            reveal_strlit("beats");
            assert("beats"@.len() == 5);
            reveal_strlit("position");
            assert("position"@.len() == 8);
        }
        assert("second-beat"@ != "position"@) by {
            reveal_strlit("second-beat");
            assert("second-beat"@.len() == 11);
            reveal_strlit("position");
            assert("position"@.len() == 8);
        }
        let ghost s0 = seq![SexprV::Symbol("turn"@)];
        assert(ends_clean(s0));
        let ghost p1 = kw_opt("slash"@, x.slash);
        lemma_opt_piece("slash"@, x.slash);
        let ghost s1 = s0 + p1;
        lemma_ends_clean(s0, p1);
        let ghost p2 = kw_opt("placement"@, x.placement);
        lemma_opt_piece("placement"@, x.placement);
        let ghost s2 = s1 + p2;
        lemma_ends_clean(s1, p2);
        let ghost p3 = kw_opt("start-note"@, x.start_note);
        lemma_opt_piece("start-note"@, x.start_note);
        let ghost s3 = s2 + p3;
        lemma_ends_clean(s2, p3);
        let ghost p4 = kw_opt("trill-step"@, x.trill_step);
        lemma_opt_piece("trill-step"@, x.trill_step);
        let ghost s4 = s3 + p4;
        lemma_ends_clean(s3, p4);
        let ghost p5 = kw_opt("two-note-turn"@, x.two_note_turn);
        lemma_opt_piece("two-note-turn"@, x.two_note_turn);
        let ghost s5 = s4 + p5;
        lemma_ends_clean(s4, p5);
        let ghost p6 = kw_opt("accelerate"@, x.accelerate);
        lemma_opt_piece("accelerate"@, x.accelerate);
        let ghost s6 = s5 + p6;
        lemma_ends_clean(s5, p6);
        let ghost p7 = kw_opt("beats"@, x.beats);
        lemma_opt_piece("beats"@, x.beats);
        let ghost s7 = s6 + p7;
        lemma_ends_clean(s6, p7);
        let ghost p8 = kw_opt("second-beat"@, x.second_beat);
        lemma_opt_piece("second-beat"@, x.second_beat);
        let ghost s8 = s7 + p8;
        lemma_ends_clean(s7, p8);
        let ghost p9 = kw_opt("last-beat"@, x.last_beat);
        lemma_opt_piece("last-beat"@, x.last_beat);
        let ghost s9 = s8 + p9;
        lemma_ends_clean(s8, p9);
        let ghost p10 = kw_if(x.position.is_set(), "position"@, x.position.to_sexpr_spec());
        x.position.lemma_not_keyword();
        lemma_if_piece(x.position.is_set(), "position"@, x.position.to_sexpr_spec());
        let ghost s10 = s9 + p10;
        lemma_ends_clean(s9, p10);
        assert(x.to_sexpr_spec() == SexprV::List(s10));
        assert(find_kwarg_spec(s10, "last-beat"@) == (match x.last_beat { Some(y) => Some(y.to_sexpr_spec()), None => None })) by {
            lemma_find_head_key("turn"@, "last-beat"@);
            lemma_find_skip(s0, p1, "last-beat"@);
            lemma_find_skip(s1, p2, "last-beat"@);
            lemma_find_skip(s2, p3, "last-beat"@);
            lemma_find_skip(s3, p4, "last-beat"@);
            lemma_find_skip(s4, p5, "last-beat"@);
            lemma_find_skip(s5, p6, "last-beat"@);
            lemma_find_skip(s6, p7, "last-beat"@);
            lemma_find_skip(s7, p8, "last-beat"@);
            if p9.len() == 2 { lemma_find_hit(s8, p9, "last-beat"@); } else { lemma_find_skip(s8, p9, "last-beat"@); }
            lemma_find_skip(s9, p10, "last-beat"@);
        }
        assert(find_kwarg_spec(s10, "position"@) == (if x.position.is_set() { Some(x.position.to_sexpr_spec()) } else { None })) by {
            lemma_find_head_key("turn"@, "position"@);
            lemma_find_skip(s0, p1, "position"@);
            lemma_find_skip(s1, p2, "position"@);
            lemma_find_skip(s2, p3, "position"@);
            lemma_find_skip(s3, p4, "position"@);
            lemma_find_skip(s4, p5, "position"@);
            lemma_find_skip(s5, p6, "position"@);
            lemma_find_skip(s6, p7, "position"@);
            lemma_find_skip(s7, p8, "position"@);
            lemma_find_skip(s8, p9, "position"@);
            if p10.len() == 2 { lemma_find_hit(s9, p10, "position"@); } else { lemma_find_skip(s9, p10, "position"@); }
        }
}

/// The head and the keyword arguments of the S-expression of a `Turn`.
pub proof fn lemma_turn_items(x: Turn)
    requires
        x.writable(),
    ensures
        x.to_sexpr_spec() matches SexprV::List(items) && items.len() > 0 && items[0] == SexprV::Symbol("turn"@)
            && find_kwarg_spec(items, "slash"@) == (match x.slash { Some(y) => Some(y.to_sexpr_spec()), None => None })
            && find_kwarg_spec(items, "placement"@) == (match x.placement { Some(y) => Some(y.to_sexpr_spec()), None => None })
            && find_kwarg_spec(items, "start-note"@) == (match x.start_note { Some(y) => Some(y.to_sexpr_spec()), None => None })
            && find_kwarg_spec(items, "trill-step"@) == (match x.trill_step { Some(y) => Some(y.to_sexpr_spec()), None => None })
            && find_kwarg_spec(items, "two-note-turn"@) == (match x.two_note_turn { Some(y) => Some(y.to_sexpr_spec()), None => None })
            && find_kwarg_spec(items, "accelerate"@) == (match x.accelerate { Some(y) => Some(y.to_sexpr_spec()), None => None })
            && find_kwarg_spec(items, "beats"@) == (match x.beats { Some(y) => Some(y.to_sexpr_spec()), None => None })
            && find_kwarg_spec(items, "second-beat"@) == (match x.second_beat { Some(y) => Some(y.to_sexpr_spec()), None => None })
            && find_kwarg_spec(items, "last-beat"@) == (match x.last_beat { Some(y) => Some(y.to_sexpr_spec()), None => None })
            && find_kwarg_spec(items, "position"@) == (if x.position.is_set() { Some(x.position.to_sexpr_spec()) } else { None }),
{
    lemma_turn_items_0(x);
    lemma_turn_items_1(x);
    lemma_turn_items_2(x);
}

impl RoundTrip for Turn {
    /// A value whose parts are writable.
    open spec fn writable(&self) -> bool {
        self.position.writable()
            && self.slash.writable()
            && self.placement.writable()
            && self.start_note.writable()
            && self.trill_step.writable()
            && self.two_note_turn.writable()
            && self.accelerate.writable()
            && self.beats.writable()
            && self.second_beat.writable()
            && self.last_beat.writable()
    }

    open spec fn same(&self, other: &Self) -> bool {
        self.position.same(&other.position)
            && self.slash.same(&other.slash)
            && self.placement.same(&other.placement)
            && self.start_note.same(&other.start_note)
            && self.trill_step.same(&other.trill_step)
            && self.two_note_turn.same(&other.two_note_turn)
            && self.accelerate.same(&other.accelerate)
            && self.beats.same(&other.beats)
            && self.second_beat.same(&other.second_beat)
            && self.last_beat.same(&other.last_beat)
    }

    proof fn lemma_not_keyword(&self) {
    }

    proof fn lemma_no_error(&self) {
        lemma_turn_items(*self);
        self.position.lemma_no_error();
        self.slash.lemma_no_error();
        self.placement.lemma_no_error();
        self.start_note.lemma_no_error();
        self.trill_step.lemma_no_error();
        self.two_note_turn.lemma_no_error();
        self.accelerate.lemma_no_error();
        self.beats.lemma_no_error();
        self.second_beat.lemma_no_error();
        self.last_beat.lemma_no_error();
    }

    proof fn lemma_value(&self, v: Self) {
        lemma_turn_items(*self);
        self.slash.lemma_value(v.slash);
        self.placement.lemma_value(v.placement);
        self.start_note.lemma_value(v.start_note);
        self.trill_step.lemma_value(v.trill_step);
        self.two_note_turn.lemma_value(v.two_note_turn);
        self.accelerate.lemma_value(v.accelerate);
        self.beats.lemma_value(v.beats);
        self.second_beat.lemma_value(v.second_beat);
        self.last_beat.lemma_value(v.last_beat);
        if self.position.is_set() {
            self.position.lemma_value(v.position);
        }
    }
}

/// The head and keyword arguments of the S-expression of a `Mordent`, part 1.
pub proof fn lemma_mordent_items_0(x: Mordent)
    requires
        x.writable(),
    ensures
        x.to_sexpr_spec() matches SexprV::List(items) && items.len() > 0 && items[0] == SexprV::Symbol("mordent"@)
            && find_kwarg_spec(items, "long"@) == (match x.long { Some(y) => Some(y.to_sexpr_spec()), None => None })
            && find_kwarg_spec(items, "approach"@) == (match x.approach { Some(y) => Some(y.to_sexpr_spec()), None => None })
            && find_kwarg_spec(items, "departure"@) == (match x.departure { Some(y) => Some(y.to_sexpr_spec()), None => None })
            && find_kwarg_spec(items, "placement"@) == (match x.placement { Some(y) => Some(y.to_sexpr_spec()), None => None }),
{
        assert("approach"@ != "long"@) by {
            reveal_strlit("approach");
            assert("approach"@.len() == 8);
            reveal_strlit("long");
            assert("long"@.len() == 4);
        }
        assert("departure"@ != "long"@) by {
            reveal_strlit("departure");
            assert("departure"@.len() == 9);
            reveal_strlit("long");
            assert("long"@.len() == 4);
        }
        assert("placement"@ != "long"@) by {
            reveal_strlit("placement");
            assert("placement"@.len() == 9);
            reveal_strlit("long");
            assert("long"@.len() == 4);
        }
        assert("start-note"@ != "long"@) by {
            reveal_strlit("start-note");
            assert("start-note"@.len() == 10);
            reveal_strlit("long");
            assert("long"@.len() == 4);
        }
        assert("trill-step"@ != "long"@) by {
            reveal_strlit("trill-step");
            assert("trill-step"@.len() == 10);
            reveal_strlit("long");
            assert("long"@.len() == 4);
        }
        assert("two-note-turn"@ != "long"@) by {
            reveal_strlit("two-note-turn");
            assert("two-note-turn"@.len() == 13);
            reveal_strlit("long");
            assert("long"@.len() == 4);
        }
        assert("accelerate"@ != "long"@) by {
            reveal_strlit("accelerate");
            assert("accelerate"@.len() == 10);
            reveal_strlit("long");
            assert("long"@.len() == 4);
        }
        assert("beats"@ != "long"@) by {
            reveal_strlit("beats");
            assert("beats"@.len() == 5);
            reveal_strlit("long");
            assert("long"@.len() == 4);
        }
        assert("second-beat"@ != "long"@) by {
            reveal_strlit("second-beat");
            assert("second-beat"@.len() == 11);
            reveal_strlit("long");
            assert("long"@.len() == 4);
        }
        assert("last-beat"@ != "long"@) by {
            reveal_strlit("last-beat");
            assert("last-beat"@.len() == 9);
            reveal_strlit("long");
            assert("long"@.len() == 4);
        }
        assert("position"@ != "long"@) by {
            reveal_strlit("position");
            assert("position"@.len() == 8);
            reveal_strlit("long");
            assert("long"@.len() == 4);
        }
        assert("departure"@ != "approach"@) by {
            reveal_strlit("departure");
            assert("departure"@.len() == 9);
            reveal_strlit("approach");
            assert("approach"@.len() == 8);
        }
        assert("placement"@ != "approach"@) by {
            reveal_strlit("placement");
            assert("placement"@.len() == 9);
            reveal_strlit("approach");
            assert("approach"@.len() == 8);
        }
        assert("start-note"@ != "approach"@) by {
            reveal_strlit("start-note");
            assert("start-note"@.len() == 10);
            reveal_strlit("approach");
            assert("approach"@.len() == 8);
        }
        assert("trill-step"@ != "approach"@) by {
            reveal_strlit("trill-step");
            assert("trill-step"@.len() == 10);
            reveal_strlit("approach");
            assert("approach"@.len() == 8);
        }
        assert("two-note-turn"@ != "approach"@) by {
            reveal_strlit("two-note-turn");
            assert("two-note-turn"@.len() == 13);
            reveal_strlit("approach");
            assert("approach"@.len() == 8);
        }
        assert("accelerate"@ != "approach"@) by {
            reveal_strlit("accelerate");
            assert("accelerate"@.len() == 10);
            reveal_strlit("approach");
            assert("approach"@.len() == 8);
        }
        assert("beats"@ != "approach"@) by {
            reveal_strlit("beats");
            assert("beats"@.len() == 5);
            reveal_strlit("approach");
            assert("approach"@.len() == 8);
        }
        assert("second-beat"@ != "approach"@) by {
            reveal_strlit("second-beat");
            assert("second-beat"@.len() == 11);
            reveal_strlit("approach");
            assert("approach"@.len() == 8);
        }
        assert("last-beat"@ != "approach"@) by {
            reveal_strlit("last-beat");
            assert("last-beat"@.len() == 9);
            reveal_strlit("approach");
            assert("approach"@.len() == 8);
        }
        assert("position"@ != "approach"@) by {
            reveal_strlit("position");
            assert("position"@.len() == 8);
            reveal_strlit("approach");
            assert("approach"@.len() == 8);
            assert("position"@[0] == 'p');
            assert("approach"@[0] == 'a');
        }
        assert("placement"@ != "departure"@) by {
            reveal_strlit("placement");
            assert("placement"@.len() == 9);
            reveal_strlit("departure");
            assert("departure"@.len() == 9);
            assert("placement"@[0] == 'p');
            assert("departure"@[0] == 'd');
        }
        assert("start-note"@ != "departure"@) by {
            reveal_strlit("start-note");
            assert("start-note"@.len() == 10);
            reveal_strlit("departure");
            assert("departure"@.len() == 9);
        }
        assert("trill-step"@ != "departure"@) by {
            reveal_strlit("trill-step");
            assert("trill-step"@.len() == 10);
            reveal_strlit("departure");
            assert("departure"@.len() == 9);
        }
        assert("two-note-turn"@ != "departure"@) by {
            reveal_strlit("two-note-turn");
            assert("two-note-turn"@.len() == 13);
            reveal_strlit("departure");
            assert("departure"@.len() == 9);
        }
        assert("accelerate"@ != "departure"@) by {
            reveal_strlit("accelerate");
            assert("accelerate"@.len() == 10);
            reveal_strlit("departure");
            assert("departure"@.len() == 9);
        }
        assert("beats"@ != "departure"@) by {
            reveal_strlit("beats");
            assert("beats"@.len() == 5);
            reveal_strlit("departure");
            assert("departure"@.len() == 9);
        }
        assert("second-beat"@ != "departure"@) by {
            reveal_strlit("second-beat");
            assert("second-beat"@.len() == 11);
            reveal_strlit("departure");
            assert("departure"@.len() == 9);
        }
        assert("last-beat"@ != "departure"@) by {
            reveal_strlit("last-beat");
            assert("last-beat"@.len() == 9);
            reveal_strlit("departure");
            assert("departure"@.len() == 9);
            assert("last-beat"@[0] == 'l');
            assert("departure"@[0] == 'd');
        }
        assert("position"@ != "departure"@) by {
            reveal_strlit("position");
            assert("position"@.len() == 8);
            reveal_strlit("departure");
            assert("departure"@.len() == 9);
        }
        assert("start-note"@ != "placement"@) by {
            reveal_strlit("start-note");
            assert("start-note"@.len() == 10);
            reveal_strlit("placement");
            assert("placement"@.len() == 9);
        }
        assert("trill-step"@ != "placement"@) by {
            reveal_strlit("trill-step");
            assert("trill-step"@.len() == 10);
            reveal_strlit("placement");
            assert("placement"@.len() == 9);
        }
        assert("two-note-turn"@ != "placement"@) by {
            reveal_strlit("two-note-turn");
            assert("two-note-turn"@.len() == 13);
            reveal_strlit("placement");
            assert("placement"@.len() == 9);
        }
        assert("accelerate"@ != "placement"@) by {
            reveal_strlit("accelerate");
            assert("accelerate"@.len() == 10);
            reveal_strlit("placement");
            assert("placement"@.len() == 9);
        }
        assert("beats"@ != "placement"@) by {
            reveal_strlit("beats");
            assert("beats"@.len() == 5);
            reveal_strlit("placement");
            assert("placement"@.len() == 9);
        }
        assert("second-beat"@ != "placement"@) by {
            reveal_strlit("second-beat");
            assert("second-beat"@.len() == 11);
            reveal_strlit("placement");
            assert("placement"@.len() == 9);
        }
        assert("last-beat"@ != "placement"@) by {
            reveal_strlit("last-beat");
            assert("last-beat"@.len() == 9);
            reveal_strlit("placement");
            assert("placement"@.len() == 9);
            assert("last-beat"@[0] == 'l');
            assert("placement"@[0] == 'p');
        }
        assert("position"@ != "placement"@) by {
            reveal_strlit("position");
            assert("position"@.len() == 8);
            reveal_strlit("placement");
            assert("placement"@.len() == 9);
        }
        let ghost s0 = seq![SexprV::Symbol("mordent"@)];
        assert(ends_clean(s0));
        let ghost p1 = kw_opt("long"@, x.long);
        lemma_opt_piece("long"@, x.long);
        let ghost s1 = s0 + p1;
        lemma_ends_clean(s0, p1);
        let ghost p2 = kw_opt("approach"@, x.approach);
        lemma_opt_piece("approach"@, x.approach);
        let ghost s2 = s1 + p2;
        lemma_ends_clean(s1, p2);
        let ghost p3 = kw_opt("departure"@, x.departure);
        lemma_opt_piece("departure"@, x.departure);
        let ghost s3 = s2 + p3;
        lemma_ends_clean(s2, p3);
        let ghost p4 = kw_opt("placement"@, x.placement);
        lemma_opt_piece("placement"@, x.placement);
        let ghost s4 = s3 + p4;
        lemma_ends_clean(s3, p4);
        let ghost p5 = kw_opt("start-note"@, x.start_note);
        lemma_opt_piece("start-note"@, x.start_note);
        let ghost s5 = s4 + p5;
        lemma_ends_clean(s4, p5);
        let ghost p6 = kw_opt("trill-step"@, x.trill_step);
        lemma_opt_piece("trill-step"@, x.trill_step);
        let ghost s6 = s5 + p6;
        lemma_ends_clean(s5, p6);
        let ghost p7 = kw_opt("two-note-turn"@, x.two_note_turn);
        lemma_opt_piece("two-note-turn"@, x.two_note_turn);
        let ghost s7 = s6 + p7;
        lemma_ends_clean(s6, p7);
        let ghost p8 = kw_opt("accelerate"@, x.accelerate);
        lemma_opt_piece("accelerate"@, x.accelerate);
        let ghost s8 = s7 + p8;
        lemma_ends_clean(s7, p8);
        let ghost p9 = kw_opt("beats"@, x.beats);
        lemma_opt_piece("beats"@, x.beats);
        let ghost s9 = s8 + p9;
        lemma_ends_clean(s8, p9);
        let ghost p10 = kw_opt("second-beat"@, x.second_beat);
        lemma_opt_piece("second-beat"@, x.second_beat);
        let ghost s10 = s9 + p10;
        lemma_ends_clean(s9, p10);
        let ghost p11 = kw_opt("last-beat"@, x.last_beat);
        lemma_opt_piece("last-beat"@, x.last_beat);
        let ghost s11 = s10 + p11;
        lemma_ends_clean(s10, p11);
        let ghost p12 = kw_if(x.position.is_set(), "position"@, x.position.to_sexpr_spec());
        x.position.lemma_not_keyword();
        lemma_if_piece(x.position.is_set(), "position"@, x.position.to_sexpr_spec());
        let ghost s12 = s11 + p12;
        lemma_ends_clean(s11, p12);
        assert(x.to_sexpr_spec() == SexprV::List(s12));
        assert(s12[0] == SexprV::Symbol("mordent"@)) by {
            assert(s1[0] == s0[0]);
            assert(s2[0] == s1[0]);
            assert(s3[0] == s2[0]);
            assert(s4[0] == s3[0]);
            assert(s5[0] == s4[0]);
            assert(s6[0] == s5[0]);
            assert(s7[0] == s6[0]);
            assert(s8[0] == s7[0]);
            assert(s9[0] == s8[0]);
            assert(s10[0] == s9[0]);
            assert(s11[0] == s10[0]);
            assert(s12[0] == s11[0]);
        }
        assert(find_kwarg_spec(s12, "long"@) == (match x.long { Some(y) => Some(y.to_sexpr_spec()), None => None })) by {
            lemma_find_head_key("mordent"@, "long"@);
            if p1.len() == 2 { lemma_find_hit(s0, p1, "long"@); } else { lemma_find_skip(s0, p1, "long"@); }
            lemma_find_skip(s1, p2, "long"@);
            lemma_find_skip(s2, p3, "long"@);
            lemma_find_skip(s3, p4, "long"@);
            lemma_find_skip(s4, p5, "long"@);
            lemma_find_skip(s5, p6, "long"@);
            lemma_find_skip(s6, p7, "long"@);
            lemma_find_skip(s7, p8, "long"@);
            lemma_find_skip(s8, p9, "long"@);
            lemma_find_skip(s9, p10, "long"@);
            lemma_find_skip(s10, p11, "long"@);
            lemma_find_skip(s11, p12, "long"@);
        }
        assert(find_kwarg_spec(s12, "approach"@) == (match x.approach { Some(y) => Some(y.to_sexpr_spec()), None => None })) by {
            lemma_find_head_key("mordent"@, "approach"@);
            lemma_find_skip(s0, p1, "approach"@);
            if p2.len() == 2 { lemma_find_hit(s1, p2, "approach"@); } else { lemma_find_skip(s1, p2, "approach"@); }
            lemma_find_skip(s2, p3, "approach"@);
            lemma_find_skip(s3, p4, "approach"@);
            lemma_find_skip(s4, p5, "approach"@);
            lemma_find_skip(s5, p6, "approach"@);
            lemma_find_skip(s6, p7, "approach"@);
            lemma_find_skip(s7, p8, "approach"@);
            lemma_find_skip(s8, p9, "approach"@);
            lemma_find_skip(s9, p10, "approach"@);
            lemma_find_skip(s10, p11, "approach"@);
            lemma_find_skip(s11, p12, "approach"@);
        }
        assert(find_kwarg_spec(s12, "departure"@) == (match x.departure { Some(y) => Some(y.to_sexpr_spec()), None => None })) by {
            lemma_find_head_key("mordent"@, "departure"@);
            lemma_find_skip(s0, p1, "departure"@);
            lemma_find_skip(s1, p2, "departure"@);
            if p3.len() == 2 { lemma_find_hit(s2, p3, "departure"@); } else { lemma_find_skip(s2, p3, "departure"@); }
            lemma_find_skip(s3, p4, "departure"@);
            lemma_find_skip(s4, p5, "departure"@);
            lemma_find_skip(s5, p6, "departure"@);
            lemma_find_skip(s6, p7, "departure"@);
            lemma_find_skip(s7, p8, "departure"@);
            lemma_find_skip(s8, p9, "departure"@);
            lemma_find_skip(s9, p10, "departure"@);
            lemma_find_skip(s10, p11, "departure"@);
            lemma_find_skip(s11, p12, "departure"@);
        }
        assert(find_kwarg_spec(s12, "placement"@) == (match x.placement { Some(y) => Some(y.to_sexpr_spec()), None => None })) by {
            lemma_find_head_key("mordent"@, "placement"@);
            lemma_find_skip(s0, p1, "placement"@);
            lemma_find_skip(s1, p2, "placement"@);
            lemma_find_skip(s2, p3, "placement"@);
            if p4.len() == 2 { lemma_find_hit(s3, p4, "placement"@); } else { lemma_find_skip(s3, p4, "placement"@); }
            lemma_find_skip(s4, p5, "placement"@);
            lemma_find_skip(s5, p6, "placement"@);
            lemma_find_skip(s6, p7, "placement"@);
            lemma_find_skip(s7, p8, "placement"@);
            lemma_find_skip(s8, p9, "placement"@);
            lemma_find_skip(s9, p10, "placement"@);
            lemma_find_skip(s10, p11, "placement"@);
            lemma_find_skip(s11, p12, "placement"@);
        }
}

/// The head and keyword arguments of the S-expression of a `Mordent`, part 2.
pub proof fn lemma_mordent_items_1(x: Mordent)
    requires
        x.writable(),
    ensures
        x.to_sexpr_spec() matches SexprV::List(items)
            && find_kwarg_spec(items, "start-note"@) == (match x.start_note { Some(y) => Some(y.to_sexpr_spec()), None => None })
            && find_kwarg_spec(items, "trill-step"@) == (match x.trill_step { Some(y) => Some(y.to_sexpr_spec()), None => None })
            && find_kwarg_spec(items, "two-note-turn"@) == (match x.two_note_turn { Some(y) => Some(y.to_sexpr_spec()), None => None })
            && find_kwarg_spec(items, "accelerate"@) == (match x.accelerate { Some(y) => Some(y.to_sexpr_spec()), None => None }),
{
        assert("long"@ != "start-note"@) by {
            reveal_strlit("long");
            assert("long"@.len() == 4);
            reveal_strlit("start-note");
            assert("start-note"@.len() == 10);
        }
        assert("approach"@ != "start-note"@) by {
            reveal_strlit("approach");
            assert("approach"@.len() == 8);
            reveal_strlit("start-note");
            assert("start-note"@.len() == 10);
        }
        assert("departure"@ != "start-note"@) by {
            reveal_strlit("departure");
            assert("departure"@.len() == 9);
            reveal_strlit("start-note");
            assert("start-note"@.len() == 10);
        }
        assert("placement"@ != "start-note"@) by {
            reveal_strlit("placement");
            assert("placement"@.len() == 9);
            reveal_strlit("start-note");
            assert("start-note"@.len() == 10);
        }
        assert("trill-step"@ != "start-note"@) by {
            reveal_strlit("trill-step");
            assert("trill-step"@.len() == 10);
            reveal_strlit("start-note");
            assert("start-note"@.len() == 10);
            assert("trill-step"@[0] == 't');
            assert("start-note"@[0] == 's');
        }
        assert("two-note-turn"@ != "start-note"@) by {
            reveal_strlit("two-note-turn");
            assert("two-note-turn"@.len() == 13);
            reveal_strlit("start-note");
            assert("start-note"@.len() == 10);
        }
        assert("accelerate"@ != "start-note"@) by {
            reveal_strlit("accelerate");
            assert("accelerate"@.len() == 10);
            reveal_strlit("start-note");
            assert("start-note"@.len() == 10);
            assert("accelerate"@[0] == 'a');
            assert("start-note"@[0] == 's');
        }
        assert("beats"@ != "start-note"@) by {
            reveal_strlit("beats");
            assert("beats"@.len() == 5);
            reveal_strlit("start-note");
            assert("start-note"@.len() == 10);
        }
        assert("second-beat"@ != "start-note"@) by {
            reveal_strlit("second-beat");
            assert("second-beat"@.len() == 11);
            reveal_strlit("start-note");
            assert("start-note"@.len() == 10);
        }
        assert("last-beat"@ != "start-note"@) by {
            reveal_strlit("last-beat");
            assert("last-beat"@.len() == 9);
            reveal_strlit("start-note");
            assert("start-note"@.len() == 10);
        }
        assert("position"@ != "start-note"@) by {
            reveal_strlit("position");
            assert("position"@.len() == 8);
            reveal_strlit("start-note");
            assert("start-note"@.len() == 10);
        }
        assert("long"@ != "trill-step"@) by {
            reveal_strlit("long");
            assert("long"@.len() == 4);
            reveal_strlit("trill-step");
            assert("trill-step"@.len() == 10);
        }
        assert("approach"@ != "trill-step"@) by {
            reveal_strlit("approach");
            assert("approach"@.len() == 8);
            reveal_strlit("trill-step");
            assert("trill-step"@.len() == 10);
        }
        assert("departure"@ != "trill-step"@) by {
            reveal_strlit("departure");
            assert("departure"@.len() == 9);
            reveal_strlit("trill-step");
            assert("trill-step"@.len() == 10);
        }
        assert("placement"@ != "trill-step"@) by {
            reveal_strlit("placement");
            assert("placement"@.len() == 9);
            reveal_strlit("trill-step");
            assert("trill-step"@.len() == 10);
        }
        assert("two-note-turn"@ != "trill-step"@) by {
            reveal_strlit("two-note-turn");
            assert("two-note-turn"@.len() == 13);
            reveal_strlit("trill-step");
            assert("trill-step"@.len() == 10);
        }
        assert("accelerate"@ != "trill-step"@) by {
            reveal_strlit("accelerate");
            assert("accelerate"@.len() == 10);
            reveal_strlit("trill-step");
            assert("trill-step"@.len() == 10);
            assert("accelerate"@[0] == 'a');
            assert("trill-step"@[0] == 't');
        }
        assert("beats"@ != "trill-step"@) by {
            reveal_strlit("beats");
            assert("beats"@.len() == 5);
            reveal_strlit("trill-step");
            assert("trill-step"@.len() == 10);
        }
        assert("second-beat"@ != "trill-step"@) by {
            reveal_strlit("second-beat");
            assert("second-beat"@.len() == 11);
            reveal_strlit("trill-step");
            assert("trill-step"@.len() == 10);
        }
        assert("last-beat"@ != "trill-step"@) by {
            reveal_strlit("last-beat");
            assert("last-beat"@.len() == 9);
            reveal_strlit("trill-step");
            assert("trill-step"@.len() == 10);
        }
        assert("position"@ != "trill-step"@) by {
            reveal_strlit("position");
            assert("position"@.len() == 8);
            reveal_strlit("trill-step");
            assert("trill-step"@.len() == 10);
        }
        assert("long"@ != "two-note-turn"@) by {
            reveal_strlit("long");
            assert("long"@.len() == 4);
            reveal_strlit("two-note-turn");
            assert("two-note-turn"@.len() == 13);
        }
        assert("approach"@ != "two-note-turn"@) by {
            reveal_strlit("approach");
            assert("approach"@.len() == 8);
            reveal_strlit("two-note-turn");
            assert("two-note-turn"@.len() == 13);
        }
        assert("departure"@ != "two-note-turn"@) by {
            reveal_strlit("departure");
            assert("departure"@.len() == 9);
            reveal_strlit("two-note-turn");
            assert("two-note-turn"@.len() == 13);
        }
        assert("placement"@ != "two-note-turn"@) by {
            reveal_strlit("placement");
            assert("placement"@.len() == 9);
            reveal_strlit("two-note-turn");
            assert("two-note-turn"@.len() == 13);
        }
        assert("accelerate"@ != "two-note-turn"@) by {
            reveal_strlit("accelerate");
            assert("accelerate"@.len() == 10);
            reveal_strlit("two-note-turn");
            assert("two-note-turn"@.len() == 13);
        }
        assert("beats"@ != "two-note-turn"@) by {
            reveal_strlit("beats");
            assert("beats"@.len() == 5);
            reveal_strlit("two-note-turn");
            assert("two-note-turn"@.len() == 13);
        }
        assert("second-beat"@ != "two-note-turn"@) by {
            reveal_strlit("second-beat");
            assert("second-beat"@.len() == 11);
            reveal_strlit("two-note-turn");
            assert("two-note-turn"@.len() == 13);
        }
        assert("last-beat"@ != "two-note-turn"@) by {
            reveal_strlit("last-beat");
            assert("last-beat"@.len() == 9);
            reveal_strlit("two-note-turn");
            assert("two-note-turn"@.len() == 13);
        }
        assert("position"@ != "two-note-turn"@) by {
            reveal_strlit("position");
            assert("position"@.len() == 8);
            reveal_strlit("two-note-turn");
            assert("two-note-turn"@.len() == 13);
        }
        assert("long"@ != "accelerate"@) by {
            reveal_strlit("long");
            assert("long"@.len() == 4);
            reveal_strlit("accelerate");
            assert("accelerate"@.len() == 10);
        }
        assert("approach"@ != "accelerate"@) by {
            reveal_strlit("approach");
            assert("approach"@.len() == 8);
            reveal_strlit("accelerate");
            assert("accelerate"@.len() == 10);
        }
        assert("departure"@ != "accelerate"@) by {
            reveal_strlit("departure");
            assert("departure"@.len() == 9);
            reveal_strlit("accelerate");
            assert("accelerate"@.len() == 10);
        }
        assert("placement"@ != "accelerate"@) by {
            reveal_strlit("placement");
            assert("placement"@.len() == 9);
            reveal_strlit("accelerate");
            assert("accelerate"@.len() == 10);
        }
        assert("beats"@ != "accelerate"@) by {
            reveal_strlit("beats");
            assert("beats"@.len() == 5);
            reveal_strlit("accelerate");
            assert("accelerate"@.len() == 10);
        }
        assert("second-beat"@ != "accelerate"@) by {
            reveal_strlit("second-beat");
            assert("second-beat"@.len() == 11);
            reveal_strlit("accelerate");
            assert("accelerate"@.len() == 10);
        }
        assert("last-beat"@ != "accelerate"@) by {
            reveal_strlit("last-beat");
            assert("last-beat"@.len() == 9);
            reveal_strlit("accelerate");
            assert("accelerate"@.len() == 10);
        }
        assert("position"@ != "accelerate"@) by {
            reveal_strlit("position");
            assert("position"@.len() == 8);
            reveal_strlit("accelerate");
            assert("accelerate"@.len() == 10);
        }
        let ghost s0 = seq![SexprV::Symbol("mordent"@)];
        assert(ends_clean(s0));
        let ghost p1 = kw_opt("long"@, x.long);
        lemma_opt_piece("long"@, x.long);
        let ghost s1 = s0 + p1;
        lemma_ends_clean(s0, p1);
        let ghost p2 = kw_opt("approach"@, x.approach);
        lemma_opt_piece("approach"@, x.approach);
        let ghost s2 = s1 + p2;
        lemma_ends_clean(s1, p2);
        let ghost p3 = kw_opt("departure"@, x.departure);
        lemma_opt_piece("departure"@, x.departure);
        let ghost s3 = s2 + p3;
        lemma_ends_clean(s2, p3);
        let ghost p4 = kw_opt("placement"@, x.placement);
        lemma_opt_piece("placement"@, x.placement);
        let ghost s4 = s3 + p4;
        lemma_ends_clean(s3, p4);
        let ghost p5 = kw_opt("start-note"@, x.start_note);
        lemma_opt_piece("start-note"@, x.start_note);
        let ghost s5 = s4 + p5;
        lemma_ends_clean(s4, p5);
        let ghost p6 = kw_opt("trill-step"@, x.trill_step);
        lemma_opt_piece("trill-step"@, x.trill_step);
        let ghost s6 = s5 + p6;
        lemma_ends_clean(s5, p6);
        let ghost p7 = kw_opt("two-note-turn"@, x.two_note_turn);
        lemma_opt_piece("two-note-turn"@, x.two_note_turn);
        let ghost s7 = s6 + p7;
        lemma_ends_clean(s6, p7);
        let ghost p8 = kw_opt("accelerate"@, x.accelerate);
        lemma_opt_piece("accelerate"@, x.accelerate);
        let ghost s8 = s7 + p8;
        lemma_ends_clean(s7, p8);
        let ghost p9 = kw_opt("beats"@, x.beats);
        lemma_opt_piece("beats"@, x.beats);
        let ghost s9 = s8 + p9;
        lemma_ends_clean(s8, p9);
        let ghost p10 = kw_opt("second-beat"@, x.second_beat);
        lemma_opt_piece("second-beat"@, x.second_beat);
        let ghost s10 = s9 + p10;
        lemma_ends_clean(s9, p10);
        let ghost p11 = kw_opt("last-beat"@, x.last_beat);
        lemma_opt_piece("last-beat"@, x.last_beat);
        let ghost s11 = s10 + p11;
        lemma_ends_clean(s10, p11);
        let ghost p12 = kw_if(x.position.is_set(), "position"@, x.position.to_sexpr_spec());
        x.position.lemma_not_keyword();
        lemma_if_piece(x.position.is_set(), "position"@, x.position.to_sexpr_spec());
        let ghost s12 = s11 + p12;
        lemma_ends_clean(s11, p12);
        assert(x.to_sexpr_spec() == SexprV::List(s12));
        assert(find_kwarg_spec(s12, "start-note"@) == (match x.start_note { Some(y) => Some(y.to_sexpr_spec()), None => None })) by {
            lemma_find_head_key("mordent"@, "start-note"@);
            lemma_find_skip(s0, p1, "start-note"@);
            lemma_find_skip(s1, p2, "start-note"@);
            lemma_find_skip(s2, p3, "start-note"@);
            lemma_find_skip(s3, p4, "start-note"@);
            if p5.len() == 2 { lemma_find_hit(s4, p5, "start-note"@); } else { lemma_find_skip(s4, p5, "start-note"@); }
            lemma_find_skip(s5, p6, "start-note"@);
            lemma_find_skip(s6, p7, "start-note"@);
            lemma_find_skip(s7, p8, "start-note"@);
            lemma_find_skip(s8, p9, "start-note"@);
            lemma_find_skip(s9, p10, "start-note"@);
            lemma_find_skip(s10, p11, "start-note"@);
            lemma_find_skip(s11, p12, "start-note"@);
        }
        assert(find_kwarg_spec(s12, "trill-step"@) == (match x.trill_step { Some(y) => Some(y.to_sexpr_spec()), None => None })) by {
            lemma_find_head_key("mordent"@, "trill-step"@);
            lemma_find_skip(s0, p1, "trill-step"@);
            lemma_find_skip(s1, p2, "trill-step"@);
            lemma_find_skip(s2, p3, "trill-step"@);
            lemma_find_skip(s3, p4, "trill-step"@);
            lemma_find_skip(s4, p5, "trill-step"@);
            if p6.len() == 2 { lemma_find_hit(s5, p6, "trill-step"@); } else { lemma_find_skip(s5, p6, "trill-step"@); }
            lemma_find_skip(s6, p7, "trill-step"@);
            lemma_find_skip(s7, p8, "trill-step"@);
            lemma_find_skip(s8, p9, "trill-step"@);
            lemma_find_skip(s9, p10, "trill-step"@);
            lemma_find_skip(s10, p11, "trill-step"@);
            lemma_find_skip(s11, p12, "trill-step"@);
        }
        assert(find_kwarg_spec(s12, "two-note-turn"@) == (match x.two_note_turn { Some(y) => Some(y.to_sexpr_spec()), None => None })) by {
            lemma_find_head_key("mordent"@, "two-note-turn"@);
            lemma_find_skip(s0, p1, "two-note-turn"@);
            lemma_find_skip(s1, p2, "two-note-turn"@);
            lemma_find_skip(s2, p3, "two-note-turn"@);
            lemma_find_skip(s3, p4, "two-note-turn"@);
            lemma_find_skip(s4, p5, "two-note-turn"@);
            lemma_find_skip(s5, p6, "two-note-turn"@);
            if p7.len() == 2 { lemma_find_hit(s6, p7, "two-note-turn"@); } else { lemma_find_skip(s6, p7, "two-note-turn"@); }
            lemma_find_skip(s7, p8, "two-note-turn"@);
            lemma_find_skip(s8, p9, "two-note-turn"@);
            lemma_find_skip(s9, p10, "two-note-turn"@);
            lemma_find_skip(s10, p11, "two-note-turn"@);
            lemma_find_skip(s11, p12, "two-note-turn"@);
        }
        assert(find_kwarg_spec(s12, "accelerate"@) == (match x.accelerate { Some(y) => Some(y.to_sexpr_spec()), None => None })) by {
            lemma_find_head_key("mordent"@, "accelerate"@);
            lemma_find_skip(s0, p1, "accelerate"@);
            lemma_find_skip(s1, p2, "accelerate"@);
            lemma_find_skip(s2, p3, "accelerate"@);
            lemma_find_skip(s3, p4, "accelerate"@);
            lemma_find_skip(s4, p5, "accelerate"@);
            lemma_find_skip(s5, p6, "accelerate"@);
            lemma_find_skip(s6, p7, "accelerate"@);
            if p8.len() == 2 { lemma_find_hit(s7, p8, "accelerate"@); } else { lemma_find_skip(s7, p8, "accelerate"@); }
            lemma_find_skip(s8, p9, "accelerate"@);
            lemma_find_skip(s9, p10, "accelerate"@);
            lemma_find_skip(s10, p11, "accelerate"@);
            lemma_find_skip(s11, p12, "accelerate"@);
        }
}

/// The head and keyword arguments of the S-expression of a `Mordent`, part 3.
pub proof fn lemma_mordent_items_2(x: Mordent)
    requires
        x.writable(),
    ensures
        x.to_sexpr_spec() matches SexprV::List(items)
            && find_kwarg_spec(items, "beats"@) == (match x.beats { Some(y) => Some(y.to_sexpr_spec()), None => None })
            && find_kwarg_spec(items, "second-beat"@) == (match x.second_beat { Some(y) => Some(y.to_sexpr_spec()), None => None })
            && find_kwarg_spec(items, "last-beat"@) == (match x.last_beat { Some(y) => Some(y.to_sexpr_spec()), None => None })
            && find_kwarg_spec(items, "position"@) == (if x.position.is_set() { Some(x.position.to_sexpr_spec()) } else { None }),
{
        assert("long"@ != "beats"@) by {
            reveal_strlit("long");
            assert("long"@.len() == 4);
            reveal_strlit("beats");
            assert("beats"@.len() == 5);
        }
        assert("approach"@ != "beats"@) by {
            reveal_strlit("approach");
            assert("approach"@.len() == 8);
            reveal_strlit("beats");
            assert("beats"@.len() == 5);
        }
        assert("departure"@ != "beats"@) by {
            reveal_strlit("departure");
            assert("departure"@.len() == 9);
            reveal_strlit("beats");
            assert("beats"@.len() == 5);
        }
        assert("placement"@ != "beats"@) by {
            reveal_strlit("placement");
            assert("placement"@.len() == 9);
            reveal_strlit("beats");
            assert("beats"@.len() == 5);
        }
        assert("start-note"@ != "beats"@) by {
            reveal_strlit("start-note");
            assert("start-note"@.len() == 10);
            reveal_strlit("beats");
            assert("beats"@.len() == 5);
        }
        assert("trill-step"@ != "beats"@) by {
            reveal_strlit("trill-step");
            assert("trill-step"@.len() == 10);
            reveal_strlit("beats");
            assert("beats"@.len() == 5);
        }
        assert("two-note-turn"@ != "beats"@) by {
            reveal_strlit("two-note-turn");
            assert("two-note-turn"@.len() == 13);
            reveal_strlit("beats");
            assert("beats"@.len() == 5);
        }
        assert("accelerate"@ != "beats"@) by {
            reveal_strlit("accelerate");
            assert("accelerate"@.len() == 10);
            reveal_strlit("beats");
            assert("beats"@.len() == 5);
        }
        assert("second-beat"@ != "beats"@) by {
            reveal_strlit("second-beat");
            assert("second-beat"@.len() == 11);
            reveal_strlit("beats");
            assert("beats"@.len() == 5);
        }
        assert("last-beat"@ != "beats"@) by {
            reveal_strlit("last-beat");
            assert("last-beat"@.len() == 9);
            reveal_strlit("beats");
            assert("beats"@.len() == 5);
        }
        assert("position"@ != "beats"@) by {
            reveal_strlit("position");
            assert("position"@.len() == 8);
            reveal_strlit("beats");
            assert("beats"@.len() == 5);
        }
        assert("long"@ != "second-beat"@) by {
            reveal_strlit("long");
            assert("long"@.len() == 4);
            reveal_strlit("second-beat");
            assert("second-beat"@.len() == 11);
        }
        assert("approach"@ != "second-beat"@) by {
            reveal_strlit("approach");
            assert("approach"@.len() == 8);
            reveal_strlit("second-beat");
            assert("second-beat"@.len() == 11);
        }
        assert("departure"@ != "second-beat"@) by {
            reveal_strlit("departure");
            assert("departure"@.len() == 9);
            reveal_strlit("second-beat");
            assert("second-beat"@.len() == 11);
        }
        assert("placement"@ != "second-beat"@) by {
            reveal_strlit("placement");
            assert("placement"@.len() == 9);
            reveal_strlit("second-beat");
            assert("second-beat"@.len() == 11);
        }
        assert("start-note"@ != "second-beat"@) by {
            reveal_strlit("start-note");
            assert("start-note"@.len() == 10);
            reveal_strlit("second-beat");
            assert("second-beat"@.len() == 11);
        }
        assert("trill-step"@ != "second-beat"@) by {
            reveal_strlit("trill-step");
            assert("trill-step"@.len() == 10);
            reveal_strlit("second-beat");
            assert("second-beat"@.len() == 11);
        }
        assert("two-note-turn"@ != "second-beat"@) by {
            reveal_strlit("two-note-turn");
            assert("two-note-turn"@.len() == 13);
            reveal_strlit("second-beat");
            assert("second-beat"@.len() == 11);
        }
        assert("accelerate"@ != "second-beat"@) by {
            reveal_strlit("accelerate");
            assert("accelerate"@.len() == 10);
            reveal_strlit("second-beat");
            assert("second-beat"@.len() == 11);
        }
        assert("last-beat"@ != "second-beat"@) by {
            reveal_strlit("last-beat");
            assert("last-beat"@.len() == 9);
            reveal_strlit("second-beat");
            assert("second-beat"@.len() == 11);
        }
        assert("position"@ != "second-beat"@) by {
            reveal_strlit("position");
            assert("position"@.len() == 8);
            reveal_strlit("second-beat");
            assert("second-beat"@.len() == 11);
        }
        assert("long"@ != "last-beat"@) by {
            reveal_strlit("long");
            assert("long"@.len() == 4);
            reveal_strlit("last-beat");
            assert("last-beat"@.len() == 9);
        }
        assert("approach"@ != "last-beat"@) by {
            reveal_strlit("approach");
            assert("approach"@.len() == 8);
            reveal_strlit("last-beat");
            assert("last-beat"@.len() == 9);
        }
        assert("departure"@ != "last-beat"@) by {
            reveal_strlit("departure");
            assert("departure"@.len() == 9);
            reveal_strlit("last-beat");
            assert("last-beat"@.len() == 9);
            assert("departure"@[0] == 'd');
            assert("last-beat"@[0] == 'l');
        }
        assert("placement"@ != "last-beat"@) by {
            reveal_strlit("placement");
            assert("placement"@.len() == 9);
            reveal_strlit("last-beat");
            assert("last-beat"@.len() == 9);
            assert("placement"@[0] == 'p');
            assert("last-beat"@[0] == 'l');
        }
        assert("start-note"@ != "last-beat"@) by {
            reveal_strlit("start-note");
            assert("start-note"@.len() == 10);
            reveal_strlit("last-beat");
            assert("last-beat"@.len() == 9);
        }
        assert("trill-step"@ != "last-beat"@) by {
            reveal_strlit("trill-step");
            assert("trill-step"@.len() == 10);
            reveal_strlit("last-beat");
            assert("last-beat"@.len() == 9);
        }
        assert("two-note-turn"@ != "last-beat"@) by {
            reveal_strlit("two-note-turn");
            assert("two-note-turn"@.len() == 13);
            reveal_strlit("last-beat");
            assert("last-beat"@.len() == 9);
        }
        assert("accelerate"@ != "last-beat"@) by {
            reveal_strlit("accelerate");
            assert("accelerate"@.len() == 10);
            reveal_strlit("last-beat");
            assert("last-beat"@.len() == 9);
        }
        assert("position"@ != "last-beat"@) by {
            reveal_strlit("position");
            assert("position"@.len() == 8);
            reveal_strlit("last-beat");
            assert("last-beat"@.len() == 9);
        }
        assert("long"@ != "position"@) by {
            reveal_strlit("long");
            assert("long"@.len() == 4);
            reveal_strlit("position");
            assert("position"@.len() == 8);
        }
        assert("approach"@ != "position"@) by {
            reveal_strlit("approach");
            assert("approach"@.len() == 8);
            reveal_strlit("position");
            assert("position"@.len() == 8);
            assert("approach"@[0] == 'a');
            assert("position"@[0] == 'p');
        }
        assert("departure"@ != "position"@) by {
            reveal_strlit("departure");
            assert("departure"@.len() == 9);
            reveal_strlit("position");
            assert("position"@.len() == 8);
        }
        assert("placement"@ != "position"@) by {
            reveal_strlit("placement");
            assert("placement"@.len() == 9);
            reveal_strlit("position");
            assert("position"@.len() == 8);
        }
        assert("start-note"@ != "position"@) by {
            reveal_strlit("start-note");
            assert("start-note"@.len() == 10);
            reveal_strlit("position");
            assert("position"@.len() == 8);
        }
        assert("trill-step"@ != "position"@) by {
            reveal_strlit("trill-step");
            assert("trill-step"@.len() == 10);
            reveal_strlit("position");
            assert("position"@.len() == 8);
        }
        assert("two-note-turn"@ != "position"@) by {
            reveal_strlit("two-note-turn");
            assert("two-note-turn"@.len() == 13);
            reveal_strlit("position");
            assert("position"@.len() == 8);
        }
        assert("accelerate"@ != "position"@) by {
            reveal_strlit("accelerate");
            assert("accelerate"@.len() == 10);
            reveal_strlit("position");
            assert("position"@.len() == 8);
        }
        let ghost s0 = seq![SexprV::Symbol("mordent"@)];
        assert(ends_clean(s0));
        let ghost p1 = kw_opt("long"@, x.long);
        lemma_opt_piece("long"@, x.long);
        let ghost s1 = s0 + p1;
        lemma_ends_clean(s0, p1);
        let ghost p2 = kw_opt("approach"@, x.approach);
        lemma_opt_piece("approach"@, x.approach);
        let ghost s2 = s1 + p2;
        lemma_ends_clean(s1, p2);
        let ghost p3 = kw_opt("departure"@, x.departure);
        lemma_opt_piece("departure"@, x.departure);
        let ghost s3 = s2 + p3;
        lemma_ends_clean(s2, p3);
        let ghost p4 = kw_opt("placement"@, x.placement);
        lemma_opt_piece("placement"@, x.placement);
        let ghost s4 = s3 + p4;
        lemma_ends_clean(s3, p4);
        let ghost p5 = kw_opt("start-note"@, x.start_note);
        lemma_opt_piece("start-note"@, x.start_note);
        let ghost s5 = s4 + p5;
        lemma_ends_clean(s4, p5);
        let ghost p6 = kw_opt("trill-step"@, x.trill_step);
        lemma_opt_piece("trill-step"@, x.trill_step);
        let ghost s6 = s5 + p6;
        lemma_ends_clean(s5, p6);
        let ghost p7 = kw_opt("two-note-turn"@, x.two_note_turn);
        lemma_opt_piece("two-note-turn"@, x.two_note_turn);
        let ghost s7 = s6 + p7;
        lemma_ends_clean(s6, p7);
        let ghost p8 = kw_opt("accelerate"@, x.accelerate);
        lemma_opt_piece("accelerate"@, x.accelerate);
        let ghost s8 = s7 + p8;
        lemma_ends_clean(s7, p8);
        let ghost p9 = kw_opt("beats"@, x.beats);
        lemma_opt_piece("beats"@, x.beats);
        let ghost s9 = s8 + p9;
        lemma_ends_clean(s8, p9);
        let ghost p10 = kw_opt("second-beat"@, x.second_beat);
        lemma_opt_piece("second-beat"@, x.second_beat);
        let ghost s10 = s9 + p10;
        lemma_ends_clean(s9, p10);
        let ghost p11 = kw_opt("last-beat"@, x.last_beat);
        lemma_opt_piece("last-beat"@, x.last_beat);
        let ghost s11 = s10 + p11;
        lemma_ends_clean(s10, p11);
        let ghost p12 = kw_if(x.position.is_set(), "position"@, x.position.to_sexpr_spec());
        x.position.lemma_not_keyword();
        lemma_if_piece(x.position.is_set(), "position"@, x.position.to_sexpr_spec());
        let ghost s12 = s11 + p12;
        lemma_ends_clean(s11, p12);
        assert(x.to_sexpr_spec() == SexprV::List(s12));
        assert(find_kwarg_spec(s12, "beats"@) == (match x.beats { Some(y) => Some(y.to_sexpr_spec()), None => None })) by {
            lemma_find_head_key("mordent"@, "beats"@);
            lemma_find_skip(s0, p1, "beats"@);
            lemma_find_skip(s1, p2, "beats"@);
            lemma_find_skip(s2, p3, "beats"@);
            lemma_find_skip(s3, p4, "beats"@);
            lemma_find_skip(s4, p5, "beats"@);
            lemma_find_skip(s5, p6, "beats"@);
            lemma_find_skip(s6, p7, "beats"@);
            lemma_find_skip(s7, p8, "beats"@);
            if p9.len() == 2 { lemma_find_hit(s8, p9, "beats"@); } else { lemma_find_skip(s8, p9, "beats"@); }
            lemma_find_skip(s9, p10, "beats"@);
            lemma_find_skip(s10, p11, "beats"@);
            lemma_find_skip(s11, p12, "beats"@);
        }
        assert(find_kwarg_spec(s12, "second-beat"@) == (match x.second_beat { Some(y) => Some(y.to_sexpr_spec()), None => None })) by {
            lemma_find_head_key("mordent"@, "second-beat"@);
            lemma_find_skip(s0, p1, "second-beat"@);
            lemma_find_skip(s1, p2, "second-beat"@);
            lemma_find_skip(s2, p3, "second-beat"@);
            lemma_find_skip(s3, p4, "second-beat"@);
            lemma_find_skip(s4, p5, "second-beat"@);
            lemma_find_skip(s5, p6, "second-beat"@);
            lemma_find_skip(s6, p7, "second-beat"@);
            lemma_find_skip(s7, p8, "second-beat"@);
            lemma_find_skip(s8, p9, "second-beat"@);
            if p10.len() == 2 { lemma_find_hit(s9, p10, "second-beat"@); } else { lemma_find_skip(s9, p10, "second-beat"@); }
            lemma_find_skip(s10, p11, "second-beat"@);
            lemma_find_skip(s11, p12, "second-beat"@);
        }
        assert(find_kwarg_spec(s12, "last-beat"@) == (match x.last_beat { Some(y) => Some(y.to_sexpr_spec()), None => None })) by {
            lemma_find_head_key("mordent"@, "last-beat"@);
            lemma_find_skip(s0, p1, "last-beat"@);
            lemma_find_skip(s1, p2, "last-beat"@);
            lemma_find_skip(s2, p3, "last-beat"@);
            lemma_find_skip(s3, p4, "last-beat"@);
            lemma_find_skip(s4, p5, "last-beat"@);
            lemma_find_skip(s5, p6, "last-beat"@);
            lemma_find_skip(s6, p7, "last-beat"@);
            lemma_find_skip(s7, p8, "last-beat"@);
            lemma_find_skip(s8, p9, "last-beat"@);
            lemma_find_skip(s9, p10, "last-beat"@);
            if p11.len() == 2 { lemma_find_hit(s10, p11, "last-beat"@); } else { lemma_find_skip(s10, p11, "last-beat"@); }
            lemma_find_skip(s11, p12, "last-beat"@);
        }
        assert(find_kwarg_spec(s12, "position"@) == (if x.position.is_set() { Some(x.position.to_sexpr_spec()) } else { None })) by {
            lemma_find_head_key("mordent"@, "position"@);
            lemma_find_skip(s0, p1, "position"@);
            lemma_find_skip(s1, p2, "position"@);
            lemma_find_skip(s2, p3, "position"@);
            lemma_find_skip(s3, p4, "position"@);
            lemma_find_skip(s4, p5, "position"@);
            lemma_find_skip(s5, p6, "position"@);
            lemma_find_skip(s6, p7, "position"@);
            lemma_find_skip(s7, p8, "position"@);
            lemma_find_skip(s8, p9, "position"@);
            lemma_find_skip(s9, p10, "position"@);
            lemma_find_skip(s10, p11, "position"@);
            if p12.len() == 2 { lemma_find_hit(s11, p12, "position"@); } else { lemma_find_skip(s11, p12, "position"@); }
        }
}

/// The head and the keyword arguments of the S-expression of a `Mordent`.
pub proof fn lemma_mordent_items(x: Mordent)
    requires
        x.writable(),
    ensures
        x.to_sexpr_spec() matches SexprV::List(items) && items.len() > 0 && items[0] == SexprV::Symbol("mordent"@)
            && find_kwarg_spec(items, "long"@) == (match x.long { Some(y) => Some(y.to_sexpr_spec()), None => None })
            && find_kwarg_spec(items, "approach"@) == (match x.approach { Some(y) => Some(y.to_sexpr_spec()), None => None })
            && find_kwarg_spec(items, "departure"@) == (match x.departure { Some(y) => Some(y.to_sexpr_spec()), None => None })
            && find_kwarg_spec(items, "placement"@) == (match x.placement { Some(y) => Some(y.to_sexpr_spec()), None => None })
            && find_kwarg_spec(items, "start-note"@) == (match x.start_note { Some(y) => Some(y.to_sexpr_spec()), None => None })
            && find_kwarg_spec(items, "trill-step"@) == (match x.trill_step { Some(y) => Some(y.to_sexpr_spec()), None => None })
            && find_kwarg_spec(items, "two-note-turn"@) == (match x.two_note_turn { Some(y) => Some(y.to_sexpr_spec()), None => None })
            && find_kwarg_spec(items, "accelerate"@) == (match x.accelerate { Some(y) => Some(y.to_sexpr_spec()), None => None })
            && find_kwarg_spec(items, "beats"@) == (match x.beats { Some(y) => Some(y.to_sexpr_spec()), None => None })
            && find_kwarg_spec(items, "second-beat"@) == (match x.second_beat { Some(y) => Some(y.to_sexpr_spec()), None => None })
            && find_kwarg_spec(items, "last-beat"@) == (match x.last_beat { Some(y) => Some(y.to_sexpr_spec()), None => None })
            && find_kwarg_spec(items, "position"@) == (if x.position.is_set() { Some(x.position.to_sexpr_spec()) } else { None }),
{
    lemma_mordent_items_0(x);
    lemma_mordent_items_1(x);
    lemma_mordent_items_2(x);
}

impl RoundTrip for Mordent {
    /// A value whose parts are writable.
    open spec fn writable(&self) -> bool {
        self.position.writable()
            && self.long.writable()
            && self.approach.writable()
            && self.departure.writable()
            && self.placement.writable()
            && self.start_note.writable()
            && self.trill_step.writable()
            && self.two_note_turn.writable()
            && self.accelerate.writable()
            && self.beats.writable()
            && self.second_beat.writable()
            && self.last_beat.writable()
    }

    open spec fn same(&self, other: &Self) -> bool {
        self.position.same(&other.position)
            && self.long.same(&other.long)
            && self.approach.same(&other.approach)
            && self.departure.same(&other.departure)
            && self.placement.same(&other.placement)
            && self.start_note.same(&other.start_note)
            && self.trill_step.same(&other.trill_step)
            && self.two_note_turn.same(&other.two_note_turn)
            && self.accelerate.same(&other.accelerate)
            && self.beats.same(&other.beats)
            && self.second_beat.same(&other.second_beat)
            && self.last_beat.same(&other.last_beat)
    }

    proof fn lemma_not_keyword(&self) {
    }

    proof fn lemma_no_error(&self) {
        lemma_mordent_items(*self);
        self.position.lemma_no_error();
        self.long.lemma_no_error();
        self.approach.lemma_no_error();
        self.departure.lemma_no_error();
        self.placement.lemma_no_error();
        self.start_note.lemma_no_error();
        self.trill_step.lemma_no_error();
        self.two_note_turn.lemma_no_error();
        self.accelerate.lemma_no_error();
        self.beats.lemma_no_error();
        self.second_beat.lemma_no_error();
        self.last_beat.lemma_no_error();
    }

    proof fn lemma_value(&self, v: Self) {
        lemma_mordent_items(*self);
        self.long.lemma_value(v.long);
        self.approach.lemma_value(v.approach);
        self.departure.lemma_value(v.departure);
        self.placement.lemma_value(v.placement);
        self.start_note.lemma_value(v.start_note);
        self.trill_step.lemma_value(v.trill_step);
        self.two_note_turn.lemma_value(v.two_note_turn);
        self.accelerate.lemma_value(v.accelerate);
        self.beats.lemma_value(v.beats);
        self.second_beat.lemma_value(v.second_beat);
        self.last_beat.lemma_value(v.last_beat);
        if self.position.is_set() {
            self.position.lemma_value(v.position);
        }
    }
}

/// The head and keyword arguments of the S-expression of a `Tremolo`.
pub proof fn lemma_tremolo_items(x: Tremolo)
    requires
        x.writable(),
    ensures
        x.to_sexpr_spec() matches SexprV::List(items) && items.len() > 0 && items[0] == SexprV::Symbol("tremolo"@)
            && find_kwarg_spec(items, "value"@) == (Some(x.value.to_sexpr_spec()))
            && find_kwarg_spec(items, "type"@) == (match x.type_ { Some(y) => Some(y.to_sexpr_spec()), None => None })
            && find_kwarg_spec(items, "placement"@) == (match x.placement { Some(y) => Some(y.to_sexpr_spec()), None => None })
            && find_kwarg_spec(items, "position"@) == (if x.position.is_set() { Some(x.position.to_sexpr_spec()) } else { None }),
{
        assert("type"@ != "value"@) by {
            reveal_strlit("type");
            assert("type"@.len() == 4);
            reveal_strlit("value");
            assert("value"@.len() == 5);
        }
        assert("placement"@ != "value"@) by {
            reveal_strlit("placement");
            assert("placement"@.len() == 9);
            reveal_strlit("value");
            assert("value"@.len() == 5);
        }
        assert("position"@ != "value"@) by {
            reveal_strlit("position");
            assert("position"@.len() == 8);
            reveal_strlit("value");
            assert("value"@.len() == 5);
        }
        assert("placement"@ != "type"@) by {
            reveal_strlit("placement");
            assert("placement"@.len() == 9);
            reveal_strlit("type");
            assert("type"@.len() == 4);
        }
        assert("position"@ != "type"@) by {
            reveal_strlit("position");
            assert("position"@.len() == 8);
            reveal_strlit("type");
            assert("type"@.len() == 4);
        }
        assert("position"@ != "placement"@) by {
            reveal_strlit("position");
            assert("position"@.len() == 8);
            reveal_strlit("placement");
            assert("placement"@.len() == 9);
        }
        let ghost s0 = seq![SexprV::Symbol("tremolo"@)];
        assert(ends_clean(s0));
        let ghost p1 = kw_pair("value"@, x.value.to_sexpr_spec());
        x.value.lemma_not_keyword();
        lemma_pair_piece("value"@, x.value.to_sexpr_spec());
        let ghost s1 = s0 + p1;
        lemma_ends_clean(s0, p1);
        let ghost p2 = kw_opt("type"@, x.type_);
        lemma_opt_piece("type"@, x.type_);
        let ghost s2 = s1 + p2;
        lemma_ends_clean(s1, p2);
        let ghost p3 = kw_opt("placement"@, x.placement);
        lemma_opt_piece("placement"@, x.placement);
        let ghost s3 = s2 + p3;
        lemma_ends_clean(s2, p3);
        let ghost p4 = kw_if(x.position.is_set(), "position"@, x.position.to_sexpr_spec());
        x.position.lemma_not_keyword();
        lemma_if_piece(x.position.is_set(), "position"@, x.position.to_sexpr_spec());
        let ghost s4 = s3 + p4;
        lemma_ends_clean(s3, p4);
        assert(x.to_sexpr_spec() == SexprV::List(s4));
        assert(s4[0] == SexprV::Symbol("tremolo"@)) by {
            assert(s1[0] == s0[0]);
            assert(s2[0] == s1[0]);
            assert(s3[0] == s2[0]);
            assert(s4[0] == s3[0]);
        }
        assert(find_kwarg_spec(s4, "value"@) == (Some(x.value.to_sexpr_spec()))) by {
            lemma_find_head_key("tremolo"@, "value"@);
            if p1.len() == 2 { lemma_find_hit(s0, p1, "value"@); } else { lemma_find_skip(s0, p1, "value"@); }
            lemma_find_skip(s1, p2, "value"@);
            lemma_find_skip(s2, p3, "value"@);
            lemma_find_skip(s3, p4, "value"@);
        }
        assert(find_kwarg_spec(s4, "type"@) == (match x.type_ { Some(y) => Some(y.to_sexpr_spec()), None => None })) by {
            lemma_find_head_key("tremolo"@, "type"@);
            lemma_find_skip(s0, p1, "type"@);
            if p2.len() == 2 { lemma_find_hit(s1, p2, "type"@); } else { lemma_find_skip(s1, p2, "type"@); }
            lemma_find_skip(s2, p3, "type"@);
            lemma_find_skip(s3, p4, "type"@);
        }
        assert(find_kwarg_spec(s4, "placement"@) == (match x.placement { Some(y) => Some(y.to_sexpr_spec()), None => None })) by {
            lemma_find_head_key("tremolo"@, "placement"@);
            lemma_find_skip(s0, p1, "placement"@);
            lemma_find_skip(s1, p2, "placement"@);
            if p3.len() == 2 { lemma_find_hit(s2, p3, "placement"@); } else { lemma_find_skip(s2, p3, "placement"@); }
            lemma_find_skip(s3, p4, "placement"@);
        }
        assert(find_kwarg_spec(s4, "position"@) == (if x.position.is_set() { Some(x.position.to_sexpr_spec()) } else { None })) by {
            lemma_find_head_key("tremolo"@, "position"@);
            lemma_find_skip(s0, p1, "position"@);
            lemma_find_skip(s1, p2, "position"@);
            lemma_find_skip(s2, p3, "position"@);
            if p4.len() == 2 { lemma_find_hit(s3, p4, "position"@); } else { lemma_find_skip(s3, p4, "position"@); }
        }
}

impl RoundTrip for Tremolo {
    /// A value whose parts are writable.
    open spec fn writable(&self) -> bool {
        self.position.writable()
            && self.value.writable()
            && self.type_.writable()
            && self.placement.writable()
    }

    open spec fn same(&self, other: &Self) -> bool {
        self.position.same(&other.position)
            && self.value.same(&other.value)
            && self.type_.same(&other.type_)
            && self.placement.same(&other.placement)
    }

    proof fn lemma_not_keyword(&self) {
    }

    proof fn lemma_no_error(&self) {
        lemma_tremolo_items(*self);
        self.position.lemma_no_error();
        self.value.lemma_no_error();
        self.type_.lemma_no_error();
        self.placement.lemma_no_error();
    }

    proof fn lemma_value(&self, v: Self) {
        lemma_tremolo_items(*self);
        self.value.lemma_value(v.value);
        self.type_.lemma_value(v.type_);
        self.placement.lemma_value(v.placement);
        if self.position.is_set() {
            self.position.lemma_value(v.position);
        }
    }
}

/// The head and keyword arguments of the S-expression of a `OtherOrnament`.
pub proof fn lemma_other_ornament_items(x: OtherOrnament)
    requires
        x.writable(),
    ensures
        x.to_sexpr_spec() matches SexprV::List(items) && items.len() > 0 && items[0] == SexprV::Symbol("other-ornament"@)
            && find_kwarg_spec(items, "value"@) == (Some(x.value.to_sexpr_spec()))
            && find_kwarg_spec(items, "placement"@) == (match x.placement { Some(y) => Some(y.to_sexpr_spec()), None => None })
            && find_kwarg_spec(items, "position"@) == (if x.print_style.position.is_set() { Some(x.print_style.position.to_sexpr_spec()) } else { None })
            && find_kwarg_spec(items, "color"@) == (match x.print_style.color { Some(y) => Some(y.to_sexpr_spec()), None => None }),
{
        assert("placement"@ != "value"@) by {
            reveal_strlit("placement");
            assert("placement"@.len() == 9);
            reveal_strlit("value");
            assert("value"@.len() == 5);
        }
        assert("position"@ != "value"@) by {
            reveal_strlit("position");
            assert("position"@.len() == 8);
            reveal_strlit("value");
            assert("value"@.len() == 5);
        }
        assert("color"@ != "value"@) by {
            reveal_strlit("color");
            assert("color"@.len() == 5);
            reveal_strlit("value");
            assert("value"@.len() == 5);
            assert("color"@[0] == 'c');
            assert("value"@[0] == 'v');
        }
        assert("position"@ != "placement"@) by {
            reveal_strlit("position");
            assert("position"@.len() == 8);
            reveal_strlit("placement");
            assert("placement"@.len() == 9);
        }
        assert("color"@ != "placement"@) by {
            reveal_strlit("color");
            assert("color"@.len() == 5);
            reveal_strlit("placement");
            assert("placement"@.len() == 9);
        }
        assert("color"@ != "position"@) by {
            reveal_strlit("color");
            assert("color"@.len() == 5);
            reveal_strlit("position");
            assert("position"@.len() == 8);
        }
        let ghost s0 = seq![SexprV::Symbol("other-ornament"@)];
        assert(ends_clean(s0));
        let ghost p1 = kw_pair("value"@, x.value.to_sexpr_spec());
        x.value.lemma_not_keyword();
        lemma_pair_piece("value"@, x.value.to_sexpr_spec());
        let ghost s1 = s0 + p1;
        lemma_ends_clean(s0, p1);
        let ghost p2 = kw_opt("placement"@, x.placement);
        lemma_opt_piece("placement"@, x.placement);
        let ghost s2 = s1 + p2;
        lemma_ends_clean(s1, p2);
        let ghost p3 = kw_if(x.print_style.position.is_set(), "position"@, x.print_style.position.to_sexpr_spec());
        x.print_style.position.lemma_not_keyword();
        lemma_if_piece(x.print_style.position.is_set(), "position"@, x.print_style.position.to_sexpr_spec());
        let ghost s3 = s2 + p3;
        lemma_ends_clean(s2, p3);
        let ghost p4 = kw_opt("color"@, x.print_style.color);
        lemma_opt_piece("color"@, x.print_style.color);
        let ghost s4 = s3 + p4;
        lemma_ends_clean(s3, p4);
        assert(x.to_sexpr_spec() == SexprV::List(s4));
        assert(s4[0] == SexprV::Symbol("other-ornament"@)) by {
            assert(s1[0] == s0[0]);
            assert(s2[0] == s1[0]);
            assert(s3[0] == s2[0]);
            assert(s4[0] == s3[0]);
        }
        assert(find_kwarg_spec(s4, "value"@) == (Some(x.value.to_sexpr_spec()))) by {
            lemma_find_head_key("other-ornament"@, "value"@);
            if p1.len() == 2 { lemma_find_hit(s0, p1, "value"@); } else { lemma_find_skip(s0, p1, "value"@); }
            lemma_find_skip(s1, p2, "value"@);
            lemma_find_skip(s2, p3, "value"@);
            lemma_find_skip(s3, p4, "value"@);
        }
        assert(find_kwarg_spec(s4, "placement"@) == (match x.placement { Some(y) => Some(y.to_sexpr_spec()), None => None })) by {
            lemma_find_head_key("other-ornament"@, "placement"@);
            lemma_find_skip(s0, p1, "placement"@);
            if p2.len() == 2 { lemma_find_hit(s1, p2, "placement"@); } else { lemma_find_skip(s1, p2, "placement"@); }
            lemma_find_skip(s2, p3, "placement"@);
            lemma_find_skip(s3, p4, "placement"@);
        }
        assert(find_kwarg_spec(s4, "position"@) == (if x.print_style.position.is_set() { Some(x.print_style.position.to_sexpr_spec()) } else { None })) by {
            lemma_find_head_key("other-ornament"@, "position"@);
            lemma_find_skip(s0, p1, "position"@);
            lemma_find_skip(s1, p2, "position"@);
            if p3.len() == 2 { lemma_find_hit(s2, p3, "position"@); } else { lemma_find_skip(s2, p3, "position"@); }
            lemma_find_skip(s3, p4, "position"@);
        }
        assert(find_kwarg_spec(s4, "color"@) == (match x.print_style.color { Some(y) => Some(y.to_sexpr_spec()), None => None })) by {
            lemma_find_head_key("other-ornament"@, "color"@);
            lemma_find_skip(s0, p1, "color"@);
            lemma_find_skip(s1, p2, "color"@);
            lemma_find_skip(s2, p3, "color"@);
            if p4.len() == 2 { lemma_find_hit(s3, p4, "color"@); } else { lemma_find_skip(s3, p4, "color"@); }
        }
}

impl RoundTrip for OtherOrnament {
    /// A value whose parts are writable and whose unwritten parts are as reading gives them.
    open spec fn writable(&self) -> bool {
        self.print_style.position.writable()
            && self.print_style.color.writable()
            && self.value.writable()
            && self.placement.writable()
            && self.print_style.font == font_none()
    }

    open spec fn same(&self, other: &Self) -> bool {
        self.print_style.position.same(&other.print_style.position)
            && self.print_style.color.same(&other.print_style.color)
            && self.value.same(&other.value)
            && self.placement.same(&other.placement)
            && self.print_style.font == other.print_style.font
    }

    proof fn lemma_not_keyword(&self) {
    }

    proof fn lemma_no_error(&self) {
        lemma_other_ornament_items(*self);
        self.print_style.position.lemma_no_error();
        self.print_style.color.lemma_no_error();
        self.value.lemma_no_error();
        self.placement.lemma_no_error();
    }

    proof fn lemma_value(&self, v: Self) {
        lemma_other_ornament_items(*self);
        self.value.lemma_value(v.value);
        self.placement.lemma_value(v.placement);
        if self.print_style.position.is_set() {
            self.print_style.position.lemma_value(v.print_style.position);
        }
        self.print_style.color.lemma_value(v.print_style.color);
    }
}

/// The head and keyword arguments of the S-expression of a `OrnamentWithAccidentals`.
pub proof fn lemma_ornament_with_accidentals_items(x: OrnamentWithAccidentals)
    requires
        x.writable(),
    ensures
        x.to_sexpr_spec() matches SexprV::List(items) && items.len() > 0 && items[0] == SexprV::Symbol("ornament-with-accidentals"@)
            && find_kwarg_spec(items, "ornament"@) == (Some(x.ornament.to_sexpr_spec()))
            && find_kwarg_spec(items, "accidental-marks"@) == (if x.accidental_marks@.len() > 0 { Some(x.accidental_marks.to_sexpr_spec()) } else { None }),
{
        assert("accidental-marks"@ != "ornament"@) by {
            reveal_strlit("accidental-marks");
            assert("accidental-marks"@.len() == 16);
            reveal_strlit("ornament");
            assert("ornament"@.len() == 8);
        }
        let ghost s0 = seq![SexprV::Symbol("ornament-with-accidentals"@)];
        assert(ends_clean(s0));
        let ghost p1 = kw_pair("ornament"@, x.ornament.to_sexpr_spec());
        x.ornament.lemma_not_keyword();
        lemma_pair_piece("ornament"@, x.ornament.to_sexpr_spec());
        let ghost s1 = s0 + p1;
        lemma_ends_clean(s0, p1);
        let ghost p2 = kw_if(x.accidental_marks@.len() > 0, "accidental-marks"@, x.accidental_marks.to_sexpr_spec());
        x.accidental_marks.lemma_not_keyword();
        lemma_if_piece(x.accidental_marks@.len() > 0, "accidental-marks"@, x.accidental_marks.to_sexpr_spec());
        let ghost s2 = s1 + p2;
        lemma_ends_clean(s1, p2);
        assert(x.to_sexpr_spec() == SexprV::List(s2));
        assert(s2[0] == SexprV::Symbol("ornament-with-accidentals"@)) by {
            assert(s1[0] == s0[0]);
            assert(s2[0] == s1[0]);
        }
        assert(find_kwarg_spec(s2, "ornament"@) == (Some(x.ornament.to_sexpr_spec()))) by {
            lemma_find_head_key("ornament-with-accidentals"@, "ornament"@);
            if p1.len() == 2 { lemma_find_hit(s0, p1, "ornament"@); } else { lemma_find_skip(s0, p1, "ornament"@); }
            lemma_find_skip(s1, p2, "ornament"@);
        }
        assert(find_kwarg_spec(s2, "accidental-marks"@) == (if x.accidental_marks@.len() > 0 { Some(x.accidental_marks.to_sexpr_spec()) } else { None })) by {
            lemma_find_head_key("ornament-with-accidentals"@, "accidental-marks"@);
            lemma_find_skip(s0, p1, "accidental-marks"@);
            if p2.len() == 2 { lemma_find_hit(s1, p2, "accidental-marks"@); } else { lemma_find_skip(s1, p2, "accidental-marks"@); }
        }
}

impl RoundTrip for OrnamentWithAccidentals {
    /// A value whose parts are writable.
    open spec fn writable(&self) -> bool {
        self.ornament.writable()
            && self.accidental_marks.writable()
    }

    open spec fn same(&self, other: &Self) -> bool {
        self.ornament.same(&other.ornament)
            && self.accidental_marks.same(&other.accidental_marks)
    }

    proof fn lemma_not_keyword(&self) {
    }

    proof fn lemma_no_error(&self) {
        lemma_ornament_with_accidentals_items(*self);
        self.ornament.lemma_no_error();
        self.accidental_marks.lemma_no_error();
    }

    proof fn lemma_value(&self, v: Self) {
        lemma_ornament_with_accidentals_items(*self);
        self.ornament.lemma_value(v.ornament);
        if self.accidental_marks@.len() > 0 {
            self.accidental_marks.lemma_value(v.accidental_marks);
        }
    }
}

/// The head and keyword arguments of the S-expression of a `Ornaments`.
pub proof fn lemma_ornaments_items(x: Ornaments)
    requires
        x.writable(),
    ensures
        x.to_sexpr_spec() matches SexprV::List(items) && items.len() > 0 && items[0] == SexprV::Symbol("ornaments"@)
            && find_kwarg_spec(items, "content"@) == (if x.content@.len() > 0 { Some(x.content.to_sexpr_spec()) } else { None }),
{
        let ghost s0 = seq![SexprV::Symbol("ornaments"@)];
        assert(ends_clean(s0));
        let ghost p1 = kw_if(x.content@.len() > 0, "content"@, x.content.to_sexpr_spec());
        x.content.lemma_not_keyword();
        lemma_if_piece(x.content@.len() > 0, "content"@, x.content.to_sexpr_spec());
        let ghost s1 = s0 + p1;
        lemma_ends_clean(s0, p1);
        assert(x.to_sexpr_spec() == SexprV::List(s1));
        assert(s1[0] == SexprV::Symbol("ornaments"@)) by {
            assert(s1[0] == s0[0]);
        }
        assert(find_kwarg_spec(s1, "content"@) == (if x.content@.len() > 0 { Some(x.content.to_sexpr_spec()) } else { None })) by {
            lemma_find_head_key("ornaments"@, "content"@);
            if p1.len() == 2 { lemma_find_hit(s0, p1, "content"@); } else { lemma_find_skip(s0, p1, "content"@); }
        }
}

impl RoundTrip for Ornaments {
    /// A value whose parts are writable.
    open spec fn writable(&self) -> bool {
        self.content.writable()
    }

    open spec fn same(&self, other: &Self) -> bool {
        self.content.same(&other.content)
    }

    proof fn lemma_not_keyword(&self) {
    }

    proof fn lemma_no_error(&self) {
        lemma_ornaments_items(*self);
        self.content.lemma_no_error();
    }

    proof fn lemma_value(&self, v: Self) {
        lemma_ornaments_items(*self);
        if self.content@.len() > 0 {
            self.content.lemma_value(v.content);
        }
    }
}

/// The head and keyword arguments of the S-expression of a `Articulations`.
pub proof fn lemma_articulations_items(x: Articulations)
    requires
        x.writable(),
    ensures
        x.to_sexpr_spec() matches SexprV::List(items) && items.len() > 0 && items[0] == SexprV::Symbol("articulations"@)
            && find_kwarg_spec(items, "content"@) == (if x.content@.len() > 0 { Some(x.content.to_sexpr_spec()) } else { None }),
{
        let ghost s0 = seq![SexprV::Symbol("articulations"@)];
        assert(ends_clean(s0));
        let ghost p1 = kw_if(x.content@.len() > 0, "content"@, x.content.to_sexpr_spec());
        x.content.lemma_not_keyword();
        lemma_if_piece(x.content@.len() > 0, "content"@, x.content.to_sexpr_spec());
        let ghost s1 = s0 + p1;
        lemma_ends_clean(s0, p1);
        assert(x.to_sexpr_spec() == SexprV::List(s1));
        assert(s1[0] == SexprV::Symbol("articulations"@)) by {
            assert(s1[0] == s0[0]);
        }
        assert(find_kwarg_spec(s1, "content"@) == (if x.content@.len() > 0 { Some(x.content.to_sexpr_spec()) } else { None })) by {
            lemma_find_head_key("articulations"@, "content"@);
            if p1.len() == 2 { lemma_find_hit(s0, p1, "content"@); } else { lemma_find_skip(s0, p1, "content"@); }
        }
}

impl RoundTrip for Articulations {
    /// A value whose parts are writable.
    open spec fn writable(&self) -> bool {
        self.content.writable()
    }

    open spec fn same(&self, other: &Self) -> bool {
        self.content.same(&other.content)
    }

    proof fn lemma_not_keyword(&self) {
    }

    proof fn lemma_no_error(&self) {
        lemma_articulations_items(*self);
        self.content.lemma_no_error();
    }

    proof fn lemma_value(&self, v: Self) {
        lemma_articulations_items(*self);
        if self.content@.len() > 0 {
            self.content.lemma_value(v.content);
        }
    }
}

/// The head and keyword arguments of the S-expression of a `Harmonic`, part 1.
pub proof fn lemma_harmonic_items_0(x: Harmonic)
    requires
        x.writable(),
    ensures
        x.to_sexpr_spec() matches SexprV::List(items) && items.len() > 0 && items[0] == SexprV::Symbol("harmonic"@)
            && find_kwarg_spec(items, "natural"@) == (if x.natural { Some(SexprV::Symbol("t"@)) } else { None })
            && find_kwarg_spec(items, "artificial"@) == (if x.artificial { Some(SexprV::Symbol("t"@)) } else { None })
            && find_kwarg_spec(items, "base-pitch"@) == (if x.base_pitch { Some(SexprV::Symbol("t"@)) } else { None })
            && find_kwarg_spec(items, "touching-pitch"@) == (if x.touching_pitch { Some(SexprV::Symbol("t"@)) } else { None }),
{
        assert("artificial"@ != "natural"@) by {
            reveal_strlit("artificial");
            assert("artificial"@.len() == 10);
            reveal_strlit("natural");
            assert("natural"@.len() == 7);
        }
        assert("base-pitch"@ != "natural"@) by {
            reveal_strlit("base-pitch");
            assert("base-pitch"@.len() == 10);
            reveal_strlit("natural");
            assert("natural"@.len() == 7);
        }
        assert("touching-pitch"@ != "natural"@) by {
            reveal_strlit("touching-pitch");
            assert("touching-pitch"@.len() == 14);
            reveal_strlit("natural");
            assert("natural"@.len() == 7);
        }
        assert("sounding-pitch"@ != "natural"@) by {
            reveal_strlit("sounding-pitch");
            assert("sounding-pitch"@.len() == 14);
            reveal_strlit("natural");
            assert("natural"@.len() == 7);
        }
        assert("placement"@ != "natural"@) by {
            reveal_strlit("placement");
            assert("placement"@.len() == 9);
            reveal_strlit("natural");
            assert("natural"@.len() == 7);
        }
        assert("print-object"@ != "natural"@) by {
            reveal_strlit("print-object");
            assert("print-object"@.len() == 12);
            reveal_strlit("natural");
            assert("natural"@.len() == 7);
        }
        assert("base-pitch"@ != "artificial"@) by {
            reveal_strlit("base-pitch");
            assert("base-pitch"@.len() == 10);
            reveal_strlit("artificial");
            assert("artificial"@.len() == 10);
            assert("base-pitch"@[0] == 'b');
            assert("artificial"@[0] == 'a');
        }
        assert("touching-pitch"@ != "artificial"@) by {
            reveal_strlit("touching-pitch");
            assert("touching-pitch"@.len() == 14);
            reveal_strlit("artificial");
            assert("artificial"@.len() == 10);
        }
        assert("sounding-pitch"@ != "artificial"@) by {
            reveal_strlit("sounding-pitch");
            assert("sounding-pitch"@.len() == 14);
            reveal_strlit("artificial");
            assert("artificial"@.len() == 10);
        }
        assert("placement"@ != "artificial"@) by {
            reveal_strlit("placement");
            assert("placement"@.len() == 9);
            reveal_strlit("artificial");
            assert("artificial"@.len() == 10);
        }
        assert("print-object"@ != "artificial"@) by {
            reveal_strlit("print-object");
            assert("print-object"@.len() == 12);
            reveal_strlit("artificial");
            assert("artificial"@.len() == 10);
        }
        assert("touching-pitch"@ != "base-pitch"@) by {
            reveal_strlit("touching-pitch");
            assert("touching-pitch"@.len() == 14);
            reveal_strlit("base-pitch");
            assert("base-pitch"@.len() == 10);
        }
        assert("sounding-pitch"@ != "base-pitch"@) by {
            reveal_strlit("sounding-pitch");
            assert("sounding-pitch"@.len() == 14);
            reveal_strlit("base-pitch");
            assert("base-pitch"@.len() == 10);
        }
        assert("placement"@ != "base-pitch"@) by {
            reveal_strlit("placement");
            assert("placement"@.len() == 9);
            reveal_strlit("base-pitch");
            assert("base-pitch"@.len() == 10);
        }
        assert("print-object"@ != "base-pitch"@) by {
            reveal_strlit("print-object");
            assert("print-object"@.len() == 12);
            reveal_strlit("base-pitch");
            assert("base-pitch"@.len() == 10);
        }
        assert("sounding-pitch"@ != "touching-pitch"@) by {
            reveal_strlit("sounding-pitch");
            assert("sounding-pitch"@.len() == 14);
            reveal_strlit("touching-pitch");
            assert("touching-pitch"@.len() == 14);
            assert("sounding-pitch"@[0] == 's');
            assert("touching-pitch"@[0] == 't');
        }
        assert("placement"@ != "touching-pitch"@) by {
            reveal_strlit("placement");
            assert("placement"@.len() == 9);
            reveal_strlit("touching-pitch");
            assert("touching-pitch"@.len() == 14);
        }
        assert("print-object"@ != "touching-pitch"@) by {
            reveal_strlit("print-object");
            assert("print-object"@.len() == 12);
            reveal_strlit("touching-pitch");
            assert("touching-pitch"@.len() == 14);
        }
        let ghost s0 = seq![SexprV::Symbol("harmonic"@)];
        assert(ends_clean(s0));
        let ghost p1 = kw_if(x.natural, "natural"@, SexprV::Symbol("t"@));
        lemma_if_piece(x.natural, "natural"@, SexprV::Symbol("t"@));
        let ghost s1 = s0 + p1;
        lemma_ends_clean(s0, p1);
        let ghost p2 = kw_if(x.artificial, "artificial"@, SexprV::Symbol("t"@));
        lemma_if_piece(x.artificial, "artificial"@, SexprV::Symbol("t"@));
        let ghost s2 = s1 + p2;
        lemma_ends_clean(s1, p2);
        let ghost p3 = kw_if(x.base_pitch, "base-pitch"@, SexprV::Symbol("t"@));
        lemma_if_piece(x.base_pitch, "base-pitch"@, SexprV::Symbol("t"@));
        let ghost s3 = s2 + p3;
        lemma_ends_clean(s2, p3);
        let ghost p4 = kw_if(x.touching_pitch, "touching-pitch"@, SexprV::Symbol("t"@));
        lemma_if_piece(x.touching_pitch, "touching-pitch"@, SexprV::Symbol("t"@));
        let ghost s4 = s3 + p4;
        lemma_ends_clean(s3, p4);
        let ghost p5 = kw_if(x.sounding_pitch, "sounding-pitch"@, SexprV::Symbol("t"@));
        lemma_if_piece(x.sounding_pitch, "sounding-pitch"@, SexprV::Symbol("t"@));
        let ghost s5 = s4 + p5;
        lemma_ends_clean(s4, p5);
        let ghost p6 = kw_opt("placement"@, x.placement);
        lemma_opt_piece("placement"@, x.placement);
        let ghost s6 = s5 + p6;
        lemma_ends_clean(s5, p6);
        let ghost p7 = kw_opt("print-object"@, x.print_object);
        lemma_opt_piece("print-object"@, x.print_object);
        let ghost s7 = s6 + p7;
        lemma_ends_clean(s6, p7);
        assert(x.to_sexpr_spec() == SexprV::List(s7));
        assert(s7[0] == SexprV::Symbol("harmonic"@)) by {
            assert(s1[0] == s0[0]);
            assert(s2[0] == s1[0]);
            assert(s3[0] == s2[0]);
            assert(s4[0] == s3[0]);
            assert(s5[0] == s4[0]);
            assert(s6[0] == s5[0]);
            assert(s7[0] == s6[0]);
        }
        assert(find_kwarg_spec(s7, "natural"@) == (if x.natural { Some(SexprV::Symbol("t"@)) } else { None })) by {
            lemma_find_head_key("harmonic"@, "natural"@);
            if p1.len() == 2 { lemma_find_hit(s0, p1, "natural"@); } else { lemma_find_skip(s0, p1, "natural"@); }
            lemma_find_skip(s1, p2, "natural"@);
            lemma_find_skip(s2, p3, "natural"@);
            lemma_find_skip(s3, p4, "natural"@);
            lemma_find_skip(s4, p5, "natural"@);
            lemma_find_skip(s5, p6, "natural"@);
            lemma_find_skip(s6, p7, "natural"@);
        }
        assert(find_kwarg_spec(s7, "artificial"@) == (if x.artificial { Some(SexprV::Symbol("t"@)) } else { None })) by {
            lemma_find_head_key("harmonic"@, "artificial"@);
            lemma_find_skip(s0, p1, "artificial"@);
            if p2.len() == 2 { lemma_find_hit(s1, p2, "artificial"@); } else { lemma_find_skip(s1, p2, "artificial"@); }
            lemma_find_skip(s2, p3, "artificial"@);
            lemma_find_skip(s3, p4, "artificial"@);
            lemma_find_skip(s4, p5, "artificial"@);
            lemma_find_skip(s5, p6, "artificial"@);
            lemma_find_skip(s6, p7, "artificial"@);
        }
        assert(find_kwarg_spec(s7, "base-pitch"@) == (if x.base_pitch { Some(SexprV::Symbol("t"@)) } else { None })) by {
            lemma_find_head_key("harmonic"@, "base-pitch"@);
            lemma_find_skip(s0, p1, "base-pitch"@);
            lemma_find_skip(s1, p2, "base-pitch"@);
            if p3.len() == 2 { lemma_find_hit(s2, p3, "base-pitch"@); } else { lemma_find_skip(s2, p3, "base-pitch"@); }
            lemma_find_skip(s3, p4, "base-pitch"@);
            lemma_find_skip(s4, p5, "base-pitch"@);
            lemma_find_skip(s5, p6, "base-pitch"@);
            lemma_find_skip(s6, p7, "base-pitch"@);
        }
        assert(find_kwarg_spec(s7, "touching-pitch"@) == (if x.touching_pitch { Some(SexprV::Symbol("t"@)) } else { None })) by {
            lemma_find_head_key("harmonic"@, "touching-pitch"@);
            lemma_find_skip(s0, p1, "touching-pitch"@);
            lemma_find_skip(s1, p2, "touching-pitch"@);
            lemma_find_skip(s2, p3, "touching-pitch"@);
            if p4.len() == 2 { lemma_find_hit(s3, p4, "touching-pitch"@); } else { lemma_find_skip(s3, p4, "touching-pitch"@); }
            lemma_find_skip(s4, p5, "touching-pitch"@);
            lemma_find_skip(s5, p6, "touching-pitch"@);
            lemma_find_skip(s6, p7, "touching-pitch"@);
        }
}

/// The head and keyword arguments of the S-expression of a `Harmonic`, part 2.
pub proof fn lemma_harmonic_items_1(x: Harmonic)
    requires
        x.writable(),
    ensures
        x.to_sexpr_spec() matches SexprV::List(items)
            && find_kwarg_spec(items, "sounding-pitch"@) == (if x.sounding_pitch { Some(SexprV::Symbol("t"@)) } else { None })
            && find_kwarg_spec(items, "placement"@) == (match x.placement { Some(y) => Some(y.to_sexpr_spec()), None => None })
            && find_kwarg_spec(items, "print-object"@) == (match x.print_object { Some(y) => Some(y.to_sexpr_spec()), None => None }),
{
        assert("natural"@ != "sounding-pitch"@) by {
            reveal_strlit("natural");
            assert("natural"@.len() == 7);
            reveal_strlit("sounding-pitch");
            assert("sounding-pitch"@.len() == 14);
        }
        assert("artificial"@ != "sounding-pitch"@) by {
            reveal_strlit("artificial");
            assert("artificial"@.len() == 10);
            reveal_strlit("sounding-pitch");
            assert("sounding-pitch"@.len() == 14);
        }
        assert("base-pitch"@ != "sounding-pitch"@) by {
            reveal_strlit("base-pitch");
            assert("base-pitch"@.len() == 10);
            reveal_strlit("sounding-pitch");
            assert("sounding-pitch"@.len() == 14);
        }
        assert("touching-pitch"@ != "sounding-pitch"@) by {
            reveal_strlit("touching-pitch");
            assert("touching-pitch"@.len() == 14);
            reveal_strlit("sounding-pitch");
            assert("sounding-pitch"@.len() == 14);
            assert("touching-pitch"@[0] == 't');
            assert("sounding-pitch"@[0] == 's');
        }
        assert("placement"@ != "sounding-pitch"@) by {
            reveal_strlit("placement");
            assert("placement"@.len() == 9);
            reveal_strlit("sounding-pitch");
            assert("sounding-pitch"@.len() == 14);
        }
        assert("print-object"@ != "sounding-pitch"@) by {
            reveal_strlit("print-object");
            assert("print-object"@.len() == 12);
            reveal_strlit("sounding-pitch");
            assert("sounding-pitch"@.len() == 14);
        }
        assert("natural"@ != "placement"@) by {
            reveal_strlit("natural");
            assert("natural"@.len() == 7);
            reveal_strlit("placement");
            assert("placement"@.len() == 9);
        }
        assert("artificial"@ != "placement"@) by {
            reveal_strlit("artificial");
            assert("artificial"@.len() == 10);
            reveal_strlit("placement");
            assert("placement"@.len() == 9);
        }
        assert("base-pitch"@ != "placement"@) by {
            reveal_strlit("base-pitch");
            assert("base-pitch"@.len() == 10);
            reveal_strlit("placement");
            assert("placement"@.len() == 9);
        }
        assert("touching-pitch"@ != "placement"@) by {
            reveal_strlit("touching-pitch");
            assert("touching-pitch"@.len() == 14);
            reveal_strlit("placement");
            assert("placement"@.len() == 9);
        }
        assert("print-object"@ != "placement"@) by {
            reveal_strlit("print-object");
            assert("print-object"@.len() == 12);
            reveal_strlit("placement");
            assert("placement"@.len() == 9);
        }
        assert("natural"@ != "print-object"@) by {
            reveal_strlit("natural");
            assert("natural"@.len() == 7);
            reveal_strlit("print-object");
            assert("print-object"@.len() == 12);
        }
        assert("artificial"@ != "print-object"@) by {
            reveal_strlit("artificial");
            assert("artificial"@.len() == 10);
            reveal_strlit("print-object");
            assert("print-object"@.len() == 12);
        }
        assert("base-pitch"@ != "print-object"@) by {
            reveal_strlit("base-pitch");
            assert("base-pitch"@.len() == 10);
            reveal_strlit("print-object");
            assert("print-object"@.len() == 12);
        }
        assert("touching-pitch"@ != "print-object"@) by {
            reveal_strlit("touching-pitch");
            assert("touching-pitch"@.len() == 14);
            reveal_strlit("print-object");
            assert("print-object"@.len() == 12);
        }
        let ghost s0 = seq![SexprV::Symbol("harmonic"@)];
        assert(ends_clean(s0));
        let ghost p1 = kw_if(x.natural, "natural"@, SexprV::Symbol("t"@));
        lemma_if_piece(x.natural, "natural"@, SexprV::Symbol("t"@));
        let ghost s1 = s0 + p1;
        lemma_ends_clean(s0, p1);
        let ghost p2 = kw_if(x.artificial, "artificial"@, SexprV::Symbol("t"@));
        lemma_if_piece(x.artificial, "artificial"@, SexprV::Symbol("t"@));
        let ghost s2 = s1 + p2;
        lemma_ends_clean(s1, p2);
        let ghost p3 = kw_if(x.base_pitch, "base-pitch"@, SexprV::Symbol("t"@));
        lemma_if_piece(x.base_pitch, "base-pitch"@, SexprV::Symbol("t"@));
        let ghost s3 = s2 + p3;
        lemma_ends_clean(s2, p3);
        let ghost p4 = kw_if(x.touching_pitch, "touching-pitch"@, SexprV::Symbol("t"@));
        lemma_if_piece(x.touching_pitch, "touching-pitch"@, SexprV::Symbol("t"@));
        let ghost s4 = s3 + p4;
        lemma_ends_clean(s3, p4);
        let ghost p5 = kw_if(x.sounding_pitch, "sounding-pitch"@, SexprV::Symbol("t"@));
        lemma_if_piece(x.sounding_pitch, "sounding-pitch"@, SexprV::Symbol("t"@));
        let ghost s5 = s4 + p5;
        lemma_ends_clean(s4, p5);
        let ghost p6 = kw_opt("placement"@, x.placement);
        lemma_opt_piece("placement"@, x.placement);
        let ghost s6 = s5 + p6;
        lemma_ends_clean(s5, p6);
        let ghost p7 = kw_opt("print-object"@, x.print_object);
        lemma_opt_piece("print-object"@, x.print_object);
        let ghost s7 = s6 + p7;
        lemma_ends_clean(s6, p7);
        assert(x.to_sexpr_spec() == SexprV::List(s7));
        assert(find_kwarg_spec(s7, "sounding-pitch"@) == (if x.sounding_pitch { Some(SexprV::Symbol("t"@)) } else { None })) by {
            lemma_find_head_key("harmonic"@, "sounding-pitch"@);
            lemma_find_skip(s0, p1, "sounding-pitch"@);
            lemma_find_skip(s1, p2, "sounding-pitch"@);
            lemma_find_skip(s2, p3, "sounding-pitch"@);
            lemma_find_skip(s3, p4, "sounding-pitch"@);
            if p5.len() == 2 { lemma_find_hit(s4, p5, "sounding-pitch"@); } else { lemma_find_skip(s4, p5, "sounding-pitch"@); }
            lemma_find_skip(s5, p6, "sounding-pitch"@);
            lemma_find_skip(s6, p7, "sounding-pitch"@);
        }
        assert(find_kwarg_spec(s7, "placement"@) == (match x.placement { Some(y) => Some(y.to_sexpr_spec()), None => None })) by {
            lemma_find_head_key("harmonic"@, "placement"@);
            lemma_find_skip(s0, p1, "placement"@);
            lemma_find_skip(s1, p2, "placement"@);
            lemma_find_skip(s2, p3, "placement"@);
            lemma_find_skip(s3, p4, "placement"@);
            lemma_find_skip(s4, p5, "placement"@);
            if p6.len() == 2 { lemma_find_hit(s5, p6, "placement"@); } else { lemma_find_skip(s5, p6, "placement"@); }
            lemma_find_skip(s6, p7, "placement"@);
        }
        assert(find_kwarg_spec(s7, "print-object"@) == (match x.print_object { Some(y) => Some(y.to_sexpr_spec()), None => None })) by {
            lemma_find_head_key("harmonic"@, "print-object"@);
            lemma_find_skip(s0, p1, "print-object"@);
            lemma_find_skip(s1, p2, "print-object"@);
            lemma_find_skip(s2, p3, "print-object"@);
            lemma_find_skip(s3, p4, "print-object"@);
            lemma_find_skip(s4, p5, "print-object"@);
            lemma_find_skip(s5, p6, "print-object"@);
            if p7.len() == 2 { lemma_find_hit(s6, p7, "print-object"@); } else { lemma_find_skip(s6, p7, "print-object"@); }
        }
}

/// The head and the keyword arguments of the S-expression of a `Harmonic`.
pub proof fn lemma_harmonic_items(x: Harmonic)
    requires
        x.writable(),
    ensures
        x.to_sexpr_spec() matches SexprV::List(items) && items.len() > 0 && items[0] == SexprV::Symbol("harmonic"@)
            && find_kwarg_spec(items, "natural"@) == (if x.natural { Some(SexprV::Symbol("t"@)) } else { None })
            && find_kwarg_spec(items, "artificial"@) == (if x.artificial { Some(SexprV::Symbol("t"@)) } else { None })
            && find_kwarg_spec(items, "base-pitch"@) == (if x.base_pitch { Some(SexprV::Symbol("t"@)) } else { None })
            && find_kwarg_spec(items, "touching-pitch"@) == (if x.touching_pitch { Some(SexprV::Symbol("t"@)) } else { None })
            && find_kwarg_spec(items, "sounding-pitch"@) == (if x.sounding_pitch { Some(SexprV::Symbol("t"@)) } else { None })
            && find_kwarg_spec(items, "placement"@) == (match x.placement { Some(y) => Some(y.to_sexpr_spec()), None => None })
            && find_kwarg_spec(items, "print-object"@) == (match x.print_object { Some(y) => Some(y.to_sexpr_spec()), None => None }),
{
    lemma_harmonic_items_0(x);
    lemma_harmonic_items_1(x);
}

impl RoundTrip for Harmonic {
    /// A value whose parts are writable.
    open spec fn writable(&self) -> bool {
        self.natural.writable()
            && self.artificial.writable()
            && self.base_pitch.writable()
            && self.touching_pitch.writable()
            && self.sounding_pitch.writable()
            && self.placement.writable()
            && self.print_object.writable()
    }

    open spec fn same(&self, other: &Self) -> bool {
        self.natural.same(&other.natural)
            && self.artificial.same(&other.artificial)
            && self.base_pitch.same(&other.base_pitch)
            && self.touching_pitch.same(&other.touching_pitch)
            && self.sounding_pitch.same(&other.sounding_pitch)
            && self.placement.same(&other.placement)
            && self.print_object.same(&other.print_object)
    }

    proof fn lemma_not_keyword(&self) {
    }

    proof fn lemma_no_error(&self) {
        reveal_strlit("t");
        assert("t"@.len() == 1);
        reveal_strlit("nil");
        assert("nil"@.len() == 3);
        lemma_harmonic_items(*self);
        self.natural.lemma_no_error();
        self.artificial.lemma_no_error();
        self.base_pitch.lemma_no_error();
        self.touching_pitch.lemma_no_error();
        self.sounding_pitch.lemma_no_error();
        self.placement.lemma_no_error();
        self.print_object.lemma_no_error();
    }

    proof fn lemma_value(&self, v: Self) {
        reveal_strlit("t");
        assert("t"@.len() == 1);
        reveal_strlit("nil");
        assert("nil"@.len() == 3);
        lemma_harmonic_items(*self);
        self.placement.lemma_value(v.placement);
        self.print_object.lemma_value(v.print_object);
    }
}

/// The head and keyword arguments of the S-expression of a `Fingering`.
pub proof fn lemma_fingering_items(x: Fingering)
    requires
        x.writable(),
    ensures
        x.to_sexpr_spec() matches SexprV::List(items) && items.len() > 0 && items[0] == SexprV::Symbol("fingering"@)
            && find_kwarg_spec(items, "value"@) == (Some(x.value.to_sexpr_spec()))
            && find_kwarg_spec(items, "substitution"@) == (match x.substitution { Some(y) => Some(y.to_sexpr_spec()), None => None })
            && find_kwarg_spec(items, "alternate"@) == (match x.alternate { Some(y) => Some(y.to_sexpr_spec()), None => None })
            && find_kwarg_spec(items, "placement"@) == (match x.placement { Some(y) => Some(y.to_sexpr_spec()), None => None })
            && find_kwarg_spec(items, "position"@) == (if x.print_style.position.is_set() { Some(x.print_style.position.to_sexpr_spec()) } else { None })
            && find_kwarg_spec(items, "color"@) == (match x.print_style.color { Some(y) => Some(y.to_sexpr_spec()), None => None }),
{
        assert("substitution"@ != "value"@) by {
            reveal_strlit("substitution");
            assert("substitution"@.len() == 12);
            reveal_strlit("value");
            assert("value"@.len() == 5);
        }
        assert("alternate"@ != "value"@) by {
            reveal_strlit("alternate");
            assert("alternate"@.len() == 9);
            reveal_strlit("value");
            assert("value"@.len() == 5);
        }
        assert("placement"@ != "value"@) by {
            reveal_strlit("placement");
            assert("placement"@.len() == 9);
            reveal_strlit("value");
            assert("value"@.len() == 5);
        }
        assert("position"@ != "value"@) by {
            reveal_strlit("position");
            assert("position"@.len() == 8);
            reveal_strlit("value");
            assert("value"@.len() == 5);
        }
        assert("color"@ != "value"@) by {
            reveal_strlit("color");
            assert("color"@.len() == 5);
            reveal_strlit("value");
            assert("value"@.len() == 5);
            assert("color"@[0] == 'c');
            assert("value"@[0] == 'v');
        }
        assert("alternate"@ != "substitution"@) by {
            reveal_strlit("alternate");
            assert("alternate"@.len() == 9);
            reveal_strlit("substitution");
            assert("substitution"@.len() == 12);
        }
        assert("placement"@ != "substitution"@) by {
            reveal_strlit("placement");
            assert("placement"@.len() == 9);
            reveal_strlit("substitution");
            assert("substitution"@.len() == 12);
        }
        assert("position"@ != "substitution"@) by {
            reveal_strlit("position");
            assert("position"@.len() == 8);
            reveal_strlit("substitution");
            assert("substitution"@.len() == 12);
        }
        assert("color"@ != "substitution"@) by {
            reveal_strlit("color");
            assert("color"@.len() == 5);
            reveal_strlit("substitution");
            assert("substitution"@.len() == 12);
        }
        assert("placement"@ != "alternate"@) by {
            reveal_strlit("placement");
            assert("placement"@.len() == 9);
            reveal_strlit("alternate");
            assert("alternate"@.len() == 9);
            assert("placement"@[0] == 'p');
            assert("alternate"@[0] == 'a');
        }
        assert("position"@ != "alternate"@) by {
            reveal_strlit("position");
            assert("position"@.len() == 8);
            reveal_strlit("alternate");
            assert("alternate"@.len() == 9);
        }
        assert("color"@ != "alternate"@) by {
            reveal_strlit("color");
            assert("color"@.len() == 5);
            reveal_strlit("alternate");
            assert("alternate"@.len() == 9);
        }
        assert("position"@ != "placement"@) by {
            reveal_strlit("position");
            assert("position"@.len() == 8);
            reveal_strlit("placement");
            assert("placement"@.len() == 9);
        }
        assert("color"@ != "placement"@) by {
            reveal_strlit("color");
            assert("color"@.len() == 5);
            reveal_strlit("placement");
            assert("placement"@.len() == 9);
        }
        assert("color"@ != "position"@) by {
            reveal_strlit("color");
            assert("color"@.len() == 5);
            reveal_strlit("position");
            assert("position"@.len() == 8);
        }
        let ghost s0 = seq![SexprV::Symbol("fingering"@)];
        assert(ends_clean(s0));
        let ghost p1 = kw_pair("value"@, x.value.to_sexpr_spec());
        x.value.lemma_not_keyword();
        lemma_pair_piece("value"@, x.value.to_sexpr_spec());
        let ghost s1 = s0 + p1;
        lemma_ends_clean(s0, p1);
        let ghost p2 = kw_opt("substitution"@, x.substitution);
        lemma_opt_piece("substitution"@, x.substitution);
        let ghost s2 = s1 + p2;
        lemma_ends_clean(s1, p2);
        let ghost p3 = kw_opt("alternate"@, x.alternate);
        lemma_opt_piece("alternate"@, x.alternate);
        let ghost s3 = s2 + p3;
        lemma_ends_clean(s2, p3);
        let ghost p4 = kw_opt("placement"@, x.placement);
        lemma_opt_piece("placement"@, x.placement);
        let ghost s4 = s3 + p4;
        lemma_ends_clean(s3, p4);
        let ghost p5 = kw_if(x.print_style.position.is_set(), "position"@, x.print_style.position.to_sexpr_spec());
        x.print_style.position.lemma_not_keyword();
        lemma_if_piece(x.print_style.position.is_set(), "position"@, x.print_style.position.to_sexpr_spec());
        let ghost s5 = s4 + p5;
        lemma_ends_clean(s4, p5);
        let ghost p6 = kw_opt("color"@, x.print_style.color);
        lemma_opt_piece("color"@, x.print_style.color);
        let ghost s6 = s5 + p6;
        lemma_ends_clean(s5, p6);
        assert(x.to_sexpr_spec() == SexprV::List(s6));
        assert(s6[0] == SexprV::Symbol("fingering"@)) by {
            assert(s1[0] == s0[0]);
            assert(s2[0] == s1[0]);
            assert(s3[0] == s2[0]);
            assert(s4[0] == s3[0]);
            assert(s5[0] == s4[0]);
            assert(s6[0] == s5[0]);
        }
        assert(find_kwarg_spec(s6, "value"@) == (Some(x.value.to_sexpr_spec()))) by {
            lemma_find_head_key("fingering"@, "value"@);
            if p1.len() == 2 { lemma_find_hit(s0, p1, "value"@); } else { lemma_find_skip(s0, p1, "value"@); }
            lemma_find_skip(s1, p2, "value"@);
            lemma_find_skip(s2, p3, "value"@);
            lemma_find_skip(s3, p4, "value"@);
            lemma_find_skip(s4, p5, "value"@);
            lemma_find_skip(s5, p6, "value"@);
        }
        assert(find_kwarg_spec(s6, "substitution"@) == (match x.substitution { Some(y) => Some(y.to_sexpr_spec()), None => None })) by {
            lemma_find_head_key("fingering"@, "substitution"@);
            lemma_find_skip(s0, p1, "substitution"@);
            if p2.len() == 2 { lemma_find_hit(s1, p2, "substitution"@); } else { lemma_find_skip(s1, p2, "substitution"@); }
            lemma_find_skip(s2, p3, "substitution"@);
            lemma_find_skip(s3, p4, "substitution"@);
            lemma_find_skip(s4, p5, "substitution"@);
            lemma_find_skip(s5, p6, "substitution"@);
        }
        assert(find_kwarg_spec(s6, "alternate"@) == (match x.alternate { Some(y) => Some(y.to_sexpr_spec()), None => None })) by {
            lemma_find_head_key("fingering"@, "alternate"@);
            lemma_find_skip(s0, p1, "alternate"@);
            lemma_find_skip(s1, p2, "alternate"@);
            if p3.len() == 2 { lemma_find_hit(s2, p3, "alternate"@); } else { lemma_find_skip(s2, p3, "alternate"@); }
            lemma_find_skip(s3, p4, "alternate"@);
            lemma_find_skip(s4, p5, "alternate"@);
            lemma_find_skip(s5, p6, "alternate"@);
        }
        assert(find_kwarg_spec(s6, "placement"@) == (match x.placement { Some(y) => Some(y.to_sexpr_spec()), None => None })) by {
            lemma_find_head_key("fingering"@, "placement"@);
            lemma_find_skip(s0, p1, "placement"@);
            lemma_find_skip(s1, p2, "placement"@);
            lemma_find_skip(s2, p3, "placement"@);
            if p4.len() == 2 { lemma_find_hit(s3, p4, "placement"@); } else { lemma_find_skip(s3, p4, "placement"@); }
            lemma_find_skip(s4, p5, "placement"@);
            lemma_find_skip(s5, p6, "placement"@);
        }
        assert(find_kwarg_spec(s6, "position"@) == (if x.print_style.position.is_set() { Some(x.print_style.position.to_sexpr_spec()) } else { None })) by {
            lemma_find_head_key("fingering"@, "position"@);
            lemma_find_skip(s0, p1, "position"@);
            lemma_find_skip(s1, p2, "position"@);
            lemma_find_skip(s2, p3, "position"@);
            lemma_find_skip(s3, p4, "position"@);
            if p5.len() == 2 { lemma_find_hit(s4, p5, "position"@); } else { lemma_find_skip(s4, p5, "position"@); }
            lemma_find_skip(s5, p6, "position"@);
        }
        assert(find_kwarg_spec(s6, "color"@) == (match x.print_style.color { Some(y) => Some(y.to_sexpr_spec()), None => None })) by {
            lemma_find_head_key("fingering"@, "color"@);
            lemma_find_skip(s0, p1, "color"@);
            lemma_find_skip(s1, p2, "color"@);
            lemma_find_skip(s2, p3, "color"@);
            lemma_find_skip(s3, p4, "color"@);
            lemma_find_skip(s4, p5, "color"@);
            if p6.len() == 2 { lemma_find_hit(s5, p6, "color"@); } else { lemma_find_skip(s5, p6, "color"@); }
        }
}

impl RoundTrip for Fingering {
    /// A value whose parts are writable and whose unwritten parts are as reading gives them.
    open spec fn writable(&self) -> bool {
        self.print_style.position.writable()
            && self.print_style.color.writable()
            && self.value.writable()
            && self.substitution.writable()
            && self.alternate.writable()
            && self.placement.writable()
            && self.print_style.font == font_none()
    }

    open spec fn same(&self, other: &Self) -> bool {
        self.print_style.position.same(&other.print_style.position)
            && self.print_style.color.same(&other.print_style.color)
            && self.value.same(&other.value)
            && self.substitution.same(&other.substitution)
            && self.alternate.same(&other.alternate)
            && self.placement.same(&other.placement)
            && self.print_style.font == other.print_style.font
    }

    proof fn lemma_not_keyword(&self) {
    }

    proof fn lemma_no_error(&self) {
        lemma_fingering_items(*self);
        self.print_style.position.lemma_no_error();
        self.print_style.color.lemma_no_error();
        self.value.lemma_no_error();
        self.substitution.lemma_no_error();
        self.alternate.lemma_no_error();
        self.placement.lemma_no_error();
    }

    proof fn lemma_value(&self, v: Self) {
        lemma_fingering_items(*self);
        self.value.lemma_value(v.value);
        self.substitution.lemma_value(v.substitution);
        self.alternate.lemma_value(v.alternate);
        self.placement.lemma_value(v.placement);
        if self.print_style.position.is_set() {
            self.print_style.position.lemma_value(v.print_style.position);
        }
        self.print_style.color.lemma_value(v.print_style.color);
    }
}

/// The head and keyword arguments of the S-expression of a `Pluck`.
pub proof fn lemma_pluck_items(x: Pluck)
    requires
        x.writable(),
    ensures
        x.to_sexpr_spec() matches SexprV::List(items) && items.len() > 0 && items[0] == SexprV::Symbol("pluck"@)
            && find_kwarg_spec(items, "value"@) == (Some(x.value.to_sexpr_spec()))
            && find_kwarg_spec(items, "placement"@) == (match x.placement { Some(y) => Some(y.to_sexpr_spec()), None => None }),
{
        assert("placement"@ != "value"@) by {
            reveal_strlit("placement");
            assert("placement"@.len() == 9);
            reveal_strlit("value");
            assert("value"@.len() == 5);
        }
        let ghost s0 = seq![SexprV::Symbol("pluck"@)];
        assert(ends_clean(s0));
        let ghost p1 = kw_pair("value"@, x.value.to_sexpr_spec());
        x.value.lemma_not_keyword();
        lemma_pair_piece("value"@, x.value.to_sexpr_spec());
        let ghost s1 = s0 + p1;
        lemma_ends_clean(s0, p1);
        let ghost p2 = kw_opt("placement"@, x.placement);
        lemma_opt_piece("placement"@, x.placement);
        let ghost s2 = s1 + p2;
        lemma_ends_clean(s1, p2);
        assert(x.to_sexpr_spec() == SexprV::List(s2));
        assert(s2[0] == SexprV::Symbol("pluck"@)) by {
            assert(s1[0] == s0[0]);
            assert(s2[0] == s1[0]);
        }
        assert(find_kwarg_spec(s2, "value"@) == (Some(x.value.to_sexpr_spec()))) by {
            lemma_find_head_key("pluck"@, "value"@);
            if p1.len() == 2 { lemma_find_hit(s0, p1, "value"@); } else { lemma_find_skip(s0, p1, "value"@); }
            lemma_find_skip(s1, p2, "value"@);
        }
        assert(find_kwarg_spec(s2, "placement"@) == (match x.placement { Some(y) => Some(y.to_sexpr_spec()), None => None })) by {
            lemma_find_head_key("pluck"@, "placement"@);
            lemma_find_skip(s0, p1, "placement"@);
            if p2.len() == 2 { lemma_find_hit(s1, p2, "placement"@); } else { lemma_find_skip(s1, p2, "placement"@); }
        }
}

impl RoundTrip for Pluck {
    /// A value whose parts are writable.
    open spec fn writable(&self) -> bool {
        self.value.writable()
            && self.placement.writable()
    }

    open spec fn same(&self, other: &Self) -> bool {
        self.value.same(&other.value)
            && self.placement.same(&other.placement)
    }

    proof fn lemma_not_keyword(&self) {
    }

    proof fn lemma_no_error(&self) {
        lemma_pluck_items(*self);
        self.value.lemma_no_error();
        self.placement.lemma_no_error();
    }

    proof fn lemma_value(&self, v: Self) {
        lemma_pluck_items(*self);
        self.value.lemma_value(v.value);
        self.placement.lemma_value(v.placement);
    }
}

/// The head and keyword arguments of the S-expression of a `Fret`.
pub proof fn lemma_fret_items(x: Fret)
    requires
        x.writable(),
    ensures
        x.to_sexpr_spec() matches SexprV::List(items) && items.len() > 0 && items[0] == SexprV::Symbol("fret"@)
            && find_kwarg_spec(items, "value"@) == (Some(x.value.to_sexpr_spec()))
            && find_kwarg_spec(items, "font"@) == (if x.font.is_set() { Some(x.font.to_sexpr_spec()) } else { None })
            && find_kwarg_spec(items, "color"@) == (match x.color { Some(y) => Some(y.to_sexpr_spec()), None => None }),
{
        assert("font"@ != "value"@) by {
            reveal_strlit("font");
            assert("font"@.len() == 4);
            reveal_strlit("value");
            assert("value"@.len() == 5);
        }
        assert("color"@ != "value"@) by {
            reveal_strlit("color");
            assert("color"@.len() == 5);
            reveal_strlit("value");
            assert("value"@.len() == 5);
            assert("color"@[0] == 'c');
            assert("value"@[0] == 'v');
        }
        assert("color"@ != "font"@) by {
            reveal_strlit("color");
            assert("color"@.len() == 5);
            reveal_strlit("font");
            assert("font"@.len() == 4);
        }
        let ghost s0 = seq![SexprV::Symbol("fret"@)];
        assert(ends_clean(s0));
        let ghost p1 = kw_pair("value"@, x.value.to_sexpr_spec());
        x.value.lemma_not_keyword();
        lemma_pair_piece("value"@, x.value.to_sexpr_spec());
        let ghost s1 = s0 + p1;
        lemma_ends_clean(s0, p1);
        let ghost p2 = kw_if(x.font.is_set(), "font"@, x.font.to_sexpr_spec());
        x.font.lemma_not_keyword();
        lemma_if_piece(x.font.is_set(), "font"@, x.font.to_sexpr_spec());
        let ghost s2 = s1 + p2;
        lemma_ends_clean(s1, p2);
        let ghost p3 = kw_opt("color"@, x.color);
        lemma_opt_piece("color"@, x.color);
        let ghost s3 = s2 + p3;
        lemma_ends_clean(s2, p3);
        assert(x.to_sexpr_spec() == SexprV::List(s3));
        assert(s3[0] == SexprV::Symbol("fret"@)) by {
            assert(s1[0] == s0[0]);
            assert(s2[0] == s1[0]);
            assert(s3[0] == s2[0]);
        }
        assert(find_kwarg_spec(s3, "value"@) == (Some(x.value.to_sexpr_spec()))) by {
            lemma_find_head_key("fret"@, "value"@);
            if p1.len() == 2 { lemma_find_hit(s0, p1, "value"@); } else { lemma_find_skip(s0, p1, "value"@); }
            lemma_find_skip(s1, p2, "value"@);
            lemma_find_skip(s2, p3, "value"@);
        }
        assert(find_kwarg_spec(s3, "font"@) == (if x.font.is_set() { Some(x.font.to_sexpr_spec()) } else { None })) by {
            lemma_find_head_key("fret"@, "font"@);
            lemma_find_skip(s0, p1, "font"@);
            if p2.len() == 2 { lemma_find_hit(s1, p2, "font"@); } else { lemma_find_skip(s1, p2, "font"@); }
            lemma_find_skip(s2, p3, "font"@);
        }
        assert(find_kwarg_spec(s3, "color"@) == (match x.color { Some(y) => Some(y.to_sexpr_spec()), None => None })) by {
            lemma_find_head_key("fret"@, "color"@);
            lemma_find_skip(s0, p1, "color"@);
            lemma_find_skip(s1, p2, "color"@);
            if p3.len() == 2 { lemma_find_hit(s2, p3, "color"@); } else { lemma_find_skip(s2, p3, "color"@); }
        }
}

impl RoundTrip for Fret {
    /// A value whose parts are writable.
    open spec fn writable(&self) -> bool {
        self.font.writable()
            && self.value.writable()
            && self.color.writable()
    }

    open spec fn same(&self, other: &Self) -> bool {
        self.font.same(&other.font)
            && self.value.same(&other.value)
            && self.color.same(&other.color)
    }

    proof fn lemma_not_keyword(&self) {
    }

    proof fn lemma_no_error(&self) {
        lemma_fret_items(*self);
        self.font.lemma_no_error();
        self.value.lemma_no_error();
        self.color.lemma_no_error();
    }

    proof fn lemma_value(&self, v: Self) {
        lemma_fret_items(*self);
        self.value.lemma_value(v.value);
        if self.font.is_set() {
            self.font.lemma_value(v.font);
        }
        self.color.lemma_value(v.color);
    }
}

/// The head and keyword arguments of the S-expression of a `StringNumber`.
pub proof fn lemma_string_number_items(x: StringNumber)
    requires
        x.writable(),
    ensures
        x.to_sexpr_spec() matches SexprV::List(items) && items.len() > 0 && items[0] == SexprV::Symbol("string-number"@)
            && find_kwarg_spec(items, "value"@) == (Some(x.value.to_sexpr_spec()))
            && find_kwarg_spec(items, "placement"@) == (match x.placement { Some(y) => Some(y.to_sexpr_spec()), None => None })
            && find_kwarg_spec(items, "position"@) == (if x.print_style.position.is_set() { Some(x.print_style.position.to_sexpr_spec()) } else { None })
            && find_kwarg_spec(items, "color"@) == (match x.print_style.color { Some(y) => Some(y.to_sexpr_spec()), None => None }),
{
        assert("placement"@ != "value"@) by {
            reveal_strlit("placement");
            assert("placement"@.len() == 9);
            reveal_strlit("value");
            assert("value"@.len() == 5);
        }
        assert("position"@ != "value"@) by {
            reveal_strlit("position");
            assert("position"@.len() == 8);
            reveal_strlit("value");
            assert("value"@.len() == 5);
        }
        assert("color"@ != "value"@) by {
            reveal_strlit("color");
            assert("color"@.len() == 5);
            reveal_strlit("value");
            assert("value"@.len() == 5);
            assert("color"@[0] == 'c');
            assert("value"@[0] == 'v');
        }
        assert("position"@ != "placement"@) by {
            reveal_strlit("position");
            assert("position"@.len() == 8);
            reveal_strlit("placement");
            assert("placement"@.len() == 9);
        }
        assert("color"@ != "placement"@) by {
            reveal_strlit("color");
            assert("color"@.len() == 5);
            reveal_strlit("placement");
            assert("placement"@.len() == 9);
        }
        assert("color"@ != "position"@) by {
            reveal_strlit("color");
            assert("color"@.len() == 5);
            reveal_strlit("position");
            assert("position"@.len() == 8);
        }
        let ghost s0 = seq![SexprV::Symbol("string-number"@)];
        assert(ends_clean(s0));
        let ghost p1 = kw_pair("value"@, x.value.to_sexpr_spec());
        x.value.lemma_not_keyword();
        lemma_pair_piece("value"@, x.value.to_sexpr_spec());
        let ghost s1 = s0 + p1;
        lemma_ends_clean(s0, p1);
        let ghost p2 = kw_opt("placement"@, x.placement);
        lemma_opt_piece("placement"@, x.placement);
        let ghost s2 = s1 + p2;
        lemma_ends_clean(s1, p2);
        let ghost p3 = kw_if(x.print_style.position.is_set(), "position"@, x.print_style.position.to_sexpr_spec());
        x.print_style.position.lemma_not_keyword();
        lemma_if_piece(x.print_style.position.is_set(), "position"@, x.print_style.position.to_sexpr_spec());
        let ghost s3 = s2 + p3;
        lemma_ends_clean(s2, p3);
        let ghost p4 = kw_opt("color"@, x.print_style.color);
        lemma_opt_piece("color"@, x.print_style.color);
        let ghost s4 = s3 + p4;
        lemma_ends_clean(s3, p4);
        assert(x.to_sexpr_spec() == SexprV::List(s4));
        assert(s4[0] == SexprV::Symbol("string-number"@)) by {
            assert(s1[0] == s0[0]);
            assert(s2[0] == s1[0]);
            assert(s3[0] == s2[0]);
            assert(s4[0] == s3[0]);
        }
        assert(find_kwarg_spec(s4, "value"@) == (Some(x.value.to_sexpr_spec()))) by {
            lemma_find_head_key("string-number"@, "value"@);
            if p1.len() == 2 { lemma_find_hit(s0, p1, "value"@); } else { lemma_find_skip(s0, p1, "value"@); }
            lemma_find_skip(s1, p2, "value"@);
            lemma_find_skip(s2, p3, "value"@);
            lemma_find_skip(s3, p4, "value"@);
        }
        assert(find_kwarg_spec(s4, "placement"@) == (match x.placement { Some(y) => Some(y.to_sexpr_spec()), None => None })) by {
            lemma_find_head_key("string-number"@, "placement"@);
            lemma_find_skip(s0, p1, "placement"@);
            if p2.len() == 2 { lemma_find_hit(s1, p2, "placement"@); } else { lemma_find_skip(s1, p2, "placement"@); }
            lemma_find_skip(s2, p3, "placement"@);
            lemma_find_skip(s3, p4, "placement"@);
        }
        assert(find_kwarg_spec(s4, "position"@) == (if x.print_style.position.is_set() { Some(x.print_style.position.to_sexpr_spec()) } else { None })) by {
            lemma_find_head_key("string-number"@, "position"@);
            lemma_find_skip(s0, p1, "position"@);
            lemma_find_skip(s1, p2, "position"@);
            if p3.len() == 2 { lemma_find_hit(s2, p3, "position"@); } else { lemma_find_skip(s2, p3, "position"@); }
            lemma_find_skip(s3, p4, "position"@);
        }
        assert(find_kwarg_spec(s4, "color"@) == (match x.print_style.color { Some(y) => Some(y.to_sexpr_spec()), None => None })) by {
            lemma_find_head_key("string-number"@, "color"@);
            lemma_find_skip(s0, p1, "color"@);
            lemma_find_skip(s1, p2, "color"@);
            lemma_find_skip(s2, p3, "color"@);
            if p4.len() == 2 { lemma_find_hit(s3, p4, "color"@); } else { lemma_find_skip(s3, p4, "color"@); }
        }
}

impl RoundTrip for StringNumber {
    /// A value whose parts are writable and whose unwritten parts are as reading gives them.
    open spec fn writable(&self) -> bool {
        self.print_style.position.writable()
            && self.print_style.color.writable()
            && self.value.writable()
            && self.placement.writable()
            && self.print_style.font == font_none()
    }

    open spec fn same(&self, other: &Self) -> bool {
        self.print_style.position.same(&other.print_style.position)
            && self.print_style.color.same(&other.print_style.color)
            && self.value.same(&other.value)
            && self.placement.same(&other.placement)
            && self.print_style.font == other.print_style.font
    }

    proof fn lemma_not_keyword(&self) {
    }

    proof fn lemma_no_error(&self) {
        lemma_string_number_items(*self);
        self.print_style.position.lemma_no_error();
        self.print_style.color.lemma_no_error();
        self.value.lemma_no_error();
        self.placement.lemma_no_error();
    }

    proof fn lemma_value(&self, v: Self) {
        lemma_string_number_items(*self);
        self.value.lemma_value(v.value);
        self.placement.lemma_value(v.placement);
        if self.print_style.position.is_set() {
            self.print_style.position.lemma_value(v.print_style.position);
        }
        self.print_style.color.lemma_value(v.print_style.color);
    }
}

/// The head and keyword arguments of the S-expression of a `HammerPull`.
pub proof fn lemma_hammer_pull_items(x: HammerPull)
    requires
        x.writable(),
    ensures
        x.to_sexpr_spec() matches SexprV::List(items) && items.len() > 0 && items[0] == SexprV::Symbol("hammer-pull"@)
            && find_kwarg_spec(items, "value"@) == (Some(x.value.to_sexpr_spec()))
            && find_kwarg_spec(items, "type"@) == (Some(x.type_.to_sexpr_spec()))
            && find_kwarg_spec(items, "number"@) == (match x.number { Some(y) => Some(y.to_sexpr_spec()), None => None })
            && find_kwarg_spec(items, "placement"@) == (match x.placement { Some(y) => Some(y.to_sexpr_spec()), None => None }),
{
        assert("type"@ != "value"@) by {
            reveal_strlit("type");
            assert("type"@.len() == 4);
            reveal_strlit("value");
            assert("value"@.len() == 5);
        }
        assert("number"@ != "value"@) by {
            reveal_strlit("number");
            assert("number"@.len() == 6);
            reveal_strlit("value");
            assert("value"@.len() == 5);
        }
        assert("placement"@ != "value"@) by {
            reveal_strlit("placement");
            assert("placement"@.len() == 9);
            reveal_strlit("value");
            assert("value"@.len() == 5);
        }
        assert("number"@ != "type"@) by {
            reveal_strlit("number");
            assert("number"@.len() == 6);
            reveal_strlit("type");
            assert("type"@.len() == 4);
        }
        assert("placement"@ != "type"@) by {
            reveal_strlit("placement");
            assert("placement"@.len() == 9);
            reveal_strlit("type");
            assert("type"@.len() == 4);
        }
        assert("placement"@ != "number"@) by {
            reveal_strlit("placement");
            assert("placement"@.len() == 9);
            reveal_strlit("number");
            assert("number"@.len() == 6);
        }
        let ghost s0 = seq![SexprV::Symbol("hammer-pull"@)];
        assert(ends_clean(s0));
        let ghost p1 = kw_pair("value"@, x.value.to_sexpr_spec());
        x.value.lemma_not_keyword();
        lemma_pair_piece("value"@, x.value.to_sexpr_spec());
        let ghost s1 = s0 + p1;
        lemma_ends_clean(s0, p1);
        let ghost p2 = kw_pair("type"@, x.type_.to_sexpr_spec());
        x.type_.lemma_not_keyword();
        lemma_pair_piece("type"@, x.type_.to_sexpr_spec());
        let ghost s2 = s1 + p2;
        lemma_ends_clean(s1, p2);
        let ghost p3 = kw_opt("number"@, x.number);
        lemma_opt_piece("number"@, x.number);
        let ghost s3 = s2 + p3;
        lemma_ends_clean(s2, p3);
        let ghost p4 = kw_opt("placement"@, x.placement);
        lemma_opt_piece("placement"@, x.placement);
        let ghost s4 = s3 + p4;
        lemma_ends_clean(s3, p4);
        assert(x.to_sexpr_spec() == SexprV::List(s4));
        assert(s4[0] == SexprV::Symbol("hammer-pull"@)) by {
            assert(s1[0] == s0[0]);
            assert(s2[0] == s1[0]);
            assert(s3[0] == s2[0]);
            assert(s4[0] == s3[0]);
        }
        assert(find_kwarg_spec(s4, "value"@) == (Some(x.value.to_sexpr_spec()))) by {
            lemma_find_head_key("hammer-pull"@, "value"@);
            if p1.len() == 2 { lemma_find_hit(s0, p1, "value"@); } else { lemma_find_skip(s0, p1, "value"@); }
            lemma_find_skip(s1, p2, "value"@);
            lemma_find_skip(s2, p3, "value"@);
            lemma_find_skip(s3, p4, "value"@);
        }
        assert(find_kwarg_spec(s4, "type"@) == (Some(x.type_.to_sexpr_spec()))) by {
            lemma_find_head_key("hammer-pull"@, "type"@);
            lemma_find_skip(s0, p1, "type"@);
            if p2.len() == 2 { lemma_find_hit(s1, p2, "type"@); } else { lemma_find_skip(s1, p2, "type"@); }
            lemma_find_skip(s2, p3, "type"@);
            lemma_find_skip(s3, p4, "type"@);
        }
        assert(find_kwarg_spec(s4, "number"@) == (match x.number { Some(y) => Some(y.to_sexpr_spec()), None => None })) by {
            lemma_find_head_key("hammer-pull"@, "number"@);
            lemma_find_skip(s0, p1, "number"@);
            lemma_find_skip(s1, p2, "number"@);
            if p3.len() == 2 { lemma_find_hit(s2, p3, "number"@); } else { lemma_find_skip(s2, p3, "number"@); }
            lemma_find_skip(s3, p4, "number"@);
        }
        assert(find_kwarg_spec(s4, "placement"@) == (match x.placement { Some(y) => Some(y.to_sexpr_spec()), None => None })) by {
            lemma_find_head_key("hammer-pull"@, "placement"@);
            lemma_find_skip(s0, p1, "placement"@);
            lemma_find_skip(s1, p2, "placement"@);
            lemma_find_skip(s2, p3, "placement"@);
            if p4.len() == 2 { lemma_find_hit(s3, p4, "placement"@); } else { lemma_find_skip(s3, p4, "placement"@); }
        }
}

impl RoundTrip for HammerPull {
    /// A value whose parts are writable.
    open spec fn writable(&self) -> bool {
        self.value.writable()
            && self.type_.writable()
            && self.number.writable()
            && self.placement.writable()
    }

    open spec fn same(&self, other: &Self) -> bool {
        self.value.same(&other.value)
            && self.type_.same(&other.type_)
            && self.number.same(&other.number)
            && self.placement.same(&other.placement)
    }

    proof fn lemma_not_keyword(&self) {
    }

    proof fn lemma_no_error(&self) {
        lemma_hammer_pull_items(*self);
        self.value.lemma_no_error();
        self.type_.lemma_no_error();
        self.number.lemma_no_error();
        self.placement.lemma_no_error();
    }

    proof fn lemma_value(&self, v: Self) {
        lemma_hammer_pull_items(*self);
        self.value.lemma_value(v.value);
        self.type_.lemma_value(v.type_);
        self.number.lemma_value(v.number);
        self.placement.lemma_value(v.placement);
    }
}

/// The head and keyword arguments of the S-expression of a `Bend`.
pub proof fn lemma_bend_items(x: Bend)
    requires
        x.writable(),
    ensures
        x.to_sexpr_spec() matches SexprV::List(items) && items.len() > 0 && items[0] == SexprV::Symbol("bend"@)
            && find_kwarg_spec(items, "bend-alter"@) == (Some(x.bend_alter.to_sexpr_spec()))
            && find_kwarg_spec(items, "pre-bend"@) == (if x.pre_bend { Some(SexprV::Symbol("t"@)) } else { None })
            && find_kwarg_spec(items, "release"@) == (match x.release { Some(y) => Some(y.to_sexpr_spec()), None => None })
            && find_kwarg_spec(items, "with-bar"@) == (match x.with_bar { Some(y) => Some(y.to_sexpr_spec()), None => None }),
{
        assert("pre-bend"@ != "bend-alter"@) by {
            reveal_strlit("pre-bend");
            assert("pre-bend"@.len() == 8);
            reveal_strlit("bend-alter");
            assert("bend-alter"@.len() == 10);
        }
        assert("release"@ != "bend-alter"@) by {
            reveal_strlit("release");
            assert("release"@.len() == 7);
            reveal_strlit("bend-alter");
            assert("bend-alter"@.len() == 10);
        }
        assert("with-bar"@ != "bend-alter"@) by {
            reveal_strlit("with-bar");
            assert("with-bar"@.len() == 8);
            reveal_strlit("bend-alter");
            assert("bend-alter"@.len() == 10);
        }
        assert("release"@ != "pre-bend"@) by {
            reveal_strlit("release");
            assert("release"@.len() == 7);
            reveal_strlit("pre-bend");
            assert("pre-bend"@.len() == 8);
        }
        assert("with-bar"@ != "pre-bend"@) by {
            reveal_strlit("with-bar");
            assert("with-bar"@.len() == 8);
            reveal_strlit("pre-bend");
            assert("pre-bend"@.len() == 8);
            assert("with-bar"@[0] == 'w');
            assert("pre-bend"@[0] == 'p');
        }
        assert("with-bar"@ != "release"@) by {
            reveal_strlit("with-bar");
            assert("with-bar"@.len() == 8);
            reveal_strlit("release");
            assert("release"@.len() == 7);
        }
        let ghost s0 = seq![SexprV::Symbol("bend"@)];
        assert(ends_clean(s0));
        let ghost p1 = kw_pair("bend-alter"@, x.bend_alter.to_sexpr_spec());
        x.bend_alter.lemma_not_keyword();
        lemma_pair_piece("bend-alter"@, x.bend_alter.to_sexpr_spec());
        let ghost s1 = s0 + p1;
        lemma_ends_clean(s0, p1);
        let ghost p2 = kw_if(x.pre_bend, "pre-bend"@, SexprV::Symbol("t"@));
        lemma_if_piece(x.pre_bend, "pre-bend"@, SexprV::Symbol("t"@));
        let ghost s2 = s1 + p2;
        lemma_ends_clean(s1, p2);
        let ghost p3 = kw_opt("release"@, x.release);
        lemma_opt_piece("release"@, x.release);
        let ghost s3 = s2 + p3;
        lemma_ends_clean(s2, p3);
        let ghost p4 = kw_opt("with-bar"@, x.with_bar);
        lemma_opt_piece("with-bar"@, x.with_bar);
        let ghost s4 = s3 + p4;
        lemma_ends_clean(s3, p4);
        assert(x.to_sexpr_spec() == SexprV::List(s4));
        assert(s4[0] == SexprV::Symbol("bend"@)) by {
            assert(s1[0] == s0[0]);
            assert(s2[0] == s1[0]);
            assert(s3[0] == s2[0]);
            assert(s4[0] == s3[0]);
        }
        assert(find_kwarg_spec(s4, "bend-alter"@) == (Some(x.bend_alter.to_sexpr_spec()))) by {
            lemma_find_head_key("bend"@, "bend-alter"@);
            if p1.len() == 2 { lemma_find_hit(s0, p1, "bend-alter"@); } else { lemma_find_skip(s0, p1, "bend-alter"@); }
            lemma_find_skip(s1, p2, "bend-alter"@);
            lemma_find_skip(s2, p3, "bend-alter"@);
            lemma_find_skip(s3, p4, "bend-alter"@);
        }
        assert(find_kwarg_spec(s4, "pre-bend"@) == (if x.pre_bend { Some(SexprV::Symbol("t"@)) } else { None })) by {
            lemma_find_head_key("bend"@, "pre-bend"@);
            lemma_find_skip(s0, p1, "pre-bend"@);
            if p2.len() == 2 { lemma_find_hit(s1, p2, "pre-bend"@); } else { lemma_find_skip(s1, p2, "pre-bend"@); }
            lemma_find_skip(s2, p3, "pre-bend"@);
            lemma_find_skip(s3, p4, "pre-bend"@);
        }
        assert(find_kwarg_spec(s4, "release"@) == (match x.release { Some(y) => Some(y.to_sexpr_spec()), None => None })) by {
            lemma_find_head_key("bend"@, "release"@);
            lemma_find_skip(s0, p1, "release"@);
            lemma_find_skip(s1, p2, "release"@);
            if p3.len() == 2 { lemma_find_hit(s2, p3, "release"@); } else { lemma_find_skip(s2, p3, "release"@); }
            lemma_find_skip(s3, p4, "release"@);
        }
        assert(find_kwarg_spec(s4, "with-bar"@) == (match x.with_bar { Some(y) => Some(y.to_sexpr_spec()), None => None })) by {
            lemma_find_head_key("bend"@, "with-bar"@);
            lemma_find_skip(s0, p1, "with-bar"@);
            lemma_find_skip(s1, p2, "with-bar"@);
            lemma_find_skip(s2, p3, "with-bar"@);
            if p4.len() == 2 { lemma_find_hit(s3, p4, "with-bar"@); } else { lemma_find_skip(s3, p4, "with-bar"@); }
        }
}

impl RoundTrip for Bend {
    /// A value whose parts are writable.
    open spec fn writable(&self) -> bool {
        self.bend_alter.writable()
            && self.pre_bend.writable()
            && self.release.writable()
            && self.with_bar.writable()
    }

    open spec fn same(&self, other: &Self) -> bool {
        self.bend_alter.same(&other.bend_alter)
            && self.pre_bend.same(&other.pre_bend)
            && self.release.same(&other.release)
            && self.with_bar.same(&other.with_bar)
    }

    proof fn lemma_not_keyword(&self) {
    }

    proof fn lemma_no_error(&self) {
        reveal_strlit("t");
        assert("t"@.len() == 1);
        reveal_strlit("nil");
        assert("nil"@.len() == 3);
        lemma_bend_items(*self);
        self.bend_alter.lemma_no_error();
        self.pre_bend.lemma_no_error();
        self.release.lemma_no_error();
        self.with_bar.lemma_no_error();
    }

    proof fn lemma_value(&self, v: Self) {
        reveal_strlit("t");
        assert("t"@.len() == 1);
        reveal_strlit("nil");
        assert("nil"@.len() == 3);
        lemma_bend_items(*self);
        self.bend_alter.lemma_value(v.bend_alter);
        self.release.lemma_value(v.release);
        self.with_bar.lemma_value(v.with_bar);
    }
}

/// The head and keyword arguments of the S-expression of a `Tap`.
pub proof fn lemma_tap_items(x: Tap)
    requires
        x.writable(),
    ensures
        x.to_sexpr_spec() matches SexprV::List(items) && items.len() > 0 && items[0] == SexprV::Symbol("tap"@)
            && find_kwarg_spec(items, "value"@) == (Some(x.value.to_sexpr_spec()))
            && find_kwarg_spec(items, "hand"@) == (match x.hand { Some(y) => Some(y.to_sexpr_spec()), None => None }),
{
        assert("hand"@ != "value"@) by {
            reveal_strlit("hand");
            assert("hand"@.len() == 4);
            reveal_strlit("value");
            assert("value"@.len() == 5);
        }
        let ghost s0 = seq![SexprV::Symbol("tap"@)];
        assert(ends_clean(s0));
        let ghost p1 = kw_pair("value"@, x.value.to_sexpr_spec());
        x.value.lemma_not_keyword();
        lemma_pair_piece("value"@, x.value.to_sexpr_spec());
        let ghost s1 = s0 + p1;
        lemma_ends_clean(s0, p1);
        let ghost p2 = kw_opt("hand"@, x.hand);
        lemma_opt_piece("hand"@, x.hand);
        let ghost s2 = s1 + p2;
        lemma_ends_clean(s1, p2);
        assert(x.to_sexpr_spec() == SexprV::List(s2));
        assert(s2[0] == SexprV::Symbol("tap"@)) by {
            assert(s1[0] == s0[0]);
            assert(s2[0] == s1[0]);
        }
        assert(find_kwarg_spec(s2, "value"@) == (Some(x.value.to_sexpr_spec()))) by {
            lemma_find_head_key("tap"@, "value"@);
            if p1.len() == 2 { lemma_find_hit(s0, p1, "value"@); } else { lemma_find_skip(s0, p1, "value"@); }
            lemma_find_skip(s1, p2, "value"@);
        }
        assert(find_kwarg_spec(s2, "hand"@) == (match x.hand { Some(y) => Some(y.to_sexpr_spec()), None => None })) by {
            lemma_find_head_key("tap"@, "hand"@);
            lemma_find_skip(s0, p1, "hand"@);
            if p2.len() == 2 { lemma_find_hit(s1, p2, "hand"@); } else { lemma_find_skip(s1, p2, "hand"@); }
        }
}

impl RoundTrip for Tap {
    /// A value whose parts are writable.
    open spec fn writable(&self) -> bool {
        self.value.writable()
            && self.hand.writable()
    }

    open spec fn same(&self, other: &Self) -> bool {
        self.value.same(&other.value)
            && self.hand.same(&other.hand)
    }

    proof fn lemma_not_keyword(&self) {
    }

    proof fn lemma_no_error(&self) {
        lemma_tap_items(*self);
        self.value.lemma_no_error();
        self.hand.lemma_no_error();
    }

    proof fn lemma_value(&self, v: Self) {
        lemma_tap_items(*self);
        self.value.lemma_value(v.value);
        self.hand.lemma_value(v.hand);
    }
}

/// The head and keyword arguments of the S-expression of a `HeelToe`.
pub proof fn lemma_heel_toe_items(x: HeelToe)
    requires
        x.writable(),
    ensures
        x.to_sexpr_spec() matches SexprV::List(items) && items.len() > 0 && items[0] == SexprV::Symbol("heel-toe"@)
            && find_kwarg_spec(items, "substitution"@) == (match x.substitution { Some(y) => Some(y.to_sexpr_spec()), None => None })
            && find_kwarg_spec(items, "placement"@) == (match x.placement { Some(y) => Some(y.to_sexpr_spec()), None => None }),
{
        assert("placement"@ != "substitution"@) by {
            reveal_strlit("placement");
            assert("placement"@.len() == 9);
            reveal_strlit("substitution");
            assert("substitution"@.len() == 12);
        }
        let ghost s0 = seq![SexprV::Symbol("heel-toe"@)];
        assert(ends_clean(s0));
        let ghost p1 = kw_opt("substitution"@, x.substitution);
        lemma_opt_piece("substitution"@, x.substitution);
        let ghost s1 = s0 + p1;
        lemma_ends_clean(s0, p1);
        let ghost p2 = kw_opt("placement"@, x.placement);
        lemma_opt_piece("placement"@, x.placement);
        let ghost s2 = s1 + p2;
        lemma_ends_clean(s1, p2);
        assert(x.to_sexpr_spec() == SexprV::List(s2));
        assert(s2[0] == SexprV::Symbol("heel-toe"@)) by {
            assert(s1[0] == s0[0]);
            assert(s2[0] == s1[0]);
        }
        assert(find_kwarg_spec(s2, "substitution"@) == (match x.substitution { Some(y) => Some(y.to_sexpr_spec()), None => None })) by {
            lemma_find_head_key("heel-toe"@, "substitution"@);
            if p1.len() == 2 { lemma_find_hit(s0, p1, "substitution"@); } else { lemma_find_skip(s0, p1, "substitution"@); }
            lemma_find_skip(s1, p2, "substitution"@);
        }
        assert(find_kwarg_spec(s2, "placement"@) == (match x.placement { Some(y) => Some(y.to_sexpr_spec()), None => None })) by {
            lemma_find_head_key("heel-toe"@, "placement"@);
            lemma_find_skip(s0, p1, "placement"@);
            if p2.len() == 2 { lemma_find_hit(s1, p2, "placement"@); } else { lemma_find_skip(s1, p2, "placement"@); }
        }
}

impl RoundTrip for HeelToe {
    /// A value whose parts are writable.
    open spec fn writable(&self) -> bool {
        self.substitution.writable()
            && self.placement.writable()
    }

    open spec fn same(&self, other: &Self) -> bool {
        self.substitution.same(&other.substitution)
            && self.placement.same(&other.placement)
    }

    proof fn lemma_not_keyword(&self) {
    }

    proof fn lemma_no_error(&self) {
        lemma_heel_toe_items(*self);
        self.substitution.lemma_no_error();
        self.placement.lemma_no_error();
    }

    proof fn lemma_value(&self, v: Self) {
        lemma_heel_toe_items(*self);
        self.substitution.lemma_value(v.substitution);
        self.placement.lemma_value(v.placement);
    }
}

/// The head and keyword arguments of the S-expression of a `HoleClosed`.
pub proof fn lemma_hole_closed_items(x: HoleClosed)
    requires
        x.writable(),
    ensures
        x.to_sexpr_spec() matches SexprV::List(items) && items.len() > 0 && items[0] == SexprV::Symbol("hole-closed"@)
            && find_kwarg_spec(items, "value"@) == (Some(x.value.to_sexpr_spec()))
            && find_kwarg_spec(items, "location"@) == (match x.location { Some(y) => Some(y.to_sexpr_spec()), None => None }),
{
        assert("location"@ != "value"@) by {
            reveal_strlit("location");
            assert("location"@.len() == 8);
            reveal_strlit("value");
            assert("value"@.len() == 5);
        }
        let ghost s0 = seq![SexprV::Symbol("hole-closed"@)];
        assert(ends_clean(s0));
        let ghost p1 = kw_pair("value"@, x.value.to_sexpr_spec());
        x.value.lemma_not_keyword();
        lemma_pair_piece("value"@, x.value.to_sexpr_spec());
        let ghost s1 = s0 + p1;
        lemma_ends_clean(s0, p1);
        let ghost p2 = kw_opt("location"@, x.location);
        lemma_opt_piece("location"@, x.location);
        let ghost s2 = s1 + p2;
        lemma_ends_clean(s1, p2);
        assert(x.to_sexpr_spec() == SexprV::List(s2));
        assert(s2[0] == SexprV::Symbol("hole-closed"@)) by {
            assert(s1[0] == s0[0]);
            assert(s2[0] == s1[0]);
        }
        assert(find_kwarg_spec(s2, "value"@) == (Some(x.value.to_sexpr_spec()))) by {
            lemma_find_head_key("hole-closed"@, "value"@);
            if p1.len() == 2 { lemma_find_hit(s0, p1, "value"@); } else { lemma_find_skip(s0, p1, "value"@); }
            lemma_find_skip(s1, p2, "value"@);
        }
        assert(find_kwarg_spec(s2, "location"@) == (match x.location { Some(y) => Some(y.to_sexpr_spec()), None => None })) by {
            lemma_find_head_key("hole-closed"@, "location"@);
            lemma_find_skip(s0, p1, "location"@);
            if p2.len() == 2 { lemma_find_hit(s1, p2, "location"@); } else { lemma_find_skip(s1, p2, "location"@); }
        }
}

impl RoundTrip for HoleClosed {
    /// A value whose parts are writable.
    open spec fn writable(&self) -> bool {
        self.value.writable()
            && self.location.writable()
    }

    open spec fn same(&self, other: &Self) -> bool {
        self.value.same(&other.value)
            && self.location.same(&other.location)
    }

    proof fn lemma_not_keyword(&self) {
    }

    proof fn lemma_no_error(&self) {
        lemma_hole_closed_items(*self);
        self.value.lemma_no_error();
        self.location.lemma_no_error();
    }

    proof fn lemma_value(&self, v: Self) {
        lemma_hole_closed_items(*self);
        self.value.lemma_value(v.value);
        self.location.lemma_value(v.location);
    }
}

/// The head and keyword arguments of the S-expression of a `Hole`.
pub proof fn lemma_hole_items(x: Hole)
    requires
        x.writable(),
    ensures
        x.to_sexpr_spec() matches SexprV::List(items) && items.len() > 0 && items[0] == SexprV::Symbol("hole"@)
            && find_kwarg_spec(items, "hole-type"@) == (match x.hole_type { Some(y) => Some(y.to_sexpr_spec()), None => None })
            && find_kwarg_spec(items, "hole-closed"@) == (Some(x.hole_closed.to_sexpr_spec()))
            && find_kwarg_spec(items, "hole-shape"@) == (match x.hole_shape { Some(y) => Some(y.to_sexpr_spec()), None => None }),
{
        assert("hole-closed"@ != "hole-type"@) by {
            reveal_strlit("hole-closed");
            assert("hole-closed"@.len() == 11);
            reveal_strlit("hole-type");
            assert("hole-type"@.len() == 9);
        }
        assert("hole-shape"@ != "hole-type"@) by {
            reveal_strlit("hole-shape");
            assert("hole-shape"@.len() == 10);
            reveal_strlit("hole-type");
            assert("hole-type"@.len() == 9);
        }
        assert("hole-shape"@ != "hole-closed"@) by {
            reveal_strlit("hole-shape");
            assert("hole-shape"@.len() == 10);
            reveal_strlit("hole-closed");
            assert("hole-closed"@.len() == 11);
        }
        let ghost s0 = seq![SexprV::Symbol("hole"@)];
        assert(ends_clean(s0));
        let ghost p1 = kw_opt("hole-type"@, x.hole_type);
        lemma_opt_piece("hole-type"@, x.hole_type);
        let ghost s1 = s0 + p1;
        lemma_ends_clean(s0, p1);
        let ghost p2 = kw_pair("hole-closed"@, x.hole_closed.to_sexpr_spec());
        x.hole_closed.lemma_not_keyword();
        lemma_pair_piece("hole-closed"@, x.hole_closed.to_sexpr_spec());
        let ghost s2 = s1 + p2;
        lemma_ends_clean(s1, p2);
        let ghost p3 = kw_opt("hole-shape"@, x.hole_shape);
        lemma_opt_piece("hole-shape"@, x.hole_shape);
        let ghost s3 = s2 + p3;
        lemma_ends_clean(s2, p3);
        assert(x.to_sexpr_spec() == SexprV::List(s3));
        assert(s3[0] == SexprV::Symbol("hole"@)) by {
            assert(s1[0] == s0[0]);
            assert(s2[0] == s1[0]);
            assert(s3[0] == s2[0]);
        }
        assert(find_kwarg_spec(s3, "hole-type"@) == (match x.hole_type { Some(y) => Some(y.to_sexpr_spec()), None => None })) by {
            lemma_find_head_key("hole"@, "hole-type"@);
            if p1.len() == 2 { lemma_find_hit(s0, p1, "hole-type"@); } else { lemma_find_skip(s0, p1, "hole-type"@); }
            lemma_find_skip(s1, p2, "hole-type"@);
            lemma_find_skip(s2, p3, "hole-type"@);
        }
        assert(find_kwarg_spec(s3, "hole-closed"@) == (Some(x.hole_closed.to_sexpr_spec()))) by {
            lemma_find_head_key("hole"@, "hole-closed"@);
            lemma_find_skip(s0, p1, "hole-closed"@);
            if p2.len() == 2 { lemma_find_hit(s1, p2, "hole-closed"@); } else { lemma_find_skip(s1, p2, "hole-closed"@); }
            lemma_find_skip(s2, p3, "hole-closed"@);
        }
        assert(find_kwarg_spec(s3, "hole-shape"@) == (match x.hole_shape { Some(y) => Some(y.to_sexpr_spec()), None => None })) by {
            lemma_find_head_key("hole"@, "hole-shape"@);
            lemma_find_skip(s0, p1, "hole-shape"@);
            lemma_find_skip(s1, p2, "hole-shape"@);
            if p3.len() == 2 { lemma_find_hit(s2, p3, "hole-shape"@); } else { lemma_find_skip(s2, p3, "hole-shape"@); }
        }
}

impl RoundTrip for Hole {
    /// A value whose parts are writable.
    open spec fn writable(&self) -> bool {
        self.hole_type.writable()
            && self.hole_closed.writable()
            && self.hole_shape.writable()
    }

    open spec fn same(&self, other: &Self) -> bool {
        self.hole_type.same(&other.hole_type)
            && self.hole_closed.same(&other.hole_closed)
            && self.hole_shape.same(&other.hole_shape)
    }

    proof fn lemma_not_keyword(&self) {
    }

    proof fn lemma_no_error(&self) {
        lemma_hole_items(*self);
        self.hole_type.lemma_no_error();
        self.hole_closed.lemma_no_error();
        self.hole_shape.lemma_no_error();
    }

    proof fn lemma_value(&self, v: Self) {
        lemma_hole_items(*self);
        self.hole_type.lemma_value(v.hole_type);
        self.hole_closed.lemma_value(v.hole_closed);
        self.hole_shape.lemma_value(v.hole_shape);
    }
}

/// The head and keyword arguments of the S-expression of a `Arrow`.
pub proof fn lemma_arrow_items(x: Arrow)
    requires
        x.writable(),
    ensures
        x.to_sexpr_spec() matches SexprV::List(items) && items.len() > 0 && items[0] == SexprV::Symbol("arrow"@)
            && find_kwarg_spec(items, "direction"@) == (match x.direction { Some(y) => Some(y.to_sexpr_spec()), None => None })
            && find_kwarg_spec(items, "style"@) == (match x.style { Some(y) => Some(y.to_sexpr_spec()), None => None })
            && find_kwarg_spec(items, "smufl"@) == (match x.smufl { Some(y) => Some(y.to_sexpr_spec()), None => None }),
{
        assert("style"@ != "direction"@) by {
            reveal_strlit("style");
            assert("style"@.len() == 5);
            reveal_strlit("direction");
            assert("direction"@.len() == 9);
        }
        assert("smufl"@ != "direction"@) by {
            reveal_strlit("smufl");
            assert("smufl"@.len() == 5);
            reveal_strlit("direction");
            assert("direction"@.len() == 9);
        }
        assert("smufl"@ != "style"@) by {
            reveal_strlit("smufl");
            assert("smufl"@.len() == 5);
            reveal_strlit("style");
            assert("style"@.len() == 5);
            assert("smufl"@[1] == 'm');
            assert("style"@[1] == 't');
        }
        let ghost s0 = seq![SexprV::Symbol("arrow"@)];
        assert(ends_clean(s0));
        let ghost p1 = kw_opt("direction"@, x.direction);
        lemma_opt_piece("direction"@, x.direction);
        let ghost s1 = s0 + p1;
        lemma_ends_clean(s0, p1);
        let ghost p2 = kw_opt("style"@, x.style);
        lemma_opt_piece("style"@, x.style);
        let ghost s2 = s1 + p2;
        lemma_ends_clean(s1, p2);
        let ghost p3 = kw_opt("smufl"@, x.smufl);
        lemma_opt_piece("smufl"@, x.smufl);
        let ghost s3 = s2 + p3;
        lemma_ends_clean(s2, p3);
        assert(x.to_sexpr_spec() == SexprV::List(s3));
        assert(s3[0] == SexprV::Symbol("arrow"@)) by {
            assert(s1[0] == s0[0]);
            assert(s2[0] == s1[0]);
            assert(s3[0] == s2[0]);
        }
        assert(find_kwarg_spec(s3, "direction"@) == (match x.direction { Some(y) => Some(y.to_sexpr_spec()), None => None })) by {
            lemma_find_head_key("arrow"@, "direction"@);
            if p1.len() == 2 { lemma_find_hit(s0, p1, "direction"@); } else { lemma_find_skip(s0, p1, "direction"@); }
            lemma_find_skip(s1, p2, "direction"@);
            lemma_find_skip(s2, p3, "direction"@);
        }
        assert(find_kwarg_spec(s3, "style"@) == (match x.style { Some(y) => Some(y.to_sexpr_spec()), None => None })) by {
            lemma_find_head_key("arrow"@, "style"@);
            lemma_find_skip(s0, p1, "style"@);
            if p2.len() == 2 { lemma_find_hit(s1, p2, "style"@); } else { lemma_find_skip(s1, p2, "style"@); }
            lemma_find_skip(s2, p3, "style"@);
        }
        assert(find_kwarg_spec(s3, "smufl"@) == (match x.smufl { Some(y) => Some(y.to_sexpr_spec()), None => None })) by {
            lemma_find_head_key("arrow"@, "smufl"@);
            lemma_find_skip(s0, p1, "smufl"@);
            lemma_find_skip(s1, p2, "smufl"@);
            if p3.len() == 2 { lemma_find_hit(s2, p3, "smufl"@); } else { lemma_find_skip(s2, p3, "smufl"@); }
        }
}

impl RoundTrip for Arrow {
    /// A value whose parts are writable.
    open spec fn writable(&self) -> bool {
        self.direction.writable()
            && self.style.writable()
            && self.smufl.writable()
    }

    open spec fn same(&self, other: &Self) -> bool {
        self.direction.same(&other.direction)
            && self.style.same(&other.style)
            && self.smufl.same(&other.smufl)
    }

    proof fn lemma_not_keyword(&self) {
    }

    proof fn lemma_no_error(&self) {
        lemma_arrow_items(*self);
        self.direction.lemma_no_error();
        self.style.lemma_no_error();
        self.smufl.lemma_no_error();
    }

    proof fn lemma_value(&self, v: Self) {
        lemma_arrow_items(*self);
        self.direction.lemma_value(v.direction);
        self.style.lemma_value(v.style);
        self.smufl.lemma_value(v.smufl);
    }
}

/// The head and keyword arguments of the S-expression of a `Handbell`.
pub proof fn lemma_handbell_items(x: Handbell)
    requires
        x.writable(),
    ensures
        x.to_sexpr_spec() matches SexprV::List(items) && items.len() > 0 && items[0] == SexprV::Symbol("handbell"@)
            && find_kwarg_spec(items, "value"@) == (Some(x.value.to_sexpr_spec())),
{
        let ghost s0 = seq![SexprV::Symbol("handbell"@)];
        assert(ends_clean(s0));
        let ghost p1 = kw_pair("value"@, x.value.to_sexpr_spec());
        x.value.lemma_not_keyword();
        lemma_pair_piece("value"@, x.value.to_sexpr_spec());
        let ghost s1 = s0 + p1;
        lemma_ends_clean(s0, p1);
        assert(x.to_sexpr_spec() == SexprV::List(s1));
        assert(s1[0] == SexprV::Symbol("handbell"@)) by {
            assert(s1[0] == s0[0]);
        }
        assert(find_kwarg_spec(s1, "value"@) == (Some(x.value.to_sexpr_spec()))) by {
            lemma_find_head_key("handbell"@, "value"@);
            if p1.len() == 2 { lemma_find_hit(s0, p1, "value"@); } else { lemma_find_skip(s0, p1, "value"@); }
        }
}

impl RoundTrip for Handbell {
    /// A value whose parts are writable.
    open spec fn writable(&self) -> bool {
        self.value.writable()
    }

    open spec fn same(&self, other: &Self) -> bool {
        self.value.same(&other.value)
    }

    proof fn lemma_not_keyword(&self) {
    }

    proof fn lemma_no_error(&self) {
        lemma_handbell_items(*self);
        self.value.lemma_no_error();
    }

    proof fn lemma_value(&self, v: Self) {
        lemma_handbell_items(*self);
        self.value.lemma_value(v.value);
    }
}

/// The head and keyword arguments of the S-expression of a `HarmonMute`.
pub proof fn lemma_harmon_mute_items(x: HarmonMute)
    requires
        x.writable(),
    ensures
        x.to_sexpr_spec() matches SexprV::List(items) && items.len() > 0 && items[0] == SexprV::Symbol("harmon-mute"@)
            && find_kwarg_spec(items, "open"@) == (if x.open { Some(SexprV::Symbol("t"@)) } else { None })
            && find_kwarg_spec(items, "half"@) == (if x.half { Some(SexprV::Symbol("t"@)) } else { None }),
{
        assert("half"@ != "open"@) by {
            reveal_strlit("half");
            assert("half"@.len() == 4);
            reveal_strlit("open");
            assert("open"@.len() == 4);
            assert("half"@[0] == 'h');
            assert("open"@[0] == 'o');
        }
        let ghost s0 = seq![SexprV::Symbol("harmon-mute"@)];
        assert(ends_clean(s0));
        let ghost p1 = kw_if(x.open, "open"@, SexprV::Symbol("t"@));
        lemma_if_piece(x.open, "open"@, SexprV::Symbol("t"@));
        let ghost s1 = s0 + p1;
        lemma_ends_clean(s0, p1);
        let ghost p2 = kw_if(x.half, "half"@, SexprV::Symbol("t"@));
        lemma_if_piece(x.half, "half"@, SexprV::Symbol("t"@));
        let ghost s2 = s1 + p2;
        lemma_ends_clean(s1, p2);
        assert(x.to_sexpr_spec() == SexprV::List(s2));
        assert(s2[0] == SexprV::Symbol("harmon-mute"@)) by {
            assert(s1[0] == s0[0]);
            assert(s2[0] == s1[0]);
        }
        assert(find_kwarg_spec(s2, "open"@) == (if x.open { Some(SexprV::Symbol("t"@)) } else { None })) by {
            lemma_find_head_key("harmon-mute"@, "open"@);
            if p1.len() == 2 { lemma_find_hit(s0, p1, "open"@); } else { lemma_find_skip(s0, p1, "open"@); }
            lemma_find_skip(s1, p2, "open"@);
        }
        assert(find_kwarg_spec(s2, "half"@) == (if x.half { Some(SexprV::Symbol("t"@)) } else { None })) by {
            lemma_find_head_key("harmon-mute"@, "half"@);
            lemma_find_skip(s0, p1, "half"@);
            if p2.len() == 2 { lemma_find_hit(s1, p2, "half"@); } else { lemma_find_skip(s1, p2, "half"@); }
        }
}

impl RoundTrip for HarmonMute {
    /// A value whose parts are writable.
    open spec fn writable(&self) -> bool {
        self.open.writable()
            && self.half.writable()
    }

    open spec fn same(&self, other: &Self) -> bool {
        self.open.same(&other.open)
            && self.half.same(&other.half)
    }

    proof fn lemma_not_keyword(&self) {
    }

    proof fn lemma_no_error(&self) {
        reveal_strlit("t");
        assert("t"@.len() == 1);
        reveal_strlit("nil");
        assert("nil"@.len() == 3);
        lemma_harmon_mute_items(*self);
        self.open.lemma_no_error();
        self.half.lemma_no_error();
    }

    proof fn lemma_value(&self, v: Self) {
        reveal_strlit("t");
        assert("t"@.len() == 1);
        reveal_strlit("nil");
        assert("nil"@.len() == 3);
        lemma_harmon_mute_items(*self);
    }
}

/// The head and keyword arguments of the S-expression of a `OtherTechnical`.
pub proof fn lemma_other_technical_items(x: OtherTechnical)
    requires
        x.writable(),
    ensures
        x.to_sexpr_spec() matches SexprV::List(items) && items.len() > 0 && items[0] == SexprV::Symbol("other-technical"@)
            && find_kwarg_spec(items, "value"@) == (Some(x.value.to_sexpr_spec()))
            && find_kwarg_spec(items, "placement"@) == (match x.placement { Some(y) => Some(y.to_sexpr_spec()), None => None })
            && find_kwarg_spec(items, "position"@) == (if x.print_style.position.is_set() { Some(x.print_style.position.to_sexpr_spec()) } else { None })
            && find_kwarg_spec(items, "color"@) == (match x.print_style.color { Some(y) => Some(y.to_sexpr_spec()), None => None }),
{
        assert("placement"@ != "value"@) by {
            reveal_strlit("placement");
            assert("placement"@.len() == 9);
            reveal_strlit("value");
            assert("value"@.len() == 5);
        }
        assert("position"@ != "value"@) by {
            reveal_strlit("position");
            assert("position"@.len() == 8);
            reveal_strlit("value");
            assert("value"@.len() == 5);
        }
        assert("color"@ != "value"@) by {
            reveal_strlit("color");
            assert("color"@.len() == 5);
            reveal_strlit("value");
            assert("value"@.len() == 5);
            assert("color"@[0] == 'c');
            assert("value"@[0] == 'v');
        }
        assert("position"@ != "placement"@) by {
            reveal_strlit("position");
            assert("position"@.len() == 8);
            reveal_strlit("placement");
            assert("placement"@.len() == 9);
        }
        assert("color"@ != "placement"@) by {
            reveal_strlit("color");
            assert("color"@.len() == 5);
            reveal_strlit("placement");
            assert("placement"@.len() == 9);
        }
        assert("color"@ != "position"@) by {
            reveal_strlit("color");
            assert("color"@.len() == 5);
            reveal_strlit("position");
            assert("position"@.len() == 8);
        }
        let ghost s0 = seq![SexprV::Symbol("other-technical"@)];
        assert(ends_clean(s0));
        let ghost p1 = kw_pair("value"@, x.value.to_sexpr_spec());
        x.value.lemma_not_keyword();
        lemma_pair_piece("value"@, x.value.to_sexpr_spec());
        let ghost s1 = s0 + p1;
        lemma_ends_clean(s0, p1);
        let ghost p2 = kw_opt("placement"@, x.placement);
        lemma_opt_piece("placement"@, x.placement);
        let ghost s2 = s1 + p2;
        lemma_ends_clean(s1, p2);
        let ghost p3 = kw_if(x.print_style.position.is_set(), "position"@, x.print_style.position.to_sexpr_spec());
        x.print_style.position.lemma_not_keyword();
        lemma_if_piece(x.print_style.position.is_set(), "position"@, x.print_style.position.to_sexpr_spec());
        let ghost s3 = s2 + p3;
        lemma_ends_clean(s2, p3);
        let ghost p4 = kw_opt("color"@, x.print_style.color);
        lemma_opt_piece("color"@, x.print_style.color);
        let ghost s4 = s3 + p4;
        lemma_ends_clean(s3, p4);
        assert(x.to_sexpr_spec() == SexprV::List(s4));
        assert(s4[0] == SexprV::Symbol("other-technical"@)) by {
            assert(s1[0] == s0[0]);
            assert(s2[0] == s1[0]);
            assert(s3[0] == s2[0]);
            assert(s4[0] == s3[0]);
        }
        assert(find_kwarg_spec(s4, "value"@) == (Some(x.value.to_sexpr_spec()))) by {
            lemma_find_head_key("other-technical"@, "value"@);
            if p1.len() == 2 { lemma_find_hit(s0, p1, "value"@); } else { lemma_find_skip(s0, p1, "value"@); }
            lemma_find_skip(s1, p2, "value"@);
            lemma_find_skip(s2, p3, "value"@);
            lemma_find_skip(s3, p4, "value"@);
        }
        assert(find_kwarg_spec(s4, "placement"@) == (match x.placement { Some(y) => Some(y.to_sexpr_spec()), None => None })) by {
            lemma_find_head_key("other-technical"@, "placement"@);
            lemma_find_skip(s0, p1, "placement"@);
            if p2.len() == 2 { lemma_find_hit(s1, p2, "placement"@); } else { lemma_find_skip(s1, p2, "placement"@); }
            lemma_find_skip(s2, p3, "placement"@);
            lemma_find_skip(s3, p4, "placement"@);
        }
        assert(find_kwarg_spec(s4, "position"@) == (if x.print_style.position.is_set() { Some(x.print_style.position.to_sexpr_spec()) } else { None })) by {
            lemma_find_head_key("other-technical"@, "position"@);
            lemma_find_skip(s0, p1, "position"@);
            lemma_find_skip(s1, p2, "position"@);
            if p3.len() == 2 { lemma_find_hit(s2, p3, "position"@); } else { lemma_find_skip(s2, p3, "position"@); }
            lemma_find_skip(s3, p4, "position"@);
        }
        assert(find_kwarg_spec(s4, "color"@) == (match x.print_style.color { Some(y) => Some(y.to_sexpr_spec()), None => None })) by {
            lemma_find_head_key("other-technical"@, "color"@);
            lemma_find_skip(s0, p1, "color"@);
            lemma_find_skip(s1, p2, "color"@);
            lemma_find_skip(s2, p3, "color"@);
            if p4.len() == 2 { lemma_find_hit(s3, p4, "color"@); } else { lemma_find_skip(s3, p4, "color"@); }
        }
}

impl RoundTrip for OtherTechnical {
    /// A value whose parts are writable and whose unwritten parts are as reading gives them.
    open spec fn writable(&self) -> bool {
        self.print_style.position.writable()
            && self.print_style.color.writable()
            && self.value.writable()
            && self.placement.writable()
            && self.print_style.font == font_none()
    }

    open spec fn same(&self, other: &Self) -> bool {
        self.print_style.position.same(&other.print_style.position)
            && self.print_style.color.same(&other.print_style.color)
            && self.value.same(&other.value)
            && self.placement.same(&other.placement)
            && self.print_style.font == other.print_style.font
    }

    proof fn lemma_not_keyword(&self) {
    }

    proof fn lemma_no_error(&self) {
        lemma_other_technical_items(*self);
        self.print_style.position.lemma_no_error();
        self.print_style.color.lemma_no_error();
        self.value.lemma_no_error();
        self.placement.lemma_no_error();
    }

    proof fn lemma_value(&self, v: Self) {
        lemma_other_technical_items(*self);
        self.value.lemma_value(v.value);
        self.placement.lemma_value(v.placement);
        if self.print_style.position.is_set() {
            self.print_style.position.lemma_value(v.print_style.position);
        }
        self.print_style.color.lemma_value(v.print_style.color);
    }
}

/// The head and keyword arguments of the S-expression of a `Technical`.
pub proof fn lemma_technical_items(x: Technical)
    requires
        x.writable(),
    ensures
        x.to_sexpr_spec() matches SexprV::List(items) && items.len() > 0 && items[0] == SexprV::Symbol("technical"@)
            && find_kwarg_spec(items, "content"@) == (if x.content@.len() > 0 { Some(x.content.to_sexpr_spec()) } else { None }),
{
        let ghost s0 = seq![SexprV::Symbol("technical"@)];
        assert(ends_clean(s0));
        let ghost p1 = kw_if(x.content@.len() > 0, "content"@, x.content.to_sexpr_spec());
        x.content.lemma_not_keyword();
        lemma_if_piece(x.content@.len() > 0, "content"@, x.content.to_sexpr_spec());
        let ghost s1 = s0 + p1;
        lemma_ends_clean(s0, p1);
        assert(x.to_sexpr_spec() == SexprV::List(s1));
        assert(s1[0] == SexprV::Symbol("technical"@)) by {
            assert(s1[0] == s0[0]);
        }
        assert(find_kwarg_spec(s1, "content"@) == (if x.content@.len() > 0 { Some(x.content.to_sexpr_spec()) } else { None })) by {
            lemma_find_head_key("technical"@, "content"@);
            if p1.len() == 2 { lemma_find_hit(s0, p1, "content"@); } else { lemma_find_skip(s0, p1, "content"@); }
        }
}

impl RoundTrip for Technical {
    /// A value whose parts are writable.
    open spec fn writable(&self) -> bool {
        self.content.writable()
    }

    open spec fn same(&self, other: &Self) -> bool {
        self.content.same(&other.content)
    }

    proof fn lemma_not_keyword(&self) {
    }

    proof fn lemma_no_error(&self) {
        lemma_technical_items(*self);
        self.content.lemma_no_error();
    }

    proof fn lemma_value(&self, v: Self) {
        lemma_technical_items(*self);
        if self.content@.len() > 0 {
            self.content.lemma_value(v.content);
        }
    }
}

/// The head and keyword arguments of the S-expression of a `Fermata`.
pub proof fn lemma_fermata_items(x: Fermata)
    requires
        x.writable(),
    ensures
        x.to_sexpr_spec() matches SexprV::List(items) && items.len() > 0 && items[0] == SexprV::Symbol("fermata"@)
            && find_kwarg_spec(items, "shape"@) == (match x.shape { Some(y) => Some(y.to_sexpr_spec()), None => None })
            && find_kwarg_spec(items, "type"@) == (match x.type_ { Some(y) => Some(y.to_sexpr_spec()), None => None })
            && find_kwarg_spec(items, "position"@) == (if x.print_style.position.is_set() { Some(x.print_style.position.to_sexpr_spec()) } else { None })
            && find_kwarg_spec(items, "color"@) == (match x.print_style.color { Some(y) => Some(y.to_sexpr_spec()), None => None }),
{
        assert("type"@ != "shape"@) by {
            reveal_strlit("type");
            assert("type"@.len() == 4);
            reveal_strlit("shape");
            assert("shape"@.len() == 5);
        }
        assert("position"@ != "shape"@) by {
            reveal_strlit("position");
            assert("position"@.len() == 8);
            reveal_strlit("shape");
            assert("shape"@.len() == 5);
        }
        assert("color"@ != "shape"@) by {
            reveal_strlit("color");
            assert("color"@.len() == 5);
            reveal_strlit("shape");
            assert("shape"@.len() == 5);
            assert("color"@[0] == 'c');
            assert("shape"@[0] == 's');
        }
        assert("position"@ != "type"@) by {
            reveal_strlit("position");
            assert("position"@.len() == 8);
            reveal_strlit("type");
            assert("type"@.len() == 4);
        }
        assert("color"@ != "type"@) by {
            reveal_strlit("color");
            assert("color"@.len() == 5);
            reveal_strlit("type");
            assert("type"@.len() == 4);
        }
        assert("color"@ != "position"@) by {
            reveal_strlit("color");
            assert("color"@.len() == 5);
            reveal_strlit("position");
            assert("position"@.len() == 8);
        }
        let ghost s0 = seq![SexprV::Symbol("fermata"@)];
        assert(ends_clean(s0));
        let ghost p1 = kw_opt("shape"@, x.shape);
        lemma_opt_piece("shape"@, x.shape);
        let ghost s1 = s0 + p1;
        lemma_ends_clean(s0, p1);
        let ghost p2 = kw_opt("type"@, x.type_);
        lemma_opt_piece("type"@, x.type_);
        let ghost s2 = s1 + p2;
        lemma_ends_clean(s1, p2);
        let ghost p3 = kw_if(x.print_style.position.is_set(), "position"@, x.print_style.position.to_sexpr_spec());
        x.print_style.position.lemma_not_keyword();
        lemma_if_piece(x.print_style.position.is_set(), "position"@, x.print_style.position.to_sexpr_spec());
        let ghost s3 = s2 + p3;
        lemma_ends_clean(s2, p3);
        let ghost p4 = kw_opt("color"@, x.print_style.color);
        lemma_opt_piece("color"@, x.print_style.color);
        let ghost s4 = s3 + p4;
        lemma_ends_clean(s3, p4);
        assert(x.to_sexpr_spec() == SexprV::List(s4));
        assert(s4[0] == SexprV::Symbol("fermata"@)) by {
            assert(s1[0] == s0[0]);
            assert(s2[0] == s1[0]);
            assert(s3[0] == s2[0]);
            assert(s4[0] == s3[0]);
        }
        assert(find_kwarg_spec(s4, "shape"@) == (match x.shape { Some(y) => Some(y.to_sexpr_spec()), None => None })) by {
            lemma_find_head_key("fermata"@, "shape"@);
            if p1.len() == 2 { lemma_find_hit(s0, p1, "shape"@); } else { lemma_find_skip(s0, p1, "shape"@); }
            lemma_find_skip(s1, p2, "shape"@);
            lemma_find_skip(s2, p3, "shape"@);
            lemma_find_skip(s3, p4, "shape"@);
        }
        assert(find_kwarg_spec(s4, "type"@) == (match x.type_ { Some(y) => Some(y.to_sexpr_spec()), None => None })) by {
            lemma_find_head_key("fermata"@, "type"@);
            lemma_find_skip(s0, p1, "type"@);
            if p2.len() == 2 { lemma_find_hit(s1, p2, "type"@); } else { lemma_find_skip(s1, p2, "type"@); }
            lemma_find_skip(s2, p3, "type"@);
            lemma_find_skip(s3, p4, "type"@);
        }
        assert(find_kwarg_spec(s4, "position"@) == (if x.print_style.position.is_set() { Some(x.print_style.position.to_sexpr_spec()) } else { None })) by {
            lemma_find_head_key("fermata"@, "position"@);
            lemma_find_skip(s0, p1, "position"@);
            lemma_find_skip(s1, p2, "position"@);
            if p3.len() == 2 { lemma_find_hit(s2, p3, "position"@); } else { lemma_find_skip(s2, p3, "position"@); }
            lemma_find_skip(s3, p4, "position"@);
        }
        assert(find_kwarg_spec(s4, "color"@) == (match x.print_style.color { Some(y) => Some(y.to_sexpr_spec()), None => None })) by {
            lemma_find_head_key("fermata"@, "color"@);
            lemma_find_skip(s0, p1, "color"@);
            lemma_find_skip(s1, p2, "color"@);
            lemma_find_skip(s2, p3, "color"@);
            if p4.len() == 2 { lemma_find_hit(s3, p4, "color"@); } else { lemma_find_skip(s3, p4, "color"@); }
        }
}

impl RoundTrip for Fermata {
    /// A value whose parts are writable and whose unwritten parts are as reading gives them.
    open spec fn writable(&self) -> bool {
        self.print_style.position.writable()
            && self.print_style.color.writable()
            && self.shape.writable()
            && self.type_.writable()
            && self.print_style.font == font_none()
    }

    open spec fn same(&self, other: &Self) -> bool {
        self.print_style.position.same(&other.print_style.position)
            && self.print_style.color.same(&other.print_style.color)
            && self.shape.same(&other.shape)
            && self.type_.same(&other.type_)
            && self.print_style.font == other.print_style.font
    }

    proof fn lemma_not_keyword(&self) {
    }

    proof fn lemma_no_error(&self) {
        lemma_fermata_items(*self);
        self.print_style.position.lemma_no_error();
        self.print_style.color.lemma_no_error();
        self.shape.lemma_no_error();
        self.type_.lemma_no_error();
    }

    proof fn lemma_value(&self, v: Self) {
        lemma_fermata_items(*self);
        self.shape.lemma_value(v.shape);
        self.type_.lemma_value(v.type_);
        if self.print_style.position.is_set() {
            self.print_style.position.lemma_value(v.print_style.position);
        }
        self.print_style.color.lemma_value(v.print_style.color);
    }
}

/// The head and keyword arguments of the S-expression of a `Notations`.
pub proof fn lemma_notations_items(x: Notations)
    requires
        x.writable(),
    ensures
        x.to_sexpr_spec() matches SexprV::List(items) && items.len() > 0 && items[0] == SexprV::Symbol("notations"@)
            && find_kwarg_spec(items, "print-object"@) == (match x.print_object { Some(y) => Some(y.to_sexpr_spec()), None => None })
            && find_kwarg_spec(items, "content"@) == (if x.content@.len() > 0 { Some(x.content.to_sexpr_spec()) } else { None }),
{
        assert("content"@ != "print-object"@) by {
            reveal_strlit("content");
            assert("content"@.len() == 7);
            reveal_strlit("print-object");
            assert("print-object"@.len() == 12);
        }
        let ghost s0 = seq![SexprV::Symbol("notations"@)];
        assert(ends_clean(s0));
        let ghost p1 = kw_opt("print-object"@, x.print_object);
        lemma_opt_piece("print-object"@, x.print_object);
        let ghost s1 = s0 + p1;
        lemma_ends_clean(s0, p1);
        let ghost p2 = kw_if(x.content@.len() > 0, "content"@, x.content.to_sexpr_spec());
        x.content.lemma_not_keyword();
        lemma_if_piece(x.content@.len() > 0, "content"@, x.content.to_sexpr_spec());
        let ghost s2 = s1 + p2;
        lemma_ends_clean(s1, p2);
        assert(x.to_sexpr_spec() == SexprV::List(s2));
        assert(s2[0] == SexprV::Symbol("notations"@)) by {
            assert(s1[0] == s0[0]);
            assert(s2[0] == s1[0]);
        }
        assert(find_kwarg_spec(s2, "print-object"@) == (match x.print_object { Some(y) => Some(y.to_sexpr_spec()), None => None })) by {
            lemma_find_head_key("notations"@, "print-object"@);
            if p1.len() == 2 { lemma_find_hit(s0, p1, "print-object"@); } else { lemma_find_skip(s0, p1, "print-object"@); }
            lemma_find_skip(s1, p2, "print-object"@);
        }
        assert(find_kwarg_spec(s2, "content"@) == (if x.content@.len() > 0 { Some(x.content.to_sexpr_spec()) } else { None })) by {
            lemma_find_head_key("notations"@, "content"@);
            lemma_find_skip(s0, p1, "content"@);
            if p2.len() == 2 { lemma_find_hit(s1, p2, "content"@); } else { lemma_find_skip(s1, p2, "content"@); }
        }
}

impl RoundTrip for Notations {
    /// A value whose parts are writable and whose unwritten parts are as reading gives them.
    open spec fn writable(&self) -> bool {
        self.print_object.writable()
            && self.content.writable()
            && self.editorial == editorial_none()
    }

    open spec fn same(&self, other: &Self) -> bool {
        self.print_object.same(&other.print_object)
            && self.content.same(&other.content)
            && self.editorial == other.editorial
    }

    proof fn lemma_not_keyword(&self) {
    }

    proof fn lemma_no_error(&self) {
        lemma_notations_items(*self);
        self.print_object.lemma_no_error();
        self.content.lemma_no_error();
    }

    proof fn lemma_value(&self, v: Self) {
        lemma_notations_items(*self);
        self.print_object.lemma_value(v.print_object);
        if self.content@.len() > 0 {
            self.content.lemma_value(v.content);
        }
    }
}

impl RoundTrip for ArticulationElement {
    /// A variant holding a writable value.
    open spec fn writable(&self) -> bool {
        match self {
            ArticulationElement::Accent(x) => x.writable(),
            ArticulationElement::StrongAccent(x) => x.writable(),
            ArticulationElement::Staccato(x) => x.writable(),
            ArticulationElement::Tenuto(x) => x.writable(),
            ArticulationElement::DetachedLegato(x) => x.writable(),
            ArticulationElement::Staccatissimo(x) => x.writable(),
            ArticulationElement::Spiccato(x) => x.writable(),
            ArticulationElement::Scoop(x) => x.writable(),
            ArticulationElement::Plop(x) => x.writable(),
            ArticulationElement::Doit(x) => x.writable(),
            ArticulationElement::Falloff(x) => x.writable(),
            ArticulationElement::BreathMark(x) => x.writable(),
            ArticulationElement::Caesura(x) => x.writable(),
            ArticulationElement::Stress(x) => x.writable(),
            ArticulationElement::Unstress(x) => x.writable(),
            ArticulationElement::SoftAccent(x) => x.writable(),
            ArticulationElement::OtherArticulation(x) => x.writable(),
        }
    }

    open spec fn same(&self, other: &Self) -> bool {
        match (self, other) {
            (ArticulationElement::Accent(a), ArticulationElement::Accent(b)) => a.same(b),
            (ArticulationElement::StrongAccent(a), ArticulationElement::StrongAccent(b)) => a.same(b),
            (ArticulationElement::Staccato(a), ArticulationElement::Staccato(b)) => a.same(b),
            (ArticulationElement::Tenuto(a), ArticulationElement::Tenuto(b)) => a.same(b),
            (ArticulationElement::DetachedLegato(a), ArticulationElement::DetachedLegato(b)) => a.same(b),
            (ArticulationElement::Staccatissimo(a), ArticulationElement::Staccatissimo(b)) => a.same(b),
            (ArticulationElement::Spiccato(a), ArticulationElement::Spiccato(b)) => a.same(b),
            (ArticulationElement::Scoop(a), ArticulationElement::Scoop(b)) => a.same(b),
            (ArticulationElement::Plop(a), ArticulationElement::Plop(b)) => a.same(b),
            (ArticulationElement::Doit(a), ArticulationElement::Doit(b)) => a.same(b),
            (ArticulationElement::Falloff(a), ArticulationElement::Falloff(b)) => a.same(b),
            (ArticulationElement::BreathMark(a), ArticulationElement::BreathMark(b)) => a.same(b),
            (ArticulationElement::Caesura(a), ArticulationElement::Caesura(b)) => a.same(b),
            (ArticulationElement::Stress(a), ArticulationElement::Stress(b)) => a.same(b),
            (ArticulationElement::Unstress(a), ArticulationElement::Unstress(b)) => a.same(b),
            (ArticulationElement::SoftAccent(a), ArticulationElement::SoftAccent(b)) => a.same(b),
            (ArticulationElement::OtherArticulation(a), ArticulationElement::OtherArticulation(b)) => a.same(b),
            _ => false,
        }
    }

    proof fn lemma_not_keyword(&self) {
        match self {
            ArticulationElement::Accent(x) => x.lemma_not_keyword(),
            ArticulationElement::StrongAccent(x) => x.lemma_not_keyword(),
            ArticulationElement::Staccato(x) => x.lemma_not_keyword(),
            ArticulationElement::Tenuto(x) => x.lemma_not_keyword(),
            ArticulationElement::DetachedLegato(x) => x.lemma_not_keyword(),
            ArticulationElement::Staccatissimo(x) => x.lemma_not_keyword(),
            ArticulationElement::Spiccato(x) => x.lemma_not_keyword(),
            ArticulationElement::Scoop(x) => x.lemma_not_keyword(),
            ArticulationElement::Plop(x) => x.lemma_not_keyword(),
            ArticulationElement::Doit(x) => x.lemma_not_keyword(),
            ArticulationElement::Falloff(x) => x.lemma_not_keyword(),
            ArticulationElement::BreathMark(x) => x.lemma_not_keyword(),
            ArticulationElement::Caesura(x) => x.lemma_not_keyword(),
            ArticulationElement::Stress(x) => x.lemma_not_keyword(),
            ArticulationElement::Unstress(x) => x.lemma_not_keyword(),
            ArticulationElement::SoftAccent(x) => x.lemma_not_keyword(),
            ArticulationElement::OtherArticulation(x) => x.lemma_not_keyword(),
        }
    }

    #[verifier::rlimit(100)]
    proof fn lemma_no_error(&self) {
        reveal_strlit("accent");
        assert("accent"@.len() == 6);
        reveal_strlit("strong-accent");
        assert("strong-accent"@.len() == 13);
        reveal_strlit("staccato");
        assert("staccato"@.len() == 8);
        reveal_strlit("tenuto");
        assert("tenuto"@.len() == 6);
        reveal_strlit("detached-legato");
        assert("detached-legato"@.len() == 15);
        reveal_strlit("staccatissimo");
        assert("staccatissimo"@.len() == 13);
        reveal_strlit("spiccato");
        assert("spiccato"@.len() == 8);
        reveal_strlit("scoop");
        assert("scoop"@.len() == 5);
        reveal_strlit("plop");
        assert("plop"@.len() == 4);
        reveal_strlit("doit");
        assert("doit"@.len() == 4);
        reveal_strlit("falloff");
        assert("falloff"@.len() == 7);
        reveal_strlit("breath-mark");
        assert("breath-mark"@.len() == 11);
        reveal_strlit("caesura");
        assert("caesura"@.len() == 7);
        reveal_strlit("stress");
        assert("stress"@.len() == 6);
        reveal_strlit("unstress");
        assert("unstress"@.len() == 8);
        reveal_strlit("soft-accent");
        assert("soft-accent"@.len() == 11);
        reveal_strlit("other-articulation");
        assert("other-articulation"@.len() == 18);
        reveal_strlit("data");
        assert("data"@.len() == 4);
        assert("accent"@[0] == 'a');
        assert("tenuto"@[0] == 't');
        assert("stress"@[0] == 's');
        assert("strong-accent"@[2] == 'r');
        assert("staccatissimo"@[2] == 'a');
        assert("staccato"@[1] == 't');
        assert("spiccato"@[1] == 'p');
        assert("staccato"@[0] == 's');
        assert("unstress"@[0] == 'u');
        assert("spiccato"@[0] == 's');
        assert("plop"@[0] == 'p');
        assert("doit"@[0] == 'd');
        assert("data"@[0] == 'd');
        assert("doit"@[1] == 'o');
        assert("data"@[1] == 'a');
        assert("falloff"@[0] == 'f');
        assert("caesura"@[0] == 'c');
        assert("breath-mark"@[0] == 'b');
        assert("soft-accent"@[0] == 's');
        match self {
            ArticulationElement::Accent(x) => {
                x.lemma_no_error();
                lemma_find_head_key("accent"@, "data"@);
                lemma_find_after_key(seq![SexprV::Symbol("accent"@)], kw_pair("data"@, x.to_sexpr_spec()), "data"@);
                assert((seq![SexprV::Symbol("accent"@)] + kw_pair("data"@, x.to_sexpr_spec()))[0] == SexprV::Symbol("accent"@));
            },
            ArticulationElement::StrongAccent(x) => {
                x.lemma_no_error();
                lemma_strong_accent_items(*x);
            },
            ArticulationElement::Staccato(x) => {
                x.lemma_no_error();
                lemma_find_head_key("staccato"@, "data"@);
                lemma_find_after_key(seq![SexprV::Symbol("staccato"@)], kw_pair("data"@, x.to_sexpr_spec()), "data"@);
                assert((seq![SexprV::Symbol("staccato"@)] + kw_pair("data"@, x.to_sexpr_spec()))[0] == SexprV::Symbol("staccato"@));
            },
            ArticulationElement::Tenuto(x) => {
                x.lemma_no_error();
                lemma_find_head_key("tenuto"@, "data"@);
                lemma_find_after_key(seq![SexprV::Symbol("tenuto"@)], kw_pair("data"@, x.to_sexpr_spec()), "data"@);
                assert((seq![SexprV::Symbol("tenuto"@)] + kw_pair("data"@, x.to_sexpr_spec()))[0] == SexprV::Symbol("tenuto"@));
            },
            ArticulationElement::DetachedLegato(x) => {
                x.lemma_no_error();
                lemma_find_head_key("detached-legato"@, "data"@);
                lemma_find_after_key(seq![SexprV::Symbol("detached-legato"@)], kw_pair("data"@, x.to_sexpr_spec()), "data"@);
                assert((seq![SexprV::Symbol("detached-legato"@)] + kw_pair("data"@, x.to_sexpr_spec()))[0] == SexprV::Symbol("detached-legato"@));
            },
            ArticulationElement::Staccatissimo(x) => {
                x.lemma_no_error();
                lemma_find_head_key("staccatissimo"@, "data"@);
                lemma_find_after_key(seq![SexprV::Symbol("staccatissimo"@)], kw_pair("data"@, x.to_sexpr_spec()), "data"@);
                assert((seq![SexprV::Symbol("staccatissimo"@)] + kw_pair("data"@, x.to_sexpr_spec()))[0] == SexprV::Symbol("staccatissimo"@));
            },
            ArticulationElement::Spiccato(x) => {
                x.lemma_no_error();
                lemma_find_head_key("spiccato"@, "data"@);
                lemma_find_after_key(seq![SexprV::Symbol("spiccato"@)], kw_pair("data"@, x.to_sexpr_spec()), "data"@);
                assert((seq![SexprV::Symbol("spiccato"@)] + kw_pair("data"@, x.to_sexpr_spec()))[0] == SexprV::Symbol("spiccato"@));
            },
            ArticulationElement::Scoop(x) => {
                x.lemma_no_error();
                lemma_find_head_key("scoop"@, "data"@);
                lemma_find_after_key(seq![SexprV::Symbol("scoop"@)], kw_pair("data"@, x.to_sexpr_spec()), "data"@);
                assert((seq![SexprV::Symbol("scoop"@)] + kw_pair("data"@, x.to_sexpr_spec()))[0] == SexprV::Symbol("scoop"@));
            },
            ArticulationElement::Plop(x) => {
                x.lemma_no_error();
                lemma_find_head_key("plop"@, "data"@);
                lemma_find_after_key(seq![SexprV::Symbol("plop"@)], kw_pair("data"@, x.to_sexpr_spec()), "data"@);
                assert((seq![SexprV::Symbol("plop"@)] + kw_pair("data"@, x.to_sexpr_spec()))[0] == SexprV::Symbol("plop"@));
            },
            ArticulationElement::Doit(x) => {
                x.lemma_no_error();
                lemma_find_head_key("doit"@, "data"@);
                lemma_find_after_key(seq![SexprV::Symbol("doit"@)], kw_pair("data"@, x.to_sexpr_spec()), "data"@);
                assert((seq![SexprV::Symbol("doit"@)] + kw_pair("data"@, x.to_sexpr_spec()))[0] == SexprV::Symbol("doit"@));
            },
            ArticulationElement::Falloff(x) => {
                x.lemma_no_error();
                lemma_find_head_key("falloff"@, "data"@);
                lemma_find_after_key(seq![SexprV::Symbol("falloff"@)], kw_pair("data"@, x.to_sexpr_spec()), "data"@);
                assert((seq![SexprV::Symbol("falloff"@)] + kw_pair("data"@, x.to_sexpr_spec()))[0] == SexprV::Symbol("falloff"@));
            },
            ArticulationElement::BreathMark(x) => {
                x.lemma_no_error();
                lemma_breath_mark_items(*x);
            },
            ArticulationElement::Caesura(x) => {
                x.lemma_no_error();
                lemma_caesura_items(*x);
            },
            ArticulationElement::Stress(x) => {
                x.lemma_no_error();
                lemma_find_head_key("stress"@, "data"@);
                lemma_find_after_key(seq![SexprV::Symbol("stress"@)], kw_pair("data"@, x.to_sexpr_spec()), "data"@);
                assert((seq![SexprV::Symbol("stress"@)] + kw_pair("data"@, x.to_sexpr_spec()))[0] == SexprV::Symbol("stress"@));
            },
            ArticulationElement::Unstress(x) => {
                x.lemma_no_error();
                lemma_find_head_key("unstress"@, "data"@);
                lemma_find_after_key(seq![SexprV::Symbol("unstress"@)], kw_pair("data"@, x.to_sexpr_spec()), "data"@);
                assert((seq![SexprV::Symbol("unstress"@)] + kw_pair("data"@, x.to_sexpr_spec()))[0] == SexprV::Symbol("unstress"@));
            },
            ArticulationElement::SoftAccent(x) => {
                x.lemma_no_error();
                lemma_find_head_key("soft-accent"@, "data"@);
                lemma_find_after_key(seq![SexprV::Symbol("soft-accent"@)], kw_pair("data"@, x.to_sexpr_spec()), "data"@);
                assert((seq![SexprV::Symbol("soft-accent"@)] + kw_pair("data"@, x.to_sexpr_spec()))[0] == SexprV::Symbol("soft-accent"@));
            },
            ArticulationElement::OtherArticulation(x) => {
                x.lemma_no_error();
                lemma_other_articulation_items(*x);
            },
        }
    }

    #[verifier::rlimit(100)]
    proof fn lemma_value(&self, v: Self) {
        reveal_strlit("accent");
        assert("accent"@.len() == 6);
        reveal_strlit("strong-accent");
        assert("strong-accent"@.len() == 13);
        reveal_strlit("staccato");
        assert("staccato"@.len() == 8);
        reveal_strlit("tenuto");
        assert("tenuto"@.len() == 6);
        reveal_strlit("detached-legato");
        assert("detached-legato"@.len() == 15);
        reveal_strlit("staccatissimo");
        assert("staccatissimo"@.len() == 13);
        reveal_strlit("spiccato");
        assert("spiccato"@.len() == 8);
        reveal_strlit("scoop");
        assert("scoop"@.len() == 5);
        reveal_strlit("plop");
        assert("plop"@.len() == 4);
        reveal_strlit("doit");
        assert("doit"@.len() == 4);
        reveal_strlit("falloff");
        assert("falloff"@.len() == 7);
        reveal_strlit("breath-mark");
        assert("breath-mark"@.len() == 11);
        reveal_strlit("caesura");
        assert("caesura"@.len() == 7);
        reveal_strlit("stress");
        assert("stress"@.len() == 6);
        reveal_strlit("unstress");
        assert("unstress"@.len() == 8);
        reveal_strlit("soft-accent");
        assert("soft-accent"@.len() == 11);
        reveal_strlit("other-articulation");
        assert("other-articulation"@.len() == 18);
        reveal_strlit("data");
        assert("data"@.len() == 4);
        assert("accent"@[0] == 'a');
        assert("tenuto"@[0] == 't');
        assert("stress"@[0] == 's');
        assert("strong-accent"@[2] == 'r');
        assert("staccatissimo"@[2] == 'a');
        assert("staccato"@[1] == 't');
        assert("spiccato"@[1] == 'p');
        assert("staccato"@[0] == 's');
        assert("unstress"@[0] == 'u');
        assert("spiccato"@[0] == 's');
        assert("plop"@[0] == 'p');
        assert("doit"@[0] == 'd');
        assert("data"@[0] == 'd');
        assert("doit"@[1] == 'o');
        assert("data"@[1] == 'a');
        assert("falloff"@[0] == 'f');
        assert("caesura"@[0] == 'c');
        assert("breath-mark"@[0] == 'b');
        assert("soft-accent"@[0] == 's');
        match self {
            ArticulationElement::Accent(x) => {
                x.lemma_no_error();
                lemma_find_head_key("accent"@, "data"@);
                lemma_find_after_key(seq![SexprV::Symbol("accent"@)], kw_pair("data"@, x.to_sexpr_spec()), "data"@);
                assert((seq![SexprV::Symbol("accent"@)] + kw_pair("data"@, x.to_sexpr_spec()))[0] == SexprV::Symbol("accent"@));
                if let ArticulationElement::Accent(z) = v {
                    x.lemma_value(z);
                }
            },
            ArticulationElement::StrongAccent(x) => {
                x.lemma_no_error();
                lemma_strong_accent_items(*x);
                if let ArticulationElement::StrongAccent(z) = v {
                    x.lemma_value(z);
                }
            },
            ArticulationElement::Staccato(x) => {
                x.lemma_no_error();
                lemma_find_head_key("staccato"@, "data"@);
                lemma_find_after_key(seq![SexprV::Symbol("staccato"@)], kw_pair("data"@, x.to_sexpr_spec()), "data"@);
                assert((seq![SexprV::Symbol("staccato"@)] + kw_pair("data"@, x.to_sexpr_spec()))[0] == SexprV::Symbol("staccato"@));
                if let ArticulationElement::Staccato(z) = v {
                    x.lemma_value(z);
                }
            },
            ArticulationElement::Tenuto(x) => {
                x.lemma_no_error();
                lemma_find_head_key("tenuto"@, "data"@);
                lemma_find_after_key(seq![SexprV::Symbol("tenuto"@)], kw_pair("data"@, x.to_sexpr_spec()), "data"@);
                assert((seq![SexprV::Symbol("tenuto"@)] + kw_pair("data"@, x.to_sexpr_spec()))[0] == SexprV::Symbol("tenuto"@));
                if let ArticulationElement::Tenuto(z) = v {
                    x.lemma_value(z);
                }
            },
            ArticulationElement::DetachedLegato(x) => {
                x.lemma_no_error();
                lemma_find_head_key("detached-legato"@, "data"@);
                lemma_find_after_key(seq![SexprV::Symbol("detached-legato"@)], kw_pair("data"@, x.to_sexpr_spec()), "data"@);
                assert((seq![SexprV::Symbol("detached-legato"@)] + kw_pair("data"@, x.to_sexpr_spec()))[0] == SexprV::Symbol("detached-legato"@));
                if let ArticulationElement::DetachedLegato(z) = v {
                    x.lemma_value(z);
                }
            },
            ArticulationElement::Staccatissimo(x) => {
                x.lemma_no_error();
                lemma_find_head_key("staccatissimo"@, "data"@);
                lemma_find_after_key(seq![SexprV::Symbol("staccatissimo"@)], kw_pair("data"@, x.to_sexpr_spec()), "data"@);
                assert((seq![SexprV::Symbol("staccatissimo"@)] + kw_pair("data"@, x.to_sexpr_spec()))[0] == SexprV::Symbol("staccatissimo"@));
                if let ArticulationElement::Staccatissimo(z) = v {
                    x.lemma_value(z);
                }
            },
            ArticulationElement::Spiccato(x) => {
                x.lemma_no_error();
                lemma_find_head_key("spiccato"@, "data"@);
                lemma_find_after_key(seq![SexprV::Symbol("spiccato"@)], kw_pair("data"@, x.to_sexpr_spec()), "data"@);
                assert((seq![SexprV::Symbol("spiccato"@)] + kw_pair("data"@, x.to_sexpr_spec()))[0] == SexprV::Symbol("spiccato"@));
                if let ArticulationElement::Spiccato(z) = v {
                    x.lemma_value(z);
                }
            },
            ArticulationElement::Scoop(x) => {
                x.lemma_no_error();
                lemma_find_head_key("scoop"@, "data"@);
                lemma_find_after_key(seq![SexprV::Symbol("scoop"@)], kw_pair("data"@, x.to_sexpr_spec()), "data"@);
                assert((seq![SexprV::Symbol("scoop"@)] + kw_pair("data"@, x.to_sexpr_spec()))[0] == SexprV::Symbol("scoop"@));
                if let ArticulationElement::Scoop(z) = v {
                    x.lemma_value(z);
                }
            },
            ArticulationElement::Plop(x) => {
                x.lemma_no_error();
                lemma_find_head_key("plop"@, "data"@);
                lemma_find_after_key(seq![SexprV::Symbol("plop"@)], kw_pair("data"@, x.to_sexpr_spec()), "data"@);
                assert((seq![SexprV::Symbol("plop"@)] + kw_pair("data"@, x.to_sexpr_spec()))[0] == SexprV::Symbol("plop"@));
                if let ArticulationElement::Plop(z) = v {
                    x.lemma_value(z);
                }
            },
            ArticulationElement::Doit(x) => {
                x.lemma_no_error();
                lemma_find_head_key("doit"@, "data"@);
                lemma_find_after_key(seq![SexprV::Symbol("doit"@)], kw_pair("data"@, x.to_sexpr_spec()), "data"@);
                assert((seq![SexprV::Symbol("doit"@)] + kw_pair("data"@, x.to_sexpr_spec()))[0] == SexprV::Symbol("doit"@));
                if let ArticulationElement::Doit(z) = v {
                    x.lemma_value(z);
                }
            },
            ArticulationElement::Falloff(x) => {
                x.lemma_no_error();
                lemma_find_head_key("falloff"@, "data"@);
                lemma_find_after_key(seq![SexprV::Symbol("falloff"@)], kw_pair("data"@, x.to_sexpr_spec()), "data"@);
                assert((seq![SexprV::Symbol("falloff"@)] + kw_pair("data"@, x.to_sexpr_spec()))[0] == SexprV::Symbol("falloff"@));
                if let ArticulationElement::Falloff(z) = v {
                    x.lemma_value(z);
                }
            },
            ArticulationElement::BreathMark(x) => {
                x.lemma_no_error();
                lemma_breath_mark_items(*x);
                if let ArticulationElement::BreathMark(z) = v {
                    x.lemma_value(z);
                }
            },
            ArticulationElement::Caesura(x) => {
                x.lemma_no_error();
                lemma_caesura_items(*x);
                if let ArticulationElement::Caesura(z) = v {
                    x.lemma_value(z);
                }
            },
            ArticulationElement::Stress(x) => {
                x.lemma_no_error();
                lemma_find_head_key("stress"@, "data"@);
                lemma_find_after_key(seq![SexprV::Symbol("stress"@)], kw_pair("data"@, x.to_sexpr_spec()), "data"@);
                assert((seq![SexprV::Symbol("stress"@)] + kw_pair("data"@, x.to_sexpr_spec()))[0] == SexprV::Symbol("stress"@));
                if let ArticulationElement::Stress(z) = v {
                    x.lemma_value(z);
                }
            },
            ArticulationElement::Unstress(x) => {
                x.lemma_no_error();
                lemma_find_head_key("unstress"@, "data"@);
                lemma_find_after_key(seq![SexprV::Symbol("unstress"@)], kw_pair("data"@, x.to_sexpr_spec()), "data"@);
                assert((seq![SexprV::Symbol("unstress"@)] + kw_pair("data"@, x.to_sexpr_spec()))[0] == SexprV::Symbol("unstress"@));
                if let ArticulationElement::Unstress(z) = v {
                    x.lemma_value(z);
                }
            },
            ArticulationElement::SoftAccent(x) => {
                x.lemma_no_error();
                lemma_find_head_key("soft-accent"@, "data"@);
                lemma_find_after_key(seq![SexprV::Symbol("soft-accent"@)], kw_pair("data"@, x.to_sexpr_spec()), "data"@);
                assert((seq![SexprV::Symbol("soft-accent"@)] + kw_pair("data"@, x.to_sexpr_spec()))[0] == SexprV::Symbol("soft-accent"@));
                if let ArticulationElement::SoftAccent(z) = v {
                    x.lemma_value(z);
                }
            },
            ArticulationElement::OtherArticulation(x) => {
                x.lemma_no_error();
                lemma_other_articulation_items(*x);
                if let ArticulationElement::OtherArticulation(z) = v {
                    x.lemma_value(z);
                }
            },
        }
    }
}

impl RoundTrip for OrnamentElement {
    /// A variant holding a writable value.
    open spec fn writable(&self) -> bool {
        match self {
            OrnamentElement::TrillMark(x) => x.writable(),
            OrnamentElement::Turn(x) => x.writable(),
            OrnamentElement::DelayedTurn(x) => x.writable(),
            OrnamentElement::InvertedTurn(x) => x.writable(),
            OrnamentElement::DelayedInvertedTurn(x) => x.writable(),
            OrnamentElement::VerticalTurn(x) => x.writable(),
            OrnamentElement::InvertedVerticalTurn(x) => x.writable(),
            OrnamentElement::Shake(x) => x.writable(),
            OrnamentElement::WavyLine(x) => x.writable(),
            OrnamentElement::Mordent(x) => x.writable(),
            OrnamentElement::InvertedMordent(x) => x.writable(),
            OrnamentElement::Schleifer(x) => x.writable(),
            OrnamentElement::Tremolo(x) => x.writable(),
            OrnamentElement::Haydn(x) => x.writable(),
            OrnamentElement::OtherOrnament(x) => x.writable(),
        }
    }

    open spec fn same(&self, other: &Self) -> bool {
        match (self, other) {
            (OrnamentElement::TrillMark(a), OrnamentElement::TrillMark(b)) => a.same(b),
            (OrnamentElement::Turn(a), OrnamentElement::Turn(b)) => a.same(b),
            (OrnamentElement::DelayedTurn(a), OrnamentElement::DelayedTurn(b)) => a.same(b),
            (OrnamentElement::InvertedTurn(a), OrnamentElement::InvertedTurn(b)) => a.same(b),
            (OrnamentElement::DelayedInvertedTurn(a), OrnamentElement::DelayedInvertedTurn(b)) => a.same(b),
            (OrnamentElement::VerticalTurn(a), OrnamentElement::VerticalTurn(b)) => a.same(b),
            (OrnamentElement::InvertedVerticalTurn(a), OrnamentElement::InvertedVerticalTurn(b)) => a.same(b),
            (OrnamentElement::Shake(a), OrnamentElement::Shake(b)) => a.same(b),
            (OrnamentElement::WavyLine(a), OrnamentElement::WavyLine(b)) => a.same(b),
            (OrnamentElement::Mordent(a), OrnamentElement::Mordent(b)) => a.same(b),
            (OrnamentElement::InvertedMordent(a), OrnamentElement::InvertedMordent(b)) => a.same(b),
            (OrnamentElement::Schleifer(a), OrnamentElement::Schleifer(b)) => a.same(b),
            (OrnamentElement::Tremolo(a), OrnamentElement::Tremolo(b)) => a.same(b),
            (OrnamentElement::Haydn(a), OrnamentElement::Haydn(b)) => a.same(b),
            (OrnamentElement::OtherOrnament(a), OrnamentElement::OtherOrnament(b)) => a.same(b),
            _ => false,
        }
    }

    proof fn lemma_not_keyword(&self) {
        match self {
            OrnamentElement::TrillMark(x) => x.lemma_not_keyword(),
            OrnamentElement::Turn(x) => x.lemma_not_keyword(),
            OrnamentElement::DelayedTurn(x) => x.lemma_not_keyword(),
            OrnamentElement::InvertedTurn(x) => x.lemma_not_keyword(),
            OrnamentElement::DelayedInvertedTurn(x) => x.lemma_not_keyword(),
            OrnamentElement::VerticalTurn(x) => x.lemma_not_keyword(),
            OrnamentElement::InvertedVerticalTurn(x) => x.lemma_not_keyword(),
            OrnamentElement::Shake(x) => x.lemma_not_keyword(),
            OrnamentElement::WavyLine(x) => x.lemma_not_keyword(),
            OrnamentElement::Mordent(x) => x.lemma_not_keyword(),
            OrnamentElement::InvertedMordent(x) => x.lemma_not_keyword(),
            OrnamentElement::Schleifer(x) => x.lemma_not_keyword(),
            OrnamentElement::Tremolo(x) => x.lemma_not_keyword(),
            OrnamentElement::Haydn(x) => x.lemma_not_keyword(),
            OrnamentElement::OtherOrnament(x) => x.lemma_not_keyword(),
        }
    }

    #[verifier::rlimit(100)]
    proof fn lemma_no_error(&self) {
        reveal_strlit("trill-mark");
        assert("trill-mark"@.len() == 10);
        reveal_strlit("turn");
        assert("turn"@.len() == 4);
        reveal_strlit("delayed-turn");
        assert("delayed-turn"@.len() == 12);
        reveal_strlit("inverted-turn");
        assert("inverted-turn"@.len() == 13);
        reveal_strlit("delayed-inverted-turn");
        assert("delayed-inverted-turn"@.len() == 21);
        reveal_strlit("vertical-turn");
        assert("vertical-turn"@.len() == 13);
        reveal_strlit("inverted-vertical-turn");
        assert("inverted-vertical-turn"@.len() == 22);
        reveal_strlit("shake");
        assert("shake"@.len() == 5);
        reveal_strlit("wavy-line");
        assert("wavy-line"@.len() == 9);
        reveal_strlit("mordent");
        assert("mordent"@.len() == 7);
        reveal_strlit("inverted-mordent");
        assert("inverted-mordent"@.len() == 16);
        reveal_strlit("schleifer");
        assert("schleifer"@.len() == 9);
        reveal_strlit("tremolo");
        assert("tremolo"@.len() == 7);
        reveal_strlit("haydn");
        assert("haydn"@.len() == 5);
        reveal_strlit("other-ornament");
        assert("other-ornament"@.len() == 14);
        reveal_strlit("data");
        assert("data"@.len() == 4);
        assert("turn"@[0] == 't');
        assert("data"@[0] == 'd');
        assert("inverted-turn"@[0] == 'i');
        assert("vertical-turn"@[0] == 'v');
        assert("shake"@[0] == 's');
        assert("haydn"@[0] == 'h');
        assert("wavy-line"@[0] == 'w');
        assert("schleifer"@[0] == 's');
        assert("mordent"@[0] == 'm');
        assert("tremolo"@[0] == 't');
        match self {
            OrnamentElement::TrillMark(x) => {
                x.lemma_no_error();
                lemma_find_head_key("trill-mark"@, "data"@);
                lemma_find_after_key(seq![SexprV::Symbol("trill-mark"@)], kw_pair("data"@, x.to_sexpr_spec()), "data"@);
                assert((seq![SexprV::Symbol("trill-mark"@)] + kw_pair("data"@, x.to_sexpr_spec()))[0] == SexprV::Symbol("trill-mark"@));
            },
            OrnamentElement::Turn(x) => {
                x.lemma_no_error();
                lemma_turn_items(*x);
            },
            OrnamentElement::DelayedTurn(x) => {
                x.lemma_no_error();
                lemma_find_head_key("delayed-turn"@, "data"@);
                lemma_find_after_key(seq![SexprV::Symbol("delayed-turn"@)], kw_pair("data"@, x.to_sexpr_spec()), "data"@);
                assert((seq![SexprV::Symbol("delayed-turn"@)] + kw_pair("data"@, x.to_sexpr_spec()))[0] == SexprV::Symbol("delayed-turn"@));
            },
            OrnamentElement::InvertedTurn(x) => {
                x.lemma_no_error();
                lemma_find_head_key("inverted-turn"@, "data"@);
                lemma_find_after_key(seq![SexprV::Symbol("inverted-turn"@)], kw_pair("data"@, x.to_sexpr_spec()), "data"@);
                assert((seq![SexprV::Symbol("inverted-turn"@)] + kw_pair("data"@, x.to_sexpr_spec()))[0] == SexprV::Symbol("inverted-turn"@));
            },
            OrnamentElement::DelayedInvertedTurn(x) => {
                x.lemma_no_error();
                lemma_find_head_key("delayed-inverted-turn"@, "data"@);
                lemma_find_after_key(seq![SexprV::Symbol("delayed-inverted-turn"@)], kw_pair("data"@, x.to_sexpr_spec()), "data"@);
                assert((seq![SexprV::Symbol("delayed-inverted-turn"@)] + kw_pair("data"@, x.to_sexpr_spec()))[0] == SexprV::Symbol("delayed-inverted-turn"@));
            },
            OrnamentElement::VerticalTurn(x) => {
                x.lemma_no_error();
                lemma_find_head_key("vertical-turn"@, "data"@);
                lemma_find_after_key(seq![SexprV::Symbol("vertical-turn"@)], kw_pair("data"@, x.to_sexpr_spec()), "data"@);
                assert((seq![SexprV::Symbol("vertical-turn"@)] + kw_pair("data"@, x.to_sexpr_spec()))[0] == SexprV::Symbol("vertical-turn"@));
            },
            OrnamentElement::InvertedVerticalTurn(x) => {
                x.lemma_no_error();
                lemma_find_head_key("inverted-vertical-turn"@, "data"@);
                lemma_find_after_key(seq![SexprV::Symbol("inverted-vertical-turn"@)], kw_pair("data"@, x.to_sexpr_spec()), "data"@);
                assert((seq![SexprV::Symbol("inverted-vertical-turn"@)] + kw_pair("data"@, x.to_sexpr_spec()))[0] == SexprV::Symbol("inverted-vertical-turn"@));
            },
            OrnamentElement::Shake(x) => {
                x.lemma_no_error();
                lemma_find_head_key("shake"@, "data"@);
                lemma_find_after_key(seq![SexprV::Symbol("shake"@)], kw_pair("data"@, x.to_sexpr_spec()), "data"@);
                assert((seq![SexprV::Symbol("shake"@)] + kw_pair("data"@, x.to_sexpr_spec()))[0] == SexprV::Symbol("shake"@));
            },
            OrnamentElement::WavyLine(x) => {
                x.lemma_no_error();
                lemma_find_head_key("wavy-line"@, "data"@);
                lemma_find_after_key(seq![SexprV::Symbol("wavy-line"@)], kw_pair("data"@, x.to_sexpr_spec()), "data"@);
                assert((seq![SexprV::Symbol("wavy-line"@)] + kw_pair("data"@, x.to_sexpr_spec()))[0] == SexprV::Symbol("wavy-line"@));
            },
            OrnamentElement::Mordent(x) => {
                x.lemma_no_error();
                lemma_mordent_items(*x);
            },
            OrnamentElement::InvertedMordent(x) => {
                x.lemma_no_error();
                lemma_find_head_key("inverted-mordent"@, "data"@);
                lemma_find_after_key(seq![SexprV::Symbol("inverted-mordent"@)], kw_pair("data"@, x.to_sexpr_spec()), "data"@);
                assert((seq![SexprV::Symbol("inverted-mordent"@)] + kw_pair("data"@, x.to_sexpr_spec()))[0] == SexprV::Symbol("inverted-mordent"@));
            },
            OrnamentElement::Schleifer(x) => {
                x.lemma_no_error();
                lemma_find_head_key("schleifer"@, "data"@);
                lemma_find_after_key(seq![SexprV::Symbol("schleifer"@)], kw_pair("data"@, x.to_sexpr_spec()), "data"@);
                assert((seq![SexprV::Symbol("schleifer"@)] + kw_pair("data"@, x.to_sexpr_spec()))[0] == SexprV::Symbol("schleifer"@));
            },
            OrnamentElement::Tremolo(x) => {
                x.lemma_no_error();
                lemma_tremolo_items(*x);
            },
            OrnamentElement::Haydn(x) => {
                x.lemma_no_error();
                lemma_find_head_key("haydn"@, "data"@);
                lemma_find_after_key(seq![SexprV::Symbol("haydn"@)], kw_pair("data"@, x.to_sexpr_spec()), "data"@);
                assert((seq![SexprV::Symbol("haydn"@)] + kw_pair("data"@, x.to_sexpr_spec()))[0] == SexprV::Symbol("haydn"@));
            },
            OrnamentElement::OtherOrnament(x) => {
                x.lemma_no_error();
                lemma_other_ornament_items(*x);
            },
        }
    }

    #[verifier::rlimit(100)]
    proof fn lemma_value(&self, v: Self) {
        reveal_strlit("trill-mark");
        assert("trill-mark"@.len() == 10);
        reveal_strlit("turn");
        assert("turn"@.len() == 4);
        reveal_strlit("delayed-turn");
        assert("delayed-turn"@.len() == 12);
        reveal_strlit("inverted-turn");
        assert("inverted-turn"@.len() == 13);
        reveal_strlit("delayed-inverted-turn");
        assert("delayed-inverted-turn"@.len() == 21);
        reveal_strlit("vertical-turn");
        assert("vertical-turn"@.len() == 13);
        reveal_strlit("inverted-vertical-turn");
        assert("inverted-vertical-turn"@.len() == 22);
        reveal_strlit("shake");
        assert("shake"@.len() == 5);
        reveal_strlit("wavy-line");
        assert("wavy-line"@.len() == 9);
        reveal_strlit("mordent");
        assert("mordent"@.len() == 7);
        reveal_strlit("inverted-mordent");
        assert("inverted-mordent"@.len() == 16);
        reveal_strlit("schleifer");
        assert("schleifer"@.len() == 9);
        reveal_strlit("tremolo");
        assert("tremolo"@.len() == 7);
        reveal_strlit("haydn");
        assert("haydn"@.len() == 5);
        reveal_strlit("other-ornament");
        assert("other-ornament"@.len() == 14);
        reveal_strlit("data");
        assert("data"@.len() == 4);
        assert("turn"@[0] == 't');
        assert("data"@[0] == 'd');
        assert("inverted-turn"@[0] == 'i');
        assert("vertical-turn"@[0] == 'v');
        assert("shake"@[0] == 's');
        assert("haydn"@[0] == 'h');
        assert("wavy-line"@[0] == 'w');
        assert("schleifer"@[0] == 's');
        assert("mordent"@[0] == 'm');
        assert("tremolo"@[0] == 't');
        match self {
            OrnamentElement::TrillMark(x) => {
                x.lemma_no_error();
                lemma_find_head_key("trill-mark"@, "data"@);
                lemma_find_after_key(seq![SexprV::Symbol("trill-mark"@)], kw_pair("data"@, x.to_sexpr_spec()), "data"@);
                assert((seq![SexprV::Symbol("trill-mark"@)] + kw_pair("data"@, x.to_sexpr_spec()))[0] == SexprV::Symbol("trill-mark"@));
                if let OrnamentElement::TrillMark(z) = v {
                    x.lemma_value(z);
                }
            },
            OrnamentElement::Turn(x) => {
                x.lemma_no_error();
                lemma_turn_items(*x);
                if let OrnamentElement::Turn(z) = v {
                    x.lemma_value(z);
                }
            },
            OrnamentElement::DelayedTurn(x) => {
                x.lemma_no_error();
                lemma_find_head_key("delayed-turn"@, "data"@);
                lemma_find_after_key(seq![SexprV::Symbol("delayed-turn"@)], kw_pair("data"@, x.to_sexpr_spec()), "data"@);
                assert((seq![SexprV::Symbol("delayed-turn"@)] + kw_pair("data"@, x.to_sexpr_spec()))[0] == SexprV::Symbol("delayed-turn"@));
                if let OrnamentElement::DelayedTurn(z) = v {
                    x.lemma_value(z);
                }
            },
            OrnamentElement::InvertedTurn(x) => {
                x.lemma_no_error();
                lemma_find_head_key("inverted-turn"@, "data"@);
                lemma_find_after_key(seq![SexprV::Symbol("inverted-turn"@)], kw_pair("data"@, x.to_sexpr_spec()), "data"@);
                assert((seq![SexprV::Symbol("inverted-turn"@)] + kw_pair("data"@, x.to_sexpr_spec()))[0] == SexprV::Symbol("inverted-turn"@));
                if let OrnamentElement::InvertedTurn(z) = v {
                    x.lemma_value(z);
                }
            },
            OrnamentElement::DelayedInvertedTurn(x) => {
                x.lemma_no_error();
                lemma_find_head_key("delayed-inverted-turn"@, "data"@);
                lemma_find_after_key(seq![SexprV::Symbol("delayed-inverted-turn"@)], kw_pair("data"@, x.to_sexpr_spec()), "data"@);
                assert((seq![SexprV::Symbol("delayed-inverted-turn"@)] + kw_pair("data"@, x.to_sexpr_spec()))[0] == SexprV::Symbol("delayed-inverted-turn"@));
                if let OrnamentElement::DelayedInvertedTurn(z) = v {
                    x.lemma_value(z);
                }
            },
            OrnamentElement::VerticalTurn(x) => {
                x.lemma_no_error();
                lemma_find_head_key("vertical-turn"@, "data"@);
                lemma_find_after_key(seq![SexprV::Symbol("vertical-turn"@)], kw_pair("data"@, x.to_sexpr_spec()), "data"@);
                assert((seq![SexprV::Symbol("vertical-turn"@)] + kw_pair("data"@, x.to_sexpr_spec()))[0] == SexprV::Symbol("vertical-turn"@));
                if let OrnamentElement::VerticalTurn(z) = v {
                    x.lemma_value(z);
                }
            },
            OrnamentElement::InvertedVerticalTurn(x) => {
                x.lemma_no_error();
                lemma_find_head_key("inverted-vertical-turn"@, "data"@);
                lemma_find_after_key(seq![SexprV::Symbol("inverted-vertical-turn"@)], kw_pair("data"@, x.to_sexpr_spec()), "data"@);
                assert((seq![SexprV::Symbol("inverted-vertical-turn"@)] + kw_pair("data"@, x.to_sexpr_spec()))[0] == SexprV::Symbol("inverted-vertical-turn"@));
                if let OrnamentElement::InvertedVerticalTurn(z) = v {
                    x.lemma_value(z);
                }
            },
            OrnamentElement::Shake(x) => {
                x.lemma_no_error();
                lemma_find_head_key("shake"@, "data"@);
                lemma_find_after_key(seq![SexprV::Symbol("shake"@)], kw_pair("data"@, x.to_sexpr_spec()), "data"@);
                assert((seq![SexprV::Symbol("shake"@)] + kw_pair("data"@, x.to_sexpr_spec()))[0] == SexprV::Symbol("shake"@));
                if let OrnamentElement::Shake(z) = v {
                    x.lemma_value(z);
                }
            },
            OrnamentElement::WavyLine(x) => {
                x.lemma_no_error();
                lemma_find_head_key("wavy-line"@, "data"@);
                lemma_find_after_key(seq![SexprV::Symbol("wavy-line"@)], kw_pair("data"@, x.to_sexpr_spec()), "data"@);
                assert((seq![SexprV::Symbol("wavy-line"@)] + kw_pair("data"@, x.to_sexpr_spec()))[0] == SexprV::Symbol("wavy-line"@));
                if let OrnamentElement::WavyLine(z) = v {
                    x.lemma_value(z);
                }
            },
            OrnamentElement::Mordent(x) => {
                x.lemma_no_error();
                lemma_mordent_items(*x);
                if let OrnamentElement::Mordent(z) = v {
                    x.lemma_value(z);
                }
            },
            OrnamentElement::InvertedMordent(x) => {
                x.lemma_no_error();
                lemma_find_head_key("inverted-mordent"@, "data"@);
                lemma_find_after_key(seq![SexprV::Symbol("inverted-mordent"@)], kw_pair("data"@, x.to_sexpr_spec()), "data"@);
                assert((seq![SexprV::Symbol("inverted-mordent"@)] + kw_pair("data"@, x.to_sexpr_spec()))[0] == SexprV::Symbol("inverted-mordent"@));
                if let OrnamentElement::InvertedMordent(z) = v {
                    x.lemma_value(z);
                }
            },
            OrnamentElement::Schleifer(x) => {
                x.lemma_no_error();
                lemma_find_head_key("schleifer"@, "data"@);
                lemma_find_after_key(seq![SexprV::Symbol("schleifer"@)], kw_pair("data"@, x.to_sexpr_spec()), "data"@);
                assert((seq![SexprV::Symbol("schleifer"@)] + kw_pair("data"@, x.to_sexpr_spec()))[0] == SexprV::Symbol("schleifer"@));
                if let OrnamentElement::Schleifer(z) = v {
                    x.lemma_value(z);
                }
            },
            OrnamentElement::Tremolo(x) => {
                x.lemma_no_error();
                lemma_tremolo_items(*x);
                if let OrnamentElement::Tremolo(z) = v {
                    x.lemma_value(z);
                }
            },
            OrnamentElement::Haydn(x) => {
                x.lemma_no_error();
                lemma_find_head_key("haydn"@, "data"@);
                lemma_find_after_key(seq![SexprV::Symbol("haydn"@)], kw_pair("data"@, x.to_sexpr_spec()), "data"@);
                assert((seq![SexprV::Symbol("haydn"@)] + kw_pair("data"@, x.to_sexpr_spec()))[0] == SexprV::Symbol("haydn"@));
                if let OrnamentElement::Haydn(z) = v {
                    x.lemma_value(z);
                }
            },
            OrnamentElement::OtherOrnament(x) => {
                x.lemma_no_error();
                lemma_other_ornament_items(*x);
                if let OrnamentElement::OtherOrnament(z) = v {
                    x.lemma_value(z);
                }
            },
        }
    }
}

impl RoundTrip for TechnicalElement {
    /// A variant holding a writable value.
    open spec fn writable(&self) -> bool {
        match self {
            TechnicalElement::UpBow(x) => x.writable(),
            TechnicalElement::DownBow(x) => x.writable(),
            TechnicalElement::Harmonic(x) => x.writable(),
            TechnicalElement::OpenString(x) => x.writable(),
            TechnicalElement::ThumbPosition(x) => x.writable(),
            TechnicalElement::Fingering(x) => x.writable(),
            TechnicalElement::Pluck(x) => x.writable(),
            TechnicalElement::DoubleTongue(x) => x.writable(),
            TechnicalElement::TripleTongue(x) => x.writable(),
            TechnicalElement::Stopped(x) => x.writable(),
            TechnicalElement::SnapPizzicato(x) => x.writable(),
            TechnicalElement::Fret(x) => x.writable(),
            TechnicalElement::String(x) => x.writable(),
            TechnicalElement::HammerOn(x) => x.writable(),
            TechnicalElement::PullOff(x) => x.writable(),
            TechnicalElement::Bend(x) => x.writable(),
            TechnicalElement::Tap(x) => x.writable(),
            TechnicalElement::Heel(x) => x.writable(),
            TechnicalElement::Toe(x) => x.writable(),
            TechnicalElement::Fingernails(x) => x.writable(),
            TechnicalElement::Hole(x) => x.writable(),
            TechnicalElement::Arrow(x) => x.writable(),
            TechnicalElement::Handbell(x) => x.writable(),
            TechnicalElement::BrassBend(x) => x.writable(),
            TechnicalElement::Flip(x) => x.writable(),
            TechnicalElement::Smear(x) => x.writable(),
            TechnicalElement::Open(x) => x.writable(),
            TechnicalElement::HalfMuted(x) => x.writable(),
            TechnicalElement::HarmonMute(x) => x.writable(),
            TechnicalElement::Golpe(x) => x.writable(),
            TechnicalElement::OtherTechnical(x) => x.writable(),
        }
    }

    open spec fn same(&self, other: &Self) -> bool {
        match (self, other) {
            (TechnicalElement::UpBow(a), TechnicalElement::UpBow(b)) => a.same(b),
            (TechnicalElement::DownBow(a), TechnicalElement::DownBow(b)) => a.same(b),
            (TechnicalElement::Harmonic(a), TechnicalElement::Harmonic(b)) => a.same(b),
            (TechnicalElement::OpenString(a), TechnicalElement::OpenString(b)) => a.same(b),
            (TechnicalElement::ThumbPosition(a), TechnicalElement::ThumbPosition(b)) => a.same(b),
            (TechnicalElement::Fingering(a), TechnicalElement::Fingering(b)) => a.same(b),
            (TechnicalElement::Pluck(a), TechnicalElement::Pluck(b)) => a.same(b),
            (TechnicalElement::DoubleTongue(a), TechnicalElement::DoubleTongue(b)) => a.same(b),
            (TechnicalElement::TripleTongue(a), TechnicalElement::TripleTongue(b)) => a.same(b),
            (TechnicalElement::Stopped(a), TechnicalElement::Stopped(b)) => a.same(b),
            (TechnicalElement::SnapPizzicato(a), TechnicalElement::SnapPizzicato(b)) => a.same(b),
            (TechnicalElement::Fret(a), TechnicalElement::Fret(b)) => a.same(b),
            (TechnicalElement::String(a), TechnicalElement::String(b)) => a.same(b),
            (TechnicalElement::HammerOn(a), TechnicalElement::HammerOn(b)) => a.same(b),
            (TechnicalElement::PullOff(a), TechnicalElement::PullOff(b)) => a.same(b),
            (TechnicalElement::Bend(a), TechnicalElement::Bend(b)) => a.same(b),
            (TechnicalElement::Tap(a), TechnicalElement::Tap(b)) => a.same(b),
            (TechnicalElement::Heel(a), TechnicalElement::Heel(b)) => a.same(b),
            (TechnicalElement::Toe(a), TechnicalElement::Toe(b)) => a.same(b),
            (TechnicalElement::Fingernails(a), TechnicalElement::Fingernails(b)) => a.same(b),
            (TechnicalElement::Hole(a), TechnicalElement::Hole(b)) => a.same(b),
            (TechnicalElement::Arrow(a), TechnicalElement::Arrow(b)) => a.same(b),
            (TechnicalElement::Handbell(a), TechnicalElement::Handbell(b)) => a.same(b),
            (TechnicalElement::BrassBend(a), TechnicalElement::BrassBend(b)) => a.same(b),
            (TechnicalElement::Flip(a), TechnicalElement::Flip(b)) => a.same(b),
            (TechnicalElement::Smear(a), TechnicalElement::Smear(b)) => a.same(b),
            (TechnicalElement::Open(a), TechnicalElement::Open(b)) => a.same(b),
            (TechnicalElement::HalfMuted(a), TechnicalElement::HalfMuted(b)) => a.same(b),
            (TechnicalElement::HarmonMute(a), TechnicalElement::HarmonMute(b)) => a.same(b),
            (TechnicalElement::Golpe(a), TechnicalElement::Golpe(b)) => a.same(b),
            (TechnicalElement::OtherTechnical(a), TechnicalElement::OtherTechnical(b)) => a.same(b),
            _ => false,
        }
    }

    proof fn lemma_not_keyword(&self) {
        match self {
            TechnicalElement::UpBow(x) => x.lemma_not_keyword(),
            TechnicalElement::DownBow(x) => x.lemma_not_keyword(),
            TechnicalElement::Harmonic(x) => x.lemma_not_keyword(),
            TechnicalElement::OpenString(x) => x.lemma_not_keyword(),
            TechnicalElement::ThumbPosition(x) => x.lemma_not_keyword(),
            TechnicalElement::Fingering(x) => x.lemma_not_keyword(),
            TechnicalElement::Pluck(x) => x.lemma_not_keyword(),
            TechnicalElement::DoubleTongue(x) => x.lemma_not_keyword(),
            TechnicalElement::TripleTongue(x) => x.lemma_not_keyword(),
            TechnicalElement::Stopped(x) => x.lemma_not_keyword(),
            TechnicalElement::SnapPizzicato(x) => x.lemma_not_keyword(),
            TechnicalElement::Fret(x) => x.lemma_not_keyword(),
            TechnicalElement::String(x) => x.lemma_not_keyword(),
            TechnicalElement::HammerOn(x) => x.lemma_not_keyword(),
            TechnicalElement::PullOff(x) => x.lemma_not_keyword(),
            TechnicalElement::Bend(x) => x.lemma_not_keyword(),
            TechnicalElement::Tap(x) => x.lemma_not_keyword(),
            TechnicalElement::Heel(x) => x.lemma_not_keyword(),
            TechnicalElement::Toe(x) => x.lemma_not_keyword(),
            TechnicalElement::Fingernails(x) => x.lemma_not_keyword(),
            TechnicalElement::Hole(x) => x.lemma_not_keyword(),
            TechnicalElement::Arrow(x) => x.lemma_not_keyword(),
            TechnicalElement::Handbell(x) => x.lemma_not_keyword(),
            TechnicalElement::BrassBend(x) => x.lemma_not_keyword(),
            TechnicalElement::Flip(x) => x.lemma_not_keyword(),
            TechnicalElement::Smear(x) => x.lemma_not_keyword(),
            TechnicalElement::Open(x) => x.lemma_not_keyword(),
            TechnicalElement::HalfMuted(x) => x.lemma_not_keyword(),
            TechnicalElement::HarmonMute(x) => x.lemma_not_keyword(),
            TechnicalElement::Golpe(x) => x.lemma_not_keyword(),
            TechnicalElement::OtherTechnical(x) => x.lemma_not_keyword(),
        }
    }

    #[verifier::rlimit(100)]
    proof fn lemma_no_error(&self) {
        reveal_strlit("up-bow");
        assert("up-bow"@.len() == 6);
        reveal_strlit("down-bow");
        assert("down-bow"@.len() == 8);
        reveal_strlit("harmonic");
        assert("harmonic"@.len() == 8);
        reveal_strlit("open-string");
        assert("open-string"@.len() == 11);
        reveal_strlit("thumb-position");
        assert("thumb-position"@.len() == 14);
        reveal_strlit("fingering");
        assert("fingering"@.len() == 9);
        reveal_strlit("pluck");
        assert("pluck"@.len() == 5);
        reveal_strlit("double-tongue");
        assert("double-tongue"@.len() == 13);
        reveal_strlit("triple-tongue");
        assert("triple-tongue"@.len() == 13);
        reveal_strlit("stopped");
        assert("stopped"@.len() == 7);
        reveal_strlit("snap-pizzicato");
        assert("snap-pizzicato"@.len() == 14);
        reveal_strlit("fret");
        assert("fret"@.len() == 4);
        reveal_strlit("string-number");
        assert("string-number"@.len() == 13);
        reveal_strlit("hammer-on");
        assert("hammer-on"@.len() == 9);
        reveal_strlit("pull-off");
        assert("pull-off"@.len() == 8);
        reveal_strlit("bend");
        assert("bend"@.len() == 4);
        reveal_strlit("tap");
        assert("tap"@.len() == 3);
        reveal_strlit("heel");
        assert("heel"@.len() == 4);
        reveal_strlit("toe");
        assert("toe"@.len() == 3);
        reveal_strlit("fingernails");
        assert("fingernails"@.len() == 11);
        reveal_strlit("hole");
        assert("hole"@.len() == 4);
        reveal_strlit("arrow");
        assert("arrow"@.len() == 5);
        reveal_strlit("handbell");
        assert("handbell"@.len() == 8);
        reveal_strlit("brass-bend");
        assert("brass-bend"@.len() == 10);
        reveal_strlit("flip");
        assert("flip"@.len() == 4);
        reveal_strlit("smear");
        assert("smear"@.len() == 5);
        reveal_strlit("open");
        assert("open"@.len() == 4);
        reveal_strlit("half-muted");
        assert("half-muted"@.len() == 10);
        reveal_strlit("harmon-mute");
        assert("harmon-mute"@.len() == 11);
        reveal_strlit("golpe");
        assert("golpe"@.len() == 5);
        reveal_strlit("other-technical");
        assert("other-technical"@.len() == 15);
        reveal_strlit("data");
        assert("data"@.len() == 4);
        assert("down-bow"@[0] == 'd');
        assert("harmonic"@[0] == 'h');
        assert("pull-off"@[0] == 'p');
        assert("handbell"@[0] == 'h');
        assert("harmonic"@[2] == 'r');
        assert("handbell"@[2] == 'n');
        assert("open-string"@[0] == 'o');
        assert("fingernails"@[0] == 'f');
        assert("harmon-mute"@[0] == 'h');
        assert("thumb-position"@[0] == 't');
        assert("snap-pizzicato"@[0] == 's');
        assert("fingering"@[0] == 'f');
        assert("hammer-on"@[0] == 'h');
        assert("pluck"@[0] == 'p');
        assert("arrow"@[0] == 'a');
        assert("smear"@[0] == 's');
        assert("golpe"@[0] == 'g');
        assert("double-tongue"@[0] == 'd');
        assert("triple-tongue"@[0] == 't');
        assert("string-number"@[0] == 's');
        assert("fret"@[0] == 'f');
        assert("bend"@[0] == 'b');
        assert("heel"@[0] == 'h');
        assert("hole"@[0] == 'h');
        assert("fret"@[1] == 'r');
        assert("flip"@[1] == 'l');
        assert("open"@[0] == 'o');
        assert("data"@[0] == 'd');
        assert("flip"@[0] == 'f');
        assert("tap"@[1] == 'a');
        assert("toe"@[1] == 'o');
        assert("heel"@[1] == 'e');
        assert("hole"@[1] == 'o');
        assert("brass-bend"@[0] == 'b');
        assert("half-muted"@[0] == 'h');
        match self {
            TechnicalElement::UpBow(x) => {
                x.lemma_no_error();
                lemma_find_head_key("up-bow"@, "data"@);
                lemma_find_after_key(seq![SexprV::Symbol("up-bow"@)], kw_pair("data"@, x.to_sexpr_spec()), "data"@);
                assert((seq![SexprV::Symbol("up-bow"@)] + kw_pair("data"@, x.to_sexpr_spec()))[0] == SexprV::Symbol("up-bow"@));
            },
            TechnicalElement::DownBow(x) => {
                x.lemma_no_error();
                lemma_find_head_key("down-bow"@, "data"@);
                lemma_find_after_key(seq![SexprV::Symbol("down-bow"@)], kw_pair("data"@, x.to_sexpr_spec()), "data"@);
                assert((seq![SexprV::Symbol("down-bow"@)] + kw_pair("data"@, x.to_sexpr_spec()))[0] == SexprV::Symbol("down-bow"@));
            },
            TechnicalElement::Harmonic(x) => {
                x.lemma_no_error();
                lemma_harmonic_items(*x);
            },
            TechnicalElement::OpenString(x) => {
                x.lemma_no_error();
                lemma_find_head_key("open-string"@, "data"@);
                lemma_find_after_key(seq![SexprV::Symbol("open-string"@)], kw_pair("data"@, x.to_sexpr_spec()), "data"@);
                assert((seq![SexprV::Symbol("open-string"@)] + kw_pair("data"@, x.to_sexpr_spec()))[0] == SexprV::Symbol("open-string"@));
            },
            TechnicalElement::ThumbPosition(x) => {
                x.lemma_no_error();
                lemma_find_head_key("thumb-position"@, "data"@);
                lemma_find_after_key(seq![SexprV::Symbol("thumb-position"@)], kw_pair("data"@, x.to_sexpr_spec()), "data"@);
                assert((seq![SexprV::Symbol("thumb-position"@)] + kw_pair("data"@, x.to_sexpr_spec()))[0] == SexprV::Symbol("thumb-position"@));
            },
            TechnicalElement::Fingering(x) => {
                x.lemma_no_error();
                lemma_fingering_items(*x);
            },
            TechnicalElement::Pluck(x) => {
                x.lemma_no_error();
                lemma_pluck_items(*x);
            },
            TechnicalElement::DoubleTongue(x) => {
                x.lemma_no_error();
                lemma_find_head_key("double-tongue"@, "data"@);
                lemma_find_after_key(seq![SexprV::Symbol("double-tongue"@)], kw_pair("data"@, x.to_sexpr_spec()), "data"@);
                assert((seq![SexprV::Symbol("double-tongue"@)] + kw_pair("data"@, x.to_sexpr_spec()))[0] == SexprV::Symbol("double-tongue"@));
            },
            TechnicalElement::TripleTongue(x) => {
                x.lemma_no_error();
                lemma_find_head_key("triple-tongue"@, "data"@);
                lemma_find_after_key(seq![SexprV::Symbol("triple-tongue"@)], kw_pair("data"@, x.to_sexpr_spec()), "data"@);
                assert((seq![SexprV::Symbol("triple-tongue"@)] + kw_pair("data"@, x.to_sexpr_spec()))[0] == SexprV::Symbol("triple-tongue"@));
            },
            TechnicalElement::Stopped(x) => {
                x.lemma_no_error();
                lemma_find_head_key("stopped"@, "data"@);
                lemma_find_after_key(seq![SexprV::Symbol("stopped"@)], kw_pair("data"@, x.to_sexpr_spec()), "data"@);
                assert((seq![SexprV::Symbol("stopped"@)] + kw_pair("data"@, x.to_sexpr_spec()))[0] == SexprV::Symbol("stopped"@));
            },
            TechnicalElement::SnapPizzicato(x) => {
                x.lemma_no_error();
                lemma_find_head_key("snap-pizzicato"@, "data"@);
                lemma_find_after_key(seq![SexprV::Symbol("snap-pizzicato"@)], kw_pair("data"@, x.to_sexpr_spec()), "data"@);
                assert((seq![SexprV::Symbol("snap-pizzicato"@)] + kw_pair("data"@, x.to_sexpr_spec()))[0] == SexprV::Symbol("snap-pizzicato"@));
            },
            TechnicalElement::Fret(x) => {
                x.lemma_no_error();
                lemma_fret_items(*x);
            },
            TechnicalElement::String(x) => {
                x.lemma_no_error();
                lemma_string_number_items(*x);
            },
            TechnicalElement::HammerOn(x) => {
                x.lemma_no_error();
                lemma_find_head_key("hammer-on"@, "data"@);
                lemma_find_after_key(seq![SexprV::Symbol("hammer-on"@)], kw_pair("data"@, x.to_sexpr_spec()), "data"@);
                assert((seq![SexprV::Symbol("hammer-on"@)] + kw_pair("data"@, x.to_sexpr_spec()))[0] == SexprV::Symbol("hammer-on"@));
            },
            TechnicalElement::PullOff(x) => {
                x.lemma_no_error();
                lemma_find_head_key("pull-off"@, "data"@);
                lemma_find_after_key(seq![SexprV::Symbol("pull-off"@)], kw_pair("data"@, x.to_sexpr_spec()), "data"@);
                assert((seq![SexprV::Symbol("pull-off"@)] + kw_pair("data"@, x.to_sexpr_spec()))[0] == SexprV::Symbol("pull-off"@));
            },
            TechnicalElement::Bend(x) => {
                x.lemma_no_error();
                lemma_bend_items(*x);
            },
            TechnicalElement::Tap(x) => {
                x.lemma_no_error();
                lemma_tap_items(*x);
            },
            TechnicalElement::Heel(x) => {
                x.lemma_no_error();
                lemma_find_head_key("heel"@, "data"@);
                lemma_find_after_key(seq![SexprV::Symbol("heel"@)], kw_pair("data"@, x.to_sexpr_spec()), "data"@);
                assert((seq![SexprV::Symbol("heel"@)] + kw_pair("data"@, x.to_sexpr_spec()))[0] == SexprV::Symbol("heel"@));
            },
            TechnicalElement::Toe(x) => {
                x.lemma_no_error();
                lemma_find_head_key("toe"@, "data"@);
                lemma_find_after_key(seq![SexprV::Symbol("toe"@)], kw_pair("data"@, x.to_sexpr_spec()), "data"@);
                assert((seq![SexprV::Symbol("toe"@)] + kw_pair("data"@, x.to_sexpr_spec()))[0] == SexprV::Symbol("toe"@));
            },
            TechnicalElement::Fingernails(x) => {
                x.lemma_no_error();
                lemma_find_head_key("fingernails"@, "data"@);
                lemma_find_after_key(seq![SexprV::Symbol("fingernails"@)], kw_pair("data"@, x.to_sexpr_spec()), "data"@);
                assert((seq![SexprV::Symbol("fingernails"@)] + kw_pair("data"@, x.to_sexpr_spec()))[0] == SexprV::Symbol("fingernails"@));
            },
            TechnicalElement::Hole(x) => {
                x.lemma_no_error();
                lemma_hole_items(*x);
            },
            TechnicalElement::Arrow(x) => {
                x.lemma_no_error();
                lemma_arrow_items(*x);
            },
            TechnicalElement::Handbell(x) => {
                x.lemma_no_error();
                lemma_handbell_items(*x);
            },
            TechnicalElement::BrassBend(x) => {
                x.lemma_no_error();
                lemma_find_head_key("brass-bend"@, "data"@);
                lemma_find_after_key(seq![SexprV::Symbol("brass-bend"@)], kw_pair("data"@, x.to_sexpr_spec()), "data"@);
                assert((seq![SexprV::Symbol("brass-bend"@)] + kw_pair("data"@, x.to_sexpr_spec()))[0] == SexprV::Symbol("brass-bend"@));
            },
            TechnicalElement::Flip(x) => {
                x.lemma_no_error();
                lemma_find_head_key("flip"@, "data"@);
                lemma_find_after_key(seq![SexprV::Symbol("flip"@)], kw_pair("data"@, x.to_sexpr_spec()), "data"@);
                assert((seq![SexprV::Symbol("flip"@)] + kw_pair("data"@, x.to_sexpr_spec()))[0] == SexprV::Symbol("flip"@));
            },
            TechnicalElement::Smear(x) => {
                x.lemma_no_error();
                lemma_find_head_key("smear"@, "data"@);
                lemma_find_after_key(seq![SexprV::Symbol("smear"@)], kw_pair("data"@, x.to_sexpr_spec()), "data"@);
                assert((seq![SexprV::Symbol("smear"@)] + kw_pair("data"@, x.to_sexpr_spec()))[0] == SexprV::Symbol("smear"@));
            },
            TechnicalElement::Open(x) => {
                x.lemma_no_error();
                lemma_find_head_key("open"@, "data"@);
                lemma_find_after_key(seq![SexprV::Symbol("open"@)], kw_pair("data"@, x.to_sexpr_spec()), "data"@);
                assert((seq![SexprV::Symbol("open"@)] + kw_pair("data"@, x.to_sexpr_spec()))[0] == SexprV::Symbol("open"@));
            },
            TechnicalElement::HalfMuted(x) => {
                x.lemma_no_error();
                lemma_find_head_key("half-muted"@, "data"@);
                lemma_find_after_key(seq![SexprV::Symbol("half-muted"@)], kw_pair("data"@, x.to_sexpr_spec()), "data"@);
                assert((seq![SexprV::Symbol("half-muted"@)] + kw_pair("data"@, x.to_sexpr_spec()))[0] == SexprV::Symbol("half-muted"@));
            },
            TechnicalElement::HarmonMute(x) => {
                x.lemma_no_error();
                lemma_harmon_mute_items(*x);
            },
            TechnicalElement::Golpe(x) => {
                x.lemma_no_error();
                lemma_find_head_key("golpe"@, "data"@);
                lemma_find_after_key(seq![SexprV::Symbol("golpe"@)], kw_pair("data"@, x.to_sexpr_spec()), "data"@);
                assert((seq![SexprV::Symbol("golpe"@)] + kw_pair("data"@, x.to_sexpr_spec()))[0] == SexprV::Symbol("golpe"@));
            },
            TechnicalElement::OtherTechnical(x) => {
                x.lemma_no_error();
                lemma_other_technical_items(*x);
            },
        }
    }

    #[verifier::rlimit(100)]
    proof fn lemma_value(&self, v: Self) {
        reveal_strlit("up-bow");
        assert("up-bow"@.len() == 6);
        reveal_strlit("down-bow");
        assert("down-bow"@.len() == 8);
        reveal_strlit("harmonic");
        assert("harmonic"@.len() == 8);
        reveal_strlit("open-string");
        assert("open-string"@.len() == 11);
        reveal_strlit("thumb-position");
        assert("thumb-position"@.len() == 14);
        reveal_strlit("fingering");
        assert("fingering"@.len() == 9);
        reveal_strlit("pluck");
        assert("pluck"@.len() == 5);
        reveal_strlit("double-tongue");
        assert("double-tongue"@.len() == 13);
        reveal_strlit("triple-tongue");
        assert("triple-tongue"@.len() == 13);
        reveal_strlit("stopped");
        assert("stopped"@.len() == 7);
        reveal_strlit("snap-pizzicato");
        assert("snap-pizzicato"@.len() == 14);
        reveal_strlit("fret");
        assert("fret"@.len() == 4);
        reveal_strlit("string-number");
        assert("string-number"@.len() == 13);
        reveal_strlit("hammer-on");
        assert("hammer-on"@.len() == 9);
        reveal_strlit("pull-off");
        assert("pull-off"@.len() == 8);
        reveal_strlit("bend");
        assert("bend"@.len() == 4);
        reveal_strlit("tap");
        assert("tap"@.len() == 3);
        reveal_strlit("heel");
        assert("heel"@.len() == 4);
        reveal_strlit("toe");
        assert("toe"@.len() == 3);
        reveal_strlit("fingernails");
        assert("fingernails"@.len() == 11);
        reveal_strlit("hole");
        assert("hole"@.len() == 4);
        reveal_strlit("arrow");
        assert("arrow"@.len() == 5);
        reveal_strlit("handbell");
        assert("handbell"@.len() == 8);
        reveal_strlit("brass-bend");
        assert("brass-bend"@.len() == 10);
        reveal_strlit("flip");
        assert("flip"@.len() == 4);
        reveal_strlit("smear");
        assert("smear"@.len() == 5);
        reveal_strlit("open");
        assert("open"@.len() == 4);
        reveal_strlit("half-muted");
        assert("half-muted"@.len() == 10);
        reveal_strlit("harmon-mute");
        assert("harmon-mute"@.len() == 11);
        reveal_strlit("golpe");
        assert("golpe"@.len() == 5);
        reveal_strlit("other-technical");
        assert("other-technical"@.len() == 15);
        reveal_strlit("data");
        assert("data"@.len() == 4);
        assert("down-bow"@[0] == 'd');
        assert("harmonic"@[0] == 'h');
        assert("pull-off"@[0] == 'p');
        assert("handbell"@[0] == 'h');
        assert("harmonic"@[2] == 'r');
        assert("handbell"@[2] == 'n');
        assert("open-string"@[0] == 'o');
        assert("fingernails"@[0] == 'f');
        assert("harmon-mute"@[0] == 'h');
        assert("thumb-position"@[0] == 't');
        assert("snap-pizzicato"@[0] == 's');
        assert("fingering"@[0] == 'f');
        assert("hammer-on"@[0] == 'h');
        assert("pluck"@[0] == 'p');
        assert("arrow"@[0] == 'a');
        assert("smear"@[0] == 's');
        assert("golpe"@[0] == 'g');
        assert("double-tongue"@[0] == 'd');
        assert("triple-tongue"@[0] == 't');
        assert("string-number"@[0] == 's');
        assert("fret"@[0] == 'f');
        assert("bend"@[0] == 'b');
        assert("heel"@[0] == 'h');
        assert("hole"@[0] == 'h');
        assert("fret"@[1] == 'r');
        assert("flip"@[1] == 'l');
        assert("open"@[0] == 'o');
        assert("data"@[0] == 'd');
        assert("flip"@[0] == 'f');
        assert("tap"@[1] == 'a');
        assert("toe"@[1] == 'o');
        assert("heel"@[1] == 'e');
        assert("hole"@[1] == 'o');
        assert("brass-bend"@[0] == 'b');
        assert("half-muted"@[0] == 'h');
        match self {
            TechnicalElement::UpBow(x) => {
                x.lemma_no_error();
                lemma_find_head_key("up-bow"@, "data"@);
                lemma_find_after_key(seq![SexprV::Symbol("up-bow"@)], kw_pair("data"@, x.to_sexpr_spec()), "data"@);
                assert((seq![SexprV::Symbol("up-bow"@)] + kw_pair("data"@, x.to_sexpr_spec()))[0] == SexprV::Symbol("up-bow"@));
                if let TechnicalElement::UpBow(z) = v {
                    x.lemma_value(z);
                }
            },
            TechnicalElement::DownBow(x) => {
                x.lemma_no_error();
                lemma_find_head_key("down-bow"@, "data"@);
                lemma_find_after_key(seq![SexprV::Symbol("down-bow"@)], kw_pair("data"@, x.to_sexpr_spec()), "data"@);
                assert((seq![SexprV::Symbol("down-bow"@)] + kw_pair("data"@, x.to_sexpr_spec()))[0] == SexprV::Symbol("down-bow"@));
                if let TechnicalElement::DownBow(z) = v {
                    x.lemma_value(z);
                }
            },
            TechnicalElement::Harmonic(x) => {
                x.lemma_no_error();
                lemma_harmonic_items(*x);
                if let TechnicalElement::Harmonic(z) = v {
                    x.lemma_value(z);
                }
            },
            TechnicalElement::OpenString(x) => {
                x.lemma_no_error();
                lemma_find_head_key("open-string"@, "data"@);
                lemma_find_after_key(seq![SexprV::Symbol("open-string"@)], kw_pair("data"@, x.to_sexpr_spec()), "data"@);
                assert((seq![SexprV::Symbol("open-string"@)] + kw_pair("data"@, x.to_sexpr_spec()))[0] == SexprV::Symbol("open-string"@));
                if let TechnicalElement::OpenString(z) = v {
                    x.lemma_value(z);
                }
            },
            TechnicalElement::ThumbPosition(x) => {
                x.lemma_no_error();
                lemma_find_head_key("thumb-position"@, "data"@);
                lemma_find_after_key(seq![SexprV::Symbol("thumb-position"@)], kw_pair("data"@, x.to_sexpr_spec()), "data"@);
                assert((seq![SexprV::Symbol("thumb-position"@)] + kw_pair("data"@, x.to_sexpr_spec()))[0] == SexprV::Symbol("thumb-position"@));
                if let TechnicalElement::ThumbPosition(z) = v {
                    x.lemma_value(z);
                }
            },
            TechnicalElement::Fingering(x) => {
                x.lemma_no_error();
                lemma_fingering_items(*x);
                if let TechnicalElement::Fingering(z) = v {
                    x.lemma_value(z);
                }
            },
            TechnicalElement::Pluck(x) => {
                x.lemma_no_error();
                lemma_pluck_items(*x);
                if let TechnicalElement::Pluck(z) = v {
                    x.lemma_value(z);
                }
            },
            TechnicalElement::DoubleTongue(x) => {
                x.lemma_no_error();
                lemma_find_head_key("double-tongue"@, "data"@);
                lemma_find_after_key(seq![SexprV::Symbol("double-tongue"@)], kw_pair("data"@, x.to_sexpr_spec()), "data"@);
                assert((seq![SexprV::Symbol("double-tongue"@)] + kw_pair("data"@, x.to_sexpr_spec()))[0] == SexprV::Symbol("double-tongue"@));
                if let TechnicalElement::DoubleTongue(z) = v {
                    x.lemma_value(z);
                }
            },
            TechnicalElement::TripleTongue(x) => {
                x.lemma_no_error();
                lemma_find_head_key("triple-tongue"@, "data"@);
                lemma_find_after_key(seq![SexprV::Symbol("triple-tongue"@)], kw_pair("data"@, x.to_sexpr_spec()), "data"@);
                assert((seq![SexprV::Symbol("triple-tongue"@)] + kw_pair("data"@, x.to_sexpr_spec()))[0] == SexprV::Symbol("triple-tongue"@));
                if let TechnicalElement::TripleTongue(z) = v {
                    x.lemma_value(z);
                }
            },
            TechnicalElement::Stopped(x) => {
                x.lemma_no_error();
                lemma_find_head_key("stopped"@, "data"@);
                lemma_find_after_key(seq![SexprV::Symbol("stopped"@)], kw_pair("data"@, x.to_sexpr_spec()), "data"@);
                assert((seq![SexprV::Symbol("stopped"@)] + kw_pair("data"@, x.to_sexpr_spec()))[0] == SexprV::Symbol("stopped"@));
                if let TechnicalElement::Stopped(z) = v {
                    x.lemma_value(z);
                }
            },
            TechnicalElement::SnapPizzicato(x) => {
                x.lemma_no_error();
                lemma_find_head_key("snap-pizzicato"@, "data"@);
                lemma_find_after_key(seq![SexprV::Symbol("snap-pizzicato"@)], kw_pair("data"@, x.to_sexpr_spec()), "data"@);
                assert((seq![SexprV::Symbol("snap-pizzicato"@)] + kw_pair("data"@, x.to_sexpr_spec()))[0] == SexprV::Symbol("snap-pizzicato"@));
                if let TechnicalElement::SnapPizzicato(z) = v {
                    x.lemma_value(z);
                }
            },
            TechnicalElement::Fret(x) => {
                x.lemma_no_error();
                lemma_fret_items(*x);
                if let TechnicalElement::Fret(z) = v {
                    x.lemma_value(z);
                }
            },
            TechnicalElement::String(x) => {
                x.lemma_no_error();
                lemma_string_number_items(*x);
                if let TechnicalElement::String(z) = v {
                    x.lemma_value(z);
                }
            },
            TechnicalElement::HammerOn(x) => {
                x.lemma_no_error();
                lemma_find_head_key("hammer-on"@, "data"@);
                lemma_find_after_key(seq![SexprV::Symbol("hammer-on"@)], kw_pair("data"@, x.to_sexpr_spec()), "data"@);
                assert((seq![SexprV::Symbol("hammer-on"@)] + kw_pair("data"@, x.to_sexpr_spec()))[0] == SexprV::Symbol("hammer-on"@));
                if let TechnicalElement::HammerOn(z) = v {
                    x.lemma_value(z);
                }
            },
            TechnicalElement::PullOff(x) => {
                x.lemma_no_error();
                lemma_find_head_key("pull-off"@, "data"@);
                lemma_find_after_key(seq![SexprV::Symbol("pull-off"@)], kw_pair("data"@, x.to_sexpr_spec()), "data"@);
                assert((seq![SexprV::Symbol("pull-off"@)] + kw_pair("data"@, x.to_sexpr_spec()))[0] == SexprV::Symbol("pull-off"@));
                if let TechnicalElement::PullOff(z) = v {
                    x.lemma_value(z);
                }
            },
            TechnicalElement::Bend(x) => {
                x.lemma_no_error();
                lemma_bend_items(*x);
                if let TechnicalElement::Bend(z) = v {
                    x.lemma_value(z);
                }
            },
            TechnicalElement::Tap(x) => {
                x.lemma_no_error();
                lemma_tap_items(*x);
                if let TechnicalElement::Tap(z) = v {
                    x.lemma_value(z);
                }
            },
            TechnicalElement::Heel(x) => {
                x.lemma_no_error();
                lemma_find_head_key("heel"@, "data"@);
                lemma_find_after_key(seq![SexprV::Symbol("heel"@)], kw_pair("data"@, x.to_sexpr_spec()), "data"@);
                assert((seq![SexprV::Symbol("heel"@)] + kw_pair("data"@, x.to_sexpr_spec()))[0] == SexprV::Symbol("heel"@));
                if let TechnicalElement::Heel(z) = v {
                    x.lemma_value(z);
                }
            },
            TechnicalElement::Toe(x) => {
                x.lemma_no_error();
                lemma_find_head_key("toe"@, "data"@);
                lemma_find_after_key(seq![SexprV::Symbol("toe"@)], kw_pair("data"@, x.to_sexpr_spec()), "data"@);
                assert((seq![SexprV::Symbol("toe"@)] + kw_pair("data"@, x.to_sexpr_spec()))[0] == SexprV::Symbol("toe"@));
                if let TechnicalElement::Toe(z) = v {
                    x.lemma_value(z);
                }
            },
            TechnicalElement::Fingernails(x) => {
                x.lemma_no_error();
                lemma_find_head_key("fingernails"@, "data"@);
                lemma_find_after_key(seq![SexprV::Symbol("fingernails"@)], kw_pair("data"@, x.to_sexpr_spec()), "data"@);
                assert((seq![SexprV::Symbol("fingernails"@)] + kw_pair("data"@, x.to_sexpr_spec()))[0] == SexprV::Symbol("fingernails"@));
                if let TechnicalElement::Fingernails(z) = v {
                    x.lemma_value(z);
                }
            },
            TechnicalElement::Hole(x) => {
                x.lemma_no_error();
                lemma_hole_items(*x);
                if let TechnicalElement::Hole(z) = v {
                    x.lemma_value(z);
                }
            },
            TechnicalElement::Arrow(x) => {
                x.lemma_no_error();
                lemma_arrow_items(*x);
                if let TechnicalElement::Arrow(z) = v {
                    x.lemma_value(z);
                }
            },
            TechnicalElement::Handbell(x) => {
                x.lemma_no_error();
                lemma_handbell_items(*x);
                if let TechnicalElement::Handbell(z) = v {
                    x.lemma_value(z);
                }
            },
            TechnicalElement::BrassBend(x) => {
                x.lemma_no_error();
                lemma_find_head_key("brass-bend"@, "data"@);
                lemma_find_after_key(seq![SexprV::Symbol("brass-bend"@)], kw_pair("data"@, x.to_sexpr_spec()), "data"@);
                assert((seq![SexprV::Symbol("brass-bend"@)] + kw_pair("data"@, x.to_sexpr_spec()))[0] == SexprV::Symbol("brass-bend"@));
                if let TechnicalElement::BrassBend(z) = v {
                    x.lemma_value(z);
                }
            },
            TechnicalElement::Flip(x) => {
                x.lemma_no_error();
                lemma_find_head_key("flip"@, "data"@);
                lemma_find_after_key(seq![SexprV::Symbol("flip"@)], kw_pair("data"@, x.to_sexpr_spec()), "data"@);
                assert((seq![SexprV::Symbol("flip"@)] + kw_pair("data"@, x.to_sexpr_spec()))[0] == SexprV::Symbol("flip"@));
                if let TechnicalElement::Flip(z) = v {
                    x.lemma_value(z);
                }
            },
            TechnicalElement::Smear(x) => {
                x.lemma_no_error();
                lemma_find_head_key("smear"@, "data"@);
                lemma_find_after_key(seq![SexprV::Symbol("smear"@)], kw_pair("data"@, x.to_sexpr_spec()), "data"@);
                assert((seq![SexprV::Symbol("smear"@)] + kw_pair("data"@, x.to_sexpr_spec()))[0] == SexprV::Symbol("smear"@));
                if let TechnicalElement::Smear(z) = v {
                    x.lemma_value(z);
                }
            },
            TechnicalElement::Open(x) => {
                x.lemma_no_error();
                lemma_find_head_key("open"@, "data"@);
                lemma_find_after_key(seq![SexprV::Symbol("open"@)], kw_pair("data"@, x.to_sexpr_spec()), "data"@);
                assert((seq![SexprV::Symbol("open"@)] + kw_pair("data"@, x.to_sexpr_spec()))[0] == SexprV::Symbol("open"@));
                if let TechnicalElement::Open(z) = v {
                    x.lemma_value(z);
                }
            },
            TechnicalElement::HalfMuted(x) => {
                x.lemma_no_error();
                lemma_find_head_key("half-muted"@, "data"@);
                lemma_find_after_key(seq![SexprV::Symbol("half-muted"@)], kw_pair("data"@, x.to_sexpr_spec()), "data"@);
                assert((seq![SexprV::Symbol("half-muted"@)] + kw_pair("data"@, x.to_sexpr_spec()))[0] == SexprV::Symbol("half-muted"@));
                if let TechnicalElement::HalfMuted(z) = v {
                    x.lemma_value(z);
                }
            },
            TechnicalElement::HarmonMute(x) => {
                x.lemma_no_error();
                lemma_harmon_mute_items(*x);
                if let TechnicalElement::HarmonMute(z) = v {
                    x.lemma_value(z);
                }
            },
            TechnicalElement::Golpe(x) => {
                x.lemma_no_error();
                lemma_find_head_key("golpe"@, "data"@);
                lemma_find_after_key(seq![SexprV::Symbol("golpe"@)], kw_pair("data"@, x.to_sexpr_spec()), "data"@);
                assert((seq![SexprV::Symbol("golpe"@)] + kw_pair("data"@, x.to_sexpr_spec()))[0] == SexprV::Symbol("golpe"@));
                if let TechnicalElement::Golpe(z) = v {
                    x.lemma_value(z);
                }
            },
            TechnicalElement::OtherTechnical(x) => {
                x.lemma_no_error();
                lemma_other_technical_items(*x);
                if let TechnicalElement::OtherTechnical(z) = v {
                    x.lemma_value(z);
                }
            },
        }
    }
}

impl RoundTrip for NotationContent {
    /// A variant holding a writable value.
    open spec fn writable(&self) -> bool {
        match self {
            NotationContent::Tied(x) => x.writable(),
            NotationContent::Slur(x) => x.writable(),
            NotationContent::Tuplet(x) => x.writable(),
            NotationContent::Glissando(x) => x.writable(),
            NotationContent::Slide(x) => x.writable(),
            NotationContent::Ornaments(x) => x.writable(),
            NotationContent::Technical(x) => x.writable(),
            NotationContent::Articulations(x) => x.writable(),
            NotationContent::Dynamics(x) => x.writable(),
            NotationContent::Fermata(x) => x.writable(),
            NotationContent::Arpeggiate(x) => x.writable(),
            NotationContent::NonArpeggiate(x) => x.writable(),
            NotationContent::AccidentalMark(x) => x.writable(),
            NotationContent::OtherNotation(x) => x.writable(),
        }
    }

    open spec fn same(&self, other: &Self) -> bool {
        match (self, other) {
            (NotationContent::Tied(a), NotationContent::Tied(b)) => a.same(b),
            (NotationContent::Slur(a), NotationContent::Slur(b)) => a.same(b),
            (NotationContent::Tuplet(a), NotationContent::Tuplet(b)) => a.same(b),
            (NotationContent::Glissando(a), NotationContent::Glissando(b)) => a.same(b),
            (NotationContent::Slide(a), NotationContent::Slide(b)) => a.same(b),
            (NotationContent::Ornaments(a), NotationContent::Ornaments(b)) => a.same(b),
            (NotationContent::Technical(a), NotationContent::Technical(b)) => a.same(b),
            (NotationContent::Articulations(a), NotationContent::Articulations(b)) => a.same(b),
            (NotationContent::Dynamics(a), NotationContent::Dynamics(b)) => a.same(b),
            (NotationContent::Fermata(a), NotationContent::Fermata(b)) => a.same(b),
            (NotationContent::Arpeggiate(a), NotationContent::Arpeggiate(b)) => a.same(b),
            (NotationContent::NonArpeggiate(a), NotationContent::NonArpeggiate(b)) => a.same(b),
            (NotationContent::AccidentalMark(a), NotationContent::AccidentalMark(b)) => a.same(b),
            (NotationContent::OtherNotation(a), NotationContent::OtherNotation(b)) => a.same(b),
            _ => false,
        }
    }

    proof fn lemma_not_keyword(&self) {
        match self {
            NotationContent::Tied(x) => x.lemma_not_keyword(),
            NotationContent::Slur(x) => x.lemma_not_keyword(),
            NotationContent::Tuplet(x) => x.lemma_not_keyword(),
            NotationContent::Glissando(x) => x.lemma_not_keyword(),
            NotationContent::Slide(x) => x.lemma_not_keyword(),
            NotationContent::Ornaments(x) => x.lemma_not_keyword(),
            NotationContent::Technical(x) => x.lemma_not_keyword(),
            NotationContent::Articulations(x) => x.lemma_not_keyword(),
            NotationContent::Dynamics(x) => x.lemma_not_keyword(),
            NotationContent::Fermata(x) => x.lemma_not_keyword(),
            NotationContent::Arpeggiate(x) => x.lemma_not_keyword(),
            NotationContent::NonArpeggiate(x) => x.lemma_not_keyword(),
            NotationContent::AccidentalMark(x) => x.lemma_not_keyword(),
            NotationContent::OtherNotation(x) => x.lemma_not_keyword(),
        }
    }

    #[verifier::rlimit(100)]
    proof fn lemma_no_error(&self) {
        reveal_strlit("tied");
        assert("tied"@.len() == 4);
        reveal_strlit("slur");
        assert("slur"@.len() == 4);
        reveal_strlit("tuplet");
        assert("tuplet"@.len() == 6);
        reveal_strlit("glissando");
        assert("glissando"@.len() == 9);
        reveal_strlit("slide");
        assert("slide"@.len() == 5);
        reveal_strlit("ornaments");
        assert("ornaments"@.len() == 9);
        reveal_strlit("technical");
        assert("technical"@.len() == 9);
        reveal_strlit("articulations");
        assert("articulations"@.len() == 13);
        reveal_strlit("dynamics");
        assert("dynamics"@.len() == 8);
        reveal_strlit("fermata");
        assert("fermata"@.len() == 7);
        reveal_strlit("arpeggiate");
        assert("arpeggiate"@.len() == 10);
        reveal_strlit("non-arpeggiate");
        assert("non-arpeggiate"@.len() == 14);
        reveal_strlit("accidental-mark");
        assert("accidental-mark"@.len() == 15);
        reveal_strlit("other-notation");
        assert("other-notation"@.len() == 14);
        reveal_strlit("data");
        assert("data"@.len() == 4);
        assert("tied"@[0] == 't');
        assert("slur"@[0] == 's');
        assert("data"@[0] == 'd');
        assert("glissando"@[0] == 'g');
        assert("ornaments"@[0] == 'o');
        assert("technical"@[0] == 't');
        assert("non-arpeggiate"@[0] == 'n');
        assert("other-notation"@[0] == 'o');
        match self {
            NotationContent::Tied(x) => {
                x.lemma_no_error();
                lemma_tied_items(*x);
            },
            NotationContent::Slur(x) => {
                x.lemma_no_error();
                lemma_slur_items(*x);
            },
            NotationContent::Tuplet(x) => {
                x.lemma_no_error();
                lemma_tuplet_items(**x);
            },
            NotationContent::Glissando(x) => {
                x.lemma_no_error();
                lemma_glissando_items(*x);
            },
            NotationContent::Slide(x) => {
                x.lemma_no_error();
                lemma_slide_items(*x);
            },
            NotationContent::Ornaments(x) => {
                x.lemma_no_error();
                lemma_ornaments_items(**x);
            },
            NotationContent::Technical(x) => {
                x.lemma_no_error();
                lemma_technical_items(**x);
            },
            NotationContent::Articulations(x) => {
                x.lemma_no_error();
                lemma_articulations_items(**x);
            },
            NotationContent::Dynamics(x) => {
                x.lemma_no_error();
                lemma_dynamics_items(**x);
            },
            NotationContent::Fermata(x) => {
                x.lemma_no_error();
                lemma_fermata_items(*x);
            },
            NotationContent::Arpeggiate(x) => {
                x.lemma_no_error();
                lemma_arpeggiate_items(*x);
            },
            NotationContent::NonArpeggiate(x) => {
                x.lemma_no_error();
                lemma_non_arpeggiate_items(*x);
            },
            NotationContent::AccidentalMark(x) => {
                x.lemma_no_error();
                lemma_accidental_mark_items(*x);
            },
            NotationContent::OtherNotation(x) => {
                x.lemma_no_error();
                lemma_other_notation_items(*x);
            },
        }
    }

    #[verifier::rlimit(100)]
    proof fn lemma_value(&self, v: Self) {
        reveal_strlit("tied");
        assert("tied"@.len() == 4);
        reveal_strlit("slur");
        assert("slur"@.len() == 4);
        reveal_strlit("tuplet");
        assert("tuplet"@.len() == 6);
        reveal_strlit("glissando");
        assert("glissando"@.len() == 9);
        reveal_strlit("slide");
        assert("slide"@.len() == 5);
        reveal_strlit("ornaments");
        assert("ornaments"@.len() == 9);
        reveal_strlit("technical");
        assert("technical"@.len() == 9);
        reveal_strlit("articulations");
        assert("articulations"@.len() == 13);
        reveal_strlit("dynamics");
        assert("dynamics"@.len() == 8);
        reveal_strlit("fermata");
        assert("fermata"@.len() == 7);
        reveal_strlit("arpeggiate");
        assert("arpeggiate"@.len() == 10);
        reveal_strlit("non-arpeggiate");
        assert("non-arpeggiate"@.len() == 14);
        reveal_strlit("accidental-mark");
        assert("accidental-mark"@.len() == 15);
        reveal_strlit("other-notation");
        assert("other-notation"@.len() == 14);
        reveal_strlit("data");
        assert("data"@.len() == 4);
        assert("tied"@[0] == 't');
        assert("slur"@[0] == 's');
        assert("data"@[0] == 'd');
        assert("glissando"@[0] == 'g');
        assert("ornaments"@[0] == 'o');
        assert("technical"@[0] == 't');
        assert("non-arpeggiate"@[0] == 'n');
        assert("other-notation"@[0] == 'o');
        match self {
            NotationContent::Tied(x) => {
                x.lemma_no_error();
                lemma_tied_items(*x);
                if let NotationContent::Tied(z) = v {
                    x.lemma_value(z);
                }
            },
            NotationContent::Slur(x) => {
                x.lemma_no_error();
                lemma_slur_items(*x);
                if let NotationContent::Slur(z) = v {
                    x.lemma_value(z);
                }
            },
            NotationContent::Tuplet(x) => {
                x.lemma_no_error();
                lemma_tuplet_items(**x);
                if let NotationContent::Tuplet(z) = v {
                    x.lemma_value(z);
                }
            },
            NotationContent::Glissando(x) => {
                x.lemma_no_error();
                lemma_glissando_items(*x);
                if let NotationContent::Glissando(z) = v {
                    x.lemma_value(z);
                }
            },
            NotationContent::Slide(x) => {
                x.lemma_no_error();
                lemma_slide_items(*x);
                if let NotationContent::Slide(z) = v {
                    x.lemma_value(z);
                }
            },
            NotationContent::Ornaments(x) => {
                x.lemma_no_error();
                lemma_ornaments_items(**x);
                if let NotationContent::Ornaments(z) = v {
                    x.lemma_value(z);
                }
            },
            NotationContent::Technical(x) => {
                x.lemma_no_error();
                lemma_technical_items(**x);
                if let NotationContent::Technical(z) = v {
                    x.lemma_value(z);
                }
            },
            NotationContent::Articulations(x) => {
                x.lemma_no_error();
                lemma_articulations_items(**x);
                if let NotationContent::Articulations(z) = v {
                    x.lemma_value(z);
                }
            },
            NotationContent::Dynamics(x) => {
                x.lemma_no_error();
                lemma_dynamics_items(**x);
                if let NotationContent::Dynamics(z) = v {
                    x.lemma_value(z);
                }
            },
            NotationContent::Fermata(x) => {
                x.lemma_no_error();
                lemma_fermata_items(*x);
                if let NotationContent::Fermata(z) = v {
                    x.lemma_value(z);
                }
            },
            NotationContent::Arpeggiate(x) => {
                x.lemma_no_error();
                lemma_arpeggiate_items(*x);
                if let NotationContent::Arpeggiate(z) = v {
                    x.lemma_value(z);
                }
            },
            NotationContent::NonArpeggiate(x) => {
                x.lemma_no_error();
                lemma_non_arpeggiate_items(*x);
                if let NotationContent::NonArpeggiate(z) = v {
                    x.lemma_value(z);
                }
            },
            NotationContent::AccidentalMark(x) => {
                x.lemma_no_error();
                lemma_accidental_mark_items(*x);
                if let NotationContent::AccidentalMark(z) = v {
                    x.lemma_value(z);
                }
            },
            NotationContent::OtherNotation(x) => {
                x.lemma_no_error();
                lemma_other_notation_items(*x);
                if let NotationContent::OtherNotation(z) = v {
                    x.lemma_value(z);
                }
            },
        }
    }
}

} // verus!
