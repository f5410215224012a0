//! Conversions of measure attributes and barlines to S-expressions.

use vstd::prelude::*;
use crate::sexpr::ast::{ListBuilder, Sexpr, SexprV, kw_pair, kw_opt, kw_if};
use crate::sexpr::traits::ToSexpr;
use crate::ir::attributes::{
    Attributes, Key, KeyContent, TraditionalKey, Cancel, KeyStep, Time, TimeContent, TimeSignature,
    Clef, StaffDetails, Transpose, Barline, Repeat, Ending, Mode, ClefSign, TimeSymbol, BarStyle,
    RightLeftMiddle, BackwardForward, StartStopDiscontinue,
};

verus! {

/// The symbol of each `Mode`.
pub open spec fn mode_name(v: Mode) -> Seq<char> {
    match v {
        Mode::Major => "major"@,
        Mode::Minor => "minor"@,
        Mode::Dorian => "dorian"@,
        Mode::Phrygian => "phrygian"@,
        Mode::Lydian => "lydian"@,
        Mode::Mixolydian => "mixolydian"@,
        Mode::Aeolian => "aeolian"@,
        Mode::Ionian => "ionian"@,
        Mode::Locrian => "locrian"@,
        Mode::NoMode => "none"@,
    }
}

impl Mode {
    /// The symbol of the value, as `mode_name` states.
    pub fn symbol(&self) -> (r: &'static str)
        ensures
            r@ == mode_name(*self),
    {
        match self {
            Mode::Major => "major",
            Mode::Minor => "minor",
            Mode::Dorian => "dorian",
            Mode::Phrygian => "phrygian",
            Mode::Lydian => "lydian",
            Mode::Mixolydian => "mixolydian",
            Mode::Aeolian => "aeolian",
            Mode::Ionian => "ionian",
            Mode::Locrian => "locrian",
            Mode::NoMode => "none",
        }
    }
}

impl ToSexpr for Mode {
    /// The symbol of the value.
    open spec fn to_sexpr_spec(&self) -> SexprV {
        SexprV::Symbol(mode_name(*self))
    }

    fn to_sexpr(&self) -> (r: Sexpr) {
        Sexpr::symbol(self.symbol())
    }
}

/// The symbol of each `ClefSign`.
pub open spec fn clef_sign_name(v: ClefSign) -> Seq<char> {
    match v {
        ClefSign::G => "G"@,
        ClefSign::F => "F"@,
        ClefSign::C => "C"@,
        ClefSign::Percussion => "percussion"@,
        ClefSign::Tab => "TAB"@,
        ClefSign::Jianpu => "jianpu"@,
        ClefSign::NoSign => "none"@,
    }
}

impl ClefSign {
    /// The symbol of the value, as `clef_sign_name` states.
    pub fn symbol(&self) -> (r: &'static str)
        ensures
            r@ == clef_sign_name(*self),
    {
        match self {
            ClefSign::G => "G",
            ClefSign::F => "F",
            ClefSign::C => "C",
            ClefSign::Percussion => "percussion",
            ClefSign::Tab => "TAB",
            ClefSign::Jianpu => "jianpu",
            ClefSign::NoSign => "none",
        }
    }
}

impl ToSexpr for ClefSign {
    /// The symbol of the value.
    open spec fn to_sexpr_spec(&self) -> SexprV {
        SexprV::Symbol(clef_sign_name(*self))
    }

    fn to_sexpr(&self) -> (r: Sexpr) {
        Sexpr::symbol(self.symbol())
    }
}

/// The symbol of each `TimeSymbol`.
pub open spec fn time_symbol_name(v: TimeSymbol) -> Seq<char> {
    match v {
        TimeSymbol::Common => "common"@,
        TimeSymbol::Cut => "cut"@,
        TimeSymbol::SingleNumber => "single-number"@,
        TimeSymbol::Normal => "normal"@,
        TimeSymbol::DottedNote => "dotted-note"@,
        TimeSymbol::Note => "note"@,
    }
}

impl TimeSymbol {
    /// The symbol of the value, as `time_symbol_name` states.
    pub fn symbol(&self) -> (r: &'static str)
        ensures
            r@ == time_symbol_name(*self),
    {
        match self {
            TimeSymbol::Common => "common",
            TimeSymbol::Cut => "cut",
            TimeSymbol::SingleNumber => "single-number",
            TimeSymbol::Normal => "normal",
            TimeSymbol::DottedNote => "dotted-note",
            TimeSymbol::Note => "note",
        }
    }
}

impl ToSexpr for TimeSymbol {
    /// The symbol of the value.
    open spec fn to_sexpr_spec(&self) -> SexprV {
        SexprV::Symbol(time_symbol_name(*self))
    }

    fn to_sexpr(&self) -> (r: Sexpr) {
        Sexpr::symbol(self.symbol())
    }
}

/// The symbol of each `BarStyle`.
pub open spec fn bar_style_name(v: BarStyle) -> Seq<char> {
    match v {
        BarStyle::Regular => "regular"@,
        BarStyle::Dotted => "dotted"@,
        BarStyle::Dashed => "dashed"@,
        BarStyle::Heavy => "heavy"@,
        BarStyle::LightLight => "light-light"@,
        BarStyle::LightHeavy => "light-heavy"@,
        BarStyle::HeavyLight => "heavy-light"@,
        BarStyle::HeavyHeavy => "heavy-heavy"@,
        BarStyle::Tick => "tick"@,
        BarStyle::Short => "short"@,
        BarStyle::NoBar => "none"@,
    }
}

impl BarStyle {
    /// The symbol of the value, as `bar_style_name` states.
    pub fn symbol(&self) -> (r: &'static str)
        ensures
            r@ == bar_style_name(*self),
    {
        match self {
            BarStyle::Regular => "regular",
            BarStyle::Dotted => "dotted",
            BarStyle::Dashed => "dashed",
            BarStyle::Heavy => "heavy",
            BarStyle::LightLight => "light-light",
            BarStyle::LightHeavy => "light-heavy",
            BarStyle::HeavyLight => "heavy-light",
            BarStyle::HeavyHeavy => "heavy-heavy",
            BarStyle::Tick => "tick",
            BarStyle::Short => "short",
            BarStyle::NoBar => "none",
        }
    }
}

impl ToSexpr for BarStyle {
    /// The symbol of the value.
    open spec fn to_sexpr_spec(&self) -> SexprV {
        SexprV::Symbol(bar_style_name(*self))
    }

    fn to_sexpr(&self) -> (r: Sexpr) {
        Sexpr::symbol(self.symbol())
    }
}

/// The symbol of each `RightLeftMiddle`.
pub open spec fn right_left_middle_name(v: RightLeftMiddle) -> Seq<char> {
    match v {
        RightLeftMiddle::Right => "right"@,
        RightLeftMiddle::Left => "left"@,
        RightLeftMiddle::Middle => "middle"@,
    }
}

impl RightLeftMiddle {
    /// The symbol of the value, as `right_left_middle_name` states.
    pub fn symbol(&self) -> (r: &'static str)
        ensures
            r@ == right_left_middle_name(*self),
    {
        match self {
            RightLeftMiddle::Right => "right",
            RightLeftMiddle::Left => "left",
            RightLeftMiddle::Middle => "middle",
        }
    }
}

impl ToSexpr for RightLeftMiddle {
    /// The symbol of the value.
    open spec fn to_sexpr_spec(&self) -> SexprV {
        SexprV::Symbol(right_left_middle_name(*self))
    }

    fn to_sexpr(&self) -> (r: Sexpr) {
        Sexpr::symbol(self.symbol())
    }
}

/// The symbol of each `BackwardForward`.
pub open spec fn backward_forward_name(v: BackwardForward) -> Seq<char> {
    match v {
        BackwardForward::Backward => "backward"@,
        BackwardForward::Forward => "forward"@,
    }
}

impl BackwardForward {
    /// The symbol of the value, as `backward_forward_name` states.
    pub fn symbol(&self) -> (r: &'static str)
        ensures
            r@ == backward_forward_name(*self),
    {
        match self {
            BackwardForward::Backward => "backward",
            BackwardForward::Forward => "forward",
        }
    }
}

impl ToSexpr for BackwardForward {
    /// The symbol of the value.
    open spec fn to_sexpr_spec(&self) -> SexprV {
        SexprV::Symbol(backward_forward_name(*self))
    }

    fn to_sexpr(&self) -> (r: Sexpr) {
        Sexpr::symbol(self.symbol())
    }
}

/// The symbol of each `StartStopDiscontinue`.
pub open spec fn start_stop_discontinue_name(v: StartStopDiscontinue) -> Seq<char> {
    match v {
        StartStopDiscontinue::Start => "start"@,
        StartStopDiscontinue::Stop => "stop"@,
        StartStopDiscontinue::Discontinue => "discontinue"@,
    }
}

impl StartStopDiscontinue {
    /// The symbol of the value, as `start_stop_discontinue_name` states.
    pub fn symbol(&self) -> (r: &'static str)
        ensures
            r@ == start_stop_discontinue_name(*self),
    {
        match self {
            StartStopDiscontinue::Start => "start",
            StartStopDiscontinue::Stop => "stop",
            StartStopDiscontinue::Discontinue => "discontinue",
        }
    }
}

impl ToSexpr for StartStopDiscontinue {
    /// The symbol of the value.
    open spec fn to_sexpr_spec(&self) -> SexprV {
        SexprV::Symbol(start_stop_discontinue_name(*self))
    }

    fn to_sexpr(&self) -> (r: Sexpr) {
        Sexpr::symbol(self.symbol())
    }
}

impl ToSexpr for Attributes {
    /// `(attributes ...)` with the keyword arguments that the value has.
    open spec fn to_sexpr_spec(&self) -> SexprV {
        SexprV::List(seq![SexprV::Symbol("attributes"@)] + kw_opt("divisions"@, self.divisions) + kw_if(self.keys@.len() > 0, "keys"@, self.keys.to_sexpr_spec()) + kw_if(self.times@.len() > 0, "times"@, self.times.to_sexpr_spec()) + kw_opt("staves"@, self.staves) + kw_if(self.clefs@.len() > 0, "clefs"@, self.clefs.to_sexpr_spec()) + kw_if(self.staff_details@.len() > 0, "staff-details"@, self.staff_details.to_sexpr_spec()) + kw_if(self.transpose@.len() > 0, "transpose"@, self.transpose.to_sexpr_spec()) + kw_opt("instruments"@, self.instruments))
    }

    fn to_sexpr(&self) -> (r: Sexpr) {
        ListBuilder::new("attributes").kwarg_opt("divisions", &self.divisions).kwarg_when(self.keys.len() > 0, "keys", &self.keys).kwarg_when(self.times.len() > 0, "times", &self.times).kwarg_opt("staves", &self.staves).kwarg_when(self.clefs.len() > 0, "clefs", &self.clefs).kwarg_when(self.staff_details.len() > 0, "staff-details", &self.staff_details).kwarg_when(self.transpose.len() > 0, "transpose", &self.transpose).kwarg_opt("instruments", &self.instruments).build()
    }
}

impl ToSexpr for Key {
    /// `(key ...)` with the keyword arguments that the value has.
    open spec fn to_sexpr_spec(&self) -> SexprV {
        SexprV::List(seq![SexprV::Symbol("key"@)] + kw_opt("number"@, self.number) + kw_opt("print-object"@, self.print_object) + kw_pair("content"@, self.content.to_sexpr_spec()))
    }

    fn to_sexpr(&self) -> (r: Sexpr) {
        ListBuilder::new("key").kwarg_opt("number", &self.number).kwarg_opt("print-object", &self.print_object).kwarg("content", &self.content).build()
    }
}

impl ToSexpr for TraditionalKey {
    /// `(traditional-key ...)` with the keyword arguments that the value has.
    open spec fn to_sexpr_spec(&self) -> SexprV {
        SexprV::List(seq![SexprV::Symbol("traditional-key"@)] + kw_opt("cancel"@, self.cancel) + kw_pair("fifths"@, self.fifths.to_sexpr_spec()) + kw_opt("mode"@, self.mode))
    }

    fn to_sexpr(&self) -> (r: Sexpr) {
        ListBuilder::new("traditional-key").kwarg_opt("cancel", &self.cancel).kwarg("fifths", &self.fifths).kwarg_opt("mode", &self.mode).build()
    }
}

impl ToSexpr for Cancel {
    /// `(cancel ...)` with the keyword arguments that the value has.
    open spec fn to_sexpr_spec(&self) -> SexprV {
        SexprV::List(seq![SexprV::Symbol("cancel"@)] + kw_pair("fifths"@, self.fifths.to_sexpr_spec()))
    }

    fn to_sexpr(&self) -> (r: Sexpr) {
        ListBuilder::new("cancel").kwarg("fifths", &self.fifths).build()
    }
}

impl ToSexpr for KeyStep {
    /// `(key-step ...)` with the keyword arguments that the value has.
    open spec fn to_sexpr_spec(&self) -> SexprV {
        SexprV::List(seq![SexprV::Symbol("key-step"@)] + kw_pair("step"@, self.step.to_sexpr_spec()) + kw_pair("alter"@, self.alter.to_sexpr_spec()) + kw_opt("accidental"@, self.accidental))
    }

    fn to_sexpr(&self) -> (r: Sexpr) {
        ListBuilder::new("key-step").kwarg("step", &self.step).kwarg("alter", &self.alter).kwarg_opt("accidental", &self.accidental).build()
    }
}

impl ToSexpr for Time {
    /// `(time ...)` with the keyword arguments that the value has.
    open spec fn to_sexpr_spec(&self) -> SexprV {
        SexprV::List(seq![SexprV::Symbol("time"@)] + kw_opt("number"@, self.number) + kw_opt("symbol"@, self.symbol) + kw_pair("content"@, self.content.to_sexpr_spec()))
    }

    fn to_sexpr(&self) -> (r: Sexpr) {
        ListBuilder::new("time").kwarg_opt("number", &self.number).kwarg_opt("symbol", &self.symbol).kwarg("content", &self.content).build()
    }
}

impl ToSexpr for TimeSignature {
    /// `(time-signature ...)` with the keyword arguments that the value has.
    open spec fn to_sexpr_spec(&self) -> SexprV {
        SexprV::List(seq![SexprV::Symbol("time-signature"@)] + kw_pair("beats"@, self.beats.to_sexpr_spec()) + kw_pair("beat-type"@, self.beat_type.to_sexpr_spec()))
    }

    fn to_sexpr(&self) -> (r: Sexpr) {
        ListBuilder::new("time-signature").kwarg("beats", &self.beats).kwarg("beat-type", &self.beat_type).build()
    }
}

impl ToSexpr for Clef {
    /// `(clef ...)` with the keyword arguments that the value has.
    open spec fn to_sexpr_spec(&self) -> SexprV {
        SexprV::List(seq![SexprV::Symbol("clef"@)] + kw_opt("number"@, self.number) + kw_pair("sign"@, self.sign.to_sexpr_spec()) + kw_opt("line"@, self.line) + kw_opt("octave-change"@, self.octave_change) + kw_opt("print-object"@, self.print_object))
    }

    fn to_sexpr(&self) -> (r: Sexpr) {
        ListBuilder::new("clef").kwarg_opt("number", &self.number).kwarg("sign", &self.sign).kwarg_opt("line", &self.line).kwarg_opt("octave-change", &self.octave_change).kwarg_opt("print-object", &self.print_object).build()
    }
}

impl ToSexpr for StaffDetails {
    /// `(staff-details ...)` with the keyword arguments that the value has.
    open spec fn to_sexpr_spec(&self) -> SexprV {
        SexprV::List(seq![SexprV::Symbol("staff-details"@)] + kw_opt("number"@, self.number) + kw_opt("staff-lines"@, self.staff_lines))
    }

    fn to_sexpr(&self) -> (r: Sexpr) {
        ListBuilder::new("staff-details").kwarg_opt("number", &self.number).kwarg_opt("staff-lines", &self.staff_lines).build()
    }
}

impl ToSexpr for Transpose {
    /// `(transpose ...)` with the keyword arguments that the value has.
    open spec fn to_sexpr_spec(&self) -> SexprV {
        SexprV::List(seq![SexprV::Symbol("transpose"@)] + kw_opt("number"@, self.number) + kw_opt("diatonic"@, self.diatonic) + kw_pair("chromatic"@, self.chromatic.to_sexpr_spec()) + kw_opt("octave-change"@, self.octave_change) + kw_opt("double"@, self.double))
    }

    fn to_sexpr(&self) -> (r: Sexpr) {
        ListBuilder::new("transpose").kwarg_opt("number", &self.number).kwarg_opt("diatonic", &self.diatonic).kwarg("chromatic", &self.chromatic).kwarg_opt("octave-change", &self.octave_change).kwarg_opt("double", &self.double).build()
    }
}

impl ToSexpr for Barline {
    /// `(barline ...)` with the keyword arguments that the value has.
    open spec fn to_sexpr_spec(&self) -> SexprV {
        SexprV::List(seq![SexprV::Symbol("barline"@)] + kw_opt("location"@, self.location) + kw_opt("bar-style"@, self.bar_style) + kw_opt("repeat"@, self.repeat) + kw_opt("ending"@, self.ending))
    }

    fn to_sexpr(&self) -> (r: Sexpr) {
        ListBuilder::new("barline").kwarg_opt("location", &self.location).kwarg_opt("bar-style", &self.bar_style).kwarg_opt("repeat", &self.repeat).kwarg_opt("ending", &self.ending).build()
    }
}

impl ToSexpr for Repeat {
    /// `(repeat ...)` with the keyword arguments that the value has.
    open spec fn to_sexpr_spec(&self) -> SexprV {
        SexprV::List(seq![SexprV::Symbol("repeat"@)] + kw_pair("direction"@, self.direction.to_sexpr_spec()) + kw_opt("times"@, self.times))
    }

    fn to_sexpr(&self) -> (r: Sexpr) {
        ListBuilder::new("repeat").kwarg("direction", &self.direction).kwarg_opt("times", &self.times).build()
    }
}

impl ToSexpr for Ending {
    /// `(ending ...)` with the keyword arguments that the value has.
    open spec fn to_sexpr_spec(&self) -> SexprV {
        SexprV::List(seq![SexprV::Symbol("ending"@)] + kw_pair("number"@, self.number.to_sexpr_spec()) + kw_pair("type"@, self.type_.to_sexpr_spec()) + kw_opt("text"@, self.text))
    }

    fn to_sexpr(&self) -> (r: Sexpr) {
        ListBuilder::new("ending").kwarg("number", &self.number).kwarg("type", &self.type_).kwarg_opt("text", &self.text).build()
    }
}

impl ToSexpr for KeyContent {
    /// The S-expression of the variant's value; a variant without one is its
    /// symbol, and one holding a text or a list is tagged with its name.
    open spec fn to_sexpr_spec(&self) -> SexprV {
        match self {
            KeyContent::Traditional(x) => x.to_sexpr_spec(),
            KeyContent::NonTraditional(x) => SexprV::List(seq![SexprV::Symbol("non-traditional"@)] + kw_pair("value"@, x.to_sexpr_spec())),
        }
    }

    fn to_sexpr(&self) -> (r: Sexpr) {
        match self {
            KeyContent::Traditional(x) => x.to_sexpr(),
            KeyContent::NonTraditional(x) => ListBuilder::new("non-traditional").kwarg("value", x).build(),
        }
    }
}

impl ToSexpr for TimeContent {
    /// The S-expression of the variant's value; a variant without one is its
    /// symbol, and one holding a text or a list is tagged with its name.
    open spec fn to_sexpr_spec(&self) -> SexprV {
        match self {
            TimeContent::Measured(x) => SexprV::List(seq![SexprV::Symbol("measured"@)] + kw_pair("value"@, x.to_sexpr_spec())),
            TimeContent::SenzaMisura(x) => SexprV::List(seq![SexprV::Symbol("senza-misura"@)] + kw_pair("value"@, x.to_sexpr_spec())),
        }
    }

    fn to_sexpr(&self) -> (r: Sexpr) {
        match self {
            TimeContent::Measured(x) => ListBuilder::new("measured").kwarg("value", x).build(),
            TimeContent::SenzaMisura(x) => ListBuilder::new("senza-misura").kwarg("value", x).build(),
        }
    }
}

} // verus!
