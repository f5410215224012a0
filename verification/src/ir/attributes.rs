//! Measure attributes (divisions, keys, times, clefs, staff details,
//! transpositions) and barlines.

use vstd::prelude::*;
use crate::decimal::Decimal;
use crate::ir::common::{AccidentalValue, YesNo};
use crate::ir::pitch::Step;

verus! {

/// The mode of a key.
#[derive(Debug, Clone, Copy, PartialEq, Eq, Hash, Default)]
pub enum Mode {
    #[default]
    /// `major`.
    Major,
    /// `minor`.
    Minor,
    /// `dorian`.
    Dorian,
    /// `phrygian`.
    Phrygian,
    /// `lydian`.
    Lydian,
    /// `mixolydian`.
    Mixolydian,
    /// `aeolian`.
    Aeolian,
    /// `ionian`.
    Ionian,
    /// `locrian`.
    Locrian,
    /// `none`.
    NoMode,
}

/// The sign of a clef.
#[derive(Debug, Clone, Copy, PartialEq, Eq, Hash, Default)]
pub enum ClefSign {
    #[default]
    /// `G`.
    G,
    /// `F`.
    F,
    /// `C`.
    C,
    /// `percussion`.
    Percussion,
    /// `TAB`.
    Tab,
    /// `jianpu`.
    Jianpu,
    /// `none`.
    NoSign,
}

/// How a time signature is shown.
#[derive(Debug, Clone, Copy, PartialEq, Eq, Hash, Default)]
pub enum TimeSymbol {
    #[default]
    /// `common`.
    Common,
    /// `cut`.
    Cut,
    /// `single-number`.
    SingleNumber,
    /// `normal`.
    Normal,
    /// `dotted-note`.
    DottedNote,
    /// `note`.
    Note,
}

/// The style of a barline.
#[derive(Debug, Clone, Copy, PartialEq, Eq, Hash, Default)]
pub enum BarStyle {
    #[default]
    /// `regular`.
    Regular,
    /// `dotted`.
    Dotted,
    /// `dashed`.
    Dashed,
    /// `heavy`.
    Heavy,
    /// `light-light`.
    LightLight,
    /// `light-heavy`.
    LightHeavy,
    /// `heavy-light`.
    HeavyLight,
    /// `heavy-heavy`.
    HeavyHeavy,
    /// `tick`.
    Tick,
    /// `short`.
    Short,
    /// `none`.
    NoBar,
}

/// Where a barline stands in its measure.
#[derive(Debug, Clone, Copy, PartialEq, Eq, Hash, Default)]
pub enum RightLeftMiddle {
    #[default]
    /// `right`.
    Right,
    /// `left`.
    Left,
    /// `middle`.
    Middle,
}

/// Which way a repeat goes.
#[derive(Debug, Clone, Copy, PartialEq, Eq, Hash, Default)]
pub enum BackwardForward {
    #[default]
    /// `backward`.
    Backward,
    /// `forward`.
    Forward,
}

/// Where an ending starts, stops or breaks off.
#[derive(Debug, Clone, Copy, PartialEq, Eq, Hash, Default)]
pub enum StartStopDiscontinue {
    #[default]
    /// `start`.
    Start,
    /// `stop`.
    Stop,
    /// `discontinue`.
    Discontinue,
}

/// The attributes of a measure: divisions, keys, times, staves, clefs and the like.
#[derive(Debug, Clone, PartialEq, Default)]
pub struct Attributes {
    /// The divisions of a quarter note.
    pub divisions: Option<u64>,
    /// The key signatures.
    pub keys: Vec<Key>,
    /// The time signatures.
    pub times: Vec<Time>,
    /// The number of staves.
    pub staves: Option<u32>,
    /// The clefs.
    pub clefs: Vec<Clef>,
    /// Details of the staves.
    pub staff_details: Vec<StaffDetails>,
    /// Transpositions.
    pub transpose: Vec<Transpose>,
    /// The number of instruments.
    pub instruments: Option<u32>,
}

/// A key signature.
#[derive(Debug, Clone, PartialEq)]
pub struct Key {
    /// The staff it applies to.
    pub number: Option<u32>,
    /// Whether it is shown.
    pub print_object: Option<YesNo>,
    /// The key itself.
    pub content: KeyContent,
}

/// A key given by its fifths and mode.
#[derive(Debug, Clone, PartialEq, Default)]
pub struct TraditionalKey {
    /// The key it cancels.
    pub cancel: Option<Cancel>,
    /// Sharps (positive) or flats (negative).
    pub fifths: i8,
    /// The mode.
    pub mode: Option<Mode>,
}

/// The cancellation of an earlier key.
#[derive(Debug, Clone, PartialEq, Default)]
pub struct Cancel {
    /// The fifths of the cancelled key.
    pub fifths: i8,
}

/// An altered step of a non-traditional key.
#[derive(Debug, Clone, PartialEq)]
pub struct KeyStep {
    /// The step.
    pub step: Step,
    /// Its alteration in semitones.
    pub alter: Decimal,
    /// The accidental shown.
    pub accidental: Option<AccidentalValue>,
}

/// A time signature.
#[derive(Debug, Clone, PartialEq)]
pub struct Time {
    /// The staff it applies to.
    pub number: Option<u32>,
    /// How it is shown.
    pub symbol: Option<TimeSymbol>,
    /// The signature itself.
    pub content: TimeContent,
}

/// Beats and beat type of a time signature.
#[derive(Debug, Clone, PartialEq, Default)]
pub struct TimeSignature {
    /// The beats.
    pub beats: String,
    /// The beat type.
    pub beat_type: String,
}

/// A clef.
#[derive(Debug, Clone, PartialEq, Default)]
pub struct Clef {
    /// The staff it applies to.
    pub number: Option<u32>,
    /// Its sign.
    pub sign: ClefSign,
    /// The staff line it sits on.
    pub line: Option<u32>,
    /// Octaves of transposition.
    pub octave_change: Option<i32>,
    /// Whether it is shown.
    pub print_object: Option<YesNo>,
}

/// Details of a staff.
#[derive(Debug, Clone, PartialEq, Default)]
pub struct StaffDetails {
    /// The staff.
    pub number: Option<u32>,
    /// Its number of lines.
    pub staff_lines: Option<u32>,
}

/// The transposition of a part.
#[derive(Debug, Clone, PartialEq, Default)]
pub struct Transpose {
    /// The staff it applies to.
    pub number: Option<u32>,
    /// Diatonic steps.
    pub diatonic: Option<i32>,
    /// Chromatic steps.
    pub chromatic: i32,
    /// Octaves.
    pub octave_change: Option<i32>,
    /// Whether it is doubled an octave down.
    pub double: Option<YesNo>,
}

/// A barline.
#[derive(Debug, Clone, PartialEq, Default)]
pub struct Barline {
    /// Where it stands.
    pub location: Option<RightLeftMiddle>,
    /// Its style.
    pub bar_style: Option<BarStyle>,
    /// A repeat sign.
    pub repeat: Option<Repeat>,
    /// A volta bracket.
    pub ending: Option<Ending>,
}

/// A repeat sign.
#[derive(Debug, Clone, PartialEq)]
pub struct Repeat {
    /// Which way it goes.
    pub direction: BackwardForward,
    /// How many times.
    pub times: Option<u32>,
}

/// A volta bracket.
#[derive(Debug, Clone, PartialEq)]
pub struct Ending {
    /// Its number or numbers.
    pub number: String,
    /// Where it starts or stops.
    pub type_: StartStopDiscontinue,
    /// Its text.
    pub text: Option<String>,
}

/// What a key signature holds.
#[derive(Debug, Clone, PartialEq)]
pub enum KeyContent {
    /// Fifths and mode.
    Traditional(TraditionalKey),
    /// Altered steps.
    NonTraditional(Vec<KeyStep>),
}

/// What a time signature holds.
#[derive(Debug, Clone, PartialEq)]
pub enum TimeContent {
    /// Beats and beat types.
    Measured(Vec<TimeSignature>),
    /// No measure, with its text.
    SenzaMisura(String),
}

} // verus!
