//! Directions: markings attached to the music rather than to a note.

use vstd::prelude::*;
use crate::ir::common::{AboveBelow, YesNo};
use crate::ir::duration::NoteTypeValue;

verus! {

/// A dynamic marking.
#[derive(Debug, Clone, Copy, PartialEq, Eq, Hash, Default)]
pub enum DynamicElement {
    #[default]
    P,
    PP,
    PPP,
    PPPP,
    PPPPP,
    PPPPPP,
    F,
    FF,
    FFF,
    FFFF,
    FFFFF,
    FFFFFF,
    MP,
    MF,
    SF,
    SFP,
    SFPP,
    FP,
    RF,
    RFZ,
    SFZ,
    SFFZ,
    FZ,
    N,
    PF,
    SFZP,
}

/// A group of dynamic markings.
#[derive(Debug, Clone, PartialEq, Default)]
pub struct Dynamics {
    /// The markings.
    pub content: Vec<DynamicElement>,
    /// Above or below.
    pub placement: Option<AboveBelow>,
}

/// The kind of a wedge (hairpin).
#[derive(Debug, Clone, Copy, PartialEq, Eq, Hash, Default)]
pub enum WedgeType {
    #[default]
    /// `crescendo`.
    Crescendo,
    /// `diminuendo`.
    Diminuendo,
    /// `stop`.
    Stop,
    /// `continue`.
    Continue,
}

/// What a pedal mark does.
#[derive(Debug, Clone, Copy, PartialEq, Eq, Hash, Default)]
pub enum PedalType {
    #[default]
    /// `start`.
    Start,
    /// `stop`.
    Stop,
    /// `sostenuto`.
    Sostenuto,
    /// `change`.
    Change,
    /// `continue`.
    Continue,
    /// `discontinue`.
    Discontinue,
    /// `resume`.
    Resume,
}

/// The kind of an octave shift.
#[derive(Debug, Clone, Copy, PartialEq, Eq, Hash, Default)]
pub enum UpDownStopContinue {
    #[default]
    /// `up`.
    Up,
    /// `down`.
    Down,
    /// `stop`.
    Stop,
    /// `continue`.
    Continue,
}

/// A direction: a marking attached to the music.
#[derive(Debug, Clone, PartialEq, Default)]
pub struct Direction {
    /// Above or below the staff.
    pub placement: Option<AboveBelow>,
    /// What it holds.
    pub direction_types: Vec<DirectionType>,
    /// The staff.
    pub staff: Option<u32>,
    /// The voice.
    pub voice: Option<String>,
}

/// One marking of a direction.
#[derive(Debug, Clone, PartialEq)]
pub struct DirectionType {
    /// The marking.
    pub content: DirectionTypeContent,
}

/// A rehearsal mark.
#[derive(Debug, Clone, PartialEq, Default)]
pub struct Rehearsal {
    /// Its text.
    pub value: String,
}

/// Words written as a direction.
#[derive(Debug, Clone, PartialEq, Default)]
pub struct Words {
    /// The text.
    pub value: String,
    /// Its language.
    pub lang: Option<String>,
}

/// A wedge (hairpin).
#[derive(Debug, Clone, PartialEq)]
pub struct Wedge {
    /// Its kind.
    pub type_: WedgeType,
}

/// A metronome mark.
#[derive(Debug, Clone, PartialEq)]
pub struct Metronome {
    /// Whether it is in parentheses.
    pub parentheses: Option<YesNo>,
    /// What it says.
    pub content: MetronomeContent,
}

/// A beat unit and a tempo.
#[derive(Debug, Clone, PartialEq, Default)]
pub struct PerMinute {
    /// The beat unit.
    pub beat_unit: NoteTypeValue,
    /// Dots of the beat unit.
    pub beat_unit_dots: u32,
    /// Beats per minute, as text.
    pub per_minute: String,
}

/// An equation between two beat units.
#[derive(Debug, Clone, PartialEq, Default)]
pub struct BeatEquation {
    /// The unit on the left.
    pub left_unit: NoteTypeValue,
    /// Its dots.
    pub left_dots: u32,
    /// The unit on the right.
    pub right_unit: NoteTypeValue,
    /// Its dots.
    pub right_dots: u32,
}

/// An octave shift.
#[derive(Debug, Clone, PartialEq)]
pub struct OctaveShift {
    /// Its kind.
    pub type_: UpDownStopContinue,
    /// Which shift, where several overlap.
    pub number: Option<u8>,
    /// Its size (8, 15, 22).
    pub size: Option<u8>,
}

/// A pedal mark.
#[derive(Debug, Clone, PartialEq)]
pub struct Pedal {
    /// What it does.
    pub type_: PedalType,
    /// Whether it is drawn with a line.
    pub line: Option<YesNo>,
    /// Whether it is drawn with a sign.
    pub sign: Option<YesNo>,
}

/// Another direction.
#[derive(Debug, Clone, PartialEq, Default)]
pub struct OtherDirection {
    /// Its text.
    pub value: String,
}

/// What a metronome mark says.
#[derive(Debug, Clone, PartialEq)]
pub enum MetronomeContent {
    /// A beat unit and a tempo.
    PerMinute(PerMinute),
    /// An equation between beat units.
    BeatEquation(BeatEquation),
    /// A metric modulation.
    MetricModulation,
}

/// The marking of a direction.
#[derive(Debug, Clone, PartialEq)]
pub enum DirectionTypeContent {
    /// Rehearsal marks.
    Rehearsal(Vec<Rehearsal>),
    /// A segno.
    Segno,
    /// A coda.
    Coda,
    /// Words.
    Words(Vec<Words>),
    /// Dynamics.
    Dynamics(Dynamics),
    /// A wedge.
    Wedge(Wedge),
    /// Dashes.
    Dashes,
    /// A bracket.
    Bracket,
    /// A metronome mark.
    Metronome(Metronome),
    /// An octave shift.
    OctaveShift(OctaveShift),
    /// A pedal mark.
    Pedal(Pedal),
    /// A damp mark.
    Damp,
    /// A damp-all mark.
    DampAll,
    /// Eyeglasses.
    Eyeglasses,
    /// Another direction.
    OtherDirection(OtherDirection),
}

} // verus!
