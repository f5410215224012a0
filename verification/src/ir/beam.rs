//! Beams, stems and noteheads.

use vstd::prelude::*;
use crate::decimal::Decimal;
use crate::ir::common::{Font, YesNo};

verus! {

/// The kind of a beam on a note.
#[derive(Debug, Clone, Copy, PartialEq, Eq, Hash, Default)]
pub enum BeamValue {
    #[default]
    Begin,
    Continue,
    End,
    ForwardHook,
    BackwardHook,
}

/// Whether a beam fans out: faster, slower, or not at all.
#[derive(Debug, Clone, Copy, PartialEq, Eq, Hash, Default)]
pub enum Fan {
    #[default]
    Accel,
    Rit,
    Steady,
}

/// The direction of a stem.
#[derive(Debug, Clone, Copy, PartialEq, Eq, Hash, Default)]
pub enum StemValue {
    #[default]
    Down,
    Up,
    Double,
    NoStem,
}

/// The shape of a notehead.
#[derive(Debug, Clone, Copy, PartialEq, Eq, Hash, Default)]
pub enum NoteheadValue {
    #[default]
    Slash,
    Triangle,
    Diamond,
    Square,
    Cross,
    X,
    CircleX,
    InvertedTriangle,
    ArrowDown,
    ArrowUp,
    Circled,
    Slashed,
    BackSlashed,
    Normal,
    Cluster,
    CircleDot,
    LeftTriangle,
    Rectangle,
    NoNotehead,
    Do,
    Re,
    Mi,
    Fa,
    FaUp,
    So,
    La,
    Ti,
    Other,
}

/// A beam on a note, one per beam level.
#[derive(Debug, Clone, PartialEq)]
pub struct Beam {
    /// Begin, continue, end, or a hook.
    pub value: BeamValue,
    /// The beam level, from 1.
    pub number: u8,
    /// Whether the beam fans out.
    pub fan: Option<Fan>,
    /// Its color.
    pub color: Option<String>,
}

/// The stem of a note.
#[derive(Debug, Clone, PartialEq)]
pub struct Stem {
    /// Its direction.
    pub value: StemValue,
    /// Where it ends, in tenths.
    pub default_y: Option<Decimal>,
    /// Its color.
    pub color: Option<String>,
}

/// The notehead of a note, where it is not the usual one.
#[derive(Debug, Clone, PartialEq)]
pub struct Notehead {
    /// Its shape.
    pub value: NoteheadValue,
    /// Whether it is filled.
    pub filled: Option<YesNo>,
    /// Whether it stands in parentheses.
    pub parentheses: Option<YesNo>,
    /// The font of a notehead drawn as text.
    pub font: Font,
    /// Its color.
    pub color: Option<String>,
}

} // verus!
