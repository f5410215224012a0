//! Durations, note types, dots and tuplet ratios.

use vstd::prelude::*;
use crate::ir::common::{AboveBelow, Position, SymbolSize};

verus! {

/// The graphic type of a note.
#[derive(Debug, Clone, Copy, PartialEq, Eq, Hash, Default)]
pub enum NoteTypeValue {
    N1024th,
    N512th,
    N256th,
    N128th,
    N64th,
    N32nd,
    N16th,
    Eighth,
    #[default]
    Quarter,
    Half,
    Whole,
    Breve,
    Long,
    Maxima,
}

/// The graphic type of a note, with the size it is drawn at.
#[derive(Debug, Clone, PartialEq)]
pub struct NoteType {
    /// The type.
    pub value: NoteTypeValue,
    /// The size it is drawn at.
    pub size: Option<SymbolSize>,
}

/// An augmentation dot.
#[derive(Debug, Clone, PartialEq, Default)]
pub struct Dot {
    /// Above or below.
    pub placement: Option<AboveBelow>,
    /// Where it is drawn.
    pub position: Position,
}

/// A tuplet ratio: how many notes stand in the time of how many.
#[derive(Debug, Clone, PartialEq, Default)]
pub struct TimeModification {
    /// The number of notes played.
    pub actual_notes: u32,
    /// The number of notes whose time they take.
    pub normal_notes: u32,
    /// The type of those notes.
    pub normal_type: Option<NoteTypeValue>,
    /// The dots of those notes.
    pub normal_dots: u32,
}

} // verus!
