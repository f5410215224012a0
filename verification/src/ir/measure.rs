//! Measures and what they hold.

use vstd::prelude::*;
use crate::decimal::Decimal;
use crate::ir::common::YesNo;
use crate::ir::note::Note;
use crate::ir::voice::{Backup, Forward};
use crate::ir::attributes::{Attributes, Barline};
use crate::ir::direction::Direction;

verus! {

/// A measure of one part.
#[derive(Debug, Clone, PartialEq, Default)]
pub struct Measure {
    /// Its number, as text.
    pub number: String,
    /// Whether it is left out of the measure count (as a pickup is).
    pub implicit: Option<YesNo>,
    /// Whether it is left out of the barline alignment.
    pub non_controlling: Option<YesNo>,
    /// Its width, in tenths.
    pub width: Option<Decimal>,
    /// What it holds, in order.
    pub content: Vec<MusicDataElement>,
}

/// An element of a measure.
#[derive(Debug, Clone, PartialEq)]
pub enum MusicDataElement {
    /// A note.
    Note(Box<Note>),
    /// A move backward in time.
    Backup(Backup),
    /// A move forward in time.
    Forward(Forward),
    /// A direction.
    Direction(Box<Direction>),
    /// Attributes.
    Attributes(Box<Attributes>),
    /// A barline.
    Barline(Box<Barline>),
}

} // verus!
