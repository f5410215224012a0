//! Pitches.

use vstd::prelude::*;
use crate::decimal::Decimal;

verus! {

/// One of the seven natural pitch steps.
#[derive(Debug, Clone, Copy, PartialEq, Eq, Hash)]
pub enum Step {
    A,
    B,
    C,
    D,
    E,
    F,
    G,
}

/// A pitch: a step, an alteration in semitones, and an octave.
#[derive(Debug, Clone, PartialEq)]
pub struct Pitch {
    /// The natural step.
    pub step: Step,
    /// The alteration in semitones (`1.0` sharp, `-1.0` flat, `0.5` a
    /// quarter tone up).
    pub alter: Option<Decimal>,
    /// The octave (4 holds middle C).
    pub octave: u8,
}

/// An unpitched note (percussion), with where it is displayed.
#[derive(Debug, Clone, PartialEq, Default)]
pub struct Unpitched {
    /// The step of the staff position it is displayed at.
    pub display_step: Option<Step>,
    /// The octave of the staff position it is displayed at.
    pub display_octave: Option<u8>,
}

} // verus!
