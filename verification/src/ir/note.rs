//! Notes.

use vstd::prelude::*;
use crate::decimal::Decimal;
use crate::ir::beam::{Beam, Notehead, Stem};
use crate::ir::common::{AccidentalValue, Position, StartStop, SymbolSize, YesNo};
use crate::ir::duration::{Dot, NoteType, TimeModification};
use crate::ir::lyric::Lyric;
use crate::ir::notation::Notations;
use crate::ir::pitch::{Pitch, Step, Unpitched};

verus! {

/// What a note sounds: a pitch, a rest, or an unpitched sound.
#[derive(Debug, Clone, PartialEq)]
pub enum PitchRestUnpitched {
    /// A pitched note.
    Pitch(Pitch),
    /// A rest.
    Rest(Rest),
    /// An unpitched note.
    Unpitched(Unpitched),
}

/// The three kinds of notes.
#[derive(Debug, Clone, PartialEq)]
pub enum NoteContent {
    /// A note that takes time.
    Regular {
        /// What it sounds.
        full_note: FullNote,
        /// Its duration, in divisions.
        duration: u64,
        /// Its ties.
        ties: Vec<Tie>,
    },
    /// A grace note, which takes no time of its own by default.
    Grace {
        /// How it takes its time.
        grace: Grace,
        /// What it sounds.
        full_note: FullNote,
        /// Its ties.
        ties: Vec<Tie>,
    },
    /// A cue note, drawn but not played.
    Cue {
        /// What it sounds.
        full_note: FullNote,
        /// Its duration, in divisions.
        duration: u64,
    },
}

/// A rest, with where it is displayed.
#[derive(Debug, Clone, PartialEq, Default)]
pub struct Rest {
    /// Whether it fills the whole measure.
    pub measure: Option<YesNo>,
    /// The step of the staff position it is displayed at.
    pub display_step: Option<Step>,
    /// The octave of the staff position it is displayed at.
    pub display_octave: Option<u8>,
}

/// What a note sounds, and whether it joins a chord.
#[derive(Debug, Clone, PartialEq)]
pub struct FullNote {
    /// Whether it sounds with the note before it.
    pub chord: bool,
    /// A pitch, a rest, or an unpitched sound.
    pub content: PitchRestUnpitched,
}

/// A tie for playback (not the drawn one).
#[derive(Debug, Clone, PartialEq)]
pub struct Tie {
    /// Whether it starts or stops.
    pub type_: StartStop,
    /// The passes of a repeat that it applies to.
    pub time_only: Option<String>,
}

/// How a grace note takes its time.
#[derive(Debug, Clone, PartialEq, Default)]
pub struct Grace {
    /// The percentage of time taken from the note before.
    pub steal_time_previous: Option<Decimal>,
    /// The percentage of time taken from the note after.
    pub steal_time_following: Option<Decimal>,
    /// The time it takes in divisions, where it takes time of its own.
    pub make_time: Option<i32>,
    /// Whether it is drawn with a slash.
    pub slash: Option<YesNo>,
}

/// An accidental drawn before a note.
#[derive(Debug, Clone, PartialEq)]
pub struct Accidental {
    /// Which accidental.
    pub value: AccidentalValue,
    /// Whether it is a reminder.
    pub cautionary: Option<YesNo>,
    /// Whether an editor added it.
    pub editorial: Option<YesNo>,
    /// Whether it stands in parentheses.
    pub parentheses: Option<YesNo>,
    /// Whether it stands in brackets.
    pub bracket: Option<YesNo>,
    /// The size it is drawn at.
    pub size: Option<SymbolSize>,
}

/// A reference to the instrument that plays a note.
#[derive(Debug, Clone, PartialEq)]
pub struct Instrument {
    /// The id of a score instrument.
    pub id: String,
}

/// A note: what it sounds, how long, and how it is drawn.
#[derive(Debug, Clone, PartialEq)]
pub struct Note {
    /// Where it is drawn.
    pub position: Position,
    /// Its loudness, as a percentage of forte.
    pub dynamics: Option<Decimal>,
    /// Its loudness at its end.
    pub end_dynamics: Option<Decimal>,
    /// How early or late it starts, in divisions.
    pub attack: Option<i32>,
    /// How early or late it ends, in divisions.
    pub release: Option<i32>,
    /// Whether it is plucked.
    pub pizzicato: Option<bool>,
    /// Whether it is drawn.
    pub print_object: Option<YesNo>,
    /// A regular, grace or cue note.
    pub content: NoteContent,
    /// The instruments that play it.
    pub instrument: Vec<Instrument>,
    /// Its voice.
    pub voice: Option<String>,
    /// Its graphic type.
    pub type_: Option<NoteType>,
    /// Its augmentation dots.
    pub dots: Vec<Dot>,
    /// The accidental drawn before it.
    pub accidental: Option<Accidental>,
    /// Its tuplet ratio.
    pub time_modification: Option<TimeModification>,
    /// Its stem.
    pub stem: Option<Stem>,
    /// Its notehead.
    pub notehead: Option<Notehead>,
    /// Its staff.
    pub staff: Option<u16>,
    /// Its beams.
    pub beams: Vec<Beam>,
    /// Its notations.
    pub notations: Vec<Notations>,
    /// Its lyrics.
    pub lyrics: Vec<Lyric>,
}

} // verus!
