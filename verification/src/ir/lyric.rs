//! Lyrics.

use vstd::prelude::*;
use crate::ir::common::{AboveBelow, StartStopContinue};

verus! {

/// Where a syllable stands in its word.
#[derive(Debug, Clone, Copy, PartialEq, Eq, Hash, Default)]
pub enum Syllabic {
    /// A word of one syllable.
    #[default]
    Single,
    /// The first syllable of a word.
    Begin,
    /// The last syllable of a word.
    End,
    /// A syllable inside a word.
    Middle,
}

/// Horizontal justification.
#[derive(Debug, Clone, Copy, PartialEq, Eq, Hash, Default)]
pub enum LeftCenterRight {
    /// Left.
    #[default]
    Left,
    /// Centered.
    Center,
    /// Right.
    Right,
}

/// The text of a syllable.
#[derive(Debug, Clone, PartialEq, Default)]
pub struct TextElementData {
    /// The text.
    pub value: String,
}

/// The joining of two syllables on one note.
#[derive(Debug, Clone, PartialEq, Default)]
pub struct Elision {
    /// The text that joins them, such as `_`.
    pub value: String,
}

/// A further syllable sung on the same note.
#[derive(Debug, Clone, PartialEq, Default)]
pub struct LyricExtension {
    /// How it joins the syllable before it.
    pub elision: Elision,
    /// Where it stands in its word.
    pub syllabic: Option<Syllabic>,
    /// Its text.
    pub text: TextElementData,
}

/// A line that extends a syllable over the notes after it.
#[derive(Debug, Clone, PartialEq, Default)]
pub struct Extend {
    /// Where the line starts, continues or stops.
    pub type_: Option<StartStopContinue>,
}

/// What a lyric holds.
#[derive(Debug, Clone, PartialEq)]
pub enum LyricContent {
    /// A syllable, with those sung after it on the same note.
    Syllable {
        /// Where it stands in its word.
        syllabic: Option<Syllabic>,
        /// Its text.
        text: TextElementData,
        /// Further syllables on the same note.
        extensions: Vec<LyricExtension>,
        /// A line after it.
        extend: Option<Extend>,
    },
    /// A line that carries on a syllable from an earlier note.
    ExtendOnly(Extend),
    /// Laughing.
    Laughing,
    /// Humming.
    Humming,
}

/// A lyric attached to a note.
#[derive(Debug, Clone, PartialEq)]
pub struct Lyric {
    /// Which line of lyrics (a verse number).
    pub number: Option<String>,
    /// The name of the line of lyrics.
    pub name: Option<String>,
    /// Its justification.
    pub justify: Option<LeftCenterRight>,
    /// Above or below the staff.
    pub placement: Option<AboveBelow>,
    /// What it holds.
    pub content: LyricContent,
    /// Whether it ends a line of text.
    pub end_line: bool,
    /// Whether it ends a paragraph of text.
    pub end_paragraph: bool,
}

} // verus!
