//! Types shared by many parts of a score.

use vstd::prelude::*;
use crate::decimal::Decimal;

verus! {

/// Yes or no.
#[derive(Debug, Clone, Copy, PartialEq, Eq, Hash, Default)]
pub enum YesNo {
    #[default]
    Yes,
    No,
}

/// Placement above or below.
#[derive(Debug, Clone, Copy, PartialEq, Eq, Hash, Default)]
pub enum AboveBelow {
    #[default]
    Above,
    Below,
}

/// The start or the stop of something.
#[derive(Debug, Clone, Copy, PartialEq, Eq, Hash, Default)]
pub enum StartStop {
    #[default]
    Start,
    Stop,
}

/// The start, stop or continuation of something.
#[derive(Debug, Clone, Copy, PartialEq, Eq, Hash, Default)]
pub enum StartStopContinue {
    #[default]
    Start,
    Stop,
    Continue,
}

/// The start or stop of something, or a single occurrence.
#[derive(Debug, Clone, Copy, PartialEq, Eq, Hash, Default)]
pub enum StartStopSingle {
    #[default]
    Start,
    Stop,
    Single,
}

/// The style of a line.
#[derive(Debug, Clone, Copy, PartialEq, Eq, Hash, Default)]
pub enum LineType {
    #[default]
    Solid,
    Dashed,
    Dotted,
    Wavy,
}

/// Over or under.
#[derive(Debug, Clone, Copy, PartialEq, Eq, Hash, Default)]
pub enum OverUnder {
    #[default]
    Over,
    Under,
}

/// Up or down.
#[derive(Debug, Clone, Copy, PartialEq, Eq, Hash, Default)]
pub enum UpDown {
    #[default]
    Up,
    Down,
}

/// The style of a font.
#[derive(Debug, Clone, Copy, PartialEq, Eq, Hash, Default)]
pub enum FontStyle {
    #[default]
    Normal,
    Italic,
}

/// The weight of a font.
#[derive(Debug, Clone, Copy, PartialEq, Eq, Hash, Default)]
pub enum FontWeight {
    #[default]
    Normal,
    Bold,
}

/// A font size named as in CSS.
#[derive(Debug, Clone, Copy, PartialEq, Eq, Hash, Default)]
pub enum CssFontSize {
    #[default]
    XxSmall,
    XSmall,
    Small,
    Medium,
    Large,
    XLarge,
    XxLarge,
}

/// The size of a symbol.
#[derive(Debug, Clone, Copy, PartialEq, Eq, Hash, Default)]
pub enum SymbolSize {
    #[default]
    Full,
    Cue,
    GraceCue,
    Large,
}

/// The kinds of accidentals.
#[derive(Debug, Clone, Copy, PartialEq, Eq, Hash, Default)]
pub enum AccidentalValue {
    #[default]
    Sharp,
    Natural,
    Flat,
    DoubleSharp,
    SharpSharp,
    FlatFlat,
    DoubleFlat,
    NaturalSharp,
    NaturalFlat,
    QuarterFlat,
    QuarterSharp,
    ThreeQuartersFlat,
    ThreeQuartersSharp,
    SharpDown,
    SharpUp,
    NaturalDown,
    NaturalUp,
    FlatDown,
    FlatUp,
    TripleSharp,
    TripleFlat,
    SlashQuarterSharp,
    SlashSharp,
    SlashFlat,
    DoubleSlashFlat,
    Sharp1,
    Sharp2,
    Sharp3,
    Sharp5,
    Flat1,
    Flat2,
    Flat3,
    Flat4,
    Sori,
    Koron,
    Other,
}

/// The size of a font: named as in CSS, or in points.
#[derive(Debug, Clone, Copy, PartialEq)]
pub enum FontSize {
    /// A CSS size name.
    Css(CssFontSize),
    /// A size in points.
    Points(Decimal),
}

/// How something is drawn: where, in which font, in which color.
#[derive(Debug, Clone, PartialEq, Default)]
pub struct PrintStyle {
    /// Where it is drawn.
    pub position: Position,
    /// The font of its text.
    pub font: Font,
    /// Its color, such as `#FF0000`.
    pub color: Option<String>,
}

/// Editorial information: a footnote and an editorial level.
#[derive(Debug, Clone, PartialEq, Default)]
pub struct Editorial {
    /// A footnote.
    pub footnote: Option<String>,
    /// The editorial level.
    pub level: Option<String>,
}

/// Where something is drawn, in tenths, relative to its default place.
#[derive(Debug, Clone, PartialEq, Default)]
pub struct Position {
    /// Horizontal offset from the default position.
    pub default_x: Option<Decimal>,
    /// Vertical offset from the default position.
    pub default_y: Option<Decimal>,
    /// Horizontal offset relative to the current position.
    pub relative_x: Option<Decimal>,
    /// Vertical offset relative to the current position.
    pub relative_y: Option<Decimal>,
}

/// The font of text.
#[derive(Debug, Clone, PartialEq, Default)]
pub struct Font {
    /// The font family.
    pub font_family: Option<String>,
    /// Normal or italic.
    pub font_style: Option<FontStyle>,
    /// The size.
    pub font_size: Option<FontSize>,
    /// Normal or bold.
    pub font_weight: Option<FontWeight>,
}

/// A mark with nothing but a placement and a position.
#[derive(Debug, Clone, PartialEq, Default)]
pub struct EmptyPlacement {
    /// Above or below the staff.
    pub placement: Option<AboveBelow>,
    /// Where it is drawn.
    pub position: Position,
}

/// A wavy line, as for a trill.
#[derive(Debug, Clone, PartialEq, Default)]
pub struct WavyLine {
    /// Where the line starts, continues or stops.
    pub type_: StartStopContinue,
    /// Which line, where several overlap.
    pub number: Option<u8>,
    /// Where it is drawn.
    pub position: Position,
}

/// The position with no offsets.
pub open spec fn position_none() -> Position {
    Position { default_x: None, default_y: None, relative_x: None, relative_y: None }
}

/// The font with nothing set.
pub open spec fn font_none() -> Font {
    Font { font_family: None, font_style: None, font_size: None, font_weight: None }
}

/// Editorial information with nothing set.
pub open spec fn editorial_none() -> Editorial {
    Editorial { footnote: None, level: None }
}

impl Position {
    /// Whether any offset is set.
    pub open spec fn is_set(&self) -> bool {
        self.default_x is Some || self.default_y is Some || self.relative_x is Some
            || self.relative_y is Some
    }

    /// The position with no offsets.
    pub fn empty() -> (r: Position)
        ensures
            r == position_none(),
    {
        Position { default_x: None, default_y: None, relative_x: None, relative_y: None }
    }

    /// Whether any offset is set.
    pub fn has_any(&self) -> (r: bool)
        ensures
            r == self.is_set(),
    {
        self.default_x.is_some() || self.default_y.is_some() || self.relative_x.is_some()
            || self.relative_y.is_some()
    }
}

impl Font {
    /// Whether anything is set.
    pub open spec fn is_set(&self) -> bool {
        self.font_family is Some || self.font_style is Some || self.font_size is Some
            || self.font_weight is Some
    }

    /// The font with nothing set.
    pub fn empty() -> (r: Font)
        ensures
            r == font_none(),
    {
        Font { font_family: None, font_style: None, font_size: None, font_weight: None }
    }

    /// Whether anything is set.
    pub fn has_any(&self) -> (r: bool)
        ensures
            r == self.is_set(),
    {
        self.font_family.is_some() || self.font_style.is_some() || self.font_size.is_some()
            || self.font_weight.is_some()
    }
}

impl Editorial {
    /// Editorial information with nothing set.
    pub fn empty() -> (r: Editorial)
        ensures
            r == editorial_none(),
    {
        Editorial { footnote: None, level: None }
    }
}

} // verus!
