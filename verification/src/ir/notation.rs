//! Notations: marks attached to notes.

use vstd::prelude::*;
use crate::decimal::Decimal;
use crate::ir::common::{
    AboveBelow, AccidentalValue, Editorial, Font, LineType, OverUnder, Position, PrintStyle,
    StartStop, StartStopContinue, StartStopSingle, UpDown, WavyLine, YesNo, EmptyPlacement,
};
use crate::ir::direction::Dynamics;
use crate::ir::duration::NoteTypeValue;

verus! {

/// Which parts of a tuplet are shown.
#[derive(Debug, Clone, Copy, PartialEq, Eq, Hash, Default)]
pub enum ShowTuplet {
    #[default]
    Actual,
    Both,
    Neither,
}

/// The shape of a line.
#[derive(Debug, Clone, Copy, PartialEq, Eq, Hash, Default)]
pub enum LineShape {
    #[default]
    Straight,
    Curved,
}

/// Top or bottom.
#[derive(Debug, Clone, Copy, PartialEq, Eq, Hash, Default)]
pub enum TopBottom {
    #[default]
    Top,
    Bottom,
}

/// The length of a jazz line.
#[derive(Debug, Clone, Copy, PartialEq, Eq, Hash, Default)]
pub enum LineLength {
    #[default]
    Short,
    Medium,
    Long,
}

/// The symbol of a breath mark.
#[derive(Debug, Clone, Copy, PartialEq, Eq, Hash, Default)]
pub enum BreathMarkValue {
    #[default]
    Empty,
    Comma,
    Tick,
    Upbow,
    Salzedo,
}

/// The symbol of a caesura.
#[derive(Debug, Clone, Copy, PartialEq, Eq, Hash, Default)]
pub enum CaesuraValue {
    #[default]
    Normal,
    Thick,
    Short,
    Curved,
    Single,
}

/// The note that a trill or turn starts on.
#[derive(Debug, Clone, Copy, PartialEq, Eq, Hash, Default)]
pub enum StartNote {
    #[default]
    Upper,
    Main,
    Below,
}

/// The interval of a trill.
#[derive(Debug, Clone, Copy, PartialEq, Eq, Hash, Default)]
pub enum TrillStep {
    #[default]
    Whole,
    Half,
    Unison,
}

/// The last two notes of a trill.
#[derive(Debug, Clone, Copy, PartialEq, Eq, Hash, Default)]
pub enum TwoNoteTurn {
    #[default]
    Whole,
    Half,
    NoTurn,
}

/// The kind of a tremolo.
#[derive(Debug, Clone, Copy, PartialEq, Eq, Hash, Default)]
pub enum TremoloType {
    #[default]
    Start,
    Stop,
    Single,
    Unmeasured,
}

/// When a bend is released.
#[derive(Debug, Clone, Copy, PartialEq, Eq, Hash, Default)]
pub enum BendRelease {
    #[default]
    Early,
    Late,
}

/// The hand that taps.
#[derive(Debug, Clone, Copy, PartialEq, Eq, Hash, Default)]
pub enum TapHand {
    #[default]
    Left,
    Right,
}

/// How far a hole is closed.
#[derive(Debug, Clone, Copy, PartialEq, Eq, Hash, Default)]
pub enum HoleClosedValue {
    #[default]
    Yes,
    No,
    Half,
}

/// Which part of a hole is closed.
#[derive(Debug, Clone, Copy, PartialEq, Eq, Hash, Default)]
pub enum HoleClosedLocation {
    #[default]
    Right,
    Bottom,
    Left,
    Top,
}

/// The direction of an arrow.
#[derive(Debug, Clone, Copy, PartialEq, Eq, Hash, Default)]
pub enum ArrowDirection {
    #[default]
    Left,
    Up,
    Right,
    Down,
    Northwest,
    Northeast,
    Southeast,
    Southwest,
    LeftRight,
    UpDown,
    NorthwestSoutheast,
    NortheastSouthwest,
    Other,
}

/// The style of an arrow.
#[derive(Debug, Clone, Copy, PartialEq, Eq, Hash, Default)]
pub enum ArrowStyle {
    #[default]
    Single,
    Double,
    Filled,
    Hollow,
    Paired,
    Combined,
    Other,
}

/// A handbell technique.
#[derive(Debug, Clone, Copy, PartialEq, Eq, Hash, Default)]
pub enum HandbellValue {
    #[default]
    Belltree,
    Damp,
    Echo,
    Gyro,
    HandMartellato,
    MalletLift,
    MalletTable,
    Martellato,
    MartellatoLift,
    MutedMartellato,
    PluckLift,
    Swing,
}

/// The shape of a fermata.
#[derive(Debug, Clone, Copy, PartialEq, Eq, Hash, Default)]
pub enum FermataShape {
    #[default]
    Normal,
    Angled,
    Square,
    DoubleAngled,
    DoubleSquare,
    DoubleDot,
    HalfCurve,
    Curlew,
}

/// Upright or inverted.
#[derive(Debug, Clone, Copy, PartialEq, Eq, Hash, Default)]
pub enum UprightInverted {
    #[default]
    Upright,
    Inverted,
}

/// A visual tie.
#[derive(Debug, Clone, PartialEq)]
pub struct Tied {
    /// Start, stop or continuation.
    pub type_: StartStopContinue,
    /// Which tie, where several overlap.
    pub number: Option<u8>,
    /// The line style.
    pub line_type: Option<LineType>,
    /// Where it is drawn.
    pub position: Position,
    /// Above or below.
    pub placement: Option<AboveBelow>,
    /// Over or under the notes.
    pub orientation: Option<OverUnder>,
    /// The color.
    pub color: Option<String>,
}

/// A slur.
#[derive(Debug, Clone, PartialEq)]
pub struct Slur {
    /// Start, stop or continuation.
    pub type_: StartStopContinue,
    /// Which slur, where several overlap.
    pub number: u8,
    /// The line style.
    pub line_type: Option<LineType>,
    /// Where it is drawn.
    pub position: Position,
    /// Above or below.
    pub placement: Option<AboveBelow>,
    /// Over or under the notes.
    pub orientation: Option<OverUnder>,
    /// The color.
    pub color: Option<String>,
}

/// A glissando.
#[derive(Debug, Clone, PartialEq)]
pub struct Glissando {
    /// Start or stop.
    pub type_: StartStop,
    /// Which glissando, where several overlap.
    pub number: Option<u8>,
    /// Text along the line.
    pub text: Option<String>,
    /// The line style.
    pub line_type: Option<LineType>,
    /// Where it is drawn.
    pub position: Position,
}

/// A slide.
#[derive(Debug, Clone, PartialEq)]
pub struct Slide {
    /// Start or stop.
    pub type_: StartStop,
    /// Which slide, where several overlap.
    pub number: Option<u8>,
    /// Text along the line.
    pub text: Option<String>,
    /// The line style.
    pub line_type: Option<LineType>,
    /// Where it is drawn.
    pub position: Position,
}

/// The number shown with a tuplet.
#[derive(Debug, Clone, PartialEq, Default)]
pub struct TupletNumber {
    /// The number.
    pub value: u32,
    /// Its font.
    pub font: Font,
    /// Its color.
    pub color: Option<String>,
}

/// The note type shown with a tuplet.
#[derive(Debug, Clone, PartialEq, Default)]
pub struct TupletType {
    /// The note type.
    pub value: NoteTypeValue,
    /// Its font.
    pub font: Font,
    /// Its color.
    pub color: Option<String>,
}

/// A dot shown with a tuplet.
#[derive(Debug, Clone, PartialEq, Default)]
pub struct TupletDot {
    /// Its font.
    pub font: Font,
    /// Its color.
    pub color: Option<String>,
}

/// What a tuplet shows of its actual or normal notes.
#[derive(Debug, Clone, PartialEq, Default)]
pub struct TupletPortion {
    /// The number.
    pub tuplet_number: Option<TupletNumber>,
    /// The note type.
    pub tuplet_type: Option<TupletType>,
    /// The dots.
    pub tuplet_dots: Vec<TupletDot>,
}

/// A tuplet bracket or number.
#[derive(Debug, Clone, PartialEq)]
pub struct Tuplet {
    /// Start or stop.
    pub type_: StartStop,
    /// Which tuplet, where several nest.
    pub number: Option<u8>,
    /// Whether a bracket is shown.
    pub bracket: Option<YesNo>,
    /// Which numbers are shown.
    pub show_number: Option<ShowTuplet>,
    /// Which note types are shown.
    pub show_type: Option<ShowTuplet>,
    /// The shape of the bracket.
    pub line_shape: Option<LineShape>,
    /// Where it is drawn.
    pub position: Position,
    /// Above or below.
    pub placement: Option<AboveBelow>,
    /// What is shown of the actual notes.
    pub tuplet_actual: Option<TupletPortion>,
    /// What is shown of the normal notes.
    pub tuplet_normal: Option<TupletPortion>,
}

/// An arpeggiated chord.
#[derive(Debug, Clone, PartialEq, Default)]
pub struct Arpeggiate {
    /// Which arpeggio.
    pub number: Option<u8>,
    /// Up or down.
    pub direction: Option<UpDown>,
    /// Where it is drawn.
    pub position: Position,
    /// The color.
    pub color: Option<String>,
}

/// A bracket that marks a chord as not arpeggiated.
#[derive(Debug, Clone, PartialEq, Default)]
pub struct NonArpeggiate {
    /// The top or the bottom of the bracket.
    pub type_: TopBottom,
    /// Which bracket.
    pub number: Option<u8>,
    /// Where it is drawn.
    pub position: Position,
    /// The color.
    pub color: Option<String>,
}

/// An accidental shown with an ornament or above a note.
#[derive(Debug, Clone, PartialEq, Default)]
pub struct AccidentalMark {
    /// The accidental.
    pub value: AccidentalValue,
    /// Above or below.
    pub placement: Option<AboveBelow>,
    /// How it is drawn.
    pub print_style: PrintStyle,
}

/// A notation of another kind.
#[derive(Debug, Clone, PartialEq)]
pub struct OtherNotation {
    /// Its text.
    pub value: String,
    /// Start, stop or single.
    pub type_: StartStopSingle,
    /// Which one, where several overlap.
    pub number: Option<u8>,
    /// Whether it is printed.
    pub print_object: Option<YesNo>,
    /// How it is drawn.
    pub print_style: PrintStyle,
    /// Above or below.
    pub placement: Option<AboveBelow>,
}

/// A strong accent (marcato).
#[derive(Debug, Clone, PartialEq, Default)]
pub struct StrongAccent {
    /// Pointing up or down.
    pub type_: Option<UpDown>,
    /// Above or below.
    pub placement: Option<AboveBelow>,
    /// Where it is drawn.
    pub position: Position,
}

/// A jazz articulation drawn as a line.
#[derive(Debug, Clone, PartialEq, Default)]
pub struct EmptyLine {
    /// Straight or curved.
    pub line_shape: Option<LineShape>,
    /// The line style.
    pub line_type: Option<LineType>,
    /// Short, medium or long.
    pub line_length: Option<LineLength>,
    /// Above or below.
    pub placement: Option<AboveBelow>,
    /// Where it is drawn.
    pub position: Position,
}

/// A breath mark.
#[derive(Debug, Clone, PartialEq, Default)]
pub struct BreathMark {
    /// Its symbol.
    pub value: BreathMarkValue,
    /// Above or below.
    pub placement: Option<AboveBelow>,
    /// Where it is drawn.
    pub position: Position,
}

/// A caesura.
#[derive(Debug, Clone, PartialEq, Default)]
pub struct Caesura {
    /// Its symbol.
    pub value: CaesuraValue,
    /// Above or below.
    pub placement: Option<AboveBelow>,
    /// Where it is drawn.
    pub position: Position,
}

/// An articulation of another kind.
#[derive(Debug, Clone, PartialEq, Default)]
pub struct OtherArticulation {
    /// Its text.
    pub value: String,
    /// Above or below.
    pub placement: Option<AboveBelow>,
    /// How it is drawn.
    pub print_style: PrintStyle,
}

/// An ornament with the attributes of a trill.
#[derive(Debug, Clone, PartialEq, Default)]
pub struct EmptyTrillSound {
    /// Above or below.
    pub placement: Option<AboveBelow>,
    /// Where it is drawn.
    pub position: Position,
    /// The note it starts on.
    pub start_note: Option<StartNote>,
    /// Its interval.
    pub trill_step: Option<TrillStep>,
    /// Its last two notes.
    pub two_note_turn: Option<TwoNoteTurn>,
    /// Whether it accelerates.
    pub accelerate: Option<YesNo>,
    /// The number of beats.
    pub beats: Option<Decimal>,
    /// Where the second beat falls, in percent.
    pub second_beat: Option<Decimal>,
    /// Where the last beat falls, in percent.
    pub last_beat: Option<Decimal>,
}

/// A turn.
#[derive(Debug, Clone, PartialEq, Default)]
pub struct Turn {
    /// Whether it is slashed.
    pub slash: Option<YesNo>,
    /// Above or below.
    pub placement: Option<AboveBelow>,
    /// Where it is drawn.
    pub position: Position,
    /// The note it starts on.
    pub start_note: Option<StartNote>,
    /// Its interval.
    pub trill_step: Option<TrillStep>,
    /// Its last two notes.
    pub two_note_turn: Option<TwoNoteTurn>,
    /// Whether it accelerates.
    pub accelerate: Option<YesNo>,
    /// The number of beats.
    pub beats: Option<Decimal>,
    /// Where the second beat falls, in percent.
    pub second_beat: Option<Decimal>,
    /// Where the last beat falls, in percent.
    pub last_beat: Option<Decimal>,
}

/// A mordent.
#[derive(Debug, Clone, PartialEq, Default)]
pub struct Mordent {
    /// Whether it is long.
    pub long: Option<YesNo>,
    /// Where it is approached from.
    pub approach: Option<AboveBelow>,
    /// Where it departs to.
    pub departure: Option<AboveBelow>,
    /// Above or below.
    pub placement: Option<AboveBelow>,
    /// Where it is drawn.
    pub position: Position,
    /// The note it starts on.
    pub start_note: Option<StartNote>,
    /// Its interval.
    pub trill_step: Option<TrillStep>,
    /// Its last two notes.
    pub two_note_turn: Option<TwoNoteTurn>,
    /// Whether it accelerates.
    pub accelerate: Option<YesNo>,
    /// The number of beats.
    pub beats: Option<Decimal>,
    /// Where the second beat falls, in percent.
    pub second_beat: Option<Decimal>,
    /// Where the last beat falls, in percent.
    pub last_beat: Option<Decimal>,
}

/// A tremolo.
#[derive(Debug, Clone, PartialEq, Default)]
pub struct Tremolo {
    /// The number of tremolo marks.
    pub value: u8,
    /// The kind of tremolo.
    pub type_: Option<TremoloType>,
    /// Above or below.
    pub placement: Option<AboveBelow>,
    /// Where it is drawn.
    pub position: Position,
}

/// An ornament of another kind.
#[derive(Debug, Clone, PartialEq, Default)]
pub struct OtherOrnament {
    /// Its text.
    pub value: String,
    /// Above or below.
    pub placement: Option<AboveBelow>,
    /// How it is drawn.
    pub print_style: PrintStyle,
}

/// An ornament with the accidentals shown with it.
#[derive(Debug, Clone, PartialEq)]
pub struct OrnamentWithAccidentals {
    /// The ornament.
    pub ornament: OrnamentElement,
    /// Its accidentals.
    pub accidental_marks: Vec<AccidentalMark>,
}

/// The ornaments of a note.
#[derive(Debug, Clone, PartialEq, Default)]
pub struct Ornaments {
    /// The ornaments.
    pub content: Vec<OrnamentWithAccidentals>,
}

/// The articulations of a note.
#[derive(Debug, Clone, PartialEq, Default)]
pub struct Articulations {
    /// The articulations.
    pub content: Vec<ArticulationElement>,
}

/// A harmonic.
#[derive(Debug, Clone, PartialEq, Default)]
pub struct Harmonic {
    /// A natural harmonic.
    pub natural: bool,
    /// An artificial harmonic.
    pub artificial: bool,
    /// The notated pitch is the base pitch.
    pub base_pitch: bool,
    /// The notated pitch is the touching pitch.
    pub touching_pitch: bool,
    /// The notated pitch is the sounding pitch.
    pub sounding_pitch: bool,
    /// Above or below.
    pub placement: Option<AboveBelow>,
    /// Whether it is printed.
    pub print_object: Option<YesNo>,
}

/// A fingering.
#[derive(Debug, Clone, PartialEq, Default)]
pub struct Fingering {
    /// The finger.
    pub value: String,
    /// Whether it is a substitution.
    pub substitution: Option<YesNo>,
    /// Whether it is an alternate.
    pub alternate: Option<YesNo>,
    /// Above or below.
    pub placement: Option<AboveBelow>,
    /// How it is drawn.
    pub print_style: PrintStyle,
}

/// A plucking finger.
#[derive(Debug, Clone, PartialEq, Default)]
pub struct Pluck {
    /// The finger.
    pub value: String,
    /// Above or below.
    pub placement: Option<AboveBelow>,
}

/// A fret.
#[derive(Debug, Clone, PartialEq, Default)]
pub struct Fret {
    /// The fret number.
    pub value: u32,
    /// Its font.
    pub font: Font,
    /// Its color.
    pub color: Option<String>,
}

/// A string number.
#[derive(Debug, Clone, PartialEq, Default)]
pub struct StringNumber {
    /// The string.
    pub value: u32,
    /// Above or below.
    pub placement: Option<AboveBelow>,
    /// How it is drawn.
    pub print_style: PrintStyle,
}

/// A hammer-on or pull-off.
#[derive(Debug, Clone, PartialEq)]
pub struct HammerPull {
    /// Its text.
    pub value: String,
    /// Start or stop.
    pub type_: StartStop,
    /// Which one.
    pub number: Option<u8>,
    /// Above or below.
    pub placement: Option<AboveBelow>,
}

/// A bend.
#[derive(Debug, Clone, PartialEq, Default)]
pub struct Bend {
    /// The alteration in semitones.
    pub bend_alter: Decimal,
    /// Whether the note is bent before it sounds.
    pub pre_bend: bool,
    /// When it is released.
    pub release: Option<BendRelease>,
    /// Text of a bend made with a bar.
    pub with_bar: Option<String>,
}

/// A tap.
#[derive(Debug, Clone, PartialEq, Default)]
pub struct Tap {
    /// Its text.
    pub value: String,
    /// The hand.
    pub hand: Option<TapHand>,
}

/// A heel or toe mark.
#[derive(Debug, Clone, PartialEq, Default)]
pub struct HeelToe {
    /// Whether it is a substitution.
    pub substitution: Option<YesNo>,
    /// Above or below.
    pub placement: Option<AboveBelow>,
}

/// How a hole is closed.
#[derive(Debug, Clone, PartialEq, Default)]
pub struct HoleClosed {
    /// How far.
    pub value: HoleClosedValue,
    /// Which part.
    pub location: Option<HoleClosedLocation>,
}

/// A hole of a wind instrument.
#[derive(Debug, Clone, PartialEq, Default)]
pub struct Hole {
    /// Which hole.
    pub hole_type: Option<String>,
    /// How it is closed.
    pub hole_closed: HoleClosed,
    /// Its shape.
    pub hole_shape: Option<String>,
}

/// An arrow.
#[derive(Debug, Clone, PartialEq, Default)]
pub struct Arrow {
    /// Its direction.
    pub direction: Option<ArrowDirection>,
    /// Its style.
    pub style: Option<ArrowStyle>,
    /// Its SMuFL glyph name.
    pub smufl: Option<String>,
}

/// A handbell technique.
#[derive(Debug, Clone, PartialEq, Default)]
pub struct Handbell {
    /// The technique.
    pub value: HandbellValue,
}

/// A harmon mute.
#[derive(Debug, Clone, PartialEq, Default)]
pub struct HarmonMute {
    /// Whether it is open.
    pub open: bool,
    /// Whether it is half open.
    pub half: bool,
}

/// A technical indication of another kind.
#[derive(Debug, Clone, PartialEq, Default)]
pub struct OtherTechnical {
    /// Its text.
    pub value: String,
    /// Above or below.
    pub placement: Option<AboveBelow>,
    /// How it is drawn.
    pub print_style: PrintStyle,
}

/// The technical indications of a note.
#[derive(Debug, Clone, PartialEq, Default)]
pub struct Technical {
    /// The indications.
    pub content: Vec<TechnicalElement>,
}

/// A fermata.
#[derive(Debug, Clone, PartialEq, Default)]
pub struct Fermata {
    /// Its shape.
    pub shape: Option<FermataShape>,
    /// Upright or inverted.
    pub type_: Option<UprightInverted>,
    /// How it is drawn.
    pub print_style: PrintStyle,
}

/// The notations attached to a note.
#[derive(Debug, Clone, PartialEq, Default)]
pub struct Notations {
    /// Whether they are printed.
    pub print_object: Option<YesNo>,
    /// The notations.
    pub content: Vec<NotationContent>,
    /// Editorial information.
    pub editorial: Editorial,
}

/// An articulation.
#[derive(Debug, Clone, PartialEq)]
pub enum ArticulationElement {
    Accent(EmptyPlacement),
    StrongAccent(StrongAccent),
    Staccato(EmptyPlacement),
    Tenuto(EmptyPlacement),
    DetachedLegato(EmptyPlacement),
    Staccatissimo(EmptyPlacement),
    Spiccato(EmptyPlacement),
    Scoop(EmptyLine),
    Plop(EmptyLine),
    Doit(EmptyLine),
    Falloff(EmptyLine),
    BreathMark(BreathMark),
    Caesura(Caesura),
    Stress(EmptyPlacement),
    Unstress(EmptyPlacement),
    SoftAccent(EmptyPlacement),
    OtherArticulation(OtherArticulation),
}

/// An ornament.
#[derive(Debug, Clone, PartialEq)]
pub enum OrnamentElement {
    TrillMark(EmptyTrillSound),
    Turn(Turn),
    DelayedTurn(Turn),
    InvertedTurn(Turn),
    DelayedInvertedTurn(Turn),
    VerticalTurn(EmptyTrillSound),
    InvertedVerticalTurn(EmptyTrillSound),
    Shake(EmptyTrillSound),
    WavyLine(WavyLine),
    Mordent(Mordent),
    InvertedMordent(Mordent),
    Schleifer(EmptyPlacement),
    Tremolo(Tremolo),
    Haydn(EmptyTrillSound),
    OtherOrnament(OtherOrnament),
}

/// A technical indication.
#[derive(Debug, Clone, PartialEq)]
pub enum TechnicalElement {
    UpBow(EmptyPlacement),
    DownBow(EmptyPlacement),
    Harmonic(Harmonic),
    OpenString(EmptyPlacement),
    ThumbPosition(EmptyPlacement),
    Fingering(Fingering),
    Pluck(Pluck),
    DoubleTongue(EmptyPlacement),
    TripleTongue(EmptyPlacement),
    Stopped(EmptyPlacement),
    SnapPizzicato(EmptyPlacement),
    Fret(Fret),
    String(StringNumber),
    HammerOn(HammerPull),
    PullOff(HammerPull),
    Bend(Bend),
    Tap(Tap),
    Heel(HeelToe),
    Toe(HeelToe),
    Fingernails(EmptyPlacement),
    Hole(Hole),
    Arrow(Arrow),
    Handbell(Handbell),
    BrassBend(EmptyPlacement),
    Flip(EmptyPlacement),
    Smear(EmptyPlacement),
    Open(EmptyPlacement),
    HalfMuted(EmptyPlacement),
    HarmonMute(HarmonMute),
    Golpe(EmptyPlacement),
    OtherTechnical(OtherTechnical),
}

/// A notation attached to a note.
#[derive(Debug, Clone, PartialEq)]
pub enum NotationContent {
    Tied(Tied),
    Slur(Slur),
    Tuplet(Box<Tuplet>),
    Glissando(Glissando),
    Slide(Slide),
    Ornaments(Box<Ornaments>),
    Technical(Box<Technical>),
    Articulations(Box<Articulations>),
    Dynamics(Box<Dynamics>),
    Fermata(Fermata),
    Arpeggiate(Arpeggiate),
    NonArpeggiate(NonArpeggiate),
    AccidentalMark(AccidentalMark),
    OtherNotation(OtherNotation),
}

} // verus!
