//! Parts and the list of parts.

use vstd::prelude::*;
use crate::decimal::Decimal;
use crate::ir::common::{AccidentalValue, PrintStyle, StartStop, YesNo};
use crate::ir::lyric::LeftCenterRight;
use crate::ir::measure::Measure;
use crate::ir::score::Identification;

verus! {

/// The parts and part groups of a score, in order.
#[derive(Debug, Clone, PartialEq, Default)]
pub struct PartList {
    /// The parts and the starts and stops of groups.
    pub content: Vec<PartListElement>,
}

/// An entry of the part list.
#[derive(Debug, Clone, PartialEq)]
pub enum PartListElement {
    /// A part.
    ScorePart(ScorePart),
    /// The start or the stop of a group of parts.
    PartGroup(PartGroup),
}

/// A part as the part list describes it.
#[derive(Debug, Clone, PartialEq)]
pub struct ScorePart {
    /// Its id, which its music refers to.
    pub id: String,
    /// Who made the part.
    pub identification: Option<Identification>,
    /// Its name.
    pub part_name: PartName,
    /// How its name is displayed.
    pub part_name_display: Option<NameDisplay>,
    /// Its abbreviated name.
    pub part_abbreviation: Option<PartName>,
    /// How its abbreviated name is displayed.
    pub part_abbreviation_display: Option<NameDisplay>,
    /// The groups it belongs to.
    pub group: Vec<String>,
    /// Its instruments.
    pub score_instruments: Vec<ScoreInstrument>,
    /// Its MIDI devices.
    pub midi_devices: Vec<MidiDevice>,
    /// Its MIDI instruments.
    pub midi_instruments: Vec<MidiInstrument>,
}

/// The name of a part.
#[derive(Debug, Clone, PartialEq, Default)]
pub struct PartName {
    /// The name.
    pub value: String,
    /// How it is drawn.
    pub print_style: PrintStyle,
    /// Whether it is drawn.
    pub print_object: Option<YesNo>,
    /// Its justification.
    pub justify: Option<LeftCenterRight>,
}

/// How a name is displayed, where its text differs from the name.
#[derive(Debug, Clone, PartialEq, Default)]
pub struct NameDisplay {
    /// Whether it is drawn.
    pub print_object: Option<YesNo>,
    /// Its pieces of text and accidentals.
    pub content: Vec<NameDisplayContent>,
}

/// A piece of a displayed name.
#[derive(Debug, Clone, PartialEq)]
pub enum NameDisplayContent {
    /// Text.
    DisplayText(FormattedText),
    /// An accidental, as in "B♭ Clarinet".
    AccidentalText(AccidentalText),
}

/// A piece of text.
#[derive(Debug, Clone, PartialEq, Default)]
pub struct FormattedText {
    /// The text.
    pub value: String,
}

/// An accidental within a text.
#[derive(Debug, Clone, PartialEq)]
pub struct AccidentalText {
    /// Which accidental.
    pub value: AccidentalValue,
}

/// An instrument of a part.
#[derive(Debug, Clone, PartialEq, Default)]
pub struct ScoreInstrument {
    /// Its id.
    pub id: String,
    /// Its name.
    pub instrument_name: String,
    /// Its abbreviated name.
    pub instrument_abbreviation: Option<String>,
    /// Its sound, from the standard list of sounds.
    pub instrument_sound: Option<String>,
    /// Whether it is a solo or an ensemble.
    pub solo_or_ensemble: Option<SoloOrEnsemble>,
    /// The virtual instrument that plays it.
    pub virtual_instrument: Option<VirtualInstrument>,
}

/// A solo instrument, or an ensemble of a given size.
#[derive(Debug, Clone, Copy, PartialEq)]
pub enum SoloOrEnsemble {
    /// A solo.
    Solo,
    /// An ensemble of this many players.
    Ensemble(u32),
}

/// A virtual instrument.
#[derive(Debug, Clone, PartialEq, Default)]
pub struct VirtualInstrument {
    /// Its library.
    pub virtual_library: Option<String>,
    /// Its name.
    pub virtual_name: Option<String>,
}

/// A MIDI device of a part.
#[derive(Debug, Clone, PartialEq, Default)]
pub struct MidiDevice {
    /// The device's name.
    pub value: String,
    /// Its port.
    pub port: Option<u16>,
    /// The instrument it plays.
    pub id: Option<String>,
}

/// The MIDI settings of an instrument.
#[derive(Debug, Clone, PartialEq, Default)]
pub struct MidiInstrument {
    /// The instrument.
    pub id: String,
    /// Its channel.
    pub midi_channel: Option<u8>,
    /// Its name.
    pub midi_name: Option<String>,
    /// Its bank.
    pub midi_bank: Option<u16>,
    /// Its program.
    pub midi_program: Option<u8>,
    /// Its key, for an unpitched instrument.
    pub midi_unpitched: Option<u8>,
    /// Its volume, as a percentage.
    pub volume: Option<Decimal>,
    /// Its pan, in degrees.
    pub pan: Option<Decimal>,
    /// Its elevation, in degrees.
    pub elevation: Option<Decimal>,
}

/// The start or the stop of a group of parts.
#[derive(Debug, Clone, PartialEq)]
pub struct PartGroup {
    /// Whether the group starts or stops.
    pub type_: StartStop,
    /// Which group, where several overlap.
    pub number: Option<String>,
    /// Its name.
    pub group_name: Option<GroupName>,
    /// Its abbreviated name.
    pub group_abbreviation: Option<GroupName>,
    /// The symbol that joins its staves.
    pub group_symbol: Option<GroupSymbol>,
    /// Whether barlines run through the group.
    pub group_barline: Option<GroupBarline>,
}

/// The name of a group of parts.
#[derive(Debug, Clone, PartialEq, Default)]
pub struct GroupName {
    /// The name.
    pub value: String,
}

/// The symbol that joins the staves of a group.
#[derive(Debug, Clone, Copy, PartialEq, Eq, Hash, Default)]
pub enum GroupSymbolValue {
    /// No symbol.
    #[default]
    NoSymbol,
    /// A brace.
    Brace,
    /// A line.
    Line,
    /// A bracket.
    Bracket,
    /// A square bracket.
    Square,
}

/// The symbol of a group of parts.
#[derive(Debug, Clone, Copy, PartialEq, Default)]
pub struct GroupSymbol {
    /// Which symbol.
    pub value: GroupSymbolValue,
}

/// Whether barlines run through a group.
#[derive(Debug, Clone, Copy, PartialEq, Eq, Hash, Default)]
pub enum GroupBarlineValue {
    /// They do.
    #[default]
    Yes,
    /// They do not.
    No,
    /// Only between the staves.
    Mensurstrich,
}

/// The barlines of a group of parts.
#[derive(Debug, Clone, Copy, PartialEq, Default)]
pub struct GroupBarline {
    /// How they run.
    pub value: GroupBarlineValue,
}

/// The music of one part.
#[derive(Debug, Clone, PartialEq, Default)]
pub struct Part {
    /// The id of its entry in the part list.
    pub id: String,
    /// Its measures.
    pub measures: Vec<Measure>,
}

} // verus!
