//! The score as a whole: its header, identification, defaults and credits.

use vstd::prelude::*;
use crate::decimal::Decimal;
use crate::ir::common::YesNo;
use crate::ir::part::{Part, PartList};

verus! {

/// A score organized by parts, each holding its measures.
#[derive(Debug, Clone, PartialEq)]
pub struct ScorePartwise {
    /// The version of the score format.
    pub version: Option<String>,
    /// The work that the score is of.
    pub work: Option<Work>,
    /// The number of the movement.
    pub movement_number: Option<String>,
    /// The title of the movement.
    pub movement_title: Option<String>,
    /// Who made the score, and how it was encoded.
    pub identification: Option<Identification>,
    /// Layout defaults.
    pub defaults: Option<Defaults>,
    /// Texts on the pages, such as title and composer.
    pub credits: Vec<Credit>,
    /// The parts, as listed before the music.
    pub part_list: PartList,
    /// The music of each part.
    pub parts: Vec<Part>,
}

/// A work, which may have several movements.
#[derive(Debug, Clone, PartialEq, Default)]
pub struct Work {
    /// The number of the work, such as an opus number.
    pub work_number: Option<String>,
    /// The title of the work.
    pub work_title: Option<String>,
    /// A link to the opus that the work belongs to.
    pub opus: Option<Opus>,
}

/// A link to an opus document.
#[derive(Debug, Clone, PartialEq, Default)]
pub struct Opus {
    /// Where the opus document is.
    pub href: String,
}

/// A text with an optional type, such as a creator of type `composer`.
#[derive(Debug, Clone, PartialEq, Default)]
pub struct TypedText {
    /// The text.
    pub value: String,
    /// Its type.
    pub type_: Option<String>,
}

/// Who made the score, under which rights, and how it was encoded.
#[derive(Debug, Clone, PartialEq, Default)]
pub struct Identification {
    /// The composers, lyricists and other creators.
    pub creators: Vec<TypedText>,
    /// Copyright notices.
    pub rights: Vec<TypedText>,
    /// How the score was encoded.
    pub encoding: Option<Encoding>,
    /// The source that the score was made from.
    pub source: Option<String>,
    /// Related resources.
    pub relations: Vec<TypedText>,
    /// Other metadata.
    pub miscellaneous: Option<Miscellaneous>,
}

/// How the score was encoded.
#[derive(Debug, Clone, PartialEq, Default)]
pub struct Encoding {
    /// The facts about the encoding, in order.
    pub content: Vec<EncodingContent>,
}

/// A fact about the encoding of the score.
#[derive(Debug, Clone, PartialEq)]
pub enum EncodingContent {
    /// When it was encoded.
    EncodingDate(String),
    /// Who encoded it.
    Encoder(TypedText),
    /// The software that encoded it.
    Software(String),
    /// A description of the encoding.
    EncodingDescription(String),
    /// Whether an element is supported.
    Supports(Supports),
}

/// Whether the encoding supports an element (or one of its attributes).
#[derive(Debug, Clone, PartialEq)]
pub struct Supports {
    /// Whether it is supported.
    pub type_: YesNo,
    /// The element.
    pub element: String,
    /// The attribute of the element.
    pub attribute: Option<String>,
    /// The value of the attribute.
    pub value: Option<String>,
}

/// Metadata that has no element of its own.
#[derive(Debug, Clone, PartialEq, Default)]
pub struct Miscellaneous {
    /// The named fields.
    pub fields: Vec<MiscellaneousField>,
}

/// A named metadata field.
#[derive(Debug, Clone, PartialEq, Default)]
pub struct MiscellaneousField {
    /// Its name.
    pub name: String,
    /// Its value.
    pub value: String,
}

/// Layout defaults of the score.
#[derive(Debug, Clone, PartialEq, Default)]
pub struct Defaults {
    /// How tenths relate to millimeters.
    pub scaling: Option<Scaling>,
}

/// How many millimeters make how many tenths of a staff space.
#[derive(Debug, Clone, Copy, PartialEq)]
pub struct Scaling {
    /// The millimeters.
    pub millimeters: Decimal,
    /// The tenths.
    pub tenths: Decimal,
}

/// A text or image on a page of the score.
#[derive(Debug, Clone, PartialEq, Default)]
pub struct Credit {
    /// The page it stands on.
    pub page: Option<u32>,
    /// What it holds.
    pub content: Vec<CreditContent>,
}

/// What a credit holds.
#[derive(Debug, Clone, PartialEq)]
pub enum CreditContent {
    /// The kind of credit, such as `title` or `composer`.
    CreditType(String),
    /// Words.
    CreditWords(CreditWords),
    /// An image.
    CreditImage(CreditImage),
}

/// The words of a credit.
#[derive(Debug, Clone, PartialEq, Default)]
pub struct CreditWords {
    /// The text.
    pub value: String,
}

/// An image of a credit.
#[derive(Debug, Clone, PartialEq, Default)]
pub struct CreditImage {
    /// Where the image is.
    pub source: String,
    /// Its media type.
    pub type_: String,
}

} // verus!
