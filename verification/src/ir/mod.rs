//! The typed representation of a score.

pub mod attributes;
pub mod beam;
pub mod common;
pub mod direction;
pub mod duration;
pub mod lyric;
pub mod measure;
pub mod notation;
pub mod note;
pub mod part;
pub mod pitch;
pub mod score;
pub mod voice;

pub use measure::Measure;
pub use score::ScorePartwise;
