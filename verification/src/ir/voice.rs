//! Moving backward and forward in time within a measure.

use vstd::prelude::*;
use crate::ir::common::Editorial;

verus! {

/// A move backward in time, by a duration in divisions.
#[derive(Debug, Clone, PartialEq, Default)]
pub struct Backup {
    /// The duration, in divisions.
    pub duration: u64,
    /// Editorial information.
    pub editorial: Editorial,
}

/// A move forward in time, by a duration in divisions.
#[derive(Debug, Clone, PartialEq, Default)]
pub struct Forward {
    /// The duration, in divisions.
    pub duration: u64,
    /// The voice.
    pub voice: Option<String>,
    /// The staff.
    pub staff: Option<u16>,
    /// Editorial information.
    pub editorial: Editorial,
}

} // verus!
