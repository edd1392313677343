//! Probe scores: confidence, from 0 to 100, that a sample is of a format.
use vstd::prelude::*;

verus! {

/// Least amount of data needed to check the bytestream structure
/// to match some known format.
pub const PROBE_DATA: usize = 4096;

/// Highest score a probe may give.
pub const SCORE_MAX: u8 = 100;

/// Reference points on the score scale.
#[derive(Clone, Copy, Debug, PartialEq, Eq, Structural)]
pub enum Score {
    /// Minimum acceptable value, a file matched just by the extension
    EXTENSION,
    /// The underlying layer provides the information, trust it up to a point
    MIME,
    /// The data actually match a format structure
    MAX,
}

impl Score {
    /// The numeric value of each reference point.
    pub open spec fn spec_value(self) -> u8 {
        match self {
            Score::EXTENSION => 50,
            Score::MIME => 75,
            Score::MAX => 100,
        }
    }

    /// The score as a number on the scale from 0 to 100.
    pub fn value(self) -> (r: u8)
        ensures
            r == self.spec_value(),
            r <= SCORE_MAX,
    {
        match self {
            Score::EXTENSION => 50,
            Score::MIME => 75,
            Score::MAX => 100,
        }
    }
}

} // verus!
