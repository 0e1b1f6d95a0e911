//! Radio frequency representation.

use vstd::prelude::*;

verus! {

/// Stores a radio frequency, in whole hertz.
///
/// Frequencies can be positive or negative.
#[derive(Debug, Clone, Copy, PartialEq, Eq, Structural)]
pub struct Frequency {
    /// The frequency in hertz
    pub hertz: i64,
}

impl Frequency {
    /// Creates a frequency from a number of hertz
    pub fn hertz(hertz: i64) -> (r: Frequency)
        ensures
            r.hertz == hertz,
    {
        Frequency { hertz }
    }

    /// Returns this frequency as a number of hertz
    pub fn as_hertz(&self) -> (r: i64)
        ensures
            r == self.hertz,
    {
        self.hertz
    }
}

} // verus!
