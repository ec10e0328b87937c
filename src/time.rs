//! Units of frequency and bit rate
use vstd::prelude::*;

verus! {

/// A frequency in hertz
#[derive(Clone, Copy, Debug, PartialEq, Eq, Structural)]
pub struct Hertz(pub u32);

/// A bit rate in bits per second
#[derive(Clone, Copy, Debug, PartialEq, Eq, Structural)]
pub struct Bps(pub u32);

/// A frequency in megahertz
#[derive(Clone, Copy, Debug, PartialEq, Eq, Structural)]
pub struct MegaHertz(pub u32);

impl MegaHertz {
    /// The same frequency in hertz
    pub fn hz(self) -> (r: Hertz)
        requires
            self.0 * 1_000_000 <= u32::MAX,
        ensures
            r.0 == self.0 * 1_000_000,
    {
        Hertz(self.0 * 1_000_000)
    }
}

} // verus!
