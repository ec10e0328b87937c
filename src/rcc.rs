//! Clock snapshot with an open frequency field
use vstd::prelude::*;

use crate::time::Hertz;

verus! {

/// Constrained RCC peripheral
pub struct Rcc {
    pub clocks: Clocks,
}

/// Frozen clock frequencies
///
/// The existence of this value indicates that the clock configuration can no longer be changed
#[derive(Clone, Copy)]
pub struct Clocks {
    pub sysclk: Hertz,
}

impl Clocks {
    /// Returns the system (core) frequency
    pub fn sysclk(&self) -> (r: Hertz)
        ensures
            r == self.sysclk,
    {
        self.sysclk
    }
}

} // verus!
