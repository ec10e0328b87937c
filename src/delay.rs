//! Delays with the SysTick timer
//!
//! The SysTick counts down from its full 24-bit range over and over; a delay
//! waits until the counter has moved the wanted number of core clocks. The
//! waiting itself reads the live counter, so it belongs to the code that owns
//! the core peripherals; this module does the arithmetic for it.
//!
//! Be aware of the range: `us * scale` must fit 32 bits, so at 32 MHz a single
//! microsecond delay is at most about 134 seconds.
use vstd::prelude::*;

use crate::scu::Scu;
use crate::timers::SystRegisters;

verus! {

/// Number of counts of the SysTick counter before it wraps
pub const SYSTICK_RANGE: u32 = 0x0100_0000;

/// Largest number of ticks waited for in one stretch: below the counter's
/// range, so that a long-running interrupt leaves some play
pub const MAX_TICKS: u32 = 0x007f_ffff;

/// Largest number of milliseconds turned into microseconds at once
pub const MAX_MS: u32 = 0xffff;

/// Hertz in one megahertz: the slowest system clock a delay supports
pub const HZ_PER_MHZ: u32 = 1_000_000;

/// System timer (SysTick) as a delay provider
#[derive(Clone, Copy)]
pub struct Delay {
    scale: u32,
}

impl Delay {
    /// Core clocks per microsecond
    pub closed spec fn ticks_per_us(self) -> u32 {
        self.scale
    }

    /// Configures the SysTick to count the core clock over its full range and
    /// returns a delay provider for the frozen system clock, which must run at
    /// one megahertz at least
    pub fn new(syst: &mut SystRegisters, scu: &Scu) -> (r: Delay)
        requires
            scu.frozen().hz() >= HZ_PER_MHZ,
        ensures
            *final(syst) == (SystRegisters {
                clock_source_core: true,
                enabled: true,
                reload: (SYSTICK_RANGE - 1) as u32,
                current: 0,
                ..*old(syst)
            }),
            r.ticks_per_us() == scu.frozen().hz() / HZ_PER_MHZ,
            r.ticks_per_us() >= 1,
    {
        syst.clock_source_core = true;
        syst.reload = SYSTICK_RANGE - 1;
        syst.current = 0;
        syst.enabled = true;
        let sysclk = scu.clocks().sysclk().0;
        Delay { scale: sysclk / HZ_PER_MHZ }
    }

    /// Core clocks per microsecond
    pub fn scale(&self) -> (r: u32)
        ensures
            r == self.ticks_per_us(),
    {
        self.scale
    }

    /// Number of core clocks in `us` microseconds
    pub fn ticks_for_us(&self, us: u32) -> (r: u32)
        requires
            us * self.ticks_per_us() <= u32::MAX,
        ensures
            r == us * self.ticks_per_us(),
    {
        us * self.scale
    }

    /// Splits a wait of `total_ticks` into the stretch to wait now and what is
    /// left after it
    pub fn ticks_step(total_ticks: u32) -> (r: (u32, u32))
        ensures
            r.0 == if total_ticks <= MAX_TICKS {
                total_ticks
            } else {
                MAX_TICKS
            },
            r.0 + r.1 == total_ticks,
    {
        let current_ticks = if total_ticks <= MAX_TICKS {
            total_ticks
        } else {
            MAX_TICKS
        };
        (current_ticks, total_ticks - current_ticks)
    }

    /// Splits a wait of `ms` milliseconds into the microseconds to wait now
    /// and the milliseconds left after them
    pub fn ms_step(ms: u32) -> (r: (u32, u32))
        ensures
            r.0 == 1000 * (if ms <= MAX_MS {
                ms
            } else {
                MAX_MS
            }),
            r.0 / 1000 + r.1 == ms,
    {
        let current_ms = if ms <= MAX_MS {
            ms
        } else {
            MAX_MS
        };
        (current_ms * 1_000, ms - current_ms)
    }

    /// Number of counts the SysTick moved from `start` down to `now`, across
    /// a wrap of the counter
    pub fn elapsed(start: u32, now: u32) -> (r: u32)
        ensures
            r == (start - now) % (SYSTICK_RANGE as int),
    {
        let d = start.wrapping_sub(now);
        assert(d % SYSTICK_RANGE == (start - now) % (SYSTICK_RANGE as int)) by (nonlinear_arith)
            requires
                d == if start >= now {
                    start - now
                } else {
                    start - now + 0x1_0000_0000
                },
        ;
        d % SYSTICK_RANGE
    }

    /// Whether a stretch of `ticks` counts has passed since the counter read
    /// `start`, now that it reads `now`
    pub fn has_elapsed(start: u32, now: u32, ticks: u32) -> (r: bool)
        ensures
            r == ((start - now) % (SYSTICK_RANGE as int) >= ticks),
    {
        Self::elapsed(start, now) >= ticks
    }
}

} // verus!
