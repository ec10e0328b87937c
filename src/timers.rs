//! Periodic count-down timers: the core's SysTick and the capture/compare unit
use vstd::prelude::*;

use crate::scu::{Clocks, Scu};
use crate::time::Hertz;

verus! {

/// Bound (exclusive) of the SysTick reload value: the counter has 24 bits
pub const SYST_RELOAD_LIMIT: u32 = 0x0100_0000;

/// Largest value of the 16-bit period register of a timer slice
pub const MAX_PERIOD_TICKS: u32 = 0xffff;

/// Largest code of the prescaler of a timer slice
pub const MAX_PSIV: u8 = 15;

/// Two to the power `n`
pub open spec fn two_pow(n: nat) -> nat
    decreases n,
{
    if n == 0 {
        1
    } else {
        2 * two_pow((n - 1) as nat)
    }
}

/// Whether `ticks` timer clocks, divided by `divider`, fit the period register
pub open spec fn fits_period(ticks: int, divider: int) -> bool {
    ticks / divider <= MAX_PERIOD_TICKS
}

/// Whether `code` selects the smallest power of two that brings `ticks` into
/// the range of the period register
pub open spec fn is_smallest_prescaler(ticks: int, code: nat) -> bool {
    &&& fits_period(ticks, two_pow(code) as int)
    &&& forall|n: nat| n < code ==> !fits_period(ticks, #[trigger] two_pow(n) as int)
}

/// Number of timer clocks in one period of frequency `freq`; a frequency of
/// zero counts as one hertz
pub open spec fn period_ticks(sysclk: int, freq: int) -> int {
    sysclk / if freq < 1 {
        1
    } else {
        freq
    }
}

/// The SysTick reload value for one period of frequency `freq`
pub open spec fn syst_reload(sysclk: int, freq: int) -> int {
    sysclk / freq - 1
}

/// Whether the SysTick counter can time periods of frequency `freq`
pub open spec fn syst_frequency_in_range(sysclk: int, freq: int) -> bool {
    1 <= freq <= sysclk && syst_reload(sysclk, freq) < SYST_RELOAD_LIMIT
}

proof fn lemma_two_pow_positive(n: nat)
    ensures
        two_pow(n) >= 1,
    decreases n,
{
    if n > 0 {
        lemma_two_pow_positive((n - 1) as nat);
    }
}

proof fn lemma_two_pow_monotonic(m: nat, n: nat)
    requires
        m <= n,
    ensures
        two_pow(m) <= two_pow(n),
    decreases n,
{
    if m < n {
        lemma_two_pow_monotonic(m, (n - 1) as nat);
        lemma_two_pow_positive((n - 1) as nat);
    }
}

proof fn lemma_two_pow_16()
    ensures
        two_pow(15) == 32768,
        two_pow(16) == 65536,
{
    reveal_with_fuel(two_pow, 17);
}

/// A division by `d` fits the period register exactly when the number of
/// whole 65536-tick blocks is below `d`
proof fn lemma_fits_period_iff(ticks: int, d: int)
    requires
        ticks >= 0,
        d >= 1,
    ensures
        fits_period(ticks, d) <==> ticks / 65536 < d,
{
    let q = ticks / d;
    let b = ticks / 65536;
    assert(q * d <= ticks < q * d + d) by (nonlinear_arith)
        requires
            q == ticks / d,
            d >= 1,
            ticks >= 0,
    ;
    assert(b * 65536 <= ticks < b * 65536 + 65536) by (nonlinear_arith)
        requires
            b == ticks / 65536,
            ticks >= 0,
    ;
    if q <= 65535 {
        assert(b < d) by (nonlinear_arith)
            requires
                q <= 65535,
                ticks < q * d + d,
                b * 65536 <= ticks,
                d >= 1,
                q >= 0,
        ;
    }
    if b < d {
        assert(q <= 65535) by (nonlinear_arith)
            requires
                b < d,
                q * d <= ticks,
                ticks < b * 65536 + 65536,
                d >= 1,
                b >= 0,
        ;
    }
}

/// Selects the prescaler of a timer slice for a period of `ticks` clocks:
/// the smallest power of two that brings the count into the 16-bit period
/// register. Returns the divider and its prescaler code.
pub fn prescaler_divider(ticks: u32) -> (r: (u32, u8))
    ensures
        r.0 == two_pow(r.1 as nat),
        r.1 <= 16,
        is_smallest_prescaler(ticks as int, r.1 as nat),
        1 <= r.0 <= 65536,
{
    let blocks = ticks >> 16;
    assert(blocks == ticks / 65536) by (bit_vector)
        requires
            blocks == ticks >> 16,
    ;
    let bound: u32 = blocks + 1;
    let mut divider: u32 = 1;
    let mut code: u8 = 0;
    while divider < bound
        invariant
            divider == two_pow(code as nat),
            bound == ticks / 65536 + 1,
            bound <= 65536,
            divider <= 65536,
            code <= 16,
            forall|n: nat| n < code ==> #[trigger] two_pow(n) < bound,
        decreases 65536 - divider,
    {
        proof {
            if code == 16 {
                lemma_two_pow_16();
            }
            assert forall|n: nat| n < code + 1 implies #[trigger] two_pow(n) < bound by {
                if n < code {
                } else {
                    assert(n == code);
                }
            }
            lemma_two_pow_positive(code as nat);
            if code < 16 {
                lemma_two_pow_monotonic((code + 1) as nat, 16);
                lemma_two_pow_16();
            }
        }
        divider = divider * 2;
        code = code + 1;
    }
    proof {
        lemma_two_pow_positive(code as nat);
        lemma_fits_period_iff(ticks as int, divider as int);
        assert forall|n: nat| n < code implies !fits_period(ticks as int, #[trigger] two_pow(n) as int) by {
            lemma_two_pow_positive(n);
            lemma_fits_period_iff(ticks as int, two_pow(n) as int);
        }
    }
    (divider, code)
}

/// The prescaler code of a period of `ticks` clocks, when that code exists
pub fn prescaler_code(ticks: u32) -> (r: Option<u8>)
    ensures
        match r {
            Some(code) => code <= MAX_PSIV && is_smallest_prescaler(ticks as int, code as nat),
            None => forall|n: nat| n <= MAX_PSIV ==> !fits_period(ticks as int, #[trigger] two_pow(n) as int),
        },
{
    let (_divider, code) = prescaler_divider(ticks);
    if code <= MAX_PSIV {
        Some(code)
    } else {
        assert forall|n: nat| n <= MAX_PSIV implies !fits_period(ticks as int, #[trigger] two_pow(n) as int) by {
            assert(n < code);
        }
        None
    }
}

/// The divider that `prescaler_divider` selects is a power of two, brings the
/// count within the period register, and no smaller power of two does
pub proof fn lemma_prescaler_is_smallest_power(ticks: u32, code: nat, n: nat)
    requires
        is_smallest_prescaler(ticks as int, code),
        n < code,
    ensures
        ticks as int / two_pow(code) as int <= MAX_PERIOD_TICKS,
        ticks as int / two_pow(n) as int > MAX_PERIOD_TICKS,
{
    assert(!fits_period(ticks as int, two_pow(n) as int));
}

/// Whether the SysTick can time periods of frequency `timeout` on `clocks`
pub fn syst_frequency_supported(clocks: &Clocks, timeout: Hertz) -> (r: bool)
    ensures
        r == syst_frequency_in_range(clocks.hz() as int, timeout.0 as int),
{
    let sysclk = clocks.sysclk().0;
    if timeout.0 < 1 || timeout.0 > sysclk {
        return false;
    }
    assert(sysclk / timeout.0 >= 1) by (nonlinear_arith)
        requires
            1 <= timeout.0 <= sysclk,
    ;
    sysclk / timeout.0 - 1 < SYST_RELOAD_LIMIT
}

/// Whether a timer slice can time periods of frequency `timeout` on `clocks`
pub fn timer_frequency_supported(clocks: &Clocks, timeout: Hertz) -> (r: bool)
    ensures
        r == timer_frequency_in_range(clocks.hz() as int, timeout.0 as int),
{
    let sysclk = clocks.sysclk().0;
    let freq = if timeout.0 < 1 {
        1
    } else {
        timeout.0
    };
    let ticks = sysclk / freq;
    1 <= ticks && ticks < 0x8000_0000
}

/// Interrupt events
#[derive(Clone, Copy, Debug, PartialEq, Eq, Structural)]
pub enum Event {
    /// Timer timed out / count down ended
    TimeOut,
}

/// Image of the SysTick registers
#[derive(Clone, Copy, Debug, PartialEq, Eq, Structural)]
pub struct SystRegisters {
    /// CSR.CLKSOURCE: the counter runs on the core clock
    pub clock_source_core: bool,
    /// CSR.TICKINT: a wrap raises the SysTick exception
    pub tickint: bool,
    /// CSR.ENABLE: the counter runs
    pub enabled: bool,
    /// RVR: the reload value
    pub reload: u32,
    /// CVR: the current value
    pub current: u32,
}

impl SystRegisters {
    /// The registers as they come out of reset
    pub fn reset() -> (r: SystRegisters)
        ensures
            !r.clock_source_core,
            !r.tickint,
            !r.enabled,
            r.reload == 0,
            r.current == 0,
    {
        SystRegisters { clock_source_core: false, tickint: false, enabled: false, reload: 0, current: 0 }
    }
}

/// SysTick as a periodic count-down timer
pub struct SystickTimer {
    clocks: Clocks,
    tim: SystRegisters,
}

impl SystickTimer {
    /// The system clock frequency that the timer counts
    pub closed spec fn sysclk(self) -> u32 {
        self.clocks.hz()
    }

    /// The register image of the SysTick
    pub closed spec fn registers(self) -> SystRegisters {
        self.tim
    }

    /// The frozen clocks that the timer counts
    pub fn clocks(&self) -> (r: Clocks)
        ensures
            r.hz() == self.sysclk(),
    {
        self.clocks
    }

    /// The register image, to be written to the device
    pub fn regs(&self) -> (r: SystRegisters)
        ensures
            r == self.registers(),
    {
        self.tim
    }

    /// Configures the SysTick as a periodic count-down timer on the core
    /// clock, with periods of frequency `timeout`
    pub fn syst(syst: SystRegisters, timeout: Hertz, scu: &Scu) -> (r: Self)
        requires
            syst_frequency_in_range(scu.frozen().hz() as int, timeout.0 as int),
        ensures
            r.sysclk() == scu.frozen().hz(),
            r.registers() == (SystRegisters {
                clock_source_core: true,
                enabled: true,
                reload: syst_reload(scu.frozen().hz() as int, timeout.0 as int) as u32,
                current: 0,
                ..syst
            }),
    {
        let mut tim = syst;
        tim.clock_source_core = true;
        let mut timer = SystickTimer { tim, clocks: scu.clocks() };
        timer.start(timeout);
        timer
    }

    /// Starts listening for an `event`
    pub fn listen(&mut self, event: &Event)
        ensures
            final(self).registers() == (SystRegisters { tickint: true, ..old(self).registers() }),
            final(self).sysclk() == old(self).sysclk(),
    {
        match event {
            Event::TimeOut => self.tim.tickint = true,
        }
    }

    /// Stops listening for an `event`
    pub fn unlisten(&mut self, event: &Event)
        ensures
            final(self).registers() == (SystRegisters { tickint: false, ..old(self).registers() }),
            final(self).sysclk() == old(self).sysclk(),
    {
        match event {
            Event::TimeOut => self.tim.tickint = false,
        }
    }

    /// Starts the timer with periods of frequency `timeout`: the reload value
    /// is the system clock divided by the frequency, minus one
    pub fn start(&mut self, timeout: Hertz)
        requires
            syst_frequency_in_range(old(self).sysclk() as int, timeout.0 as int),
        ensures
            final(self).registers() == (SystRegisters {
                enabled: true,
                reload: syst_reload(old(self).sysclk() as int, timeout.0 as int) as u32,
                current: 0,
                ..old(self).registers()
            }),
            final(self).sysclk() == old(self).sysclk(),
    {
        let sysclk = self.clocks.sysclk().0;
        assert(sysclk / timeout.0 >= 1) by (nonlinear_arith)
            requires
                1 <= timeout.0 <= sysclk,
        ;
        let rvr = sysclk / timeout.0 - 1;
        self.tim.reload = rvr;
        self.tim.current = 0;
        self.tim.enabled = true;
    }

    /// Returns `Ok` once the counter has wrapped since the last poll, as the
    /// COUNTFLAG bit `wrapped` shows; reading that bit clears it
    pub fn wait(&mut self, wrapped: bool) -> (r: nb::Result<(), void::Void>)
        ensures
            wrapped <==> r is Ok,
            !wrapped ==> r == Err::<(), nb::Error<void::Void>>(nb::Error::WouldBlock),
            *final(self) == *old(self),
    {
        if wrapped {
            Ok(())
        } else {
            Err(nb::Error::WouldBlock)
        }
    }
}

/// Image of the registers of one capture/compare timer slice
#[derive(Clone, Copy, Debug, PartialEq, Eq, Structural)]
pub struct CcuSliceRegisters {
    /// PRS: the period value, one less than the period in prescaled clocks
    pub prs: u16,
    /// PSC.PSIV: the prescaler code, dividing the clock by two to its power
    pub psiv: u8,
    /// TC.CLST: a shadow transfer happens when the timer is cleared
    pub clst: bool,
    /// TCST.TRB: the timer runs
    pub running: bool,
    /// TIMER: the running count
    pub count: u16,
    /// INTS.PMUS: a period match has happened and was not reset yet
    pub period_match: bool,
    /// GCST.SxSS: a shadow transfer of the period and prescaler is requested,
    /// so that they take effect at the next period boundary
    pub shadow_transfer: bool,
}

impl CcuSliceRegisters {
    /// The registers as they come out of reset
    pub fn reset() -> (r: CcuSliceRegisters)
        ensures
            r.prs == 0,
            r.psiv == 0,
            !r.clst,
            !r.running,
            r.count == 0,
            !r.period_match,
            !r.shadow_transfer,
    {
        CcuSliceRegisters {
            prs: 0,
            psiv: 0,
            clst: false,
            running: false,
            count: 0,
            period_match: false,
            shadow_transfer: false,
        }
    }
}

/// Whether `prs` and `psiv` time periods of `ticks` clocks: the prescaler is
/// the smallest power of two that fits, and the period value is the
/// prescaled count minus one
pub open spec fn is_period_setting(ticks: int, psiv: u8, prs: u16) -> bool {
    &&& psiv <= MAX_PSIV
    &&& is_smallest_prescaler(ticks, psiv as nat)
    &&& prs == ticks / two_pow(psiv as nat) as int - 1
}

/// Whether a timer slice can time periods of frequency `freq`
pub open spec fn timer_frequency_in_range(sysclk: int, freq: int) -> bool {
    &&& 1 <= period_ticks(sysclk, freq)
    &&& period_ticks(sysclk, freq) < 0x8000_0000
}

/// Hardware timers
pub struct Timer {
    clocks: Clocks,
    tim: CcuSliceRegisters,
}

impl Timer {
    /// The system clock frequency that the timer counts
    pub closed spec fn sysclk(self) -> u32 {
        self.clocks.hz()
    }

    /// The register image of the timer slice
    pub closed spec fn registers(self) -> CcuSliceRegisters {
        self.tim
    }

    /// The frozen clocks that the timer counts
    pub fn clocks(&self) -> (r: Clocks)
        ensures
            r.hz() == self.sysclk(),
    {
        self.clocks
    }

    /// The register image, to be written to the device
    pub fn regs(&self) -> (r: CcuSliceRegisters)
        ensures
            r == self.registers(),
    {
        self.tim
    }

    /// Starts the clock of the capture/compare unit and runs slice `timer` as
    /// a periodic timer with periods of frequency `timeout`, with shadow
    /// transfer on clear
    pub fn timer(timer: CcuSliceRegisters, timeout: Hertz, scu: &mut Scu) -> (r: Self)
        requires
            timer_frequency_in_range(old(scu).frozen().hz() as int, timeout.0 as int),
        ensures
            final(scu).registers().is_ungated(crate::scu::GATE_CCU40),
            forall|b: u32|
                b < 32 && b != crate::scu::GATE_CCU40 ==> (final(scu).registers().is_ungated(b)
                    <==> old(scu).registers().is_ungated(b)),
            final(scu).frozen().hz() == old(scu).frozen().hz(),
            r.sysclk() == old(scu).frozen().hz(),
            r.registers().clst,
            r.registers().running,
            is_period_setting(
                period_ticks(r.sysclk() as int, timeout.0 as int),
                r.registers().psiv,
                r.registers().prs,
            ),
            r.registers().count == 0,
            !r.registers().period_match,
            r.registers().shadow_transfer,
    {
        scu.enable_ccu40();
        let mut tim = timer;
        tim.clst = true;
        let mut timer = Timer { tim, clocks: scu.clocks() };
        timer.start(timeout);
        timer.tim.running = true;
        timer
    }

    /// Starts the timer with periods of frequency `timeout`: the period in
    /// system clocks is the clock divided by the frequency (at least one),
    /// and it is split into a power-of-two prescaler and a 16-bit period.
    /// The running count is cleared, the period match is reset, and a shadow
    /// transfer is requested so that the new period takes effect at the next
    /// boundary; whether the timer runs is left as it was.
    pub fn start(&mut self, timeout: Hertz)
        requires
            timer_frequency_in_range(old(self).sysclk() as int, timeout.0 as int),
        ensures
            is_period_setting(
                period_ticks(old(self).sysclk() as int, timeout.0 as int),
                final(self).registers().psiv,
                final(self).registers().prs,
            ),
            final(self).registers().clst == old(self).registers().clst,
            final(self).registers().running == old(self).registers().running,
            final(self).registers().count == 0,
            !final(self).registers().period_match,
            final(self).registers().shadow_transfer,
            final(self).sysclk() == old(self).sysclk(),
    {
        let freq = if timeout.0 < 1 {
            1
        } else {
            timeout.0
        };
        let ticks = self.clocks.sysclk().0 / freq;
        let (divider, code) = prescaler_divider(ticks);
        proof {
            if code > 0 {
                let h = two_pow((code - 1) as nat);
                assert(!fits_period(ticks as int, h as int));
                lemma_two_pow_positive((code - 1) as nat);
                lemma_fits_period_iff(ticks as int, h as int);
                assert(ticks >= 65536 * h) by (nonlinear_arith)
                    requires
                        ticks as int / 65536 >= h,
                ;
                if code > MAX_PSIV {
                    lemma_two_pow_monotonic(15, (code - 1) as nat);
                    lemma_two_pow_16();
                }
            }
            assert(ticks / divider >= 1) by (nonlinear_arith)
                requires
                    divider <= ticks,
                    divider >= 1,
            ;
        }
        self.tim.prs = (ticks / divider - 1) as u16;
        self.tim.psiv = code;
        self.tim.count = 0;
        self.tim.period_match = false;
        self.tim.shadow_transfer = true;
    }

    /// Returns `Ok` when the sampled period-match status bit `period_match` is
    /// set, and then resets the period match so that the next one is seen
    pub fn wait(&mut self, period_match: bool) -> (r: nb::Result<(), void::Void>)
        ensures
            period_match <==> r is Ok,
            !period_match ==> r == Err::<(), nb::Error<void::Void>>(nb::Error::WouldBlock),
            period_match ==> final(self).registers() == (CcuSliceRegisters {
                period_match: false,
                ..old(self).registers()
            }),
            !period_match ==> *final(self) == *old(self),
            final(self).sysclk() == old(self).sysclk(),
    {
        if period_match {
            self.tim.period_match = false;
            Ok(())
        } else {
            Err(nb::Error::WouldBlock)
        }
    }
}

} // verus!
