//! System control unit: clock divider and peripheral clock gating
use vstd::prelude::*;

use crate::time::Hertz;

verus! {

/// Frequency of the clock that the system clock divider divides, in hertz
pub const BASE_CLOCK_HZ: u32 = 32_000_000;

/// Largest value of the integer clock divider
pub const MAX_IDIV: u32 = 255;

/// Integer divider programmed when no system clock frequency is requested
pub const DEFAULT_IDIV: u8 = 4;

/// Frequency of the system clock out of reset, in hertz
pub const RESET_SYSCLK_HZ: u32 = 8_000_000;

/// Gating bit of the capture/compare unit in the clock gating registers
pub const GATE_CCU40: u32 = 2;

/// Gating bit of the serial unit in the clock gating registers
pub const GATE_USIC0: u32 = 3;

/// Clock gating status out of reset: every gateable peripheral is stopped
pub const CGATSTAT0_RESET: u32 = 0x07ff;

/// The integer divider that a requested system clock frequency calls for:
/// the base clock divided by the frequency, rounded to the nearest integer
/// (halves round up)
pub open spec fn idiv_for(freq: u32) -> int
    recommends
        freq > 0,
{
    (2 * BASE_CLOCK_HZ as int + freq as int) / (2 * freq as int)
}

/// Computes `idiv_for(freq)`
fn rounded_divider(freq: u32) -> (r: u64)
    requires
        freq > 0,
    ensures
        r == idiv_for(freq),
{
    (2 * (BASE_CLOCK_HZ as u64) + freq as u64) / (2 * (freq as u64))
}

/// Whether a divider can be programmed into the clock control register
pub open spec fn valid_idiv(idiv: int) -> bool {
    1 <= idiv <= MAX_IDIV
}

/// Whether a requested system clock frequency is reachable by one divider
pub open spec fn valid_sysclk_request(freq: u32) -> bool {
    freq > 0 && valid_idiv(idiv_for(freq))
}

/// Whether `hz` is the system clock frequency of some programmable divider
pub open spec fn is_divided_clock(hz: u32) -> bool {
    exists|idiv: int| valid_idiv(idiv) && hz == BASE_CLOCK_HZ as int / idiv
}

/// Image of the system control registers that this crate programs
#[derive(Clone, Copy, Debug, PartialEq, Eq, Structural)]
pub struct ScuRegisters {
    /// Whether the password sequence that lifts the write protection was written
    pub unprotected: bool,
    /// IDIV field of the clock control register
    pub idiv: u8,
    /// Clock gating status: a set bit stops the clock of that peripheral
    pub cgatstat0: u32,
}

impl ScuRegisters {
    /// The registers as they come out of reset
    pub fn reset() -> (r: ScuRegisters)
        ensures
            !r.unprotected,
            r.idiv == DEFAULT_IDIV,
            r.cgatstat0 == CGATSTAT0_RESET,
    {
        ScuRegisters { unprotected: false, idiv: DEFAULT_IDIV, cgatstat0: CGATSTAT0_RESET }
    }

    /// Whether the clock of the peripheral with gating bit `bit` runs
    pub open spec fn is_ungated(self, bit: u32) -> bool
        recommends
            bit < 32,
    {
        self.cgatstat0 & (1u32 << bit) == 0
    }

    /// Writes the bit `bit` of the clock gating clear register, which starts
    /// the clock of that peripheral and leaves the other gates as they are
    pub fn ungate(&mut self, bit: u32)
        requires
            bit < 32,
        ensures
            final(self).is_ungated(bit),
            forall|b: u32| b < 32 && b != bit ==> (final(self).is_ungated(b) <==> old(self).is_ungated(b)),
            final(self).unprotected == old(self).unprotected,
            final(self).idiv == old(self).idiv,
    {
        let old_status = self.cgatstat0;
        let status = old_status & !(1u32 << bit);
        assert(status & (1u32 << bit) == 0) by (bit_vector)
            requires
                status == old_status & !(1u32 << bit),
                bit < 32,
        ;
        assert forall|b: u32| b < 32 && b != bit implies (status & (1u32 << b) == 0 <==> old_status
            & (1u32 << b) == 0) by {
            assert(status & (1u32 << b) == 0 <==> old_status & (1u32 << b) == 0) by (bit_vector)
                requires
                    status == old_status & !(1u32 << bit),
                    bit < 32,
                    b < 32,
                    b != bit,
            ;
        }
        self.cgatstat0 = status;
    }
}

/// Frozen clock frequencies
///
/// The existence of this value indicates that the clock configuration can no
/// longer be changed
#[derive(Clone, Copy)]
pub struct Clocks {
    sysclk: Hertz,
}

impl Clocks {
    #[verifier::type_invariant]
    spec fn inv(self) -> bool {
        is_divided_clock(self.sysclk.0)
    }

    /// The system clock frequency in hertz
    pub closed spec fn hz(self) -> u32 {
        self.sysclk.0
    }

    /// Returns the system (core) frequency
    pub fn sysclk(&self) -> (r: Hertz)
        ensures
            r.0 == self.hz(),
            is_divided_clock(r.0),
            BASE_CLOCK_HZ / MAX_IDIV <= r.0 <= BASE_CLOCK_HZ,
    {
        proof {
            use_type_invariant(self);
            lemma_divided_clock_range(self.sysclk.0);
        }
        self.sysclk
    }
}

/// Every divided clock lies between the slowest and the fastest divider's
pub proof fn lemma_divided_clock_range(hz: u32)
    requires
        is_divided_clock(hz),
    ensures
        BASE_CLOCK_HZ / MAX_IDIV <= hz <= BASE_CLOCK_HZ,
{
    let idiv = choose|idiv: int| valid_idiv(idiv) && hz == BASE_CLOCK_HZ as int / idiv;
    assert(BASE_CLOCK_HZ as int / idiv <= BASE_CLOCK_HZ as int / 1) by (nonlinear_arith)
        requires
            1 <= idiv,
    ;
    assert(BASE_CLOCK_HZ as int / MAX_IDIV as int <= BASE_CLOCK_HZ as int / idiv) by (nonlinear_arith)
        requires
            idiv <= MAX_IDIV,
            1 <= idiv,
    ;
}

/// Constrained SCU peripheral
pub struct Scu {
    pub clocks: Clocks,
    regs: ScuRegisters,
}

impl Scu {
    /// The register image of the system control unit
    pub closed spec fn registers(self) -> ScuRegisters {
        self.regs
    }

    /// The clock frequencies that this unit hands out
    pub closed spec fn frozen(self) -> Clocks {
        self.clocks
    }

    /// Lifts the write protection of the clock control block and returns a
    /// builder that starts from the frequency out of reset
    pub fn new(regs: ScuRegisters) -> (r: ClockConfig)
        ensures
            r.scu().registers() == (ScuRegisters { unprotected: true, ..regs }),
            r.scu().frozen().hz() == RESET_SYSCLK_HZ,
            r.requested() == None::<u32>,
    {
        let mut regs = regs;
        regs.unprotected = true;
        assert(valid_idiv(4) && RESET_SYSCLK_HZ == BASE_CLOCK_HZ as int / 4);
        let scu = Scu { clocks: Clocks { sysclk: Hertz(RESET_SYSCLK_HZ) }, regs };
        ClockConfig { scu, sysclk: None }
    }

    /// The frozen clock frequencies
    pub fn clocks(&self) -> (r: Clocks)
        ensures
            r == self.frozen(),
    {
        self.clocks
    }

    /// The register image, to be written to the device
    pub fn regs(&self) -> (r: ScuRegisters)
        ensures
            r == self.registers(),
    {
        self.regs
    }

    /// Starts the clock of the serial unit
    pub fn enable_usic0(&mut self)
        ensures
            final(self).registers().is_ungated(GATE_USIC0),
            forall|b: u32|
                b < 32 && b != GATE_USIC0 ==> (final(self).registers().is_ungated(b) <==> old(
                    self,
                ).registers().is_ungated(b)),
            final(self).registers().idiv == old(self).registers().idiv,
            final(self).registers().unprotected == old(self).registers().unprotected,
            final(self).frozen().hz() == old(self).frozen().hz(),
    {
        self.regs.ungate(GATE_USIC0);
    }

    /// Starts the clock of the capture/compare unit
    pub fn enable_ccu40(&mut self)
        ensures
            final(self).registers().is_ungated(GATE_CCU40),
            forall|b: u32|
                b < 32 && b != GATE_CCU40 ==> (final(self).registers().is_ungated(b) <==> old(
                    self,
                ).registers().is_ungated(b)),
            final(self).registers().idiv == old(self).registers().idiv,
            final(self).registers().unprotected == old(self).registers().unprotected,
            final(self).frozen().hz() == old(self).frozen().hz(),
    {
        self.regs.ungate(GATE_CCU40);
    }
}

/// Builder of the clock configuration
pub struct ClockConfig {
    scu: Scu,
    sysclk: Option<u32>,
}

impl ClockConfig {
    /// The control unit that `freeze` hands back
    pub closed spec fn scu(self) -> Scu {
        self.scu
    }

    /// The system clock frequency requested so far, if any
    pub closed spec fn requested(self) -> Option<u32> {
        self.sysclk
    }

    /// The system clock frequency requested so far, if any
    pub fn requested_sysclk(&self) -> (r: Option<u32>)
        ensures
            r == self.requested(),
    {
        self.sysclk
    }

    /// Records the system clock frequency to program; a later call replaces it
    pub fn sysclk(self, freq: Hertz) -> (r: Self)
        ensures
            r.requested() == Some(freq.0),
            r.scu() == self.scu(),
    {
        let mut cfg = self;
        cfg.sysclk = Some(freq.0);
        cfg
    }

    /// The divider that a requested frequency calls for, or `None` when no
    /// divider in range reaches it
    pub fn divider(freq: Hertz) -> (r: Option<u8>)
        ensures
            r is Some <==> valid_sysclk_request(freq.0),
            r matches Some(idiv) ==> idiv == idiv_for(freq.0),
    {
        if freq.0 == 0 {
            return None;
        }
        let idiv = rounded_divider(freq.0);
        if idiv > 0xFF || idiv == 0 {
            None
        } else {
            Some(idiv as u8)
        }
    }

    /// Programs the system clock divider and freezes the clock configuration
    ///
    /// With a requested frequency the divider is the base clock divided by it,
    /// rounded to the nearest integer, and the resulting frequency is the base
    /// clock divided by that divider, rounded down; a request whose divider
    /// falls outside 1 to 255 is a configuration error that callers rule out
    /// (see `divider`). Without a request the default divider is programmed.
    pub fn freeze(self) -> (r: Scu)
        requires
            self.requested() matches Some(f) ==> valid_sysclk_request(f),
        ensures
            r.registers().unprotected == self.scu().registers().unprotected,
            r.registers().cgatstat0 == self.scu().registers().cgatstat0,
            match self.requested() {
                Some(f) => r.registers().idiv == idiv_for(f) && r.frozen().hz() == BASE_CLOCK_HZ as int
                    / idiv_for(f),
                None => r.registers().idiv == DEFAULT_IDIV && r.frozen().hz() == self.scu().frozen().hz(),
            },
    {
        let mut scu = self.scu;
        match self.sysclk {
            Some(sysclk) => {
                let idiv = rounded_divider(sysclk) as u32;
                scu.regs.idiv = idiv as u8;
                assert(is_divided_clock(BASE_CLOCK_HZ / idiv));
                scu.clocks = Clocks { sysclk: Hertz(BASE_CLOCK_HZ / idiv) };
            },
            None => {
                scu.regs.idiv = DEFAULT_IDIV;
            },
        }
        scu
    }
}

/// A request that a divider in range divides exactly is met exactly: the
/// frozen system clock runs at the requested frequency
pub proof fn lemma_exact_request_is_met(freq: u32)
    requires
        valid_sysclk_request(freq),
        BASE_CLOCK_HZ as int % freq as int == 0,
    ensures
        BASE_CLOCK_HZ as int / idiv_for(freq) == freq,
{
    let q = BASE_CLOCK_HZ as int / freq as int;
    let f = freq as int;
    assert(q * f == BASE_CLOCK_HZ) by (nonlinear_arith)
        requires
            q == BASE_CLOCK_HZ as int / f,
            BASE_CLOCK_HZ as int % f == 0,
            f > 0,
    ;
    assert(idiv_for(freq) == q) by (nonlinear_arith)
        requires
            idiv_for(freq) == (2 * BASE_CLOCK_HZ as int + f) / (2 * f),
            q * f == BASE_CLOCK_HZ,
            f > 0,
    {
        assert(2 * BASE_CLOCK_HZ as int + f == q * (2 * f) + f);
        assert(0 <= f < 2 * f);
    }
    assert(BASE_CLOCK_HZ as int / q == f) by (nonlinear_arith)
        requires
            q * f == BASE_CLOCK_HZ,
            q >= 1,
    ;
}

} // verus!
