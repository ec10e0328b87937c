//! Universal serial interface channels: input routing and bit-rate generation
use vstd::prelude::*;

use crate::scu::{Scu, BASE_CLOCK_HZ};
use crate::time::Bps;
use core::marker::PhantomData;

verus! {

/// Largest clock divider step of the fractional divider
pub const MAX_STEP: u32 = 1023;

/// Bound (exclusive) of the integer part of the baud-rate divider
pub const PDIV_LIMIT: u32 = 1024;

/// Largest fractional remainder of the baud-rate divider
pub const FRAC_MAX: u32 = 0x3ff;

/// Lowest bit rate that the divider search supports, in bits per second
pub const MIN_BPS: u32 = 100;

/// Oversampling factor of the asynchronous mode
pub const OVERSAMPLING: u8 = 16;

/// Largest oversampling factor that the DCTQ field holds
pub const MAX_OVERSAMPLING: u8 = 32;

/// Divider mode of the fractional divider register: fractional mode
pub const FDR_DM_FRACTIONAL: u8 = 2;

/// Input selection that routes the DX3 stage into the DX0 stage
pub const DSEL_DX3_TO_DX0: u8 = 6;

/// Image of the registers of one serial channel that this crate programs
#[derive(Clone, Copy, Debug, PartialEq, Eq, Structural)]
pub struct UsicRegisters {
    /// KSCFG.MODEN: the module is enabled
    pub moden: bool,
    /// KSCFG.BPMODEN: MODEN may be written
    pub bpmoden: bool,
    /// FDR.DM: divider mode
    pub fdr_dm: u8,
    /// FDR.STEP: divider step
    pub fdr_step: u16,
    /// BRG.CLKSEL: clock source of the baud-rate generator
    pub brg_clksel: u8,
    /// BRG.PCTQ: pre-divider of the time quanta counter
    pub brg_pctq: u8,
    /// BRG.DCTQ: time quanta per bit, minus one
    pub brg_dctq: u8,
    /// BRG.PDIV: divider of the baud-rate generator, minus one
    pub brg_pdiv: u16,
    /// SCTR.PDL: passive data level
    pub sctr_pdl: bool,
    /// SCTR.TRM: transmission mode
    pub sctr_trm: u8,
    /// SCTR.FLE: frame length, minus one
    pub sctr_fle: u8,
    /// SCTR.WLE: word length, minus one
    pub sctr_wle: u8,
    /// TCSR.TDSSM: single shot mode of the transmit data
    pub tcsr_tdssm: bool,
    /// TCSR.TDEN: transmit data enable
    pub tcsr_tden: u8,
    /// PCR.SMD: sampling by majority
    pub pcr_smd: bool,
    /// PCR.SP: sample point
    pub pcr_sp: u8,
    /// TBCTR.SIZE: transmit FIFO size code
    pub tbctr_size: u8,
    /// TBCTR.DPTR: transmit FIFO start entry
    pub tbctr_dptr: u8,
    /// RBCTR.SIZE: receive FIFO size code
    pub rbctr_size: u8,
    /// RBCTR.DPTR: receive FIFO start entry
    pub rbctr_dptr: u8,
    /// CCR.MODE: protocol of the channel
    pub ccr_mode: u8,
    /// CCR.PM: parity mode
    pub ccr_pm: u8,
    /// DX0CR.DSEL: input selection of the receive stage
    pub dx0_dsel: u8,
    /// DX3CR.DSEL: input selection of the DX3 stage
    pub dx3_dsel: u8,
}

impl UsicRegisters {
    /// The registers as they come out of reset
    pub fn reset() -> (r: UsicRegisters)
        ensures
            r == Self::reset_spec(),
    {
        UsicRegisters {
            moden: false,
            bpmoden: false,
            fdr_dm: 0,
            fdr_step: 0,
            brg_clksel: 0,
            brg_pctq: 0,
            brg_dctq: 0,
            brg_pdiv: 0,
            sctr_pdl: false,
            sctr_trm: 0,
            sctr_fle: 0,
            sctr_wle: 0,
            tcsr_tdssm: false,
            tcsr_tden: 0,
            pcr_smd: false,
            pcr_sp: 0,
            tbctr_size: 0,
            tbctr_dptr: 0,
            rbctr_size: 0,
            rbctr_dptr: 0,
            ccr_mode: 0,
            ccr_pm: 0,
            dx0_dsel: 0,
            dx3_dsel: 0,
        }
    }
}

/// A serial channel of the USIC0 module, with the image of its registers
pub struct Usic<const CH: u8> {
    pub regs: UsicRegisters,
}

/// Channel 0 of the USIC0 module
pub type USIC0_CH0 = Usic<0>;

/// Channel 1 of the USIC0 module
pub type USIC0_CH1 = Usic<1>;

impl<const CH: u8> Usic<CH> {
    /// The channel with its registers as they come out of reset
    pub fn new() -> (r: Self)
        ensures
            r.regs == UsicRegisters::reset_spec(),
    {
        Usic { regs: UsicRegisters::reset() }
    }
}

impl UsicRegisters {
    /// The registers out of reset, as a value of the specification
    pub open spec fn reset_spec() -> UsicRegisters {
        UsicRegisters {
            moden: false,
            bpmoden: false,
            fdr_dm: 0,
            fdr_step: 0,
            brg_clksel: 0,
            brg_pctq: 0,
            brg_dctq: 0,
            brg_pdiv: 0,
            sctr_pdl: false,
            sctr_trm: 0,
            sctr_fle: 0,
            sctr_wle: 0,
            tcsr_tdssm: false,
            tcsr_tden: 0,
            pcr_smd: false,
            pcr_sp: 0,
            tbctr_size: 0,
            tbctr_dptr: 0,
            rbctr_size: 0,
            rbctr_dptr: 0,
            ccr_mode: 0,
            ccr_pm: 0,
            dx0_dsel: 0,
            dx3_dsel: 0,
        }
    }
}

/// A pin that the transmit output DOUT0 of channel `USIC` can drive
pub trait Dout0Pin<USIC> {}

/// A pin that the input stage DX0 of channel `USIC` can select
pub trait Dx0Pin<USIC> {
    /// The input selection of the pin in the DX0 stage
    spec fn dsel() -> u8;

    fn number() -> (r: u8)
        ensures
            r == Self::dsel(),
    ;
}

/// A pin that the input stage DX1 of channel `USIC` can select
pub trait Dx1Pin<USIC> {
    /// The input selection of the pin in the DX1 stage
    spec fn dsel() -> u8;

    fn number() -> (r: u8)
        ensures
            r == Self::dsel(),
    ;
}

/// A pin that the input stage DX2 of channel `USIC` can select
pub trait Dx2Pin<USIC> {
    /// The input selection of the pin in the DX2 stage
    spec fn dsel() -> u8;

    fn number() -> (r: u8)
        ensures
            r == Self::dsel(),
    ;
}

/// A pin that the input stage DX3 of channel `USIC` can select
pub trait Dx3Pin<USIC> {
    /// The input selection of the pin in the DX3 stage
    spec fn dsel() -> u8;

    fn number() -> (r: u8)
        ensures
            r == Self::dsel(),
    ;
}

/// A pin that the input stage DX4 of channel `USIC` can select
pub trait Dx4Pin<USIC> {
    /// The input selection of the pin in the DX4 stage
    spec fn dsel() -> u8;

    fn number() -> (r: u8)
        ensures
            r == Self::dsel(),
    ;
}

/// A pin that the input stage DX5 of channel `USIC` can select
pub trait Dx5Pin<USIC> {
    /// The input selection of the pin in the DX5 stage
    spec fn dsel() -> u8;

    fn number() -> (r: u8)
        ensures
            r == Self::dsel(),
    ;
}

/// A DX3 pin routed through the DX3 stage into the DX0 stage
pub struct Dx0Dx3Pin<PIN, USIC> {
    pin: PIN,
    phantom: PhantomData<USIC>,
}

impl<USIC, PIN> Dx0Pin<USIC> for Dx0Dx3Pin<PIN, USIC> {
    open spec fn dsel() -> u8 {
        DSEL_DX3_TO_DX0
    }

    fn number() -> (r: u8) {
        DSEL_DX3_TO_DX0
    }
}

impl<PIN, USIC> Dx0Dx3Pin<PIN, USIC> {
    /// Gives the routed pin back
    pub fn release(self) -> (r: PIN)
        ensures
            r == self.pin(),
    {
        self.pin
    }

    /// The routed pin
    pub closed spec fn pin(self) -> PIN {
        self.pin
    }
}

/// Selects `pin` in the DX3 stage of the channel, so that the DX0 stage can
/// receive from it through the DX3 stage
pub fn dx3pin_to_dx0pin<const CH: u8, PIN>(pin: PIN, usic: &mut Usic<CH>) -> (r: Dx0Dx3Pin<
    PIN,
    Usic<CH>,
>) where PIN: Dx3Pin<Usic<CH>>
    ensures
        final(usic).regs == (UsicRegisters { dx3_dsel: PIN::dsel(), ..old(usic).regs }),
        r.pin() == pin,
{
    usic.regs.dx3_dsel = PIN::number();
    Dx0Dx3Pin { pin: pin, phantom: PhantomData }
}

/// The divider of the baud-rate generator for clock divider step `d`, before
/// it is split into integer and fractional parts
pub open spec fn pdiv_of(pclk: int, rate: int, os: int, d: int) -> int {
    (pclk * d) / (rate * os)
}

/// The integer part of the divider for step `d`
pub open spec fn pdiv_int_of(pclk: int, rate: int, os: int, d: int) -> int {
    pdiv_of(pclk, rate, os, d) / 1024
}

/// The fractional remainder of the divider for step `d`
pub open spec fn pdiv_frac_of(pclk: int, rate: int, os: int, d: int) -> int {
    pdiv_of(pclk, rate, os, d) % 1024
}

/// Whether step `d` is a candidate whose integer part fits the PDIV field
pub open spec fn admissible(pclk: int, rate: int, os: int, d: int) -> bool {
    1 <= d <= MAX_STEP && pdiv_int_of(pclk, rate, os, d) < PDIV_LIMIT
}

/// Whether some admissible step leaves a remainder below the largest one
pub open spec fn has_fit(pclk: int, rate: int, os: int) -> bool {
    exists|e: int|
        #![trigger admissible(pclk, rate, os, e)]
        admissible(pclk, rate, os, e) && pdiv_frac_of(pclk, rate, os, e) < FRAC_MAX
}

/// Whether `d` is the step that the search keeps: admissible, with a remainder
/// below the largest one, with the smallest remainder of all admissible steps,
/// and the largest such step
pub open spec fn is_best_step(pclk: int, rate: int, os: int, d: int) -> bool {
    &&& admissible(pclk, rate, os, d)
    &&& pdiv_frac_of(pclk, rate, os, d) < FRAC_MAX
    &&& forall|e: int|
        #![trigger admissible(pclk, rate, os, e)]
        admissible(pclk, rate, os, e) ==> pdiv_frac_of(pclk, rate, os, d) <= pdiv_frac_of(
            pclk,
            rate,
            os,
            e,
        )
    &&& forall|e: int|
        #![trigger admissible(pclk, rate, os, e)]
        d < e && admissible(pclk, rate, os, e) ==> pdiv_frac_of(pclk, rate, os, d) < pdiv_frac_of(
            pclk,
            rate,
            os,
            e,
        )
}

/// Whether `(step, pdiv_int)` is what the divider search yields: the best step
/// and its integer part, or step 1 with integer part 1 when no step fits
pub open spec fn baud_solution(pclk: int, rate: int, os: int, step: int, pdiv_int: int) -> bool {
    if has_fit(pclk, rate, os) {
        is_best_step(pclk, rate, os, step) && pdiv_int == pdiv_int_of(pclk, rate, os, step)
    } else {
        step == 1 && pdiv_int == 1
    }
}

/// Whether the divider search can run on these inputs without overflow
pub open spec fn search_inputs_fit(pclk: u32, rate: u32, os: u32) -> bool {
    &&& pclk * MAX_STEP <= u32::MAX
    &&& rate >= 1
    &&& os >= 1
    &&& rate * os <= u32::MAX
}

proof fn lemma_split_divider(pdiv: u32)
    ensures
        pdiv >> 10u32 == pdiv / 1024,
        pdiv & 0x3ffu32 == pdiv % 1024,
{
    assert(pdiv >> 10u32 == pdiv / 1024) by (bit_vector);
    assert(pdiv & 0x3ffu32 == pdiv % 1024) by (bit_vector);
}

/// Searches the clock divider step from 1023 down to 1 for the divider of the
/// baud-rate generator with the smallest fractional remainder
///
/// `peripheral_clock` and `rate` are the peripheral clock and the bit rate,
/// both divided by 100; `oversampling` is the number of time quanta per bit.
/// Returns the step and the integer part of the divider.
pub fn solve_baudrate(peripheral_clock: u32, rate: u32, oversampling: u32) -> (r: (u32, u32))
    requires
        search_inputs_fit(peripheral_clock, rate, oversampling),
    ensures
        baud_solution(peripheral_clock as int, rate as int, oversampling as int, r.0 as int, r.1 as int),
        1 <= r.0 <= MAX_STEP,
        r.1 < PDIV_LIMIT,
{
    let ghost pclk = peripheral_clock as int;
    let ghost rt = rate as int;
    let ghost os = oversampling as int;
    let mut clock_divider_min: u32 = 1;
    let mut pdiv_int_min: u32 = 1;
    let mut pdiv_frac_min: u32 = FRAC_MAX;
    let denominator: u32 = rate * oversampling;
    assert(denominator > 0) by (nonlinear_arith)
        requires
            denominator == rate * oversampling,
            rate >= 1,
            oversampling >= 1,
    ;
    let mut clock_divider: u32 = MAX_STEP;
    while clock_divider >= 1
        invariant
            clock_divider <= MAX_STEP,
            search_inputs_fit(peripheral_clock, rate, oversampling),
            denominator == rt * os,
            pclk == peripheral_clock,
            rt == rate,
            os == oversampling,
            pdiv_frac_min <= FRAC_MAX,
            pdiv_frac_min < FRAC_MAX ==> {
                &&& clock_divider < clock_divider_min <= MAX_STEP
                &&& admissible(pclk, rt, os, clock_divider_min as int)
                &&& pdiv_frac_of(pclk, rt, os, clock_divider_min as int) == pdiv_frac_min
                &&& pdiv_int_of(pclk, rt, os, clock_divider_min as int) == pdiv_int_min
            },
            pdiv_frac_min == FRAC_MAX ==> clock_divider_min == 1 && pdiv_int_min == 1,
            forall|e: int|
                #![trigger admissible(pclk, rt, os, e)]
                clock_divider < e && admissible(pclk, rt, os, e) ==> pdiv_frac_min <= pdiv_frac_of(
                    pclk,
                    rt,
                    os,
                    e,
                ),
            pdiv_frac_min < FRAC_MAX ==> forall|e: int|
                #![trigger admissible(pclk, rt, os, e)]
                clock_divider_min < e && admissible(pclk, rt, os, e) ==> pdiv_frac_min
                    < pdiv_frac_of(pclk, rt, os, e),
            denominator > 0,
        decreases clock_divider,
    {
        assert(peripheral_clock * clock_divider <= peripheral_clock * MAX_STEP) by (nonlinear_arith)
            requires
                clock_divider <= MAX_STEP,
        ;
        let pdiv = (peripheral_clock * clock_divider) / denominator;
        let pdiv_int = pdiv >> 10;
        let pdiv_frac = pdiv & 0x3ff;
        proof {
            lemma_split_divider(pdiv);
            assert(pdiv == pdiv_of(pclk, rt, os, clock_divider as int));
        }
        if pdiv_int < PDIV_LIMIT && pdiv_frac < pdiv_frac_min {
            pdiv_frac_min = pdiv_frac;
            pdiv_int_min = pdiv_int;
            clock_divider_min = clock_divider;
        }
        clock_divider = clock_divider - 1;
    }
    proof {
        if has_fit(pclk, rt, os) {
            let e = choose|e: int|
                #![trigger admissible(pclk, rt, os, e)]
                admissible(pclk, rt, os, e) && pdiv_frac_of(pclk, rt, os, e) < FRAC_MAX;
            assert(pdiv_frac_min < FRAC_MAX);
        } else {
            if pdiv_frac_min < FRAC_MAX {
                assert(admissible(pclk, rt, os, clock_divider_min as int));
            }
        }
    }
    (clock_divider_min, pdiv_int_min)
}

/// Whether the bit rate is one that the divider search supports and whose
/// divider leaves a nonzero integer part to program
pub open spec fn baud_supported(sysclk: u32, bps: u32, oversampling: u8) -> bool {
    let pclk = sysclk as int / 100;
    let rate = bps as int / 100;
    &&& bps >= MIN_BPS
    &&& forall|step: int, pdiv_int: int|
        baud_solution(pclk, rate, oversampling as int, step, pdiv_int) ==> pdiv_int >= 1
}

/// `regs` with the fractional divider set to step `step` in fractional mode
/// and the baud-rate generator set to `oversampling` time quanta per bit and
/// a divider of `pdiv_int`
pub open spec fn with_baud(regs: UsicRegisters, step: int, pdiv_int: int, oversampling: u8) -> UsicRegisters {
    UsicRegisters {
        fdr_dm: FDR_DM_FRACTIONAL,
        fdr_step: step as u16,
        brg_clksel: 0,
        brg_pctq: 0,
        brg_dctq: (oversampling - 1) as u8,
        brg_pdiv: (pdiv_int - 1) as u16,
        ..regs
    }
}

/// Programs the fractional divider and the baud-rate generator of a channel
/// for bit rate `bps` with `oversampling` time quanta per bit
///
/// Fails, and leaves the registers as they are, on a bit rate below 100 and on
/// one so high that the integer part of the best divider is zero.
pub fn set_baudrate(usic: &mut UsicRegisters, scu: &Scu, bps: Bps, oversampling: u8) -> (r: Result<
    (),
    (),
>)
    requires
        1 <= oversampling <= MAX_OVERSAMPLING,
    ensures
        r is Ok <==> baud_supported(scu.frozen().hz(), bps.0, oversampling),
        r is Err ==> *final(usic) == *old(usic),
        r is Ok ==> exists|step: int, pdiv_int: int|
            #![trigger baud_solution(scu.frozen().hz() as int / 100, bps.0 as int / 100, oversampling as int, step, pdiv_int)]
            {
                &&& baud_solution(
                    scu.frozen().hz() as int / 100,
                    bps.0 as int / 100,
                    oversampling as int,
                    step,
                    pdiv_int,
                )
                &&& *final(usic) == with_baud(*old(usic), step, pdiv_int, oversampling)
            },
{
    let sysclk = scu.clocks().sysclk();
    let peripheral_clock = sysclk.0 / 100;
    if bps.0 < MIN_BPS {
        return Err(());
    }
    let rate = bps.0 / 100;
    assert(peripheral_clock <= BASE_CLOCK_HZ / 100);
    assert(rate * (oversampling as u32) <= u32::MAX) by (nonlinear_arith)
        requires
            rate <= u32::MAX / 100,
            oversampling <= MAX_OVERSAMPLING,
    ;
    let (clock_divider_min, pdiv_int_min) = solve_baudrate(peripheral_clock, rate, oversampling as u32);
    proof {
        lemma_baud_solution_unique(
            peripheral_clock as int,
            rate as int,
            oversampling as int,
            clock_divider_min as int,
            pdiv_int_min as int,
        );
    }
    if pdiv_int_min == 0 {
        return Err(());
    }
    usic.fdr_dm = FDR_DM_FRACTIONAL;
    usic.fdr_step = clock_divider_min as u16;
    usic.brg_clksel = 0;
    usic.brg_pctq = 0;
    usic.brg_dctq = oversampling - 1;
    usic.brg_pdiv = (pdiv_int_min - 1) as u16;
    Ok(())
}

/// The divider search is deterministic: on the same inputs, any two results
/// that meet its contract are the same step with the same integer part
pub proof fn lemma_baud_solution_unique(pclk: int, rate: int, os: int, step: int, pdiv_int: int)
    requires
        baud_solution(pclk, rate, os, step, pdiv_int),
    ensures
        forall|s: int, p: int| baud_solution(pclk, rate, os, s, p) ==> s == step && p == pdiv_int,
{
    assert forall|s: int, p: int| baud_solution(pclk, rate, os, s, p) implies s == step && p
        == pdiv_int by {
        if has_fit(pclk, rate, os) {
            assert(admissible(pclk, rate, os, s));
            assert(admissible(pclk, rate, os, step));
            if s < step {
                assert(pdiv_frac_of(pclk, rate, os, s) < pdiv_frac_of(pclk, rate, os, step));
            } else if step < s {
                assert(pdiv_frac_of(pclk, rate, os, step) < pdiv_frac_of(pclk, rate, os, s));
            }
        }
    }
}

} // verus!
