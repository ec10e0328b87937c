//! Asynchronous serial ports on the USIC channels
//!
//! This only implements the usual asynchronous bidirectional 8-bit transfers.
//! A transmit-only or receive-only port takes `()` in place of the missing pin.
//!
//! Status registers are sampled by the caller and handed in as words; the
//! operations decide from them whether a byte can be moved, and the caller
//! then moves it.
use vstd::prelude::*;

use core::marker::PhantomData;

use crate::scu::{Scu, GATE_USIC0};
use crate::time::Bps;
use crate::usic::{
    baud_solution, baud_supported, set_baudrate, with_baud, Dout0Pin, Dx0Pin, Usic, UsicRegisters,
    OVERSAMPLING,
};

verus! {

/// PSR.TXIDLE: the transmitter is idle
pub const PSR_TXIDLE: u32 = 1 << 0;

/// PSR.RNS: noise was detected in a received bit
pub const PSR_RNS: u32 = 1 << 4;

/// PSR.FER0: the first stop bit was not high
pub const PSR_FER0: u32 = 1 << 5;

/// PSR.FER1: the second stop bit was not high
pub const PSR_FER1: u32 = 1 << 6;

/// TRBSR.REMPTY: the receive FIFO is empty
pub const TRBSR_REMPTY: u32 = 1 << 3;

/// TRBSR.RFULL: the receive FIFO is full
pub const TRBSR_RFULL: u32 = 1 << 4;

/// TRBSR.TFULL: the transmit FIFO is full
pub const TRBSR_TFULL: u32 = 1 << 12;

/// Serial error
#[derive(Clone, Copy, Debug, PartialEq, Eq, Structural)]
pub enum SerialError {
    /// Framing error
    Framing,
    /// Noise error
    Noise,
    /// RX buffer overrun
    Overrun,
    /// Parity check error
    Parity,
}

/// Whether a status word has any bit of `mask` set
pub open spec fn flag(word: u32, mask: u32) -> bool {
    word & mask != 0
}

/// What a receive attempt yields for the sampled protocol status `psr` and
/// buffer status `trbsr`: a framing error, else noise, else an overrun, else
/// a byte when the receive FIFO holds one, else nothing yet
pub open spec fn rx_outcome(psr: u32, trbsr: u32) -> nb::Result<(), SerialError> {
    if flag(psr, PSR_FER0) || flag(psr, PSR_FER1) {
        Err(nb::Error::Other(SerialError::Framing))
    } else if flag(psr, PSR_RNS) {
        Err(nb::Error::Other(SerialError::Noise))
    } else if flag(trbsr, TRBSR_RFULL) {
        Err(nb::Error::Other(SerialError::Overrun))
    } else if !flag(trbsr, TRBSR_REMPTY) {
        Ok(())
    } else {
        Err(nb::Error::WouldBlock)
    }
}

/// The channel registers for 8 data bits, one stop bit and no parity, with
/// 32-entry transmit and receive FIFOs, in asynchronous mode
pub open spec fn asc_frame(regs: UsicRegisters) -> UsicRegisters {
    UsicRegisters {
        moden: true,
        bpmoden: true,
        sctr_pdl: true,
        sctr_trm: 1,
        sctr_fle: 7,
        sctr_wle: 7,
        tcsr_tdssm: true,
        tcsr_tden: 1,
        pcr_smd: true,
        pcr_sp: 9,
        tbctr_size: 5,
        tbctr_dptr: 0,
        rbctr_size: 5,
        rbctr_dptr: 32,
        ccr_mode: 2,
        ccr_pm: 0,
        ..regs
    }
}

/// Whether `after` is `before` configured for asynchronous transfers at bit
/// rate `bps` on system clock `sysclk`
pub open spec fn is_configured(before: UsicRegisters, after: UsicRegisters, sysclk: u32, bps: u32) -> bool {
    exists|step: int, pdiv_int: int|
        #![trigger baud_solution(sysclk as int / 100, bps as int / 100, OVERSAMPLING as int, step, pdiv_int)]
        {
            &&& baud_solution(sysclk as int / 100, bps as int / 100, OVERSAMPLING as int, step, pdiv_int)
            &&& after == asc_frame(with_baud(before, step, pdiv_int, OVERSAMPLING))
        }
}

/// Whether `after` is `before` with the serial unit's clock started and
/// nothing else of the clock configuration changed
pub open spec fn usic_clock_started(before: Scu, after: Scu) -> bool {
    &&& after.frozen().hz() == before.frozen().hz()
    &&& after.registers().is_ungated(GATE_USIC0)
    &&& forall|b: u32|
        b < 32 && b != GATE_USIC0 ==> (#[trigger] after.registers().is_ungated(b)
            <==> before.registers().is_ungated(b))
    &&& after.registers().idiv == before.registers().idiv
    &&& after.registers().unprotected == before.registers().unprotected
}

/// Whether a port at bit rate `bps` can be set up on the clocks of `scu`
pub fn baud_rate_supported(scu: &Scu, bps: Bps) -> (r: bool)
    ensures
        r == baud_supported(scu.frozen().hz(), bps.0, OVERSAMPLING),
{
    let mut scratch = UsicRegisters::reset();
    set_baudrate(&mut scratch, scu, bps, OVERSAMPLING).is_ok()
}

/// Enables the channel and programs it for asynchronous 8N1 transfers at bit
/// rate `baud`, after starting the serial unit's clock
fn configure(regs: &mut UsicRegisters, baud: Bps, scu: &mut Scu)
    requires
        baud_supported(old(scu).frozen().hz(), baud.0, OVERSAMPLING),
    ensures
        is_configured(*old(regs), *final(regs), old(scu).frozen().hz(), baud.0),
        usic_clock_started(*old(scu), *final(scu)),
{
    scu.enable_usic0();
    regs.moden = true;
    regs.bpmoden = true;
    let before = *regs;
    let set = set_baudrate(regs, scu, baud, OVERSAMPLING);
    assert(set is Ok);
    let ghost tuned = *regs;
    regs.sctr_pdl = true;
    regs.sctr_trm = 1;
    regs.sctr_fle = 7;
    regs.sctr_wle = 7;
    regs.tcsr_tdssm = true;
    regs.tcsr_tden = 1;
    regs.pcr_smd = true;
    regs.pcr_sp = 9;
    regs.tbctr_size = 5;
    regs.tbctr_dptr = 0;
    regs.rbctr_size = 5;
    regs.rbctr_dptr = 32;
    regs.ccr_mode = 2;
    regs.ccr_pm = 0;
    proof {
        let sysclk = scu.frozen().hz();
        let (step, pdiv_int) = choose|step: int, pdiv_int: int|
            #![trigger baud_solution(sysclk as int / 100, baud.0 as int / 100, OVERSAMPLING as int, step, pdiv_int)]
            {
                &&& baud_solution(sysclk as int / 100, baud.0 as int / 100, OVERSAMPLING as int, step, pdiv_int)
                &&& tuned == with_baud(before, step, pdiv_int, OVERSAMPLING)
            };
        assert(*regs == asc_frame(with_baud(*old(regs), step, pdiv_int, OVERSAMPLING)));
    }
}

/// Serial abstraction
pub struct Serial<USIC, TXPIN, RXPIN> {
    usic: USIC,
    pins: (TXPIN, RXPIN),
}

/// Serial receiver
pub struct Rx<USIC> {
    _instance: PhantomData<USIC>,
}

/// Serial transmitter
pub struct Tx<USIC> {
    _instance: PhantomData<USIC>,
}

impl<const CH: u8, TXPIN, RXPIN> Serial<Usic<CH>, TXPIN, RXPIN> where
    TXPIN: Dout0Pin<Usic<CH>>,
    RXPIN: Dx0Pin<Usic<CH>>,
 {
    /// Creates a new serial port on channel `usic`, transmitting on the first
    /// pin and receiving on the second
    pub fn new(usic: Usic<CH>, pins: (TXPIN, RXPIN), baud_rate: Bps, scu: &mut Scu) -> (r: Self)
        requires
            baud_supported(old(scu).frozen().hz(), baud_rate.0, OVERSAMPLING),
        ensures
            is_configured(
                usic.regs,
                (UsicRegisters { dx0_dsel: usic.regs.dx0_dsel, ..r.channel().regs }),
                old(scu).frozen().hz(),
                baud_rate.0,
            ),
            r.channel().regs.dx0_dsel == RXPIN::dsel(),
            r.pins() == pins,
            usic_clock_started(*old(scu), *final(scu)),
    {
        let pin_num = RXPIN::number();
        let mut serial = Serial { usic, pins };
        configure(&mut serial.usic.regs, baud_rate, scu);
        serial.usic.regs.dx0_dsel = pin_num;
        serial
    }

    /// Creates a new serial port as `new` does, or hands the channel and the
    /// pins back when the bit rate is not supported on the clocks of `scu`
    pub fn try_new(usic: Usic<CH>, pins: (TXPIN, RXPIN), baud_rate: Bps, scu: &mut Scu) -> (r: Result<
        Self,
        (Usic<CH>, (TXPIN, RXPIN)),
    >)
        ensures
            r is Ok <==> baud_supported(old(scu).frozen().hz(), baud_rate.0, OVERSAMPLING),
            r matches Ok(s) ==> {
                &&& is_configured(
                    usic.regs,
                    (UsicRegisters { dx0_dsel: usic.regs.dx0_dsel, ..s.channel().regs }),
                    old(scu).frozen().hz(),
                    baud_rate.0,
                )
                &&& s.channel().regs.dx0_dsel == RXPIN::dsel()
                &&& s.pins() == pins
                &&& usic_clock_started(*old(scu), *final(scu))
            },
            r matches Err(back) ==> back == (usic, pins) && *final(scu) == *old(scu),
    {
        if !baud_rate_supported(scu, baud_rate) {
            return Err((usic, pins));
        }
        Ok(Self::new(usic, pins, baud_rate, scu))
    }
}

impl<const CH: u8, TXPIN> Serial<Usic<CH>, TXPIN, ()> where TXPIN: Dout0Pin<Usic<CH>> {
    /// Creates a new transmit-only serial port on channel `usic`
    pub fn new_tx(usic: Usic<CH>, txpin: TXPIN, baud_rate: Bps, scu: &mut Scu) -> (r: Self)
        requires
            baud_supported(old(scu).frozen().hz(), baud_rate.0, OVERSAMPLING),
        ensures
            is_configured(usic.regs, r.channel().regs, old(scu).frozen().hz(), baud_rate.0),
            r.pins().0 == txpin,
            usic_clock_started(*old(scu), *final(scu)),
    {
        let rxpin = ();
        let mut serial = Serial { usic, pins: (txpin, rxpin) };
        configure(&mut serial.usic.regs, baud_rate, scu);
        serial
    }

    /// Creates a new transmit-only serial port as `new_tx` does, or hands the
    /// channel and the pin back when the bit rate is not supported
    pub fn try_new_tx(usic: Usic<CH>, txpin: TXPIN, baud_rate: Bps, scu: &mut Scu) -> (r: Result<
        Self,
        (Usic<CH>, TXPIN),
    >)
        ensures
            r is Ok <==> baud_supported(old(scu).frozen().hz(), baud_rate.0, OVERSAMPLING),
            r matches Ok(s) ==> {
                &&& is_configured(usic.regs, s.channel().regs, old(scu).frozen().hz(), baud_rate.0)
                &&& s.pins().0 == txpin
                &&& usic_clock_started(*old(scu), *final(scu))
            },
            r matches Err(back) ==> back == (usic, txpin) && *final(scu) == *old(scu),
    {
        if !baud_rate_supported(scu, baud_rate) {
            return Err((usic, txpin));
        }
        Ok(Self::new_tx(usic, txpin, baud_rate, scu))
    }
}

impl<const CH: u8, RXPIN> Serial<Usic<CH>, (), RXPIN> where RXPIN: Dx0Pin<Usic<CH>> {
    /// Creates a new receive-only serial port on channel `usic`
    pub fn new_rx(usic: Usic<CH>, rxpin: RXPIN, baud_rate: Bps, scu: &mut Scu) -> (r: Self)
        requires
            baud_supported(old(scu).frozen().hz(), baud_rate.0, OVERSAMPLING),
        ensures
            is_configured(
                usic.regs,
                (UsicRegisters { dx0_dsel: usic.regs.dx0_dsel, ..r.channel().regs }),
                old(scu).frozen().hz(),
                baud_rate.0,
            ),
            r.channel().regs.dx0_dsel == RXPIN::dsel(),
            r.pins().1 == rxpin,
            usic_clock_started(*old(scu), *final(scu)),
    {
        let txpin = ();
        let pin_num = RXPIN::number();
        let mut serial = Serial { usic, pins: (txpin, rxpin) };
        configure(&mut serial.usic.regs, baud_rate, scu);
        serial.usic.regs.dx0_dsel = pin_num;
        serial
    }

    /// Creates a new receive-only serial port as `new_rx` does, or hands the
    /// channel and the pin back when the bit rate is not supported
    pub fn try_new_rx(usic: Usic<CH>, rxpin: RXPIN, baud_rate: Bps, scu: &mut Scu) -> (r: Result<
        Self,
        (Usic<CH>, RXPIN),
    >)
        ensures
            r is Ok <==> baud_supported(old(scu).frozen().hz(), baud_rate.0, OVERSAMPLING),
            r matches Ok(s) ==> {
                &&& is_configured(
                    usic.regs,
                    (UsicRegisters { dx0_dsel: usic.regs.dx0_dsel, ..s.channel().regs }),
                    old(scu).frozen().hz(),
                    baud_rate.0,
                )
                &&& s.channel().regs.dx0_dsel == RXPIN::dsel()
                &&& s.pins().1 == rxpin
                &&& usic_clock_started(*old(scu), *final(scu))
            },
            r matches Err(back) ==> back == (usic, rxpin) && *final(scu) == *old(scu),
    {
        if !baud_rate_supported(scu, baud_rate) {
            return Err((usic, rxpin));
        }
        Ok(Self::new_rx(usic, rxpin, baud_rate, scu))
    }
}

impl<USIC, TXPIN, RXPIN> Serial<USIC, TXPIN, RXPIN> {
    /// The channel that the port owns
    pub closed spec fn channel(self) -> USIC {
        self.usic
    }

    /// The pins that the port owns
    pub closed spec fn pins(self) -> (TXPIN, RXPIN) {
        self.pins
    }

    /// The channel, with the image of its registers
    pub fn usic(&self) -> (r: &USIC)
        ensures
            *r == self.channel(),
    {
        &self.usic
    }

    /// Splits the port into a transmitter and a receiver
    pub fn split(self) -> (r: (Tx<USIC>, Rx<USIC>)) where TXPIN: Dout0Pin<USIC> {
        (Tx { _instance: PhantomData }, Rx { _instance: PhantomData })
    }

    /// Gives the channel and the pins back
    pub fn release(self) -> (r: (USIC, (TXPIN, RXPIN)))
        ensures
            r.0 == self.channel(),
            r.1 == self.pins(),
    {
        (self.usic, self.pins)
    }

    /// Tries to read a byte: `Ok` when one waits in the receive buffer (the
    /// caller then takes it from the output register), else the error that
    /// `psr` and `trbsr` show, or `WouldBlock`
    pub fn read(&mut self, psr: u32, trbsr: u32) -> (r: nb::Result<(), SerialError>) where
        RXPIN: Dx0Pin<USIC>,

        ensures
            r == rx_outcome(psr, trbsr),
            *final(self) == *old(self),
    {
        read(psr, trbsr)
    }

    /// Tries to write a byte: `Ok` when the transmit FIFO has room (the
    /// caller then pushes the byte), `WouldBlock` when it is full
    pub fn write(&mut self, trbsr: u32) -> (r: nb::Result<(), void::Void>) where
        TXPIN: Dout0Pin<USIC>,

        ensures
            r is Ok <==> !flag(trbsr, TRBSR_TFULL),
            r is Err ==> r == Err::<(), nb::Error<void::Void>>(nb::Error::WouldBlock),
            *final(self) == *old(self),
    {
        write(trbsr)
    }

    /// `Ok` once none of the previously written words are still buffered
    pub fn flush(&mut self, psr: u32) -> (r: nb::Result<(), void::Void>) where
        TXPIN: Dout0Pin<USIC>,

        ensures
            r is Ok <==> flag(psr, PSR_TXIDLE),
            r is Err ==> r == Err::<(), nb::Error<void::Void>>(nb::Error::WouldBlock),
            *final(self) == *old(self),
    {
        flush(psr)
    }
}

impl<USIC> Rx<USIC> {
    /// Tries to read a byte: `Ok` when one waits in the receive buffer (the
    /// caller then takes it from the output register), else the error that
    /// `psr` and `trbsr` show, or `WouldBlock`
    pub fn read(&mut self, psr: u32, trbsr: u32) -> (r: nb::Result<(), SerialError>)
        ensures
            r == rx_outcome(psr, trbsr),
    {
        read(psr, trbsr)
    }
}

impl<USIC> Tx<USIC> {
    /// Tries to write a byte: `Ok` when the transmit FIFO has room (the
    /// caller then pushes the byte), `WouldBlock` when it is full
    pub fn write(&mut self, trbsr: u32) -> (r: nb::Result<(), void::Void>)
        ensures
            r is Ok <==> !flag(trbsr, TRBSR_TFULL),
            r is Err ==> r == Err::<(), nb::Error<void::Void>>(nb::Error::WouldBlock),
    {
        write(trbsr)
    }

    /// `Ok` once none of the previously written words are still buffered
    pub fn flush(&mut self, psr: u32) -> (r: nb::Result<(), void::Void>)
        ensures
            r is Ok <==> flag(psr, PSR_TXIDLE),
            r is Err ==> r == Err::<(), nb::Error<void::Void>>(nb::Error::WouldBlock),
    {
        flush(psr)
    }
}

/// `Ok` once the transmitter is idle
pub fn flush(psr: u32) -> (r: nb::Result<(), void::Void>)
    ensures
        r is Ok <==> flag(psr, PSR_TXIDLE),
        r is Err ==> r == Err::<(), nb::Error<void::Void>>(nb::Error::WouldBlock),
{
    if psr & PSR_TXIDLE != 0 {
        Ok(())
    } else {
        Err(nb::Error::WouldBlock)
    }
}

/// `Ok` when the transmit FIFO is not full
pub fn write(trbsr: u32) -> (r: nb::Result<(), void::Void>)
    ensures
        r is Ok <==> !flag(trbsr, TRBSR_TFULL),
        r is Err ==> r == Err::<(), nb::Error<void::Void>>(nb::Error::WouldBlock),
{
    if trbsr & TRBSR_TFULL == 0 {
        Ok(())
    } else {
        Err(nb::Error::WouldBlock)
    }
}

/// Decides a receive attempt from the sampled status words
pub fn read(psr: u32, trbsr: u32) -> (r: nb::Result<(), SerialError>)
    ensures
        r == rx_outcome(psr, trbsr),
{
    if psr & PSR_FER0 != 0 || psr & PSR_FER1 != 0 {
        Err(nb::Error::Other(SerialError::Framing))
    } else if psr & PSR_RNS != 0 {
        Err(nb::Error::Other(SerialError::Noise))
    } else if trbsr & TRBSR_RFULL != 0 {
        Err(nb::Error::Other(SerialError::Overrun))
    } else if trbsr & TRBSR_REMPTY == 0 {
        Ok(())
    } else {
        Err(nb::Error::WouldBlock)
    }
}

/// The received byte in a word read from the output register
pub fn received_byte(outr: u32) -> (r: u8)
    ensures
        r == outr % 256,
{
    let b = outr & 0xff;
    assert(b == outr % 256 && b < 256) by (bit_vector)
        requires
            b == outr & 0xff,
    ;
    b as u8
}

} // verus!
