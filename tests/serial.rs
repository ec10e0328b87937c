use xmc1100_hal::gpio::GpioExt;
use xmc1100_hal::gpio::PORT0;
use xmc1100_hal::scu::{Scu, ScuRegisters, GATE_USIC0};
use xmc1100_hal::serial;
use xmc1100_hal::serial::{
    baud_rate_supported, received_byte, Serial, SerialError, PSR_FER0, PSR_FER1, PSR_RNS,
    PSR_TXIDLE, TRBSR_REMPTY, TRBSR_RFULL, TRBSR_TFULL,
};
use xmc1100_hal::time::Bps;
use xmc1100_hal::usic::{
    dx3pin_to_dx0pin, set_baudrate, solve_baudrate, UsicRegisters, USIC0_CH0, USIC0_CH1,
};

fn scu_at(freq: u32) -> Scu {
    Scu::new(ScuRegisters::reset()).sysclk(xmc1100_hal::time::Hertz(freq)).freeze()
}

/// The divider search written out over every step, as a second opinion
fn search(pclk: u32, rate: u32, os: u32) -> (u32, u32) {
    let mut best = (1, 1, 0x3ff);
    for d in (1..1024u32).rev() {
        let p = (pclk * d) / (rate * os);
        if p / 1024 < 1024 && p % 1024 < best.2 {
            best = (d, p / 1024, p % 1024);
        }
    }
    (best.0, best.1)
}

#[test]
fn baud_search_at_8mhz_9600() {
    assert_eq!(solve_baudrate(80_000, 96, 16), (59, 3));
}

#[test]
fn baud_search_is_deterministic() {
    let first = solve_baudrate(80_000, 96, 16);
    for _ in 0..5 {
        assert_eq!(solve_baudrate(80_000, 96, 16), first);
    }
}

#[test]
fn baud_search_known_values() {
    assert_eq!(solve_baudrate(80_000, 1_152, 16), (708, 3));
    assert_eq!(solve_baudrate(320_000, 1_152, 16), (177, 3));
    assert_eq!(solve_baudrate(320_000, 96, 16), (290, 59));
    assert_eq!(solve_baudrate(80_000, 1, 16), (128, 625));
    assert_eq!(solve_baudrate(80_000, 2_500, 16), (512, 1));
}

#[test]
fn baud_search_sweep_is_admissible_and_optimal() {
    let mut bps: u32 = 100;
    while bps <= 1_000_000 {
        let rate = bps / 100;
        let (step, pdiv_int) = solve_baudrate(80_000, rate, 16);
        assert!(pdiv_int < 1024);
        assert!((1..1024).contains(&step));
        assert_eq!((step, pdiv_int), search(80_000, rate, 16));
        bps = bps + bps / 10 + 100;
    }
}

#[test]
fn set_baudrate_programs_divider_registers() {
    let scu = scu_at(8_000_000);
    let mut regs = UsicRegisters::reset();
    assert_eq!(set_baudrate(&mut regs, &scu, Bps(9_600), 16), Ok(()));
    assert_eq!(regs.fdr_dm, 2);
    assert_eq!(regs.fdr_step, 59);
    assert_eq!(regs.brg_dctq, 15);
    assert_eq!(regs.brg_pdiv, 2);
    assert_eq!(regs.brg_clksel, 0);
    assert_eq!(regs.brg_pctq, 0);
}

#[test]
fn set_baudrate_rejects_rates_below_100() {
    let scu = scu_at(8_000_000);
    let mut regs = UsicRegisters::reset();
    assert_eq!(set_baudrate(&mut regs, &scu, Bps(99), 16), Err(()));
    assert_eq!(regs, UsicRegisters::reset());
}

#[test]
fn set_baudrate_rejects_rates_without_integer_divider() {
    let scu = scu_at(8_000_000);
    let mut regs = UsicRegisters::reset();
    assert_eq!(set_baudrate(&mut regs, &scu, Bps(1_000_000), 16), Err(()));
    assert_eq!(regs, UsicRegisters::reset());
    assert!(!baud_rate_supported(&scu, Bps(1_000_000)));
    assert!(baud_rate_supported(&scu, Bps(115_200)));
    assert!(baud_rate_supported(&scu, Bps(100)));
    assert!(!baud_rate_supported(&scu, Bps(50)));
}

#[test]
fn read_reports_framing_before_everything() {
    let r = serial::read(PSR_FER0 | PSR_RNS, TRBSR_RFULL);
    assert!(matches!(r, Err(nb::Error::Other(SerialError::Framing))));
    let r = serial::read(PSR_FER1, 0);
    assert!(matches!(r, Err(nb::Error::Other(SerialError::Framing))));
}

#[test]
fn read_reports_noise_then_overrun() {
    let r = serial::read(PSR_RNS, TRBSR_RFULL);
    assert!(matches!(r, Err(nb::Error::Other(SerialError::Noise))));
    let r = serial::read(0, TRBSR_RFULL);
    assert!(matches!(r, Err(nb::Error::Other(SerialError::Overrun))));
}

#[test]
fn read_yields_byte_or_would_block() {
    let r = serial::read(0, 0);
    assert!(matches!(r, Ok(())));
    let r = serial::read(0, TRBSR_REMPTY);
    assert!(matches!(r, Err(nb::Error::WouldBlock)));
    assert_eq!(received_byte(0x1_2a41), 0x41);
}

#[test]
fn receive_only_port_configures_channel() {
    let mut scu = scu_at(8_000_000);
    let parts = PORT0::new().split();
    let mut serial = Serial::new_rx(USIC0_CH1::new(), parts.p0_6, Bps(9_600), &mut scu);
    let regs = serial.usic().regs;
    assert!(regs.moden);
    assert_eq!(regs.dx0_dsel, 2);
    assert_eq!(regs.fdr_step, 59);
    assert_eq!(regs.brg_pdiv, 2);
    assert_eq!(regs.brg_dctq, 15);
    assert_eq!((regs.sctr_fle, regs.sctr_wle, regs.sctr_trm), (7, 7, 1));
    assert_eq!((regs.tbctr_size, regs.tbctr_dptr), (5, 0));
    assert_eq!((regs.rbctr_size, regs.rbctr_dptr), (5, 32));
    assert_eq!((regs.ccr_mode, regs.ccr_pm), (2, 0));
    assert_eq!(regs.pcr_sp, 9);
    assert_eq!(scu.regs().cgatstat0 & (1 << GATE_USIC0), 0);
    assert!(matches!(serial.read(0, 0), Ok(())));
    assert!(matches!(serial.read(PSR_FER0, 0), Err(nb::Error::Other(SerialError::Framing))));
    let (usic, (_, rx)) = serial.release();
    assert_eq!(usic.regs.dx0_dsel, 2);
    drop(rx);
}

#[test]
fn dx3_pin_routes_into_dx0() {
    let mut scu = scu_at(8_000_000);
    let mut usic = USIC0_CH0::new();
    let parts = xmc1100_hal::gpio::PORT2::new().split();
    let routed = dx3pin_to_dx0pin(parts.p2_2, &mut usic);
    assert_eq!(usic.regs.dx3_dsel, 0);
    let serial = Serial::new_rx(usic, routed, Bps(9_600), &mut scu);
    assert_eq!(serial.usic().regs.dx0_dsel, 6);
    assert_eq!(serial.usic().regs.dx3_dsel, 0);
    let (_usic, (_, routed)) = serial.release();
    let _pin = routed.release();
}

#[test]
fn transmit_flags() {
    let mut scu = scu_at(8_000_000);
    let parts = PORT0::new().split();
    let serial = Serial::new_rx(USIC0_CH1::new(), parts.p0_7, Bps(115_200), &mut scu);
    assert_eq!(serial.usic().regs.dx0_dsel, 3);
    assert!(matches!(serial::write(0), Ok(())));
    assert!(matches!(serial::write(TRBSR_TFULL), Err(nb::Error::WouldBlock)));
    assert!(matches!(serial::flush(PSR_TXIDLE), Ok(())));
    assert!(matches!(serial::flush(0), Err(nb::Error::WouldBlock)));
}

#[test]
fn try_new_rx_hands_back_on_unsupported_rate() {
    let mut scu = scu_at(8_000_000);
    let gating = scu.regs().cgatstat0;
    let parts = PORT0::new().split();
    let r = Serial::try_new_rx(USIC0_CH1::new(), parts.p0_6, Bps(1_000_000), &mut scu);
    let (usic, _pin) = match r {
        Ok(_) => panic!("a rate without integer divider was accepted"),
        Err(back) => back,
    };
    assert_eq!(usic.regs, UsicRegisters::reset());
    assert_eq!(scu.regs().cgatstat0, gating);
}

#[test]
fn try_new_rx_configures_on_supported_rate() {
    let mut scu = scu_at(8_000_000);
    let parts = PORT0::new().split();
    let serial = match Serial::try_new_rx(USIC0_CH1::new(), parts.p0_6, Bps(9_600), &mut scu) {
        Ok(s) => s,
        Err(_) => panic!("9600 bps was refused"),
    };
    assert_eq!(serial.usic().regs.fdr_step, 59);
    assert_eq!(serial.usic().regs.dx0_dsel, 2);
    assert_eq!(scu.regs().idiv, 4);
}
