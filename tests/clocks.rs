use xmc1100_hal::rcc;
use xmc1100_hal::scu::{ClockConfig, Scu, ScuRegisters, GATE_CCU40, GATE_USIC0};
use xmc1100_hal::time::{Hertz, MegaHertz};

fn frozen(freq: Option<u32>) -> Scu {
    let cfg = Scu::new(ScuRegisters::reset());
    match freq {
        Some(f) => cfg.sysclk(Hertz(f)).freeze(),
        None => cfg.freeze(),
    }
}

#[test]
fn new_lifts_write_protection_and_starts_at_reset_frequency() {
    let scu = Scu::new(ScuRegisters::reset()).freeze();
    assert!(scu.regs().unprotected);
    assert_eq!(scu.clocks.sysclk(), Hertz(8_000_000));
}

#[test]
fn freeze_without_request_programs_default_divider() {
    let scu = frozen(None);
    assert_eq!(scu.regs().idiv, 4);
    assert_eq!(scu.clocks().sysclk(), Hertz(8_000_000));
}

#[test]
fn freeze_exact_request_8mhz() {
    let scu = frozen(Some(8_000_000));
    assert_eq!(scu.regs().idiv, 4);
    assert_eq!(scu.clocks().sysclk(), Hertz(8_000_000));
}

#[test]
fn freeze_exact_requests_are_met() {
    for f in [32_000_000u32, 16_000_000, 4_000_000, 1_000_000, 128_000, 320_000] {
        let scu = frozen(Some(f));
        assert_eq!(scu.regs().idiv as u32, 32_000_000 / f);
        assert_eq!(scu.clocks().sysclk(), Hertz(f));
    }
}

#[test]
fn freeze_rounds_the_divider_to_nearest() {
    let scu = frozen(Some(3_000_000));
    assert_eq!(scu.regs().idiv, 11);
    assert_eq!(scu.clocks().sysclk(), Hertz(2_909_090));
    let scu = frozen(Some(7_000_000));
    assert_eq!(scu.regs().idiv, 5);
    assert_eq!(scu.clocks().sysclk(), Hertz(6_400_000));
    let scu = frozen(Some(40_000_000));
    assert_eq!(scu.regs().idiv, 1);
    assert_eq!(scu.clocks().sysclk(), Hertz(32_000_000));
}

#[test]
fn last_request_wins() {
    let scu = Scu::new(ScuRegisters::reset())
        .sysclk(Hertz(1_000_000))
        .sysclk(MegaHertz(16).hz())
        .freeze();
    assert_eq!(scu.regs().idiv, 2);
    assert_eq!(scu.clocks().sysclk(), Hertz(16_000_000));
}

#[test]
fn divider_rejects_requests_out_of_range() {
    assert_eq!(ClockConfig::divider(Hertz(1)), None);
    assert_eq!(ClockConfig::divider(Hertz(0)), None);
    assert_eq!(ClockConfig::divider(Hertz(125_000)), None);
    assert_eq!(ClockConfig::divider(Hertz(125_200)), None);
    assert_eq!(ClockConfig::divider(Hertz(125_244)), None);
    assert_eq!(ClockConfig::divider(Hertz(64_000_001)), None);
}

#[test]
fn divider_accepts_requests_in_range() {
    assert_eq!(ClockConfig::divider(Hertz(32_000_000)), Some(1));
    assert_eq!(ClockConfig::divider(Hertz(8_000_000)), Some(4));
    assert_eq!(ClockConfig::divider(Hertz(7_000_000)), Some(5));
    assert_eq!(ClockConfig::divider(Hertz(40_000_000)), Some(1));
    assert_eq!(ClockConfig::divider(Hertz(64_000_000)), Some(1));
    assert_eq!(ClockConfig::divider(Hertz(125_245)), Some(255));
    assert_eq!(ClockConfig::divider(Hertz(125_490)), Some(255));
    assert_eq!(ClockConfig::divider(Hertz(125_982)), Some(254));
}

#[test]
fn peripheral_gates_are_independent() {
    let mut scu = frozen(None);
    let before = scu.regs().cgatstat0;
    scu.enable_usic0();
    assert_eq!(scu.regs().cgatstat0, before & !(1 << GATE_USIC0));
    scu.enable_ccu40();
    assert_eq!(scu.regs().cgatstat0, before & !(1 << GATE_USIC0) & !(1 << GATE_CCU40));
    assert_eq!(scu.regs().idiv, 4);
}

#[test]
fn megahertz_converts_to_hertz() {
    assert_eq!(MegaHertz(48).hz(), Hertz(48_000_000));
}

#[test]
fn open_clock_snapshot_reports_its_frequency() {
    let rcc = rcc::Rcc { clocks: rcc::Clocks { sysclk: Hertz(12_000_000) } };
    assert_eq!(rcc.clocks.sysclk(), Hertz(12_000_000));
}
