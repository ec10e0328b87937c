use xmc1100_hal::scu::{Scu, ScuRegisters, GATE_CCU40};
use xmc1100_hal::time::Hertz;
use xmc1100_hal::timers::{
    prescaler_code, prescaler_divider, CcuSliceRegisters, Event, SystRegisters, SystickTimer, Timer,
};

fn scu_at(freq: u32) -> Scu {
    Scu::new(ScuRegisters::reset()).sysclk(Hertz(freq)).freeze()
}

#[test]
fn prescaler_for_200000_ticks_is_four() {
    assert_eq!(prescaler_divider(200_000), (4, 2));
    assert_eq!(200_000 / 4 - 1, 49_999);
}

#[test]
fn prescaler_edges() {
    assert_eq!(prescaler_divider(1), (1, 0));
    assert_eq!(prescaler_divider(65_535), (1, 0));
    assert_eq!(prescaler_divider(65_536), (2, 1));
    assert_eq!(prescaler_divider(131_071), (2, 1));
    assert_eq!(prescaler_divider(131_072), (4, 2));
    assert_eq!(prescaler_divider(0x7fff_ffff), (32_768, 15));
    assert_eq!(prescaler_divider(0x8000_0000), (65_536, 16));
    assert_eq!(prescaler_divider(u32::MAX), (65_536, 16));
}

#[test]
fn prescaler_is_smallest_fitting_power_of_two() {
    let mut ticks: u32 = 1;
    while ticks < 0xf000_0000 {
        let (divider, code) = prescaler_divider(ticks);
        assert!(divider.is_power_of_two());
        assert_eq!(divider, 1u32 << code);
        assert!(ticks / divider <= 65_535);
        if divider > 1 {
            assert!(ticks / (divider / 2) > 65_535);
        }
        ticks = ticks + ticks / 7 + 1;
    }
}

#[test]
fn prescaler_code_exists_below_two_to_the_31() {
    assert_eq!(prescaler_code(200_000), Some(2));
    assert_eq!(prescaler_code(0x7fff_ffff), Some(15));
    assert_eq!(prescaler_code(0x8000_0000), None);
}

#[test]
fn timer_start_splits_period_into_prescaler_and_period() {
    let mut scu = scu_at(8_000_000);
    let timer = Timer::timer(CcuSliceRegisters::reset(), Hertz(40), &mut scu);
    assert_eq!(timer.regs().psiv, 2);
    assert_eq!(timer.regs().prs, 49_999);
    assert!(timer.regs().clst);
    assert!(timer.regs().running);
    assert_eq!(timer.regs().count, 0);
    assert!(!timer.regs().period_match);
    assert!(timer.regs().shadow_transfer);
    assert_eq!(scu.regs().cgatstat0 & (1 << GATE_CCU40), 0);
}

#[test]
fn timer_restart_reprograms_the_period() {
    let mut scu = scu_at(32_000_000);
    let mut timer = Timer::timer(CcuSliceRegisters::reset(), Hertz(1), &mut scu);
    assert_eq!(timer.regs().psiv, 9);
    assert_eq!(timer.regs().prs, 62_499);
    timer.start(Hertz(1_000));
    assert_eq!(timer.regs().psiv, 0);
    assert_eq!(timer.regs().prs, 31_999);
    timer.start(Hertz(0));
    assert_eq!(timer.regs().psiv, 9);
    assert_eq!(timer.regs().prs, 62_499);
}

#[test]
fn timer_wait_follows_period_match() {
    let mut scu = scu_at(8_000_000);
    let mut timer = Timer::timer(CcuSliceRegisters::reset(), Hertz(10), &mut scu);
    assert!(matches!(timer.wait(true), Ok(())));
    assert!(!timer.regs().period_match);
    assert!(matches!(timer.wait(false), Err(nb::Error::WouldBlock)));
}

#[test]
fn systick_reload_is_clock_over_frequency_minus_one() {
    let scu = scu_at(8_000_000);
    let timer = SystickTimer::syst(SystRegisters::reset(), Hertz(1_000), &scu);
    assert_eq!(timer.regs().reload, 7_999);
    assert!(timer.regs().enabled);
    assert!(timer.regs().clock_source_core);
    assert_eq!(timer.regs().current, 0);
}

#[test]
fn systick_lowest_frequency_fits_24_bits() {
    let scu = scu_at(32_000_000);
    let mut timer = SystickTimer::syst(SystRegisters::reset(), Hertz(2), &scu);
    assert_eq!(timer.regs().reload, 15_999_999);
    timer.start(Hertz(32_000_000));
    assert_eq!(timer.regs().reload, 0);
}

#[test]
fn systick_listen_and_unlisten() {
    let scu = scu_at(8_000_000);
    let mut timer = SystickTimer::syst(SystRegisters::reset(), Hertz(4), &scu);
    assert!(!timer.regs().tickint);
    timer.listen(&Event::TimeOut);
    assert!(timer.regs().tickint);
    timer.unlisten(&Event::TimeOut);
    assert!(!timer.regs().tickint);
}

#[test]
fn systick_wait_follows_wrap_flag() {
    let scu = scu_at(8_000_000);
    let mut timer = SystickTimer::syst(SystRegisters::reset(), Hertz(4), &scu);
    assert!(matches!(timer.wait(true), Ok(())));
    assert!(matches!(timer.wait(false), Err(nb::Error::WouldBlock)));
}
