use xmc1100_hal::delay::Delay;
use xmc1100_hal::scu::{Scu, ScuRegisters};
use xmc1100_hal::time::Hertz;
use xmc1100_hal::timers::SystRegisters;

#[test]
fn delay_scale_is_clocks_per_microsecond() {
    let scu = Scu::new(ScuRegisters::reset()).sysclk(Hertz(32_000_000)).freeze();
    let mut syst = SystRegisters::reset();
    let delay = Delay::new(&mut syst, &scu);
    assert_eq!(delay.scale(), 32);
    assert_eq!(syst.reload, 0x00ff_ffff);
    assert!(syst.enabled && syst.clock_source_core);
    assert_eq!(delay.ticks_for_us(1_000), 32_000);
}

#[test]
fn delay_scale_rounds_down() {
    let scu = Scu::new(ScuRegisters::reset()).sysclk(Hertz(3_000_000)).freeze();
    let mut syst = SystRegisters::reset();
    let delay = Delay::new(&mut syst, &scu);
    assert_eq!(scu.clocks().sysclk(), Hertz(2_909_090));
    assert_eq!(delay.scale(), 2);
}

#[test]
fn tick_stretches_stay_below_the_counter_range() {
    assert_eq!(Delay::ticks_step(10), (10, 0));
    assert_eq!(Delay::ticks_step(0x007f_ffff), (0x007f_ffff, 0));
    assert_eq!(Delay::ticks_step(0x0100_0000), (0x007f_ffff, 0x0080_0001));
}

#[test]
fn millisecond_stretches_are_at_most_65535() {
    assert_eq!(Delay::ms_step(5), (5_000, 0));
    assert_eq!(Delay::ms_step(70_000), (65_535_000, 4_465));
}

#[test]
fn elapsed_counts_across_a_wrap() {
    assert_eq!(Delay::elapsed(1_000, 400), 600);
    assert_eq!(Delay::elapsed(10, 0x00ff_fff0), 0x1a);
    assert!(Delay::has_elapsed(1_000, 400, 600));
    assert!(!Delay::has_elapsed(1_000, 400, 601));
}
