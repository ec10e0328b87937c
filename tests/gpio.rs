use xmc1100_hal::gpio::{
    modify_pc, omr_reset_word, omr_set_word, GpioExt, PortRegisters, PORT0, PORT1, PORT2,
};

fn pc(word: u32, slot: u32) -> u32 {
    (word >> (8 * slot + 3)) & 0x1f
}

#[test]
fn modify_pc_writes_one_field_and_keeps_siblings() {
    let word: u32 = 0xffff_ffff;
    let r = modify_pc(word, 2, 0x10);
    assert_eq!(pc(r, 2), 0x10);
    assert_eq!(pc(r, 0), 0x1f);
    assert_eq!(pc(r, 1), 0x1f);
    assert_eq!(pc(r, 3), 0x1f);
    assert_eq!(r & 0x0707_0707, 0x0707_0707);
    assert_eq!(r, 0xff87_ffff);
}

#[test]
fn modify_pc_codes_of_each_mode() {
    assert_eq!(modify_pc(0, 0, 0x18), 0x18 << 3);
    assert_eq!(modify_pc(0, 1, 0x02), 0x02 << 11);
    assert_eq!(modify_pc(0, 3, 0x17), 0x17 << 27);
    assert_eq!(modify_pc(0x1234_5678, 1, 0), 0x1234_0678);
}

#[test]
fn omr_words_follow_set_and_reset_halves() {
    assert_eq!(omr_set_word(0), 1);
    assert_eq!(omr_set_word(15), 1 << 15);
    assert_eq!(omr_reset_word(0), 1 << 16);
    assert_eq!(omr_reset_word(15), 1 << 31);
}

#[test]
fn set_high_then_is_set_low_is_false() {
    let mut port = PortRegisters::reset(0);
    port.set_high(5);
    assert!(!port.is_set_low(5));
    assert_eq!(port.out, 1 << 5);
}

#[test]
fn set_low_then_is_set_low_is_true() {
    let mut port = PortRegisters::reset(1);
    port.out = 0xffff;
    port.set_low(3);
    assert!(port.is_set_low(3));
    assert_eq!(port.out, 0xffff & !(1 << 3));
}

#[test]
fn toggling_levels_leaves_other_pins_alone() {
    let mut port = PortRegisters::reset(0);
    port.set_high(0);
    port.set_high(15);
    port.set_low(0);
    assert!(port.is_set_low(0));
    assert!(!port.is_set_low(15));
    for i in 1..15u8 {
        assert!(port.is_set_low(i));
    }
}

#[test]
fn omr_with_both_halves_toggles() {
    let mut port = PortRegisters::reset(0);
    port.out = 0b01;
    port.write_omr(0b11 | (0b11 << 16));
    assert_eq!(port.out, 0b10);
}

#[test]
fn is_low_reads_the_input_register() {
    let mut port = PortRegisters::reset(2);
    port.in_ = 1 << 7;
    assert!(!port.is_low(7));
    assert!(port.is_low(6));
}

#[test]
fn split_keeps_registers_of_banks_0_and_1() {
    let parts = PORT0::new().split();
    assert_eq!(parts.regs, PortRegisters::reset(0));
    let parts = PORT1::new().split();
    assert_eq!(parts.regs, PortRegisters::reset(1));
}

#[test]
fn split_switches_bank_2_to_digital() {
    let port = PORT2::new();
    let parts = port.split();
    assert_eq!(parts.regs.pdisc, 0);
    assert_eq!(parts.regs.bank, 2);
}

#[test]
fn split_pins_read_their_pads() {
    let mut parts = PORT0::new().split();
    parts.regs.in_ = 1 << 4;
    assert!(parts.p0_4.is_high(&parts.regs));
    assert!(parts.p0_5.is_low(&parts.regs));
    let erased = parts.p0_4.downgrade();
    assert_eq!(erased.pin_index(), 4);
    assert_eq!(erased.bank_number(), 0);
    assert!(erased.is_high(&parts.regs));
}

#[test]
fn erased_pins_share_one_type() {
    let parts = PORT1::new().split();
    let pins = [parts.p1_0.downgrade(), parts.p1_6.downgrade()];
    assert_eq!(pins[0].pin_index(), 0);
    assert_eq!(pins[1].pin_index(), 6);
}

#[test]
fn bank_2_comes_out_of_reset_analog() {
    assert_eq!(PortRegisters::reset(2).pdisc, 0x0fff);
    assert_eq!(PortRegisters::reset(0).pdisc, 0);
}
