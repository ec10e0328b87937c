//! General Purpose Input / Output
//!
//! A pin handle carries its electrical mode in its type: only the operations
//! valid in that mode exist on it. Changing the mode consumes the handle,
//! rewrites the pin's field of the bank's shared control register, and needs
//! the token that shows interrupts are masked. Pin levels are read from and
//! written to the image of the bank's registers, `PortRegisters`.
use vstd::prelude::*;

use core::marker::PhantomData;
use cortex_m::interrupt::CriticalSection;

pub mod port0;
pub mod port1;
pub mod port2;

verus! {

/// Extension trait to split a GPIO peripheral in independent pins and registers
pub trait GpioExt: Sized {
    /// The parts to split the GPIO into
    type Parts;

    /// Whether `parts` is what splitting `self` yields
    spec fn splits_into(self, parts: Self::Parts) -> bool;

    /// Splits the GPIO block into independent pins and registers
    fn split(self) -> (r: Self::Parts)
        ensures
            self.splits_into(r),
    ;
}

/// Alternate function 0 (type state)
pub struct AF0;

/// Alternate function 1 (type state)
pub struct AF1;

/// Alternate function 2 (type state)
pub struct AF2;

/// Alternate function 3 (type state)
pub struct AF3;

/// Alternate function 4 (type state)
pub struct AF4;

/// Alternate function 5 (type state)
pub struct AF5;

/// Alternate function 6 (type state)
pub struct AF6;

/// Alternate function 7 (type state)
pub struct AF7;

/// Alternate function mode (type state)
pub struct Alternate<MODE> {
    _mode: PhantomData<MODE>,
}

/// Input mode (type state)
pub struct Input<MODE> {
    _mode: PhantomData<MODE>,
}

/// Floating input (type state)
pub struct Floating;

/// Pulled down input (type state)
pub struct PullDown;

/// Pulled up input (type state)
pub struct PullUp;

/// Open drain input or output (type state)
pub struct OpenDrain;

/// Output mode (type state)
pub struct Output<MODE> {
    _mode: PhantomData<MODE>,
}

/// Push pull output (type state)
pub struct PushPull;

/// Number of pins that one port bank can hold
pub const PINS_PER_BANK: u8 = 16;

/// Pin control code of a floating input
pub const PC_INPUT_FLOATING: u8 = 0;

/// Pin control code of an input with pull-down
pub const PC_INPUT_PULL_DOWN: u8 = 1;

/// Pin control code of an input with pull-up
pub const PC_INPUT_PULL_UP: u8 = 2;

/// Pin control code of a general-purpose push-pull output
pub const PC_OUTPUT_PUSH_PULL: u8 = 0x10;

/// Pin control code of a general-purpose open-drain output
pub const PC_OUTPUT_OPEN_DRAIN: u8 = 0x18;

/// Pin control code of a push-pull output driven by alternate function 0;
/// alternate function `n` adds `n`
pub const PC_ALTERNATE_BASE: u8 = 0x10;

/// Pin function decision register of port 2 out of reset: its pins start as
/// analog inputs
pub const PORT2_PDISC_RESET: u32 = 0x0fff;

/// Position of the 5-bit pin control field of slot `slot` in its control word
pub open spec fn pc_shift(slot: u32) -> u32 {
    (8 * slot + 3) as u32
}

/// The pin control field of slot `slot` (0 to 3) of a control word
pub open spec fn pc_field(word: u32, slot: u32) -> u32 {
    (word >> pc_shift(slot)) & 0x1f
}

/// The bits of a control word that no pin control field covers
pub open spec fn pc_reserved(word: u32) -> u32 {
    word & 0x0707_0707
}

/// Writes `code` into the pin control field of slot `slot` of a control word,
/// leaving the other fields and the reserved bits as they are
pub fn modify_pc(word: u32, slot: u32, code: u8) -> (r: u32)
    requires
        slot < 4,
        code < 32,
    ensures
        pc_field(r, slot) == code,
        forall|s: u32| s < 4 && s != slot ==> #[trigger] pc_field(r, s) == pc_field(word, s),
        pc_reserved(r) == pc_reserved(word),
{
    let shift = 8 * slot + 3;
    let c = code as u32;
    let r = (word & !(0x1fu32 << shift)) | ((c & 0x1f) << shift);
    assert(((r >> shift) & 0x1f) == c) by (bit_vector)
        requires
            r == (word & !(0x1fu32 << shift)) | ((c & 0x1f) << shift),
            shift == 8 * slot + 3,
            slot < 4,
            c < 32,
    ;
    assert(r & 0x0707_0707 == word & 0x0707_0707) by (bit_vector)
        requires
            r == (word & !(0x1fu32 << shift)) | ((c & 0x1f) << shift),
            shift == 8 * slot + 3,
            slot < 4,
    ;
    assert forall|s: u32| s < 4 && s != slot implies #[trigger] pc_field(r, s) == pc_field(word, s) by {
        assert(((r >> (8 * s + 3)) & 0x1f) == ((word >> (8 * s + 3)) & 0x1f)) by (bit_vector)
            requires
                r == (word & !(0x1fu32 << shift)) | ((c & 0x1f) << shift),
                shift == 8 * slot + 3,
                slot < 4,
                s < 4,
                s != slot,
        ;
    }
    r
}

/// Whether the output bit `pos` of an output register is set
pub open spec fn out_high(out: u32, pos: u32) -> bool {
    out & (1u32 << pos) != 0
}

/// The output level of a pin after a write to the output modification
/// register whose set bit for the pin is `set` and whose reset bit is `reset`:
/// set alone drives high, reset alone drives low, both toggle, neither keeps
pub open spec fn omr_pin_effect(level: bool, set: bool, reset: bool) -> bool {
    if set && reset {
        !level
    } else if set {
        true
    } else if reset {
        false
    } else {
        level
    }
}

/// Whether output register `after` is `before` after a write of `word` to the
/// output modification register: each pin `q` follows its set bit `q` and
/// reset bit `q + 16`, and the upper half of the register is kept
pub open spec fn omr_applied(before: u32, after: u32, word: u32) -> bool {
    &&& forall|q: u32|
        q < 16 ==> #[trigger] out_high(after, q) == omr_pin_effect(
            out_high(before, q),
            out_high(word, q),
            out_high(word, (q + 16) as u32),
        )
    &&& after & 0xffff_0000 == before & 0xffff_0000
}

/// The output modification word that drives pin `pos` high
pub fn omr_set_word(pos: u8) -> (r: u32)
    requires
        pos < 16,
    ensures
        r == 1u32 << pos,
{
    1u32 << pos
}

/// The output modification word that drives pin `pos` low
pub fn omr_reset_word(pos: u8) -> (r: u32)
    requires
        pos < 16,
    ensures
        r == 1u32 << (pos + 16),
{
    1u32 << (pos + 16)
}

/// Image of the registers of one port bank
#[derive(Clone, Copy, Debug, PartialEq, Eq, Structural)]
pub struct PortRegisters {
    /// Number of the bank
    pub bank: u8,
    /// Control word of pins 0 to 3
    pub iocr0: u32,
    /// Control word of pins 4 to 7
    pub iocr4: u32,
    /// Control word of pins 8 to 11
    pub iocr8: u32,
    /// Control word of pins 12 to 15
    pub iocr12: u32,
    /// Output register: the level each output drives
    pub out: u32,
    /// Input register: the level sampled at each pad
    pub in_: u32,
    /// Pin function decision register: a set bit makes the pin analog
    pub pdisc: u32,
}

impl PortRegisters {
    /// The registers of bank `bank` as they come out of reset
    pub fn reset(bank: u8) -> (r: PortRegisters)
        ensures
            r == PortRegisters::reset_spec(bank),
    {
        let pdisc = if bank == 2 {
            PORT2_PDISC_RESET
        } else {
            0
        };
        PortRegisters { bank, iocr0: 0, iocr4: 0, iocr8: 0, iocr12: 0, out: 0, in_: 0, pdisc }
    }

    /// The registers of bank `bank` out of reset, as a value of the specification
    pub open spec fn reset_spec(bank: u8) -> PortRegisters {
        PortRegisters {
            bank,
            iocr0: 0,
            iocr4: 0,
            iocr8: 0,
            iocr12: 0,
            out: 0,
            in_: 0,
            pdisc: if bank == 2 {
                PORT2_PDISC_RESET
            } else {
                0
            },
        }
    }

    /// The control word of group `k` (pins `4k` to `4k + 3`)
    pub open spec fn iocr(self, k: u32) -> u32 {
        if k == 0 {
            self.iocr0
        } else if k == 1 {
            self.iocr4
        } else if k == 2 {
            self.iocr8
        } else {
            self.iocr12
        }
    }

    /// The pin control code of pin `pos`
    pub open spec fn pin_control(self, pos: u32) -> u32 {
        pc_field(self.iocr(pos / 4), pos % 4)
    }

    /// Whether `self` is `before` with the control code of pin `pos` set to
    /// `code` and everything else kept
    pub open spec fn is_reconfigured(self, before: PortRegisters, pos: u32, code: u32) -> bool {
        &&& self.pin_control(pos) == code
        &&& forall|q: u32| q < 16 && q != pos ==> #[trigger] self.pin_control(q) == before.pin_control(q)
        &&& forall|k: u32| k < 4 ==> #[trigger] pc_reserved(self.iocr(k)) == pc_reserved(before.iocr(k))
        &&& self.bank == before.bank
        &&& self.out == before.out
        &&& self.in_ == before.in_
        &&& self.pdisc == before.pdisc
    }

    /// Whether output bit `pos` is set
    pub open spec fn output_high(self, pos: u32) -> bool {
        out_high(self.out, pos)
    }

    /// Whether the pad of pin `pos` reads high
    pub open spec fn input_high(self, pos: u32) -> bool {
        self.in_ & (1u32 << pos) != 0
    }

    /// Whether `self` is `before` with the output bit of pin `pos` equal to
    /// `high` and everything else kept
    pub open spec fn is_driven(self, before: PortRegisters, pos: u32, high: bool) -> bool {
        &&& self.output_high(pos) == high
        &&& forall|q: u32| q < 16 && q != pos ==> #[trigger] self.output_high(q) == before.output_high(q)
        &&& self == PortRegisters { out: self.out, ..before }
    }

    /// Writes the pin control code of pin `pos`: a read-modify-write of the
    /// control word that the pin shares with three others, which is why it
    /// needs interrupts masked
    pub fn set_pin_control(&mut self, _cs: &CriticalSection, pos: u8, code: u8)
        requires
            pos < 16,
            code < 32,
        ensures
            final(self).is_reconfigured(*old(self), pos as u32, code as u32),
    {
        let k = (pos / 4) as u32;
        let slot = (pos % 4) as u32;
        let before = *self;
        if k == 0 {
            self.iocr0 = modify_pc(self.iocr0, slot, code);
        } else if k == 1 {
            self.iocr4 = modify_pc(self.iocr4, slot, code);
        } else if k == 2 {
            self.iocr8 = modify_pc(self.iocr8, slot, code);
        } else {
            self.iocr12 = modify_pc(self.iocr12, slot, code);
        }
        assert forall|q: u32| q < 16 && q != pos implies #[trigger] self.pin_control(q)
            == before.pin_control(q) by {
            if q / 4 == k {
                assert(q % 4 != slot);
                assert(pc_field(self.iocr(k), q % 4) == pc_field(before.iocr(k), q % 4));
            }
        }
    }

    /// Writes `word` to the output modification register
    pub fn write_omr(&mut self, word: u32)
        ensures
            omr_applied(old(self).out, final(self).out, word),
            *final(self) == (PortRegisters { out: final(self).out, ..*old(self) }),
    {
        let ps = word & 0xffff;
        let pr = word >> 16u32;
        let out = self.out;
        let new = (out & 0xffff_0000) | (((out & !(ps | pr)) | (ps & !pr) | (!out & ps & pr)) & 0xffff);
        assert(new & 0xffff_0000 == out & 0xffff_0000) by (bit_vector)
            requires
                new == (out & 0xffff_0000) | (((out & !(ps | pr)) | (ps & !pr) | (!out & ps & pr))
                    & 0xffff),
        ;
        assert forall|q: u32| q < 16 implies #[trigger] out_high(new, q) == omr_pin_effect(
            out_high(out, q),
            out_high(word, q),
            out_high(word, (q + 16) as u32),
        ) by {
            let l = out & (1u32 << q) != 0;
            let st = word & (1u32 << q) != 0;
            let rs = word & (1u32 << (q + 16)) != 0;
            let n = new & (1u32 << q) != 0;
            assert(n == (if st && rs {
                !l
            } else if st {
                true
            } else if rs {
                false
            } else {
                l
            })) by (bit_vector)
                requires
                    q < 16,
                    ps == word & 0xffff,
                    pr == word >> 16u32,
                    new == (out & 0xffff_0000) | (((out & !(ps | pr)) | (ps & !pr) | (!out & ps
                        & pr)) & 0xffff),
                    l == (out & (1u32 << q) != 0),
                    st == (word & (1u32 << q) != 0),
                    rs == (word & (1u32 << (q + 16)) != 0),
                    n == (new & (1u32 << q) != 0),
            ;
        }
        self.out = new;
    }

    /// Drives pin `pos` high
    pub fn set_high(&mut self, pos: u8)
        requires
            pos < 16,
        ensures
            final(self).is_driven(*old(self), pos as u32, true),
    {
        let w = omr_set_word(pos);
        self.write_omr(w);
        proof {
            lemma_omr_drives(pos as u32);
        }
    }

    /// Drives pin `pos` low
    pub fn set_low(&mut self, pos: u8)
        requires
            pos < 16,
        ensures
            final(self).is_driven(*old(self), pos as u32, false),
    {
        let w = omr_reset_word(pos);
        self.write_omr(w);
        proof {
            lemma_omr_drives(pos as u32);
        }
    }

    /// Whether the pad of pin `pos` reads low
    pub fn is_low(&self, pos: u8) -> (r: bool)
        requires
            pos < 16,
        ensures
            r == !self.input_high(pos as u32),
    {
        self.in_ & (1u32 << pos) == 0
    }

    /// Whether the output bit of pin `pos` drives low
    pub fn is_set_low(&self, pos: u8) -> (r: bool)
        requires
            pos < 16,
        ensures
            r == !self.output_high(pos as u32),
    {
        self.out & (1u32 << pos) == 0
    }
}

/// The set word of pin `pos` holds only that pin's set bit and the reset
/// word only its reset bit; so writing the set word drives the pin high,
/// writing the reset word drives it low, and neither changes another pin
pub proof fn lemma_omr_drives(pos: u32)
    requires
        pos < 16,
    ensures
        forall|q: u32|
            q < 16 ==> (#[trigger] out_high(1u32 << pos, q) == (q == pos) && !out_high(
                1u32 << pos,
                (q + 16) as u32,
            )),
        forall|q: u32|
            q < 16 ==> (#[trigger] out_high(1u32 << (pos + 16), (q + 16) as u32) == (q == pos)
                && !out_high(1u32 << (pos + 16), q)),
{
    assert forall|q: u32| q < 16 implies (#[trigger] out_high(1u32 << pos, q) == (q == pos)
        && !out_high(1u32 << pos, (q + 16) as u32)) by {
        assert(((1u32 << pos) & (1u32 << q) != 0) == (q == pos) && (1u32 << pos) & (1u32 << (q
            + 16)) == 0) by (bit_vector)
            requires
                pos < 16,
                q < 16,
        ;
    }
    assert forall|q: u32| q < 16 implies (#[trigger] out_high(1u32 << (pos + 16), (q + 16) as u32)
        == (q == pos) && !out_high(1u32 << (pos + 16), q)) by {
        assert(((1u32 << (pos + 16)) & (1u32 << (q + 16)) != 0) == (q == pos) && (1u32 << (pos
            + 16)) & (1u32 << q) == 0) by (bit_vector)
            requires
                pos < 16,
                q < 16,
        ;
    }
}

/// A pin of bank `P` at position `N`, in mode `MODE`
pub struct GpioPin<const P: u8, const N: u8, MODE> {
    _mode: PhantomData<MODE>,
}

impl<const P: u8, const N: u8, MODE> GpioPin<P, N, MODE> {
    #[verifier::type_invariant]
    spec fn inv(self) -> bool {
        N < PINS_PER_BANK
    }

    /// A handle of a pin position that the bank has
    pub(crate) fn new() -> (r: Self)
        requires
            N < PINS_PER_BANK,
    {
        GpioPin { _mode: PhantomData }
    }

    /// Rewrites the control code of this pin and hands the pin back in its
    /// new mode
    fn reconfigure<NEW>(self, cs: &CriticalSection, port: &mut PortRegisters, code: u8) -> (r:
        GpioPin<P, N, NEW>)
        requires
            code < 32,
        ensures
            final(port).is_reconfigured(*old(port), N as u32, code as u32),
    {
        proof {
            use_type_invariant(&self);
        }
        port.set_pin_control(cs, N, code);
        GpioPin { _mode: PhantomData }
    }

    /// Configures the pin to operate as a floating input pin
    pub fn into_floating_input(self, cs: &CriticalSection, port: &mut PortRegisters) -> (r: GpioPin<
        P,
        N,
        Input<Floating>,
    >)
        requires
            old(port).bank == P,
        ensures
            final(port).is_reconfigured(*old(port), N as u32, PC_INPUT_FLOATING as u32),
    {
        self.reconfigure(cs, port, PC_INPUT_FLOATING)
    }

    /// Configures the pin to operate as a pulled down input pin
    pub fn into_pull_down_input(self, cs: &CriticalSection, port: &mut PortRegisters) -> (r: GpioPin<
        P,
        N,
        Input<PullDown>,
    >)
        requires
            old(port).bank == P,
        ensures
            final(port).is_reconfigured(*old(port), N as u32, PC_INPUT_PULL_DOWN as u32),
    {
        self.reconfigure(cs, port, PC_INPUT_PULL_DOWN)
    }

    /// Configures the pin to operate as a pulled up input pin
    pub fn into_pull_up_input(self, cs: &CriticalSection, port: &mut PortRegisters) -> (r: GpioPin<
        P,
        N,
        Input<PullUp>,
    >)
        requires
            old(port).bank == P,
        ensures
            final(port).is_reconfigured(*old(port), N as u32, PC_INPUT_PULL_UP as u32),
    {
        self.reconfigure(cs, port, PC_INPUT_PULL_UP)
    }

    /// Configures the pin to operate as an open drain output pin
    pub fn into_open_drain_output(self, cs: &CriticalSection, port: &mut PortRegisters) -> (r:
        GpioPin<P, N, Output<OpenDrain>>)
        requires
            old(port).bank == P,
        ensures
            final(port).is_reconfigured(*old(port), N as u32, PC_OUTPUT_OPEN_DRAIN as u32),
    {
        self.reconfigure(cs, port, PC_OUTPUT_OPEN_DRAIN)
    }

    /// Configures the pin to operate as a push pull output pin
    pub fn into_push_pull_output(self, cs: &CriticalSection, port: &mut PortRegisters) -> (r:
        GpioPin<P, N, Output<PushPull>>)
        requires
            old(port).bank == P,
        ensures
            final(port).is_reconfigured(*old(port), N as u32, PC_OUTPUT_PUSH_PULL as u32),
    {
        self.reconfigure(cs, port, PC_OUTPUT_PUSH_PULL)
    }

    /// Hands the pin over to alternate function `af` as a push-pull output
    fn into_alternate<AF>(self, cs: &CriticalSection, port: &mut PortRegisters, af: u8) -> (r:
        GpioPin<P, N, Alternate<AF>>)
        requires
            af < 8,
        ensures
            final(port).is_reconfigured(*old(port), N as u32, (PC_ALTERNATE_BASE + af) as u32),
    {
        assert(PC_ALTERNATE_BASE | af == PC_ALTERNATE_BASE + af) by (bit_vector)
            requires
                af < 8,
        ;
        self.reconfigure(cs, port, PC_ALTERNATE_BASE | af)
    }

    /// Configures the pin for alternate function 0
    pub fn into_alternate_af0(self, cs: &CriticalSection, port: &mut PortRegisters) -> (r: GpioPin<
        P,
        N,
        Alternate<AF0>,
    >)
        requires
            old(port).bank == P,
        ensures
            final(port).is_reconfigured(*old(port), N as u32, 0x10),
    {
        self.into_alternate(cs, port, 0)
    }

    /// Configures the pin for alternate function 1
    pub fn into_alternate_af1(self, cs: &CriticalSection, port: &mut PortRegisters) -> (r: GpioPin<
        P,
        N,
        Alternate<AF1>,
    >)
        requires
            old(port).bank == P,
        ensures
            final(port).is_reconfigured(*old(port), N as u32, 0x11),
    {
        self.into_alternate(cs, port, 1)
    }

    /// Configures the pin for alternate function 2
    pub fn into_alternate_af2(self, cs: &CriticalSection, port: &mut PortRegisters) -> (r: GpioPin<
        P,
        N,
        Alternate<AF2>,
    >)
        requires
            old(port).bank == P,
        ensures
            final(port).is_reconfigured(*old(port), N as u32, 0x12),
    {
        self.into_alternate(cs, port, 2)
    }

    /// Configures the pin for alternate function 3
    pub fn into_alternate_af3(self, cs: &CriticalSection, port: &mut PortRegisters) -> (r: GpioPin<
        P,
        N,
        Alternate<AF3>,
    >)
        requires
            old(port).bank == P,
        ensures
            final(port).is_reconfigured(*old(port), N as u32, 0x13),
    {
        self.into_alternate(cs, port, 3)
    }

    /// Configures the pin for alternate function 4
    pub fn into_alternate_af4(self, cs: &CriticalSection, port: &mut PortRegisters) -> (r: GpioPin<
        P,
        N,
        Alternate<AF4>,
    >)
        requires
            old(port).bank == P,
        ensures
            final(port).is_reconfigured(*old(port), N as u32, 0x14),
    {
        self.into_alternate(cs, port, 4)
    }

    /// Configures the pin for alternate function 5
    pub fn into_alternate_af5(self, cs: &CriticalSection, port: &mut PortRegisters) -> (r: GpioPin<
        P,
        N,
        Alternate<AF5>,
    >)
        requires
            old(port).bank == P,
        ensures
            final(port).is_reconfigured(*old(port), N as u32, 0x15),
    {
        self.into_alternate(cs, port, 5)
    }

    /// Configures the pin for alternate function 6
    pub fn into_alternate_af6(self, cs: &CriticalSection, port: &mut PortRegisters) -> (r: GpioPin<
        P,
        N,
        Alternate<AF6>,
    >)
        requires
            old(port).bank == P,
        ensures
            final(port).is_reconfigured(*old(port), N as u32, 0x16),
    {
        self.into_alternate(cs, port, 6)
    }

    /// Configures the pin for alternate function 7
    pub fn into_alternate_af7(self, cs: &CriticalSection, port: &mut PortRegisters) -> (r: GpioPin<
        P,
        N,
        Alternate<AF7>,
    >)
        requires
            old(port).bank == P,
        ensures
            final(port).is_reconfigured(*old(port), N as u32, 0x17),
    {
        self.into_alternate(cs, port, 7)
    }

    /// Erases the pin number from the type
    ///
    /// This is useful when you want to collect the pins into an array where you
    /// need all the elements to have the same type
    pub fn downgrade(self) -> (r: Pin<MODE>)
        ensures
            r.index() == N,
            r.bank() == P,
    {
        proof {
            use_type_invariant(&self);
        }
        Pin { i: N, port: P, _mode: PhantomData }
    }
}

impl<const P: u8, const N: u8, MODE> GpioPin<P, N, Output<MODE>> {
    /// Drives the pin high
    pub fn set_high(&mut self, port: &mut PortRegisters)
        requires
            old(port).bank == P,
        ensures
            final(port).is_driven(*old(port), N as u32, true),
    {
        proof {
            use_type_invariant(&*self);
        }
        port.set_high(N);
    }

    /// Drives the pin low
    pub fn set_low(&mut self, port: &mut PortRegisters)
        requires
            old(port).bank == P,
        ensures
            final(port).is_driven(*old(port), N as u32, false),
    {
        proof {
            use_type_invariant(&*self);
        }
        port.set_low(N);
    }

    /// Whether the pin is driven low
    pub fn is_set_low(&self, port: &PortRegisters) -> (r: bool)
        requires
            port.bank == P,
        ensures
            r == !port.output_high(N as u32),
    {
        proof {
            use_type_invariant(self);
        }
        port.is_set_low(N)
    }

    /// Whether the pin is driven high
    pub fn is_set_high(&self, port: &PortRegisters) -> (r: bool)
        requires
            port.bank == P,
        ensures
            r == port.output_high(N as u32),
    {
        !self.is_set_low(port)
    }
}

impl<const P: u8, const N: u8> GpioPin<P, N, Output<OpenDrain>> {
    /// Whether the pad reads low
    pub fn is_low(&self, port: &PortRegisters) -> (r: bool)
        requires
            port.bank == P,
        ensures
            r == !port.input_high(N as u32),
    {
        proof {
            use_type_invariant(self);
        }
        port.is_low(N)
    }

    /// Whether the pad reads high
    pub fn is_high(&self, port: &PortRegisters) -> (r: bool)
        requires
            port.bank == P,
        ensures
            r == port.input_high(N as u32),
    {
        !self.is_low(port)
    }
}

impl<const P: u8, const N: u8, MODE> GpioPin<P, N, Input<MODE>> {
    /// Whether the pad reads low
    pub fn is_low(&self, port: &PortRegisters) -> (r: bool)
        requires
            port.bank == P,
        ensures
            r == !port.input_high(N as u32),
    {
        proof {
            use_type_invariant(self);
        }
        port.is_low(N)
    }

    /// Whether the pad reads high
    pub fn is_high(&self, port: &PortRegisters) -> (r: bool)
        requires
            port.bank == P,
        ensures
            r == port.input_high(N as u32),
    {
        !self.is_low(port)
    }
}

/// Fully erased pin
///
/// The pin number and bank are held at run time; the mode is still in the type
pub struct Pin<MODE> {
    i: u8,
    port: u8,
    _mode: PhantomData<MODE>,
}

impl<MODE> Pin<MODE> {
    #[verifier::type_invariant]
    spec fn inv(self) -> bool {
        self.i < PINS_PER_BANK
    }

    /// Position of the pin in its bank
    pub closed spec fn index(self) -> u8 {
        self.i
    }

    /// Number of the pin's bank
    pub closed spec fn bank(self) -> u8 {
        self.port
    }

    /// Position of the pin in its bank
    pub fn pin_index(&self) -> (r: u8)
        ensures
            r == self.index(),
            r < PINS_PER_BANK,
    {
        proof {
            use_type_invariant(self);
        }
        self.i
    }

    /// Number of the pin's bank
    pub fn bank_number(&self) -> (r: u8)
        ensures
            r == self.bank(),
    {
        self.port
    }
}

impl<MODE> Pin<Output<MODE>> {
    /// Drives the pin high
    pub fn set_high(&mut self, port: &mut PortRegisters)
        requires
            old(port).bank == old(self).bank(),
        ensures
            final(port).is_driven(*old(port), old(self).index() as u32, true),
            *final(self) == *old(self),
    {
        let i = self.pin_index();
        port.set_high(i);
    }

    /// Drives the pin low
    pub fn set_low(&mut self, port: &mut PortRegisters)
        requires
            old(port).bank == old(self).bank(),
        ensures
            final(port).is_driven(*old(port), old(self).index() as u32, false),
            *final(self) == *old(self),
    {
        let i = self.pin_index();
        port.set_low(i);
    }

    /// Whether the pin is driven low
    pub fn is_set_low(&self, port: &PortRegisters) -> (r: bool)
        requires
            port.bank == self.bank(),
        ensures
            r == !port.output_high(self.index() as u32),
    {
        port.is_set_low(self.pin_index())
    }

    /// Whether the pin is driven high
    pub fn is_set_high(&self, port: &PortRegisters) -> (r: bool)
        requires
            port.bank == self.bank(),
        ensures
            r == port.output_high(self.index() as u32),
    {
        !self.is_set_low(port)
    }
}

impl Pin<Output<OpenDrain>> {
    /// Whether the pad reads low
    pub fn is_low(&self, port: &PortRegisters) -> (r: bool)
        requires
            port.bank == self.bank(),
        ensures
            r == !port.input_high(self.index() as u32),
    {
        port.is_low(self.pin_index())
    }

    /// Whether the pad reads high
    pub fn is_high(&self, port: &PortRegisters) -> (r: bool)
        requires
            port.bank == self.bank(),
        ensures
            r == port.input_high(self.index() as u32),
    {
        !self.is_low(port)
    }
}

impl<MODE> Pin<Input<MODE>> {
    /// Whether the pad reads low
    pub fn is_low(&self, port: &PortRegisters) -> (r: bool)
        requires
            port.bank == self.bank(),
        ensures
            r == !port.input_high(self.index() as u32),
    {
        port.is_low(self.pin_index())
    }

    /// Whether the pad reads high
    pub fn is_high(&self, port: &PortRegisters) -> (r: bool)
        requires
            port.bank == self.bank(),
        ensures
            r == port.input_high(self.index() as u32),
    {
        !self.is_low(port)
    }
}

/// A port bank with the image of its registers, before it is split into pins
pub struct Port<const P: u8> {
    regs: PortRegisters,
}

impl<const P: u8> Port<P> {
    /// The register image of the bank
    pub closed spec fn registers(self) -> PortRegisters {
        self.regs
    }

    /// The bank with its registers as they come out of reset
    pub fn new() -> (r: Self)
        ensures
            r.registers() == PortRegisters::reset_spec(P),
    {
        Port { regs: PortRegisters::reset(P) }
    }
}

/// Bank 0
pub type PORT0 = Port<0>;

/// Bank 1
pub type PORT1 = Port<1>;

/// Bank 2
pub type PORT2 = Port<2>;

} // verus!
