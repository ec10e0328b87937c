//! GPIO bank 0
use vstd::prelude::*;

use super::{Floating, GpioExt, GpioPin, Input, Port, PortRegisters};

verus! {

/// Pin 0 of bank 0
pub type P0_0<MODE> = GpioPin<0, 0, MODE>;

/// Pin 1 of bank 0
pub type P0_1<MODE> = GpioPin<0, 1, MODE>;

/// Pin 2 of bank 0
pub type P0_2<MODE> = GpioPin<0, 2, MODE>;

/// Pin 3 of bank 0
pub type P0_3<MODE> = GpioPin<0, 3, MODE>;

/// Pin 4 of bank 0
pub type P0_4<MODE> = GpioPin<0, 4, MODE>;

/// Pin 5 of bank 0
pub type P0_5<MODE> = GpioPin<0, 5, MODE>;

/// Pin 6 of bank 0
pub type P0_6<MODE> = GpioPin<0, 6, MODE>;

/// Pin 7 of bank 0
pub type P0_7<MODE> = GpioPin<0, 7, MODE>;

/// Pin 8 of bank 0
pub type P0_8<MODE> = GpioPin<0, 8, MODE>;

/// Pin 9 of bank 0
pub type P0_9<MODE> = GpioPin<0, 9, MODE>;

/// Pin 10 of bank 0
pub type P0_10<MODE> = GpioPin<0, 10, MODE>;

/// Pin 11 of bank 0
pub type P0_11<MODE> = GpioPin<0, 11, MODE>;

/// Pin 12 of bank 0
pub type P0_12<MODE> = GpioPin<0, 12, MODE>;

/// Pin 13 of bank 0
pub type P0_13<MODE> = GpioPin<0, 13, MODE>;

/// Pin 14 of bank 0
pub type P0_14<MODE> = GpioPin<0, 14, MODE>;

/// Pin 15 of bank 0
pub type P0_15<MODE> = GpioPin<0, 15, MODE>;

/// GPIO parts
pub struct Parts {
    /// Image of the bank's registers, which the pins below operate on
    pub regs: PortRegisters,
    /// Pin
    pub p0_0: P0_0<Input<Floating>>,
    /// Pin
    pub p0_1: P0_1<Input<Floating>>,
    /// Pin
    pub p0_2: P0_2<Input<Floating>>,
    /// Pin
    pub p0_3: P0_3<Input<Floating>>,
    /// Pin
    pub p0_4: P0_4<Input<Floating>>,
    /// Pin
    pub p0_5: P0_5<Input<Floating>>,
    /// Pin
    pub p0_6: P0_6<Input<Floating>>,
    /// Pin
    pub p0_7: P0_7<Input<Floating>>,
    /// Pin
    pub p0_8: P0_8<Input<Floating>>,
    /// Pin
    pub p0_9: P0_9<Input<Floating>>,
    /// Pin
    pub p0_10: P0_10<Input<Floating>>,
    /// Pin
    pub p0_11: P0_11<Input<Floating>>,
    /// Pin
    pub p0_12: P0_12<Input<Floating>>,
    /// Pin
    pub p0_13: P0_13<Input<Floating>>,
    /// Pin
    pub p0_14: P0_14<Input<Floating>>,
    /// Pin
    pub p0_15: P0_15<Input<Floating>>,
}

impl GpioExt for Port<0> {
    type Parts = Parts;

    /// The pins come in their reset mode, floating input
    open spec fn splits_into(self, parts: Parts) -> bool {
        parts.regs == self.registers()
    }

    fn split(self) -> (r: Parts) {
        let regs = self.regs;
        Parts {
            regs,
            p0_0: GpioPin::new(),
            p0_1: GpioPin::new(),
            p0_2: GpioPin::new(),
            p0_3: GpioPin::new(),
            p0_4: GpioPin::new(),
            p0_5: GpioPin::new(),
            p0_6: GpioPin::new(),
            p0_7: GpioPin::new(),
            p0_8: GpioPin::new(),
            p0_9: GpioPin::new(),
            p0_10: GpioPin::new(),
            p0_11: GpioPin::new(),
            p0_12: GpioPin::new(),
            p0_13: GpioPin::new(),
            p0_14: GpioPin::new(),
            p0_15: GpioPin::new(),
        }
    }
}

} // verus!
