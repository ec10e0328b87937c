//! GPIO bank 1
use vstd::prelude::*;

use super::{Floating, GpioExt, GpioPin, Input, Port, PortRegisters};

verus! {

/// Pin 0 of bank 1
pub type P1_0<MODE> = GpioPin<1, 0, MODE>;

/// Pin 1 of bank 1
pub type P1_1<MODE> = GpioPin<1, 1, MODE>;

/// Pin 2 of bank 1
pub type P1_2<MODE> = GpioPin<1, 2, MODE>;

/// Pin 3 of bank 1
pub type P1_3<MODE> = GpioPin<1, 3, MODE>;

/// Pin 4 of bank 1
pub type P1_4<MODE> = GpioPin<1, 4, MODE>;

/// Pin 5 of bank 1
pub type P1_5<MODE> = GpioPin<1, 5, MODE>;

/// Pin 6 of bank 1
pub type P1_6<MODE> = GpioPin<1, 6, MODE>;

/// GPIO parts
pub struct Parts {
    /// Image of the bank's registers, which the pins below operate on
    pub regs: PortRegisters,
    /// Pin
    pub p1_0: P1_0<Input<Floating>>,
    /// Pin
    pub p1_1: P1_1<Input<Floating>>,
    /// Pin
    pub p1_2: P1_2<Input<Floating>>,
    /// Pin
    pub p1_3: P1_3<Input<Floating>>,
    /// Pin
    pub p1_4: P1_4<Input<Floating>>,
    /// Pin
    pub p1_5: P1_5<Input<Floating>>,
    /// Pin
    pub p1_6: P1_6<Input<Floating>>,
}

impl GpioExt for Port<1> {
    type Parts = Parts;

    /// The pins come in their reset mode, floating input
    open spec fn splits_into(self, parts: Parts) -> bool {
        parts.regs == self.registers()
    }

    fn split(self) -> (r: Parts) {
        let regs = self.regs;
        Parts {
            regs,
            p1_0: GpioPin::new(),
            p1_1: GpioPin::new(),
            p1_2: GpioPin::new(),
            p1_3: GpioPin::new(),
            p1_4: GpioPin::new(),
            p1_5: GpioPin::new(),
            p1_6: GpioPin::new(),
        }
    }
}

} // verus!
