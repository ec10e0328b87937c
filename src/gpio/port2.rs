//! GPIO bank 2
use vstd::prelude::*;

use super::{Floating, GpioExt, GpioPin, Input, Port, PortRegisters};

verus! {

/// Pin 0 of bank 2
pub type P2_0<MODE> = GpioPin<2, 0, MODE>;

/// Pin 1 of bank 2
pub type P2_1<MODE> = GpioPin<2, 1, MODE>;

/// Pin 2 of bank 2
pub type P2_2<MODE> = GpioPin<2, 2, MODE>;

/// Pin 3 of bank 2
pub type P2_3<MODE> = GpioPin<2, 3, MODE>;

/// Pin 4 of bank 2
pub type P2_4<MODE> = GpioPin<2, 4, MODE>;

/// Pin 5 of bank 2
pub type P2_5<MODE> = GpioPin<2, 5, MODE>;

/// Pin 6 of bank 2
pub type P2_6<MODE> = GpioPin<2, 6, MODE>;

/// Pin 7 of bank 2
pub type P2_7<MODE> = GpioPin<2, 7, MODE>;

/// Pin 8 of bank 2
pub type P2_8<MODE> = GpioPin<2, 8, MODE>;

/// Pin 9 of bank 2
pub type P2_9<MODE> = GpioPin<2, 9, MODE>;

/// Pin 10 of bank 2
pub type P2_10<MODE> = GpioPin<2, 10, MODE>;

/// Pin 11 of bank 2
pub type P2_11<MODE> = GpioPin<2, 11, MODE>;

/// GPIO parts
pub struct Parts {
    /// Image of the bank's registers, which the pins below operate on
    pub regs: PortRegisters,
    /// Pin
    pub p2_0: P2_0<Input<Floating>>,
    /// Pin
    pub p2_1: P2_1<Input<Floating>>,
    /// Pin
    pub p2_2: P2_2<Input<Floating>>,
    /// Pin
    pub p2_3: P2_3<Input<Floating>>,
    /// Pin
    pub p2_4: P2_4<Input<Floating>>,
    /// Pin
    pub p2_5: P2_5<Input<Floating>>,
    /// Pin
    pub p2_6: P2_6<Input<Floating>>,
    /// Pin
    pub p2_7: P2_7<Input<Floating>>,
    /// Pin
    pub p2_8: P2_8<Input<Floating>>,
    /// Pin
    pub p2_9: P2_9<Input<Floating>>,
    /// Pin
    pub p2_10: P2_10<Input<Floating>>,
    /// Pin
    pub p2_11: P2_11<Input<Floating>>,
}

impl GpioExt for Port<2> {
    type Parts = Parts;

    /// The pins come in their reset mode, floating input; the bank's pins
    /// are switched from analog to digital once, here
    open spec fn splits_into(self, parts: Parts) -> bool {
        parts.regs == (PortRegisters { pdisc: 0, ..self.registers() })
    }

    fn split(self) -> (r: Parts) {
        let mut regs = self.regs;
        regs.pdisc = 0;
        Parts {
            regs,
            p2_0: GpioPin::new(),
            p2_1: GpioPin::new(),
            p2_2: GpioPin::new(),
            p2_3: GpioPin::new(),
            p2_4: GpioPin::new(),
            p2_5: GpioPin::new(),
            p2_6: GpioPin::new(),
            p2_7: GpioPin::new(),
            p2_8: GpioPin::new(),
            p2_9: GpioPin::new(),
            p2_10: GpioPin::new(),
            p2_11: GpioPin::new(),
        }
    }
}

} // verus!
