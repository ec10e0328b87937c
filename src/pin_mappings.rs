//! Which pins are wired to which serial channel signal, and through which
//! alternate function or input selection
use vstd::prelude::*;

use crate::gpio::port0::{P0_0, P0_14, P0_15, P0_6, P0_7};
use crate::gpio::port1::{P1_0, P1_1, P1_2, P1_3, P1_5, P1_6};
use crate::gpio::port2::{P2_0, P2_1, P2_10, P2_11, P2_2};
use crate::gpio::{Alternate, Input, AF2, AF6, AF7};
use crate::usic::{Dout0Pin, Dx0Pin, Dx1Pin, Dx2Pin, Dx3Pin, Dx4Pin, Dx5Pin, USIC0_CH0, USIC0_CH1};

verus! {

impl Dout0Pin<USIC0_CH1> for P0_6<Alternate<AF7>> {

}

impl Dout0Pin<USIC0_CH1> for P0_7<Alternate<AF7>> {

}

impl Dout0Pin<USIC0_CH0> for P0_14<Alternate<AF6>> {

}

impl Dout0Pin<USIC0_CH0> for P0_15<Alternate<AF6>> {

}

impl Dout0Pin<USIC0_CH0> for P1_0<Alternate<AF7>> {

}

impl Dout0Pin<USIC0_CH0> for P1_1<Alternate<AF6>> {

}

impl Dout0Pin<USIC0_CH1> for P1_2<Alternate<AF7>> {

}

impl Dout0Pin<USIC0_CH1> for P1_3<Alternate<AF7>> {

}

impl Dout0Pin<USIC0_CH0> for P1_5<Alternate<AF2>> {

}

impl Dout0Pin<USIC0_CH1> for P1_6<Alternate<AF2>> {

}

impl Dout0Pin<USIC0_CH0> for P2_0<Alternate<AF6>> {

}

impl Dout0Pin<USIC0_CH0> for P2_1<Alternate<AF6>> {

}

impl Dout0Pin<USIC0_CH1> for P2_10<Alternate<AF7>> {

}

impl Dout0Pin<USIC0_CH1> for P2_11<Alternate<AF7>> {

}

impl<STATE> Dx2Pin<USIC0_CH0> for P0_0<Input<STATE>> {
    open spec fn dsel() -> u8 {
        0
    }

    fn number() -> (r: u8) {
        0
    }
}

impl<STATE> Dx2Pin<USIC0_CH1> for P0_0<Input<STATE>> {
    open spec fn dsel() -> u8 {
        0
    }

    fn number() -> (r: u8) {
        0
    }
}

impl<STATE> Dx0Pin<USIC0_CH1> for P0_6<Input<STATE>> {
    open spec fn dsel() -> u8 {
        2
    }

    fn number() -> (r: u8) {
        2
    }
}

impl<STATE> Dx1Pin<USIC0_CH0> for P0_7<Input<STATE>> {
    open spec fn dsel() -> u8 {
        2
    }

    fn number() -> (r: u8) {
        2
    }
}

impl<STATE> Dx0Pin<USIC0_CH1> for P0_7<Input<STATE>> {
    open spec fn dsel() -> u8 {
        3
    }

    fn number() -> (r: u8) {
        3
    }
}

impl<STATE> Dx1Pin<USIC0_CH1> for P0_7<Input<STATE>> {
    open spec fn dsel() -> u8 {
        2
    }

    fn number() -> (r: u8) {
        2
    }
}

impl<STATE> Dx3Pin<USIC0_CH0> for P2_2<Input<STATE>> {
    open spec fn dsel() -> u8 {
        0
    }

    fn number() -> (r: u8) {
        0
    }
}

impl<STATE> Dx4Pin<USIC0_CH0> for P2_2<Input<STATE>> {
    open spec fn dsel() -> u8 {
        0
    }

    fn number() -> (r: u8) {
        0
    }
}

impl<STATE> Dx5Pin<USIC0_CH0> for P2_2<Input<STATE>> {
    open spec fn dsel() -> u8 {
        0
    }

    fn number() -> (r: u8) {
        0
    }
}

} // verus!
