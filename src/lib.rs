//! Hardware abstraction layer for the XMC1100 microcontroller family.
//!
//! Every peripheral handle of this crate carries a plain-value image of the
//! registers it programs. The library decides what the registers hold and what
//! a status read means; pushing an image to the device and sampling status
//! registers is left to the code that owns the memory-mapped peripherals.
#![allow(non_camel_case_types)]

pub mod delay;
pub mod gpio;
pub mod pin_mappings;
pub mod rcc;
pub mod scu;
pub mod serial;
pub mod time;
pub mod timers;
pub mod usic;

use vstd::prelude::*;

verus! {

/// The non-blocking error of the `nb` crate, whose two variants (`Other` and
/// `WouldBlock`) the polling operations of this crate return.
#[verifier::external_type_specification]
#[verifier::reject_recursive_types(E)]
pub struct ExNbError<E>(nb::Error<E>);

/// The uninhabited error type of the `void` crate: an operation that returns
/// it cannot fail other than by blocking.
#[verifier::external_type_specification]
#[verifier::external_body]
pub struct ExVoid(void::Void);

/// The token of `cortex_m::interrupt::free`: holding a reference to it shows
/// that interrupts are masked.
#[verifier::external_type_specification]
#[verifier::external_body]
pub struct ExCriticalSection(cortex_m::interrupt::CriticalSection);

} // verus!
