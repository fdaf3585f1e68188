//! Hardware abstraction layer for the STM32F2 family of microcontrollers.
//!
//! The library works on an image of the chip's registers: every operation reads
//! the image and leaves in it what software has to write to the hardware. Moving
//! the image to and from the memory-mapped registers is left to the caller.

use vstd::prelude::*;

/// Register access primitives
pub mod registers;
/// The register image of the chip
pub mod chip;
/// The initialization protocol
pub mod peripheral;
/// GPIO control module
pub mod gpio;
/// DMA control module
pub mod dma;
/// USART (and UART) control module
pub mod usart;
/// Timer control module
pub mod timer;
/// RCC control module
pub mod rcc;
/// Flash control module
pub mod flash;

verus! {

/// How an error came about.
#[derive(Clone, Copy, PartialEq, Eq, Structural, Debug)]
pub enum ErrorKind {
    /// A parameter lies outside the range the hardware documents; found before
    /// any register is written.
    Validation,
    /// A flag did not come up within the polls allowed; registers written until
    /// then stay written.
    HardwareTimeout,
    /// An operation was asked for in a state that does not allow it.
    Protocol,
    /// The line delivered a character that cannot be trusted.
    Reception,
}

/// An advanced peripheral bus and the prescaler its clock runs through.
pub struct AdvancedPeripheralBus {
    pub clock_prescaler: u32,
}

} // verus!
