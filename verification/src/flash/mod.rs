//! Flash memory interface: wait states, prefetch and caches.

use vstd::prelude::*;

pub mod flags;

pub use self::flags::{ACR_DCEN, ACR_ICEN, ACR_LATENCY_MASK, ACR_PRFTEN};

use crate::registers::{update, update_bits};

verus! {

/// Image of the flash interface registers. `key` and `option_key` are
/// write-only.
#[derive(Clone, Copy, PartialEq, Eq, Structural, Debug)]
pub struct FlashRegisters {
    pub access_control: u32,
    pub key: u32,
    pub option_key: u32,
    pub status: u32,
    pub control: u32,
    pub option_control: u32,
}

/// Wait states that let the flash follow any system clock the clock tree can
/// give
pub const FULL_SPEED_LATENCY: u32 = 3;

impl FlashRegisters {
    /// The registers once the instruction cache, the data cache and the prefetch
    /// are on and the wait states are set for full speed.
    pub open spec fn at_full_speed(self) -> FlashRegisters {
        FlashRegisters {
            access_control: update_bits(
                self.access_control,
                ACR_ICEN | ACR_DCEN | ACR_PRFTEN | FULL_SPEED_LATENCY,
                ACR_ICEN | ACR_DCEN | ACR_PRFTEN | ACR_LATENCY_MASK,
            ),
            ..self
        }
    }

    /// Switches the caches and the prefetch on and sets the wait states for full
    /// speed.
    pub fn set_full_speed(&mut self)
        ensures
            *final(self) == old(self).at_full_speed(),
    {
        update(
            &mut self.access_control,
            ACR_ICEN | ACR_DCEN | ACR_PRFTEN | FULL_SPEED_LATENCY,
            ACR_ICEN | ACR_DCEN | ACR_PRFTEN | ACR_LATENCY_MASK,
        );
    }
}

impl FlashRegisters {
    /// The image with every register at zero.
    pub open spec fn blank() -> FlashRegisters {
        FlashRegisters {
            access_control: 0,
            key: 0,
            option_key: 0,
            status: 0,
            control: 0,
            option_control: 0,
        }
    }
}

impl Default for FlashRegisters {
    /// The image with every register at zero.
    fn default() -> (image: FlashRegisters)
        ensures
            image == FlashRegisters::blank(),
    {
        FlashRegisters {
            access_control: 0,
            key: 0,
            option_key: 0,
            status: 0,
            control: 0,
            option_control: 0,
        }
    }
}

} // verus!
