//! Bit fields of the flash access control register.

use vstd::prelude::*;

verus! {

/// Number of wait states
pub const ACR_LATENCY_MASK: u32 = 0x0000_0007;

/// Prefetch enable
pub const ACR_PRFTEN: u32 = 0x0000_0100;

/// Instruction cache enable
pub const ACR_ICEN: u32 = 0x0000_0200;

/// Data cache enable
pub const ACR_DCEN: u32 = 0x0000_0400;

} // verus!
