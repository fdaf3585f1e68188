//! Interrupt flags of a stream, as they stand in the status and the flag clear
//! registers: six bits for each stream.

use vstd::prelude::*;

verus! {

pub const FIFO_ERROR: u32 = 0b000001;

pub const DIRECT_MODE_ERROR: u32 = 0b000100;

pub const TRANSFERT_ERROR: u32 = 0b001000;

pub const HALF_TRANSFERT: u32 = 0b010000;

pub const TRANSFERT_COMPLETE: u32 = 0b100000;

pub const SHIFT_FACTOR: u32 = 6;

} // verus!
