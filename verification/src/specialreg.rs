//! Bits of the control registers.
use vstd::prelude::*;

verus! {

/// CR0.NE: numeric errors are reported by exception 16, not by IRQ 13.
pub const CR0_NE: u64 = 0x00000020;

} // verus!
