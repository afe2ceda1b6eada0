//! Addresses of the direct parameter page 1.

use vstd::prelude::*;

verus! {

/// Address of the minimum cycle time that the device supports.
#[allow(non_upper_case_globals)]
pub const MinCycleTime: u8 = 0x02;

} // verus!
