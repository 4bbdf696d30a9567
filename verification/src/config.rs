//! Build-time options of the XDP program.
use vstd::prelude::*;

verus! {

/// The IP protocol the program matches (UDP).
pub const TARGET_PROTOCOL: u8 = 17;

/// The destination port the program matches; 0 matches every port.
pub const TARGET_PORT: u16 = 8080;

/// The largest number of CPUs the program supports.
pub const MAX_CPUS: usize = 256;

} // verus!
