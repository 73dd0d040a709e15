//! Definitions describing how registers can be accessed.

use vstd::prelude::*;

verus! {

/// Register can be read from.
pub const READ: u32 = 0b000001;

/// Register can be written to.
pub const WRITE: u32 = 0b000010;

/// Register should not be read outside of a call from the driver.
pub const PRECIOUS: u32 = 0b000100;

/// Register value can't be cached.
pub const VOLATILE: u32 = 0b001000;

/// Register supports multiple write operations without incrementing the register number.
pub const WRITE_NO_INC: u32 = 0b010000;

/// Register supports multiple read operations without incrementing the register number.
pub const READ_NO_INC: u32 = 0b100000;

/// Register can be read from and written to.
pub const RW: u32 = 0b000011;

/// Whether the access set `policy` holds any of the bits of `flag`.
pub open spec fn spec_allows(policy: u32, flag: u32) -> bool {
    policy & flag != 0
}

/// Tests an access set for one of the access bits above.
pub fn allows(policy: u32, flag: u32) -> (yes: bool)
    ensures
        yes == spec_allows(policy, flag),
{
    policy & flag != 0
}

} // verus!
