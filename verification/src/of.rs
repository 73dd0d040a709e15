//! Devicetree and Open Firmware abstractions.

use vstd::prelude::*;

verus! {

/// Number of bytes that a device id holds for its compatible string, the
/// terminating zero byte included.
pub const COMPATIBLE_LEN: usize = 128;

/// An open firmware device id.
#[derive(Clone, Copy, Debug)]
pub struct DeviceId {
    compatible: [u8; 128],
}

impl DeviceId {
    /// The bytes held for the compatible string.
    pub closed spec fn compatible(&self) -> Seq<u8> {
        self.compatible@
    }

    /// Create a OF `DeviceId` from a compatible string, given as its bytes
    /// without the terminating zero byte. The id holds the string, followed
    /// by zero bytes up to its length.
    pub fn with_compatible(compatible: &[u8]) -> (id: DeviceId)
        requires
            compatible@.len() < COMPATIBLE_LEN,
        ensures
            id.compatible().len() == COMPATIBLE_LEN,
            id.compatible().take(compatible@.len() as int) == compatible@,
            forall|i: int| compatible@.len() <= i < COMPATIBLE_LEN ==> id.compatible()[i] == 0,
    {
        let mut compat: [u8; 128] = [0u8; 128];
        let mut i: usize = 0;
        while i < compatible.len()
            invariant
                i <= compatible@.len(),
                compatible@.len() < COMPATIBLE_LEN,
                forall|k: int| 0 <= k < i ==> compat@[k] == compatible@[k],
                forall|k: int| i <= k < COMPATIBLE_LEN ==> compat@[k] == 0,
            decreases compatible@.len() - i,
        {
            compat[i] = compatible[i];
            i += 1;
        }
        DeviceId { compatible: compat }
    }

    /// Create the sentinel value that ends a table of device ids: an id
    /// with an empty compatible string.
    pub fn sentinel() -> (id: DeviceId)
        ensures
            id.compatible().len() == COMPATIBLE_LEN,
            forall|i: int| 0 <= i < COMPATIBLE_LEN ==> id.compatible()[i] == 0,
    {
        DeviceId { compatible: [0u8; 128] }
    }

    /// The bytes held for the compatible string.
    pub fn bytes(&self) -> (bytes: &[u8; 128])
        ensures
            bytes@ == self.compatible(),
    {
        &self.compatible
    }
}

} // verus!
