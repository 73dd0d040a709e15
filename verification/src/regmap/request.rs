//! The transactions that the register layer asks a backend to perform.

use vstd::prelude::*;

verus! {

/// One transaction on the register backend. The backend performs it on the
/// bus, consulting its cache as it sees fit, and hands back the register's
/// value or its failure.
#[derive(Clone, Copy, Debug, PartialEq, Eq, Structural)]
pub enum Request {
    /// Read the whole register `reg`.
    Read { reg: u32 },
    /// Replace the bits of `reg` selected by `mask` with those of `value`,
    /// leaving every other bit as it is. With `force` the register is written
    /// even when this leaves its value unchanged.
    Update { reg: u32, mask: u32, value: u32, force: bool },
}

/// The value of a register after the bits under `mask` were replaced by those
/// of `value`.
pub open spec fn merge_bits(old: u32, mask: u32, value: u32) -> u32 {
    (old & !mask) | (value & mask)
}

impl Request {
    /// The register that the transaction addresses.
    pub open spec fn spec_reg(self) -> u32 {
        match self {
            Request::Read { reg } => reg,
            Request::Update { reg, .. } => reg,
        }
    }

    /// The value the register holds after the transaction, when it held `old` before.
    pub open spec fn spec_result(self, old: u32) -> u32 {
        match self {
            Request::Read { .. } => old,
            Request::Update { mask, value, .. } => merge_bits(old, mask, value),
        }
    }

    /// Whether the transaction ends in a write on the bus, when the register held `old`.
    pub open spec fn spec_writes(self, old: u32) -> bool {
        match self {
            Request::Read { .. } => false,
            Request::Update { mask, value, force, .. } => force || merge_bits(old, mask, value)
                != old,
        }
    }

    /// The register that the transaction addresses.
    pub fn reg(&self) -> (reg: u32)
        ensures
            reg == self.spec_reg(),
    {
        match self {
            Request::Read { reg } => *reg,
            Request::Update { reg, .. } => *reg,
        }
    }

    /// Whether the transaction replaces every bit of a register whose value
    /// bits are those of `width_mask`, so that what the register held before
    /// plays no part in what it holds afterwards.
    pub open spec fn spec_replaces(self, width_mask: u32) -> bool {
        match self {
            Request::Read { .. } => false,
            Request::Update { mask, .. } => mask & width_mask == width_mask,
        }
    }

    /// The value that the register holds after the transaction where the
    /// transaction replaces all its value bits: such an update can be
    /// written without the register being read first. For any other
    /// transaction there is no such value.
    pub fn whole_value(&self, width_mask: u32) -> (whole: Option<u32>)
        ensures
            whole is Some <==> self.spec_replaces(width_mask),
            whole matches Some(v) ==> forall|old: u32|
                #[trigger] self.spec_result(old) & width_mask == v,
    {
        match self {
            Request::Read { .. } => None,
            Request::Update { mask, value, .. } => {
                let mask: u32 = *mask;
                let value: u32 = *value;
                if mask & width_mask == width_mask {
                    assert forall|old: u32|
                        #[trigger] merge_bits(old, mask, value) & width_mask == value
                            & width_mask by {
                        assert(((old & !mask) | (value & mask)) & width_mask == value & width_mask)
                            by (bit_vector)
                            requires
                                mask & width_mask == width_mask,
                        ;
                    }
                    Some(value & width_mask)
                } else {
                    None
                }
            },
        }
    }

    /// Carries the transaction out on a register value: returns the value
    /// the register holds afterwards and whether it has to be written to the
    /// bus. A backend that only reads and writes whole registers completes
    /// an update with this.
    pub fn apply(&self, old: u32) -> (outcome: (u32, bool))
        ensures
            outcome.0 == self.spec_result(old),
            outcome.1 == self.spec_writes(old),
    {
        match self {
            Request::Read { .. } => (old, false),
            Request::Update { mask, value, force, .. } => {
                let merged: u32 = (old & !*mask) | (*value & *mask);
                (merged, *force || merged != old)
            },
        }
    }
}

/// An update changes no bit outside its mask.
pub proof fn lemma_update_keeps_unmasked(old: u32, mask: u32, value: u32)
    ensures
        merge_bits(old, mask, value) & !mask == old & !mask,
        merge_bits(old, mask, value) & mask == value & mask,
{
    assert(((old & !mask) | (value & mask)) & !mask == old & !mask) by (bit_vector);
    assert(((old & !mask) | (value & mask)) & mask == value & mask) by (bit_vector);
}

} // verus!
