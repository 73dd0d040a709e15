//! Field descriptors and the declaration of a chip's register map.

use crate::bits::{genmask, spec_genmask};
use crate::error::Error;
use crate::regmap::access;
use vstd::prelude::*;

verus! {

/// A register address and an inclusive span of bits inside that register.
#[derive(Clone, Copy, Debug, PartialEq, Eq, Structural)]
pub struct BitRange {
    /// Address of the register.
    pub reg: u32,
    /// Lowest bit of the span.
    pub lsb: u32,
    /// Highest bit of the span.
    pub msb: u32,
}

impl BitRange {
    /// The span is not empty and lies inside a 32-bit value.
    pub open spec fn wf(self) -> bool {
        self.lsb <= self.msb && self.msb < 32
    }

    /// The mask of the span's bits.
    pub open spec fn spec_mask(self) -> u32 {
        spec_genmask(self.msb, self.lsb)
    }

    /// The largest value that fits the span.
    pub open spec fn spec_max_value(self) -> u32 {
        self.spec_mask() >> self.lsb
    }

    /// Two spans share at least one bit of one register.
    pub open spec fn overlaps(self, other: BitRange) -> bool {
        self.reg == other.reg && self.lsb <= other.msb && other.lsb <= self.msb
    }

    /// Describes the bits `lsb..=msb` of register `reg`; a span that is empty
    /// or reaches beyond bit 31 is refused.
    pub fn new(reg: u32, lsb: u32, msb: u32) -> (range: Result<BitRange, Error>)
        ensures
            lsb <= msb && msb < 32 ==> range == Ok::<BitRange, Error>(BitRange { reg, lsb, msb }),
            !(lsb <= msb && msb < 32) ==> range == Err::<BitRange, Error>(Error::InvalidArgument),
    {
        if lsb <= msb && msb < 32 {
            Ok(BitRange { reg, lsb, msb })
        } else {
            Err(Error::InvalidArgument)
        }
    }

    /// Tests whether the span is well formed.
    pub fn is_valid(&self) -> (valid: bool)
        ensures
            valid == self.wf(),
    {
        self.lsb <= self.msb && self.msb < 32
    }

    /// The contiguous mask of the span: bits `lsb..=msb` set, all others clear.
    pub fn mask(&self) -> (mask: u32)
        requires
            self.wf(),
        ensures
            mask == self.spec_mask(),
            crate::bits::count_ones(mask) == self.msb - self.lsb + 1,
            forall|i: u32|
                i < 32 ==> (#[trigger] crate::bits::bit_is_set(mask, i) <==> self.lsb <= i <= self.msb),
    {
        genmask(self.msb, self.lsb)
    }

    /// The number of bits in the span.
    pub fn width(&self) -> (width: u32)
        requires
            self.wf(),
        ensures
            width == self.msb - self.lsb + 1,
    {
        self.msb - self.lsb + 1
    }

    /// The largest value that fits the span.
    pub fn max_value(&self) -> (max: u32)
        requires
            self.wf(),
        ensures
            max == self.spec_max_value(),
    {
        genmask(self.msb, self.lsb) >> self.lsb
    }

    /// Tests whether two spans share a bit of the same register.
    pub fn intersects(&self, other: &BitRange) -> (yes: bool)
        ensures
            yes == self.overlaps(*other),
    {
        self.reg == other.reg && self.lsb <= other.msb && other.lsb <= self.msb
    }
}

/// Which directions of access a field offers.
#[derive(Clone, Copy, Debug, PartialEq, Eq, Structural)]
pub enum FieldMode {
    /// The field can only be read.
    ReadOnly,
    /// The field can only be written.
    WriteOnly,
    /// The field can be read and written.
    ReadWrite,
    /// The bits are claimed but offer no accessor.
    Reserved,
}

impl FieldMode {
    /// The field offers the reading accessors.
    pub open spec fn spec_can_read(self) -> bool {
        self is ReadOnly || self is ReadWrite
    }

    /// The field offers the writing accessors.
    pub open spec fn spec_can_write(self) -> bool {
        self is WriteOnly || self is ReadWrite
    }

    /// Tests whether the field offers the reading accessors.
    pub fn can_read(self) -> (yes: bool)
        ensures
            yes == self.spec_can_read(),
    {
        match self {
            FieldMode::ReadOnly => true,
            FieldMode::ReadWrite => true,
            _ => false,
        }
    }

    /// Tests whether the field offers the writing accessors.
    pub fn can_write(self) -> (yes: bool)
        ensures
            yes == self.spec_can_write(),
    {
        match self {
            FieldMode::WriteOnly => true,
            FieldMode::ReadWrite => true,
            _ => false,
        }
    }
}

/// How the bits of a field are interpreted.
#[derive(Clone, Copy, Debug, PartialEq, Eq, Structural)]
pub enum FieldKind {
    /// An unsigned integer.
    Raw,
    /// A single bit with boolean accessors.
    Bit,
    /// One of a closed set of values.
    Enum,
}

/// One named field of a register map.
#[derive(Debug)]
pub struct FieldDesc {
    /// The identifier that the driver chose for the field.
    pub id: u32,
    /// Where the field lies.
    pub range: BitRange,
    /// The access set of the register the field is declared under.
    pub policy: u32,
    /// Which accessors the field offers.
    pub mode: FieldMode,
    /// How the field's bits are read.
    pub kind: FieldKind,
    /// The values of an enumeration; empty for the other kinds.
    pub symbols: Vec<u32>,
}

/// Whether `value` is one of `symbols`.
pub open spec fn is_symbol(symbols: Seq<u32>, value: u32) -> bool {
    exists|k: int| 0 <= k < symbols.len() && symbols[k] == value
}

impl FieldDesc {
    /// The descriptor is consistent: its span is well formed, a bit field
    /// spans one bit, every value of an enumeration fits the span and only
    /// enumerations list values.
    pub open spec fn wf(&self) -> bool {
        &&& self.range.wf()
        &&& self.kind is Bit ==> self.range.lsb == self.range.msb
        &&& !(self.kind is Enum) ==> self.symbols@.len() == 0
        &&& forall|k: int|
            0 <= k < self.symbols@.len() ==> #[trigger] self.symbols@[k] <= self.range.spec_max_value()
    }

    /// Declares an integer field over the bits `lsb..=msb` of register `reg`.
    pub fn raw(id: u32, reg: u32, policy: u32, msb: u32, lsb: u32, mode: FieldMode) -> (field: Result<
        FieldDesc,
        Error,
    >)
        ensures
            lsb <= msb && msb < 32 <==> field is Ok,
            field matches Ok(f) ==> f.wf() && f.id == id && f.range == (BitRange { reg, lsb, msb })
                && f.policy == policy && f.mode == mode && f.kind is Raw,
            field matches Err(e) ==> e == Error::InvalidArgument,
    {
        if lsb <= msb && msb < 32 {
            Ok(
                FieldDesc {
                    id,
                    range: BitRange { reg, lsb, msb },
                    policy,
                    mode,
                    kind: FieldKind::Raw,
                    symbols: Vec::new(),
                },
            )
        } else {
            Err(Error::InvalidArgument)
        }
    }

    /// Declares a single-bit field at bit `pos` of register `reg`.
    pub fn bit(id: u32, reg: u32, policy: u32, pos: u32, mode: FieldMode) -> (field: Result<
        FieldDesc,
        Error,
    >)
        ensures
            pos < 32 <==> field is Ok,
            field matches Ok(f) ==> f.wf() && f.id == id && f.range == (BitRange {
                reg,
                lsb: pos,
                msb: pos,
            }) && f.policy == policy && f.mode == mode && f.kind is Bit,
            field matches Err(e) ==> e == Error::InvalidArgument,
    {
        if pos < 32 {
            Ok(
                FieldDesc {
                    id,
                    range: BitRange { reg, lsb: pos, msb: pos },
                    policy,
                    mode,
                    kind: FieldKind::Bit,
                    symbols: Vec::new(),
                },
            )
        } else {
            Err(Error::InvalidArgument)
        }
    }

    /// Declares an enumeration over the bits `lsb..=msb` of register `reg`.
    /// A malformed span is refused as an invalid argument, and a value that
    /// does not fit the span as too wide.
    pub fn enumeration(
        id: u32,
        reg: u32,
        policy: u32,
        msb: u32,
        lsb: u32,
        mode: FieldMode,
        symbols: Vec<u32>,
    ) -> (field: Result<FieldDesc, Error>)
        ensures
            field is Ok <==> lsb <= msb && msb < 32 && forall|k: int|
                0 <= k < symbols@.len() ==> #[trigger] symbols@[k] <= (BitRange {
                    reg,
                    lsb,
                    msb,
                }).spec_max_value(),
            field matches Ok(f) ==> f.wf() && f.id == id && f.range == (BitRange { reg, lsb, msb })
                && f.policy == policy && f.mode == mode && f.kind is Enum && f.symbols@
                == symbols@,
            field matches Err(e) ==> e == if lsb <= msb && msb < 32 {
                Error::ValueTooWide
            } else {
                Error::InvalidArgument
            },
    {
        if !(lsb <= msb && msb < 32) {
            return Err(Error::InvalidArgument);
        }
        let range = BitRange { reg, lsb, msb };
        if !symbols_fit(&symbols, range.max_value()) {
            return Err(Error::ValueTooWide);
        }
        Ok(FieldDesc { id, range, policy, mode, kind: FieldKind::Enum, symbols })
    }

    /// Tests the descriptor's consistency.
    pub fn is_valid(&self) -> (valid: bool)
        ensures
            valid == self.wf(),
    {
        if !self.range.is_valid() {
            return false;
        }
        if matches!(self.kind, FieldKind::Bit) && self.range.lsb != self.range.msb {
            return false;
        }
        if !matches!(self.kind, FieldKind::Enum) && self.symbols.len() != 0 {
            return false;
        }
        symbols_fit(&self.symbols, self.range.max_value())
    }

    /// Tests whether `value` is one of the enumeration's values.
    pub fn has_symbol(&self, value: u32) -> (found: bool)
        ensures
            found == is_symbol(self.symbols@, value),
    {
        let mut k: usize = 0;
        while k < self.symbols.len()
            invariant
                k <= self.symbols@.len(),
                forall|j: int| 0 <= j < k ==> self.symbols@[j] != value,
            decreases self.symbols@.len() - k,
        {
            if self.symbols[k] == value {
                return true;
            }
            k += 1;
        }
        false
    }
}

/// Tests whether every value of `symbols` is at most `max`.
fn symbols_fit(symbols: &Vec<u32>, max: u32) -> (fit: bool)
    ensures
        fit == forall|k: int| 0 <= k < symbols@.len() ==> #[trigger] symbols@[k] <= max,
{
    let mut k: usize = 0;
    while k < symbols.len()
        invariant
            k <= symbols@.len(),
            forall|j: int| 0 <= j < k ==> #[trigger] symbols@[j] <= max,
        decreases symbols@.len() - k,
    {
        if symbols[k] > max {
            return false;
        }
        k += 1;
    }
    true
}

/// A list of descriptors forms a declaration: each is consistent, no
/// identifier occurs twice and no two fields share a bit of a register.
pub open spec fn decl_valid(fields: Seq<FieldDesc>) -> bool {
    &&& forall|i: int| 0 <= i < fields.len() ==> (#[trigger] fields[i]).wf()
    &&& forall|i: int, j: int|
        0 <= i < j < fields.len() ==> (#[trigger] fields[i]).id != (#[trigger] fields[j]).id
    &&& forall|i: int, j: int|
        0 <= i < j < fields.len() ==> !(#[trigger] fields[i]).range.overlaps(
            (#[trigger] fields[j]).range,
        )
}

/// Whether some field declared for exactly the register `reg` carries one of
/// the access bits `flag`.
pub open spec fn reg_allows(fields: Seq<FieldDesc>, reg: u32, flag: u32) -> bool {
    exists|i: int|
        0 <= i < fields.len() && (#[trigger] fields[i]).range.reg == reg && access::spec_allows(
            fields[i].policy,
            flag,
        )
}

/// The declaration of a chip's fields, in declaration order.
pub struct FieldsDesc {
    fields: Vec<FieldDesc>,
}

/// The six questions a register map's backend asks about a register address.
pub trait ConfigOps {
    /// Whether the register can be read.
    fn is_readable_reg(&self, reg: u32) -> bool;

    /// Whether the register can be written.
    fn is_writeable_reg(&self, reg: u32) -> bool;

    /// Whether the register's value must not be cached.
    fn is_volatile_reg(&self, reg: u32) -> bool;

    /// Whether the register must not be read outside of a call from the driver.
    fn is_precious_reg(&self, reg: u32) -> bool;

    /// Whether the register supports repeated reads without address increment.
    fn is_readable_noinc_reg(&self, reg: u32) -> bool;

    /// Whether the register supports repeated writes without address increment.
    fn is_writeable_noinc_reg(&self, reg: u32) -> bool;
}

impl View for FieldsDesc {
    type V = Seq<FieldDesc>;

    closed spec fn view(&self) -> Seq<FieldDesc> {
        self.fields@
    }
}

impl FieldsDesc {
    /// The declaration's invariant.
    #[verifier::type_invariant]
    pub open spec fn wf(&self) -> bool {
        decl_valid(self@)
    }

    /// Collects descriptors into a declaration, keeping their order. The
    /// list is refused when a descriptor is inconsistent, when an identifier
    /// occurs twice, or when two fields overlap.
    pub fn new(fields: Vec<FieldDesc>) -> (desc: Result<FieldsDesc, Error>)
        ensures
            desc is Ok <==> decl_valid(fields@),
            desc matches Ok(d) ==> d@ == fields@ && d.wf(),
            desc matches Err(e) ==> e == Error::InvalidArgument,
    {
        let n = fields.len();
        let mut i: usize = 0;
        while i < n
            invariant
                n == fields@.len(),
                i <= n,
                forall|a: int| 0 <= a < i ==> (#[trigger] fields@[a]).wf(),
                forall|a: int, b: int|
                    0 <= a < b < i ==> (#[trigger] fields@[a]).id != (#[trigger] fields@[b]).id,
                forall|a: int, b: int|
                    0 <= a < b < i ==> !(#[trigger] fields@[a]).range.overlaps(
                        (#[trigger] fields@[b]).range,
                    ),
            decreases n - i,
        {
            if !fields[i].is_valid() {
                return Err(Error::InvalidArgument);
            }
            let mut j: usize = 0;
            while j < i
                invariant
                    n == fields@.len(),
                    i < n,
                    j <= i,
                    forall|a: int|
                        0 <= a < j ==> (#[trigger] fields@[a]).id != fields@[i as int].id,
                    forall|a: int|
                        0 <= a < j ==> !(#[trigger] fields@[a]).range.overlaps(
                            fields@[i as int].range,
                        ),
                decreases i - j,
            {
                if fields[j].id == fields[i].id {
                    return Err(Error::InvalidArgument);
                }
                if fields[j].range.intersects(&fields[i].range) {
                    return Err(Error::InvalidArgument);
                }
                j += 1;
            }
            i += 1;
        }
        Ok(FieldsDesc { fields })
    }

    /// Number of fields being held by the declaration.
    pub fn count(&self) -> (count: usize)
        ensures
            count == self@.len(),
    {
        self.fields.len()
    }

    /// The descriptor at position `index` of the declaration.
    pub fn field(&self, index: usize) -> (field: &FieldDesc)
        requires
            index < self@.len(),
        ensures
            *field == self@[index as int],
    {
        &self.fields[index]
    }

    /// The position of the field with identifier `id`, if the declaration has one.
    pub fn position(&self, id: u32) -> (position: Option<usize>)
        ensures
            position matches Some(p) ==> p < self@.len() && self@[p as int].id == id,
            position is None ==> forall|i: int| 0 <= i < self@.len() ==> (#[trigger] self@[i]).id != id,
            self.wf() ==> forall|i: int|
                0 <= i < self@.len() && (#[trigger] self@[i]).id == id ==> position == Some(
                    i as usize,
                ),
    {
        let mut i: usize = 0;
        while i < self.fields.len()
            invariant
                i <= self.fields@.len(),
                forall|a: int| 0 <= a < i ==> (#[trigger] self.fields@[a]).id != id,
            decreases self.fields@.len() - i,
        {
            if self.fields[i].id == id {
                return Some(i);
            }
            i += 1;
        }
        None
    }

    /// Tests whether some field declared for `reg` carries one of the bits `flag`.
    pub fn allows(&self, reg: u32, flag: u32) -> (yes: bool)
        ensures
            yes == reg_allows(self@, reg, flag),
    {
        let mut i: usize = 0;
        while i < self.fields.len()
            invariant
                i <= self.fields@.len(),
                forall|a: int|
                    0 <= a < i ==> !((#[trigger] self.fields@[a]).range.reg == reg
                        && access::spec_allows(self.fields@[a].policy, flag)),
            decreases self.fields@.len() - i,
        {
            if self.fields[i].range.reg == reg && access::allows(self.fields[i].policy, flag) {
                return true;
            }
            i += 1;
        }
        false
    }
}

impl ConfigOps for FieldsDesc {
    fn is_readable_reg(&self, reg: u32) -> (yes: bool)
        ensures
            yes == reg_allows(self@, reg, access::READ),
    {
        self.allows(reg, access::READ)
    }

    fn is_writeable_reg(&self, reg: u32) -> (yes: bool)
        ensures
            yes == reg_allows(self@, reg, access::WRITE),
    {
        self.allows(reg, access::WRITE)
    }

    fn is_volatile_reg(&self, reg: u32) -> (yes: bool)
        ensures
            yes == reg_allows(self@, reg, access::VOLATILE),
    {
        self.allows(reg, access::VOLATILE)
    }

    fn is_precious_reg(&self, reg: u32) -> (yes: bool)
        ensures
            yes == reg_allows(self@, reg, access::PRECIOUS),
    {
        self.allows(reg, access::PRECIOUS)
    }

    fn is_readable_noinc_reg(&self, reg: u32) -> (yes: bool)
        ensures
            yes == reg_allows(self@, reg, access::READ_NO_INC),
    {
        self.allows(reg, access::READ_NO_INC)
    }

    fn is_writeable_noinc_reg(&self, reg: u32) -> (yes: bool)
        ensures
            yes == reg_allows(self@, reg, access::WRITE_NO_INC),
    {
        self.allows(reg, access::WRITE_NO_INC)
    }
}

} // verus!
