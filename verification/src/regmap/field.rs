//! Bound fields and their accessors.
//!
//! An accessor never touches the bus. A reading accessor names the
//! transaction to perform and a second function interprets the register value
//! that came back; a writing accessor names the masked update to perform.

use crate::bits::spec_genmask;
use crate::error::Error;
use crate::regmap::access;
use crate::regmap::desc::{decl_valid, is_symbol, reg_allows, FieldDesc, FieldKind, FieldsDesc};
use crate::regmap::request::{lemma_update_keeps_unmasked, merge_bits, Request};
use vstd::prelude::*;

verus! {

/// What binding a descriptor to a backend yields: the register, the shift and
/// mask of the field, and whether the backend lets it be read and written.
#[derive(Clone, Copy, Debug, PartialEq, Eq, Structural)]
pub struct FieldHandle {
    /// Address of the field's register.
    pub reg: u32,
    /// Position of the field's lowest bit.
    pub shift: u32,
    /// Mask of the field's bits inside the register.
    pub mask: u32,
    /// The field and its register both admit reads.
    pub readable: bool,
    /// The field and its register both admit writes.
    pub writable: bool,
}

impl FieldHandle {
    /// The handle addresses the bits that `field` declares.
    pub open spec fn binds(self, field: FieldDesc) -> bool {
        &&& self.reg == field.range.reg
        &&& self.shift == field.range.lsb
        &&& self.mask == field.range.spec_mask()
    }

    /// The handle carries the permissions that `field` has under the access
    /// table `ops`.
    pub open spec fn permits(self, field: FieldDesc, ops: Seq<FieldDesc>) -> bool {
        &&& self.readable == (field.mode.spec_can_read() && reg_allows(
            ops,
            field.range.reg,
            access::READ,
        ))
        &&& self.writable == (field.mode.spec_can_write() && reg_allows(
            ops,
            field.range.reg,
            access::WRITE,
        ))
    }

    /// The field's value inside the register value `raw`.
    pub open spec fn spec_extract(self, raw: u32) -> u32 {
        (raw & self.mask) >> self.shift
    }

    /// The largest value the field can hold.
    pub open spec fn spec_max(self) -> u32 {
        self.mask >> self.shift
    }

    /// The update that stores `value` in the field.
    pub open spec fn spec_store(self, value: u32, force: bool) -> Request {
        Request::Update { reg: self.reg, mask: self.mask, value: value << self.shift, force }
    }

    /// The part of the register mask that a caller's field-relative `mask` selects.
    pub open spec fn spec_submask(self, mask: u32) -> u32 {
        (mask << self.shift) & self.mask
    }

    /// The update that replaces the field's bits under the field-relative
    /// `mask` with those of `value`.
    pub open spec fn spec_modify(self, mask: u32, value: u32, force: bool) -> Request {
        Request::Update {
            reg: self.reg,
            mask: self.spec_submask(mask),
            value: (value << self.shift) & self.spec_submask(mask),
            force,
        }
    }

    /// The field's value inside the register value `raw`.
    pub fn extract(&self, raw: u32) -> (value: u32)
        requires
            self.shift < 32,
        ensures
            value == self.spec_extract(raw),
    {
        (raw & self.mask) >> self.shift
    }
}

/// Storing a value that fits the field and reading the field back yields the
/// value, whatever the register held before.
pub proof fn lemma_store_then_extract(handle: FieldHandle, msb: u32, old: u32, value: u32)
    requires
        handle.shift <= msb,
        msb < 32,
        handle.mask == spec_genmask(msb, handle.shift),
        value <= handle.spec_max(),
    ensures
        handle.spec_extract(handle.spec_store(value, false).spec_result(old)) == value,
        handle.spec_extract(handle.spec_store(value, true).spec_result(old)) == value,
{
    let lsb = handle.shift;
    let mask = handle.mask;
    assert(((((old & !mask) | ((value << lsb) & mask)) & mask) >> lsb) == value) by (bit_vector)
        requires
            lsb <= msb,
            msb < 32,
            mask == (0xffff_ffffu32 >> (31 - msb) as u32) & (0xffff_ffffu32 << lsb),
            value <= mask >> lsb,
    ;
}

/// A masked update of a field leaves every bit outside the field as it was,
/// for every mask and value the caller passes.
pub proof fn lemma_modify_stays_inside(handle: FieldHandle, old: u32, mask: u32, value: u32)
    ensures
        handle.spec_modify(mask, value, false).spec_result(old) & !handle.mask == old
            & !handle.mask,
        handle.spec_modify(mask, value, true).spec_result(old) & !handle.mask == old
            & !handle.mask,
{
    let field_mask = handle.mask;
    let shift = handle.shift;
    let sub = (mask << shift) & field_mask;
    let bits = (value << shift) & sub;
    assert(((old & !sub) | (bits & sub)) & !field_mask == old & !field_mask) by (bit_vector)
        requires
            sub == (mask << shift) & field_mask,
    ;
}

/// A masked update of a field changes, inside the field, exactly the bits
/// that the caller's mask selects.
pub proof fn law_modify_value(handle: FieldHandle, msb: u32, old: u32, mask: u32, value: u32)
    requires
        handle.shift <= msb,
        msb < 32,
        handle.mask == spec_genmask(msb, handle.shift),
    ensures
        handle.spec_extract(handle.spec_modify(mask, value, false).spec_result(old)) == merge_bits(
            handle.spec_extract(old),
            mask,
            value,
        ) & handle.spec_max(),
{
    let lsb = handle.shift;
    let fm = handle.mask;
    assert((((old & !((mask << lsb) & fm)) | ((((value << lsb) & ((mask << lsb) & fm))) & ((mask
        << lsb) & fm))) & fm) >> lsb == ((((old & fm) >> lsb) & !mask) | (value & mask)) & (fm
        >> lsb)) by (bit_vector)
        requires
            lsb <= msb,
            msb < 32,
            fm == (0xffff_ffffu32 >> (31 - msb) as u32) & (0xffff_ffffu32 << lsb),
    ;
}

/// What a field reads never exceeds the largest value of the field.
pub proof fn lemma_extract_bounded(handle: FieldHandle, raw: u32)
    requires
        handle.shift < 32,
    ensures
        handle.spec_extract(raw) <= handle.spec_max(),
{
    let mask = handle.mask;
    let shift = handle.shift;
    assert((raw & mask) >> shift <= mask >> shift) by (bit_vector)
        requires
            shift < 32,
    ;
}

/// The fields of a declaration bound to a backend: one handle per descriptor,
/// in declaration order.
pub struct Fields<'a> {
    handles: Vec<FieldHandle>,
    reg_fields: &'a FieldsDesc,
}

impl<'a> Fields<'a> {
    /// The handles, in declaration order.
    pub closed spec fn handles(&self) -> Seq<FieldHandle> {
        self.handles@
    }

    /// The descriptors that the handles were bound from.
    pub closed spec fn desc(&self) -> Seq<FieldDesc> {
        self.reg_fields@
    }

    /// The table is consistent: the descriptors form a declaration and the
    /// handle at each position addresses the bits of the descriptor there.
    #[verifier::type_invariant]
    pub open spec fn wf(&self) -> bool {
        &&& decl_valid(self.desc())
        &&& self.handles().len() == self.desc().len()
        &&& forall|i: int|
            0 <= i < self.desc().len() ==> (#[trigger] self.handles()[i]).binds(self.desc()[i])
    }

    /// Binds each descriptor of `reg_fields`, taking the permissions from the
    /// access table `ops`.
    pub(crate) fn bind(reg_fields: &'a FieldsDesc, ops: &FieldsDesc) -> (fields: Fields<'a>)
        requires
            reg_fields.wf(),
        ensures
            fields.wf(),
            fields.desc() == reg_fields@,
            forall|i: int|
                0 <= i < reg_fields@.len() ==> (#[trigger] fields.handles()[i]).permits(
                    reg_fields@[i],
                    ops@,
                ),
    {
        let mut handles: Vec<FieldHandle> = Vec::new();
        let n = reg_fields.count();
        let mut i: usize = 0;
        while i < n
            invariant
                n == reg_fields@.len(),
                i <= n,
                decl_valid(reg_fields@),
                handles@.len() == i,
                forall|k: int| 0 <= k < i ==> (#[trigger] handles@[k]).binds(reg_fields@[k]),
                forall|k: int|
                    0 <= k < i ==> (#[trigger] handles@[k]).permits(reg_fields@[k], ops@),
            decreases n - i,
        {
            let field = reg_fields.field(i);
            let readable = field.mode.can_read() && ops.allows(field.range.reg, access::READ);
            let writable = field.mode.can_write() && ops.allows(field.range.reg, access::WRITE);
            handles.push(
                FieldHandle {
                    reg: field.range.reg,
                    shift: field.range.lsb,
                    mask: field.range.mask(),
                    readable,
                    writable,
                },
            );
            i += 1;
        }
        Fields { handles, reg_fields }
    }

    /// Number of bound fields.
    pub fn count(&self) -> (count: usize)
        ensures
            count == self.desc().len(),
            count == self.handles().len(),
    {
        proof {
            use_type_invariant(self);
        }
        self.handles.len()
    }

    /// Get field `index`.
    pub fn index(&self, index: usize) -> (handle: FieldHandle)
        requires
            index < self.desc().len(),
        ensures
            handle == self.handles()[index as int],
            handle.binds(self.desc()[index as int]),
    {
        proof {
            use_type_invariant(self);
        }
        self.handles[index]
    }

    /// The descriptor that field `index` was bound from.
    pub fn descriptor(&self, index: usize) -> (field: &FieldDesc)
        requires
            index < self.desc().len(),
        ensures
            *field == self.desc()[index as int],
            field.wf(),
    {
        proof {
            use_type_invariant(self);
        }
        self.reg_fields.field(index)
    }

    /// What `read` answers for field `index`.
    pub open spec fn spec_read(&self, index: int) -> Result<Request, Error> {
        let handle = self.handles()[index];
        if handle.readable {
            Ok(Request::Read { reg: handle.reg })
        } else {
            Err(Error::PermissionDenied)
        }
    }

    /// What `decode` answers for field `index` and the register value `raw`.
    pub open spec fn spec_decode(&self, index: int, raw: u32) -> Result<u32, Error> {
        let value = self.handles()[index].spec_extract(raw);
        if self.desc()[index].kind is Enum && !is_symbol(self.desc()[index].symbols@, value) {
            Err(Error::DecodeError)
        } else {
            Ok(value)
        }
    }

    /// What `write` and `force_write` answer for field `index`.
    pub open spec fn spec_write(&self, index: int, value: u32, force: bool) -> Result<
        Request,
        Error,
    > {
        let handle = self.handles()[index];
        let field = self.desc()[index];
        if value > handle.spec_max() {
            Err(Error::ValueTooWide)
        } else if field.kind is Enum && !is_symbol(field.symbols@, value) {
            Err(Error::InvalidArgument)
        } else if !handle.writable {
            Err(Error::PermissionDenied)
        } else {
            Ok(handle.spec_store(value, force))
        }
    }

    /// What the masked updates answer for field `index`.
    pub open spec fn spec_update(&self, index: int, mask: u32, value: u32, force: bool) -> Result<
        Request,
        Error,
    > {
        let handle = self.handles()[index];
        if !(self.desc()[index].kind is Raw) {
            Err(Error::InvalidArgument)
        } else if !handle.writable {
            Err(Error::PermissionDenied)
        } else {
            Ok(handle.spec_modify(mask, value, force))
        }
    }

    /// What `set`, `clear` and their forced forms answer for field `index`.
    pub open spec fn spec_assign_bit(&self, index: int, on: bool, force: bool) -> Result<
        Request,
        Error,
    > {
        let handle = self.handles()[index];
        if !(self.desc()[index].kind is Bit) {
            Err(Error::InvalidArgument)
        } else if !handle.writable {
            Err(Error::PermissionDenied)
        } else {
            Ok(
                handle.spec_store(
                    if on {
                        1u32
                    } else {
                        0u32
                    },
                    force,
                ),
            )
        }
    }

    /// Names the transaction that reads field `index`: a read of its
    /// register, or a refusal when the field or its register is not readable.
    pub fn read(&self, index: usize) -> (request: Result<Request, Error>)
        requires
            index < self.desc().len(),
        ensures
            request == self.spec_read(index as int),
    {
        let handle = self.index(index);
        if handle.readable {
            Ok(Request::Read { reg: handle.reg })
        } else {
            Err(Error::PermissionDenied)
        }
    }

    /// Interprets the register value `raw` that a read of field `index`
    /// brought back: masks and shifts the field out of it. For an enumeration
    /// a value that names no symbol is a decode error.
    pub fn decode(&self, index: usize, raw: u32) -> (value: Result<u32, Error>)
        requires
            index < self.desc().len(),
        ensures
            value == self.spec_decode(index as int, raw),
            value matches Ok(v) ==> v <= self.handles()[index as int].spec_max(),
    {
        let handle = self.index(index);
        let field = self.descriptor(index);
        proof {
            lemma_extract_bounded(handle, raw);
        }
        let value = handle.extract(raw);
        if matches!(field.kind, FieldKind::Enum) && !field.has_symbol(value) {
            Err(Error::DecodeError)
        } else {
            Ok(value)
        }
    }

    fn store(&self, index: usize, value: u32, force: bool) -> (request: Result<Request, Error>)
        requires
            index < self.desc().len(),
        ensures
            request == self.spec_write(index as int, value, force),
    {
        let handle = self.index(index);
        let field = self.descriptor(index);
        if value > handle.mask >> handle.shift {
            Err(Error::ValueTooWide)
        } else if matches!(field.kind, FieldKind::Enum) && !field.has_symbol(value) {
            Err(Error::InvalidArgument)
        } else if !handle.writable {
            Err(Error::PermissionDenied)
        } else {
            Ok(
                Request::Update {
                    reg: handle.reg,
                    mask: handle.mask,
                    value: value << handle.shift,
                    force,
                },
            )
        }
    }

    fn modify(&self, index: usize, mask: u32, value: u32, force: bool) -> (request: Result<
        Request,
        Error,
    >)
        requires
            index < self.desc().len(),
        ensures
            request == self.spec_update(index as int, mask, value, force),
    {
        let handle = self.index(index);
        let field = self.descriptor(index);
        if !matches!(field.kind, FieldKind::Raw) {
            Err(Error::InvalidArgument)
        } else if !handle.writable {
            Err(Error::PermissionDenied)
        } else {
            let submask: u32 = (mask << handle.shift) & handle.mask;
            Ok(
                Request::Update {
                    reg: handle.reg,
                    mask: submask,
                    value: (value << handle.shift) & submask,
                    force,
                },
            )
        }
    }

    fn assign_bit(&self, index: usize, on: bool, force: bool) -> (request: Result<Request, Error>)
        requires
            index < self.desc().len(),
        ensures
            request == self.spec_assign_bit(index as int, on, force),
    {
        let handle = self.index(index);
        let field = self.descriptor(index);
        if !matches!(field.kind, FieldKind::Bit) {
            Err(Error::InvalidArgument)
        } else if !handle.writable {
            Err(Error::PermissionDenied)
        } else {
            let bit: u32 = if on {
                1
            } else {
                0
            };
            Ok(
                Request::Update {
                    reg: handle.reg,
                    mask: handle.mask,
                    value: bit << handle.shift,
                    force,
                },
            )
        }
    }

    /// Names the masked update that stores `value` in field `index`. A value
    /// wider than the field is refused first, then a value that is no symbol
    /// of an enumeration, then a field or register that is not writable.
    pub fn write(&self, index: usize, value: u32) -> (request: Result<Request, Error>)
        requires
            index < self.desc().len(),
        ensures
            request == self.spec_write(index as int, value, false),
    {
        self.store(index, value, false)
    }

    /// As `write`, but the update reaches the bus even when the register
    /// already holds the value.
    pub fn force_write(&self, index: usize, value: u32) -> (request: Result<Request, Error>)
        requires
            index < self.desc().len(),
        ensures
            request == self.spec_write(index as int, value, true),
    {
        self.store(index, value, true)
    }

    /// Names the update that replaces the bits of the integer field `index`
    /// selected by the field-relative `mask` with those of `value`. The mask
    /// is cut down to the field's own bits.
    pub fn update_bits(&self, index: usize, mask: u32, value: u32) -> (request: Result<
        Request,
        Error,
    >)
        requires
            index < self.desc().len(),
        ensures
            request == self.spec_update(index as int, mask, value, false),
            request matches Ok(Request::Update { mask: m, .. }) ==> m & !self.handles()[index as int].mask
                == 0,
    {
        proof {
            let h = self.handles()[index as int];
            let fm = h.mask;
            let sh = h.shift;
            assert(((mask << sh) & fm) & !fm == 0) by (bit_vector);
        }
        self.modify(index, mask, value, false)
    }

    /// As `update_bits`, but the update reaches the bus even when it changes nothing.
    pub fn force_update_bits(&self, index: usize, mask: u32, value: u32) -> (request: Result<
        Request,
        Error,
    >)
        requires
            index < self.desc().len(),
        ensures
            request == self.spec_update(index as int, mask, value, true),
            request matches Ok(Request::Update { mask: m, .. }) ==> m & !self.handles()[index as int].mask
                == 0,
    {
        proof {
            let h = self.handles()[index as int];
            let fm = h.mask;
            let sh = h.shift;
            assert(((mask << sh) & fm) & !fm == 0) by (bit_vector);
        }
        self.modify(index, mask, value, true)
    }

    /// Names the update that sets the bits `bits` of the integer field `index`.
    pub fn set_bits(&self, index: usize, bits: u32) -> (request: Result<Request, Error>)
        requires
            index < self.desc().len(),
        ensures
            request == self.spec_update(index as int, bits, bits, false),
    {
        self.modify(index, bits, bits, false)
    }

    /// Names the update that clears the bits `bits` of the integer field `index`.
    pub fn clear_bits(&self, index: usize, bits: u32) -> (request: Result<Request, Error>)
        requires
            index < self.desc().len(),
        ensures
            request == self.spec_update(index as int, bits, 0, false),
    {
        self.modify(index, bits, 0, false)
    }

    /// What `test_bits` answers for field `index`.
    pub open spec fn spec_test_bits(&self, index: int) -> Result<Request, Error> {
        if !(self.desc()[index].kind is Raw) {
            Err(Error::InvalidArgument)
        } else {
            self.spec_read(index)
        }
    }

    /// Names the read that a test of bits of the integer field `index` needs.
    pub fn test_bits(&self, index: usize) -> (request: Result<Request, Error>)
        requires
            index < self.desc().len(),
        ensures
            request == self.spec_test_bits(index as int),
    {
        let field = self.descriptor(index);
        if !matches!(field.kind, FieldKind::Raw) {
            Err(Error::InvalidArgument)
        } else {
            self.read(index)
        }
    }

    /// Whether all of `bits` are set in field `index` of the register value `raw`.
    pub fn bits_set(&self, index: usize, raw: u32, bits: u32) -> (all: bool)
        requires
            index < self.desc().len(),
        ensures
            all == (self.handles()[index as int].spec_extract(raw) & bits == bits),
    {
        proof {
            use_type_invariant(self);
        }
        let handle = self.index(index);
        handle.extract(raw) & bits == bits
    }

    /// Names the update that writes 1 to the bit field `index`.
    pub fn set(&self, index: usize) -> (request: Result<Request, Error>)
        requires
            index < self.desc().len(),
        ensures
            request == self.spec_assign_bit(index as int, true, false),
    {
        self.assign_bit(index, true, false)
    }

    /// As `set`, but the update reaches the bus even when the bit is already 1.
    pub fn force_set(&self, index: usize) -> (request: Result<Request, Error>)
        requires
            index < self.desc().len(),
        ensures
            request == self.spec_assign_bit(index as int, true, true),
    {
        self.assign_bit(index, true, true)
    }

    /// Names the update that writes 0 to the bit field `index`.
    pub fn clear(&self, index: usize) -> (request: Result<Request, Error>)
        requires
            index < self.desc().len(),
        ensures
            request == self.spec_assign_bit(index as int, false, false),
    {
        self.assign_bit(index, false, false)
    }

    /// As `clear`, but the update reaches the bus even when the bit is already 0.
    pub fn force_clear(&self, index: usize) -> (request: Result<Request, Error>)
        requires
            index < self.desc().len(),
        ensures
            request == self.spec_assign_bit(index as int, false, true),
    {
        self.assign_bit(index, false, true)
    }

    /// What `is_set` answers for field `index`.
    pub open spec fn spec_is_set(&self, index: int) -> Result<Request, Error> {
        if !(self.desc()[index].kind is Bit) {
            Err(Error::InvalidArgument)
        } else {
            self.spec_read(index)
        }
    }

    /// Names the read that tells whether the bit field `index` is set.
    pub fn is_set(&self, index: usize) -> (request: Result<Request, Error>)
        requires
            index < self.desc().len(),
        ensures
            request == self.spec_is_set(index as int),
    {
        let field = self.descriptor(index);
        if !matches!(field.kind, FieldKind::Bit) {
            Err(Error::InvalidArgument)
        } else {
            self.read(index)
        }
    }

    /// Whether field `index` reads 1 in the register value `raw`.
    pub fn decode_bit(&self, index: usize, raw: u32) -> (set: bool)
        requires
            index < self.desc().len(),
        ensures
            set == (self.handles()[index as int].spec_extract(raw) == 1),
    {
        proof {
            use_type_invariant(self);
        }
        let handle = self.index(index);
        handle.extract(raw) == 1
    }
}

/// Two spans that share no bit have masks that share no bit.
pub proof fn lemma_disjoint_masks(msb_a: u32, lsb_a: u32, msb_b: u32, lsb_b: u32)
    requires
        lsb_a <= msb_a,
        msb_a < 32,
        lsb_b <= msb_b,
        msb_b < 32,
        msb_a < lsb_b || msb_b < lsb_a,
    ensures
        spec_genmask(msb_a, lsb_a) & spec_genmask(msb_b, lsb_b) == 0,
{
    assert(((0xffff_ffffu32 >> (31 - msb_a) as u32) & (0xffff_ffffu32 << lsb_a)) & ((0xffff_ffffu32
        >> (31 - msb_b) as u32) & (0xffff_ffffu32 << lsb_b)) == 0) by (bit_vector)
        requires
            lsb_a <= msb_a,
            msb_a < 32,
            lsb_b <= msb_b,
            msb_b < 32,
            msb_a < lsb_b || msb_b < lsb_a,
    ;
}

/// Writing a value that fits an integer or bit field and then reading the
/// field yields that value, whatever the register held before.
pub proof fn law_write_read_round_trip(
    fields: Fields,
    index: int,
    value: u32,
    old: u32,
    force: bool,
)
    requires
        fields.wf(),
        0 <= index < fields.desc().len(),
        !(fields.desc()[index].kind is Enum),
        fields.handles()[index].writable,
        value <= fields.handles()[index].spec_max(),
    ensures
        fields.spec_write(index, value, force) matches Ok(request) && fields.spec_decode(
            index,
            request.spec_result(old),
        ) == Ok::<u32, Error>(value) && (fields.handles()[index].readable ==> fields.spec_read(
            index,
        ) == Ok::<Request, Error>(Request::Read { reg: request.spec_reg() })),
{
    let handle = fields.handles()[index];
    lemma_store_then_extract(handle, fields.desc()[index].range.msb, old, value);
}

/// Writing a symbol of an enumeration and then reading the field yields the
/// symbol; a register value whose field bits name no symbol reads as a
/// decode error.
pub proof fn law_enum_round_trip(
    fields: Fields,
    index: int,
    symbol: u32,
    old: u32,
    stray: u32,
    force: bool,
)
    requires
        fields.wf(),
        0 <= index < fields.desc().len(),
        fields.desc()[index].kind is Enum,
        fields.handles()[index].writable,
        is_symbol(fields.desc()[index].symbols@, symbol),
    ensures
        fields.spec_write(index, symbol, force) matches Ok(request) && fields.spec_decode(
            index,
            request.spec_result(old),
        ) == Ok::<u32, Error>(symbol),
        !is_symbol(fields.desc()[index].symbols@, fields.handles()[index].spec_extract(stray))
            ==> fields.spec_decode(index, stray) == Err::<u32, Error>(Error::DecodeError),
{
    let handle = fields.handles()[index];
    let field = fields.desc()[index];
    let k = choose|k: int| 0 <= k < field.symbols@.len() && field.symbols@[k] == symbol;
    lemma_store_then_extract(handle, field.range.msb, old, symbol);
}

/// Setting a bit field and then reading it finds it set; clearing it and
/// then reading it finds it clear.
pub proof fn law_bit_round_trip(fields: Fields, index: int, on: bool, old: u32, force: bool)
    requires
        fields.wf(),
        0 <= index < fields.desc().len(),
        fields.desc()[index].kind is Bit,
        fields.handles()[index].writable,
    ensures
        fields.spec_assign_bit(index, on, force) matches Ok(request) && (
        fields.handles()[index].spec_extract(request.spec_result(old)) == 1) == on,
{
    let handle = fields.handles()[index];
    let field = fields.desc()[index];
    let pos = handle.shift;
    let mask = handle.mask;
    assert(1u32 <= mask >> pos) by (bit_vector)
        requires
            pos < 32,
            mask == (0xffff_ffffu32 >> (31 - pos) as u32) & (0xffff_ffffu32 << pos),
    ;
    lemma_store_then_extract(handle, pos, old, 1);
    lemma_store_then_extract(handle, pos, old, 0);
}

/// A masked update of a field, whatever mask and value the caller passes,
/// changes no bit of the register outside the field, and no other field of
/// the declaration reads differently afterwards.
pub proof fn law_update_bits_stays_inside(
    fields: Fields,
    index: int,
    mask: u32,
    value: u32,
    old: u32,
    force: bool,
    other: int,
)
    requires
        fields.wf(),
        0 <= index < fields.desc().len(),
        0 <= other < fields.desc().len(),
        other != index,
    ensures
        fields.spec_update(index, mask, value, force) matches Ok(request) ==> {
            &&& request.spec_result(old) & !fields.handles()[index].mask == old
                & !fields.handles()[index].mask
            &&& fields.handles()[other].reg == request.spec_reg()
                ==> fields.handles()[other].spec_extract(request.spec_result(old))
                == fields.handles()[other].spec_extract(old)
        },
{
    let handle = fields.handles()[index];
    let field = fields.desc()[index];
    let neighbour = fields.handles()[other];
    let other_field = fields.desc()[other];
    lemma_modify_stays_inside(handle, old, mask, value);
    if fields.spec_update(index, mask, value, force) is Ok && neighbour.reg == handle.reg {
        let after = handle.spec_modify(mask, value, force).spec_result(old);
        lemma_disjoint_masks(
            field.range.msb,
            field.range.lsb,
            other_field.range.msb,
            other_field.range.lsb,
        );
        let ma = handle.mask;
        let mb = neighbour.mask;
        assert(after & mb == old & mb) by (bit_vector)
            requires
                after & !ma == old & !ma,
                ma & mb == 0,
        ;
    }
}

/// Storing a value in one field leaves every other field of the declaration
/// reading what it read before.
pub proof fn law_write_leaves_other_fields(
    fields: Fields,
    index: int,
    value: u32,
    old: u32,
    force: bool,
    other: int,
)
    requires
        fields.wf(),
        0 <= index < fields.desc().len(),
        0 <= other < fields.desc().len(),
        other != index,
    ensures
        fields.spec_write(index, value, force) matches Ok(request) ==> (fields.handles()[other].reg
            == request.spec_reg() ==> fields.handles()[other].spec_extract(
            request.spec_result(old),
        ) == fields.handles()[other].spec_extract(old)),
{
    let handle = fields.handles()[index];
    let field = fields.desc()[index];
    let neighbour = fields.handles()[other];
    let other_field = fields.desc()[other];
    if fields.spec_write(index, value, force) is Ok && neighbour.reg == handle.reg {
        let after = handle.spec_store(value, force).spec_result(old);
        lemma_update_keeps_unmasked(old, handle.mask, value << handle.shift);
        lemma_disjoint_masks(
            field.range.msb,
            field.range.lsb,
            other_field.range.msb,
            other_field.range.lsb,
        );
        let ma = handle.mask;
        let mb = neighbour.mask;
        assert(after & mb == old & mb) by (bit_vector)
            requires
                after & !ma == old & !ma,
                ma & mb == 0,
        ;
    }
}

} // verus!
