//! The register map of the NCV6336.

use crate::error::Error;
use crate::regmap::access::{READ, RW};
use crate::regmap::desc::{decl_valid, BitRange, FieldDesc, FieldKind, FieldMode, FieldsDesc};
use vstd::prelude::*;

verus! {

/// Product identifier.
pub const PID_VALUE: usize = 0;

/// Revision identifier.
pub const RID_VALUE: usize = 1;

/// Feature identifier.
pub const FID_VALUE: usize = 2;

/// Output voltage selector of the suspend state.
pub const PROGVSEL1_VOUTVSEL1: usize = 3;

/// Enable bit of the suspend state.
pub const PROGVSEL1_ENVSEL1: usize = 4;

/// Output voltage selector of the active state.
pub const PROGVSEL0_VOUTVSEL0: usize = 5;

/// Enable bit of the active state.
pub const PROGVSEL0_ENVSEL0: usize = 6;

/// Active discharge.
pub const PGOOD_DISCHG: usize = 7;

/// Source of the voltage selection.
pub const COMMAND_VSELGT: usize = 8;

/// Operating mode of the suspend state.
pub const COMMAND_PWMVSEL1: usize = 9;

/// Operating mode of the active state.
pub const COMMAND_PWMVSEL0: usize = 10;

/// Rearming after a thermal shutdown.
pub const LIMCONF_REARM: usize = 11;

/// Reset of the status register.
pub const LIMCONF_RSTSTATUS: usize = 12;

/// Thermal pre-warning threshold.
pub const LIMCONF_TPWTH: usize = 13;

/// Inductor peak current.
pub const LIMCONF_IPEAK: usize = 14;

/// Number of fields of the chip.
pub const FIELD_COUNT: usize = 15;

/// Address of the voltage register of the suspend state.
pub const PROGVSEL1: u32 = 0x10;

/// Address of the voltage register of the active state.
pub const PROGVSEL0: u32 = 0x11;

/// Address of the power-good register.
pub const PGOOD: u32 = 0x12;

/// Address of the command register.
pub const COMMAND: u32 = 0x14;

/// Address of the limits register.
pub const LIMCONF: u32 = 0x16;

/// What the field at a position of the declaration is.
pub struct Layout {
    /// Where the field lies.
    pub range: BitRange,
    /// The access set of the field's register.
    pub policy: u32,
    /// Which accessors the field offers.
    pub mode: FieldMode,
    /// How the field's bits are read.
    pub kind: FieldKind,
}

/// The field at position `index` of the chip's declaration.
pub open spec fn layout(index: int) -> Layout {
    let rw = FieldMode::ReadWrite;
    if index == 0 {
        Layout {
            range: BitRange { reg: 0x3, lsb: 0, msb: 7 },
            policy: READ,
            mode: FieldMode::ReadOnly,
            kind: FieldKind::Raw,
        }
    } else if index == 1 {
        Layout {
            range: BitRange { reg: 0x4, lsb: 0, msb: 7 },
            policy: READ,
            mode: FieldMode::ReadOnly,
            kind: FieldKind::Raw,
        }
    } else if index == 2 {
        Layout {
            range: BitRange { reg: 0x5, lsb: 0, msb: 7 },
            policy: READ,
            mode: FieldMode::ReadOnly,
            kind: FieldKind::Raw,
        }
    } else if index == 3 {
        Layout {
            range: BitRange { reg: PROGVSEL1, lsb: 0, msb: 6 },
            policy: RW,
            mode: rw,
            kind: FieldKind::Raw,
        }
    } else if index == 4 {
        Layout {
            range: BitRange { reg: PROGVSEL1, lsb: 7, msb: 7 },
            policy: RW,
            mode: rw,
            kind: FieldKind::Bit,
        }
    } else if index == 5 {
        Layout {
            range: BitRange { reg: PROGVSEL0, lsb: 0, msb: 6 },
            policy: RW,
            mode: rw,
            kind: FieldKind::Raw,
        }
    } else if index == 6 {
        Layout {
            range: BitRange { reg: PROGVSEL0, lsb: 7, msb: 7 },
            policy: RW,
            mode: rw,
            kind: FieldKind::Bit,
        }
    } else if index == 7 {
        Layout {
            range: BitRange { reg: PGOOD, lsb: 4, msb: 4 },
            policy: RW,
            mode: rw,
            kind: FieldKind::Bit,
        }
    } else if index == 8 {
        Layout {
            range: BitRange { reg: COMMAND, lsb: 0, msb: 0 },
            policy: RW,
            mode: rw,
            kind: FieldKind::Bit,
        }
    } else if index == 9 {
        Layout {
            range: BitRange { reg: COMMAND, lsb: 6, msb: 6 },
            policy: RW,
            mode: rw,
            kind: FieldKind::Bit,
        }
    } else if index == 10 {
        Layout {
            range: BitRange { reg: COMMAND, lsb: 7, msb: 7 },
            policy: RW,
            mode: rw,
            kind: FieldKind::Bit,
        }
    } else if index == 11 {
        Layout {
            range: BitRange { reg: LIMCONF, lsb: 0, msb: 0 },
            policy: RW,
            mode: rw,
            kind: FieldKind::Bit,
        }
    } else if index == 12 {
        Layout {
            range: BitRange { reg: LIMCONF, lsb: 1, msb: 1 },
            policy: RW,
            mode: rw,
            kind: FieldKind::Bit,
        }
    } else if index == 13 {
        Layout {
            range: BitRange { reg: LIMCONF, lsb: 4, msb: 5 },
            policy: RW,
            mode: rw,
            kind: FieldKind::Enum,
        }
    } else {
        Layout {
            range: BitRange { reg: LIMCONF, lsb: 6, msb: 7 },
            policy: RW,
            mode: rw,
            kind: FieldKind::Enum,
        }
    }
}

/// The descriptors are those of the chip: fifteen fields, each identified by
/// its position, laid out as `layout` says; the two enumerations have the
/// values 0 to 3.
pub open spec fn is_chip_declaration(fields: Seq<FieldDesc>) -> bool {
    &&& fields.len() == FIELD_COUNT
    &&& forall|i: int|
        0 <= i < fields.len() ==> {
            &&& (#[trigger] fields[i]).id == i
            &&& fields[i].range == layout(i).range
            &&& fields[i].policy == layout(i).policy
            &&& fields[i].mode == layout(i).mode
            &&& fields[i].kind == layout(i).kind
            &&& fields[i].symbols@ == if layout(i).kind is Enum {
                seq![0u32, 1u32, 2u32, 3u32]
            } else {
                Seq::<u32>::empty()
            }
        }
}

fn raw(fields: &mut Vec<FieldDesc>, reg: u32, policy: u32, msb: u32, lsb: u32, mode: FieldMode)
    requires
        lsb <= msb < 32,
        old(fields)@.len() < FIELD_COUNT,
    ensures
        final(fields)@.len() == old(fields)@.len() + 1,
        forall|i: int| 0 <= i < old(fields)@.len() ==> final(fields)@[i] == old(fields)@[i],
        ({
            let field = final(fields)@[old(fields)@.len() as int];
            &&& field.id == old(fields)@.len()
            &&& field.range == (BitRange { reg, lsb, msb })
            &&& field.policy == policy
            &&& field.mode == mode
            &&& field.kind is Raw
            &&& field.symbols@ == Seq::<u32>::empty()
        }),
{
    let id = fields.len() as u32;
    fields.push(
        FieldDesc {
            id,
            range: BitRange { reg, lsb, msb },
            policy,
            mode,
            kind: FieldKind::Raw,
            symbols: Vec::new(),
        },
    );
}

fn bit(fields: &mut Vec<FieldDesc>, reg: u32, policy: u32, pos: u32, mode: FieldMode)
    requires
        pos < 32,
        old(fields)@.len() < FIELD_COUNT,
    ensures
        final(fields)@.len() == old(fields)@.len() + 1,
        forall|i: int| 0 <= i < old(fields)@.len() ==> final(fields)@[i] == old(fields)@[i],
        ({
            let field = final(fields)@[old(fields)@.len() as int];
            &&& field.id == old(fields)@.len()
            &&& field.range == (BitRange { reg, lsb: pos, msb: pos })
            &&& field.policy == policy
            &&& field.mode == mode
            &&& field.kind is Bit
            &&& field.symbols@ == Seq::<u32>::empty()
        }),
{
    let id = fields.len() as u32;
    fields.push(
        FieldDesc {
            id,
            range: BitRange { reg, lsb: pos, msb: pos },
            policy,
            mode,
            kind: FieldKind::Bit,
            symbols: Vec::new(),
        },
    );
}

fn two_bit_enum(fields: &mut Vec<FieldDesc>, reg: u32, policy: u32, msb: u32, lsb: u32, mode: FieldMode)
    requires
        lsb + 1 == msb,
        msb < 32,
        old(fields)@.len() < FIELD_COUNT,
    ensures
        final(fields)@.len() == old(fields)@.len() + 1,
        forall|i: int| 0 <= i < old(fields)@.len() ==> final(fields)@[i] == old(fields)@[i],
        ({
            let field = final(fields)@[old(fields)@.len() as int];
            &&& field.id == old(fields)@.len()
            &&& field.range == (BitRange { reg, lsb, msb })
            &&& field.policy == policy
            &&& field.mode == mode
            &&& field.kind is Enum
            &&& field.symbols@ == seq![0u32, 1u32, 2u32, 3u32]
        }),
{
    let id = fields.len() as u32;
    let mut symbols: Vec<u32> = Vec::new();
    symbols.push(0);
    symbols.push(1);
    symbols.push(2);
    symbols.push(3);
    fields.push(
        FieldDesc { id, range: BitRange { reg, lsb, msb }, policy, mode, kind: FieldKind::Enum, symbols },
    );
}

/// The masks of the chip's fields, as the accessors use them.
pub proof fn lemma_chip_masks()
    ensures
        layout(PROGVSEL1_VOUTVSEL1 as int).range.spec_mask() == 0x7f,
        layout(PROGVSEL1_ENVSEL1 as int).range.spec_mask() == 0x80,
        layout(PROGVSEL0_VOUTVSEL0 as int).range.spec_mask() == 0x7f,
        layout(PROGVSEL0_ENVSEL0 as int).range.spec_mask() == 0x80,
        layout(PGOOD_DISCHG as int).range.spec_mask() == 0x10,
        layout(COMMAND_VSELGT as int).range.spec_mask() == 0x01,
        layout(COMMAND_PWMVSEL1 as int).range.spec_mask() == 0x40,
        layout(COMMAND_PWMVSEL0 as int).range.spec_mask() == 0x80,
        layout(LIMCONF_TPWTH as int).range.spec_mask() == 0x30,
        layout(LIMCONF_IPEAK as int).range.spec_mask() == 0xc0,
{
    assert((0xffff_ffffu32 >> (31 - 6) as u32) & (0xffff_ffffu32 << 0u32) == 0x7f) by (bit_vector);
    assert((0xffff_ffffu32 >> (31 - 7) as u32) & (0xffff_ffffu32 << 7u32) == 0x80) by (bit_vector);
    assert((0xffff_ffffu32 >> (31 - 4) as u32) & (0xffff_ffffu32 << 4u32) == 0x10) by (bit_vector);
    assert((0xffff_ffffu32 >> (31 - 0) as u32) & (0xffff_ffffu32 << 0u32) == 0x01) by (bit_vector);
    assert((0xffff_ffffu32 >> (31 - 6) as u32) & (0xffff_ffffu32 << 6u32) == 0x40) by (bit_vector);
    assert((0xffff_ffffu32 >> (31 - 5) as u32) & (0xffff_ffffu32 << 4u32) == 0x30) by (bit_vector);
    assert((0xffff_ffffu32 >> (31 - 7) as u32) & (0xffff_ffffu32 << 6u32) == 0xc0) by (bit_vector);
}

/// Declares the fields of the chip.
pub fn registers() -> (decl: Result<FieldsDesc, Error>)
    ensures
        decl matches Ok(d) && is_chip_declaration(d@),
{
    let rw = FieldMode::ReadWrite;
    let ro = FieldMode::ReadOnly;
    let mut fields: Vec<FieldDesc> = Vec::new();
    raw(&mut fields, 0x3, READ, 7, 0, ro);
    raw(&mut fields, 0x4, READ, 7, 0, ro);
    raw(&mut fields, 0x5, READ, 7, 0, ro);
    raw(&mut fields, PROGVSEL1, RW, 6, 0, rw);
    bit(&mut fields, PROGVSEL1, RW, 7, rw);
    raw(&mut fields, PROGVSEL0, RW, 6, 0, rw);
    bit(&mut fields, PROGVSEL0, RW, 7, rw);
    bit(&mut fields, PGOOD, RW, 4, rw);
    bit(&mut fields, COMMAND, RW, 0, rw);
    bit(&mut fields, COMMAND, RW, 6, rw);
    bit(&mut fields, COMMAND, RW, 7, rw);
    bit(&mut fields, LIMCONF, RW, 0, rw);
    bit(&mut fields, LIMCONF, RW, 1, rw);
    two_bit_enum(&mut fields, LIMCONF, RW, 5, 4, rw);
    two_bit_enum(&mut fields, LIMCONF, RW, 7, 6, rw);
    proof {
        lemma_chip_declaration_valid(fields@);
    }
    FieldsDesc::new(fields)
}

/// The chip's descriptors form a declaration: no identifier occurs twice and
/// no two fields share a bit.
pub proof fn lemma_chip_declaration_valid(fields: Seq<FieldDesc>)
    requires
        is_chip_declaration(fields),
    ensures
        decl_valid(fields),
{
    lemma_chip_masks();
    assert(0x30u32 >> 4u32 == 3) by (bit_vector);
    assert(0xc0u32 >> 6u32 == 3) by (bit_vector);
}

} // verus!
