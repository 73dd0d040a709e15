//! Contiguous bit masks inside a 32-bit register value.

use vstd::prelude::*;

verus! {

/// Whether bit `i` of `v` is set.
pub open spec fn bit_is_set(v: u32, i: u32) -> bool {
    (v >> i) & 1 == 1
}

/// How many of the bits `0..n` of `v` are set.
pub open spec fn ones_below(v: u32, n: nat) -> nat
    decreases n,
{
    if n == 0 {
        0
    } else {
        ones_below(v, (n - 1) as nat) + if bit_is_set(v, (n - 1) as u32) {
            1nat
        } else {
            0nat
        }
    }
}

/// How many bits of `v` are set.
pub open spec fn count_ones(v: u32) -> nat {
    ones_below(v, 32)
}

/// The mask with exactly the bits `lsb..=msb` set.
pub open spec fn spec_genmask(msb: u32, lsb: u32) -> u32 {
    (0xffff_ffffu32 >> (31 - msb) as u32) & (0xffff_ffffu32 << lsb)
}

/// Bit `i` of `spec_genmask(msb, lsb)` is set exactly when `lsb <= i <= msb`.
pub proof fn lemma_genmask_bits(msb: u32, lsb: u32, i: u32)
    requires
        lsb <= msb,
        msb < 32,
        i < 32,
    ensures
        bit_is_set(spec_genmask(msb, lsb), i) <==> lsb <= i <= msb,
{
    assert(((((0xffff_ffffu32 >> (31 - msb) as u32) & (0xffff_ffffu32 << lsb)) >> i) & 1 == 1) <==> (
    lsb <= i && i <= msb)) by (bit_vector)
        requires
            lsb <= msb,
            msb < 32,
            i < 32,
    ;
}

proof fn lemma_genmask_ones_below(msb: u32, lsb: u32, n: nat)
    requires
        lsb <= msb,
        msb < 32,
        n <= 32,
    ensures
        ones_below(spec_genmask(msb, lsb), n) == if n <= lsb {
            0
        } else if n <= msb + 1 {
            n - lsb
        } else {
            msb - lsb + 1
        },
    decreases n,
{
    if n > 0 {
        lemma_genmask_ones_below(msb, lsb, (n - 1) as nat);
        lemma_genmask_bits(msb, lsb, (n - 1) as u32);
    }
}

/// A field mask has `msb - lsb + 1` set bits; they are the bits `lsb..=msb`,
/// so they are contiguous and the lowest of them is bit `lsb`.
pub proof fn lemma_genmask_shape(msb: u32, lsb: u32)
    requires
        lsb <= msb,
        msb < 32,
    ensures
        count_ones(spec_genmask(msb, lsb)) == msb - lsb + 1,
        forall|i: u32| i < 32 ==> (#[trigger] bit_is_set(spec_genmask(msb, lsb), i) <==> lsb <= i <= msb),
{
    lemma_genmask_ones_below(msb, lsb, 32);
    assert forall|i: u32| i < 32 implies (#[trigger] bit_is_set(spec_genmask(msb, lsb), i) <==> lsb <= i
        <= msb) by {
        lemma_genmask_bits(msb, lsb, i);
    }
}

/// Builds the mask whose set bits are `lsb..=msb`.
pub fn genmask(msb: u32, lsb: u32) -> (mask: u32)
    requires
        lsb <= msb,
        msb < 32,
    ensures
        mask == spec_genmask(msb, lsb),
        count_ones(mask) == msb - lsb + 1,
        forall|i: u32| i < 32 ==> (#[trigger] bit_is_set(mask, i) <==> lsb <= i <= msb),
{
    proof {
        lemma_genmask_shape(msb, lsb);
    }
    let high: u32 = 0xffff_ffffu32 >> (31 - msb);
    let low: u32 = 0xffff_ffffu32 << lsb;
    high & low
}

/// The position of the lowest set bit of `v` among the bits `from..32`, or 32
/// where none of them is set.
pub open spec fn first_set_from(v: u32, from: nat) -> nat
    decreases 32 - from,
{
    if from >= 32 {
        32
    } else if bit_is_set(v, from as u32) {
        from
    } else {
        first_set_from(v, from + 1)
    }
}

/// The position of the lowest set bit of `v`, or 32 where `v` is zero.
pub open spec fn lowest_bit(v: u32) -> nat {
    first_set_from(v, 0)
}

proof fn lemma_first_set_bounds(v: u32, from: nat)
    requires
        from <= 32,
    ensures
        from <= first_set_from(v, from) <= 32,
        first_set_from(v, from) < 32 ==> bit_is_set(v, first_set_from(v, from) as u32),
        forall|i: u32| from <= i < first_set_from(v, from) ==> !#[trigger] bit_is_set(v, i),
    decreases 32 - from,
{
    if from < 32 && !bit_is_set(v, from as u32) {
        lemma_first_set_bounds(v, from + 1);
    }
}

/// The bits of `v` below position `width`.
spec fn low_part(v: u32, width: u32) -> u64 {
    (v as u64) & (((1u64 << width) - 1) as u64)
}

proof fn lemma_low_part_clear(v: u32, width: u32)
    requires
        width <= 32,
        forall|i: u32| i < width ==> !#[trigger] bit_is_set(v, i),
    ensures
        low_part(v, width) == 0,
    decreases width,
{
    if width == 0 {
        assert((v as u64) & (((1u64 << 0u32) - 1) as u64) == 0) by (bit_vector);
    } else {
        let below = (width - 1) as u32;
        lemma_low_part_clear(v, below);
        assert(!bit_is_set(v, below));
        assert((v as u64) & (((1u64 << width) - 1) as u64) == 0) by (bit_vector)
            requires
                width == below + 1,
                below < 32,
                (v as u64) & (((1u64 << below) - 1) as u64) == 0,
                (v >> below) & 1 != 1,
        ;
    }
}

proof fn lemma_some_bit_set(v: u32)
    ensures
        v != 0 ==> exists|i: u32| i < 32 && bit_is_set(v, i),
{
    if forall|i: u32| i < 32 ==> !#[trigger] bit_is_set(v, i) {
        lemma_low_part_clear(v, 32);
        assert(v == 0) by (bit_vector)
            requires
                (v as u64) & (((1u64 << 32u32) - 1) as u64) == 0,
        ;
    }
}

/// The lowest set bit of a value is set, no bit below it is, and only zero has none.
pub proof fn lemma_lowest_bit(v: u32)
    ensures
        lowest_bit(v) <= 32,
        lowest_bit(v) < 32 ==> bit_is_set(v, lowest_bit(v) as u32),
        forall|i: u32| i < lowest_bit(v) ==> !#[trigger] bit_is_set(v, i),
        lowest_bit(v) == 32 <==> v == 0,
{
    lemma_first_set_bounds(v, 0);
    if lowest_bit(v) == 32 {
        lemma_some_bit_set(v);
    } else {
        let at = lowest_bit(v) as u32;
        assert(v != 0) by (bit_vector)
            requires
                at < 32,
                (v >> at) & 1 == 1,
        ;
    }
}

/// The lowest set bit of a field mask is the field's lowest bit.
pub proof fn lemma_genmask_lowest_bit(msb: u32, lsb: u32)
    requires
        lsb <= msb,
        msb < 32,
    ensures
        lowest_bit(spec_genmask(msb, lsb)) == lsb,
{
    let mask = spec_genmask(msb, lsb);
    lemma_lowest_bit(mask);
    lemma_genmask_bits(msb, lsb, lsb);
    if lowest_bit(mask) < lsb {
        lemma_genmask_bits(msb, lsb, lowest_bit(mask) as u32);
    }
}

/// Finds the position of the lowest set bit of `v`; 32 where `v` is zero.
pub fn lowest_set_bit(v: u32) -> (position: u32)
    ensures
        position == lowest_bit(v),
        position <= 32,
{
    let mut position: u32 = 0;
    while position < 32 && (v >> position) & 1 == 0
        invariant
            position <= 32,
            first_set_from(v, position as nat) == lowest_bit(v),
        decreases 32 - position,
    {
        position += 1;
    }
    assert(position < 32 ==> (v >> position) & 1 == 1) by {
        let shifted = v >> position;
        assert(shifted & 1 == 0 || shifted & 1 == 1) by (bit_vector);
    }
    position
}

} // verus!
