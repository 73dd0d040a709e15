//! What holds of the selectors that a regulator's registers carry.

use crate::bits::{lemma_genmask_lowest_bit, lemma_lowest_bit, spec_genmask};
use crate::error::Error;
use crate::regmap::field::{lemma_store_then_extract, FieldHandle};
use crate::regmap::request::merge_bits;
use crate::regmap::request::Request;
use crate::regulator::driver::desc::{
    is_current_pick, lemma_current_pick_exists, lemma_current_pick_unique, no_current_within,
    spec_place, within_limit, Desc,
};
use crate::regulator::driver::RegulatorDev;
use vstd::prelude::*;

verus! {

/// A selector that fits under a mask of contiguous bits is placed at the
/// mask's lowest bit, and reading the bits under the mask of a register that
/// was updated with the placed selector yields the selector, whatever the
/// register held before.
pub proof fn law_place_then_read(mask: u32, msb: u32, lsb: u32, selector: u32, old: u32)
    requires
        lsb <= msb,
        msb < 32,
        mask == spec_genmask(msb, lsb),
        selector <= mask >> lsb,
    ensures
        spec_place(mask, selector) == Ok::<u32, Error>(selector << lsb),
        (merge_bits(old, mask, selector << lsb) & mask) >> lsb == selector,
{
    lemma_genmask_lowest_bit(msb, lsb);
    lemma_lowest_bit(mask);
    let handle = FieldHandle { reg: 0, shift: lsb, mask, readable: true, writable: true };
    lemma_store_then_extract(handle, msb, old, selector);
}

/// Selecting a voltage and then reading the selector yields it.
pub proof fn law_voltage_selector_round_trip(desc: Desc, msb: u32, lsb: u32, selector: u32, old: u32)
    requires
        lsb <= msb,
        msb < 32,
        desc.vsel_mask == spec_genmask(msb, lsb),
        selector <= desc.vsel_mask >> lsb,
        selector <= i32::MAX,
    ensures
        spec_place(desc.vsel_mask, selector) matches Ok(bits) && desc.spec_voltage_sel(
            merge_bits(old, desc.vsel_mask, bits),
        ) == Ok::<i32, Error>(selector as i32),
{
    law_place_then_read(desc.vsel_mask, msb, lsb, selector, old);
    lemma_genmask_lowest_bit(msb, lsb);
    lemma_lowest_bit(desc.vsel_mask);
}

/// Limiting the current and then reading the limit yields the current that
/// was picked: the largest of the table that does not exceed the limit.
pub proof fn law_current_limit_round_trip(
    desc: Desc,
    msb: u32,
    lsb: u32,
    max_ua: i32,
    pick: int,
    old: u32,
)
    requires
        lsb <= msb,
        msb < 32,
        desc.csel_mask == spec_genmask(msb, lsb),
        is_current_pick(desc.curr_table@, max_ua, pick),
        pick <= desc.csel_mask >> lsb,
    ensures
        spec_place(desc.csel_mask, pick as u32) matches Ok(bits) && desc.spec_current_limit(
            merge_bits(old, desc.csel_mask, bits),
        ) == Ok::<i32, Error>(desc.curr_table@[pick] as i32),
        desc.curr_table@[pick] <= max_ua,
{
    law_place_then_read(desc.csel_mask, msb, lsb, pick as u32, old);
    lemma_genmask_lowest_bit(msb, lsb);
    lemma_lowest_bit(desc.csel_mask);
}

/// A request for a current limit is refused as unsupported exactly when
/// every current of the table exceeds the limit; else it is what the pick
/// gives, and the table has exactly one pick.
pub proof fn law_set_current_limit(rdev: RegulatorDev, max_ua: i32)
    ensures
        no_current_within(rdev.desc().curr_table@, max_ua) ==> rdev.spec_set_current_limit(max_ua)
            == Err::<Request, Error>(Error::Unsupported),
        !no_current_within(rdev.desc().curr_table@, max_ua) ==> exists|pick: int|
            is_current_pick(rdev.desc().curr_table@, max_ua, pick),
        forall|pick: int|
            is_current_pick(rdev.desc().curr_table@, max_ua, pick) ==> rdev.spec_set_current_limit(
                max_ua,
            ) == #[trigger] rdev.spec_set_current_selector(pick),
{
    let table = rdev.desc().curr_table@;
    if !no_current_within(table, max_ua) {
        lemma_current_pick_exists(table, max_ua);
    }
    assert forall|pick: int| is_current_pick(table, max_ua, pick) implies rdev.spec_set_current_limit(
        max_ua,
    ) == #[trigger] rdev.spec_set_current_selector(pick) by {
        let chosen = choose|chosen: int| is_current_pick(table, max_ua, chosen);
        lemma_current_pick_unique(table, max_ua, pick, chosen);
    }
}

/// On a table in ascending order the request succeeds in picking a current
/// exactly when the smallest current does not exceed the limit.
pub proof fn law_ascending_table(table: Seq<u32>, max_ua: i32)
    requires
        table.len() > 0,
        forall|i: int, j: int| 0 <= i <= j < table.len() ==> table[i] <= table[j],
    ensures
        no_current_within(table, max_ua) <==> table[0] > max_ua,
{
    if table[0] > max_ua {
        assert forall|j: int| 0 <= j < table.len() implies !within_limit(
            #[trigger] table[j],
            max_ua,
        ) by {
            assert(table[0] <= table[j]);
        }
    } else {
        assert(within_limit(table[0], max_ua));
    }
}

/// The linear mapping is monotonic: of two selectors that both have a
/// voltage, the larger selector has the larger voltage or the same.
pub proof fn law_list_voltage_monotonic(desc: Desc, low: u32, high: u32)
    requires
        low <= high,
        desc.spec_list_voltage_linear(low) is Ok,
        desc.spec_list_voltage_linear(high) is Ok,
    ensures
        desc.spec_list_voltage_linear(low)->Ok_0 <= desc.spec_list_voltage_linear(high)->Ok_0,
        desc.spec_list_voltage_linear(low)->Ok_0 >= 0,
{
    if low >= desc.linear_min_sel {
        assert((low - desc.linear_min_sel) * desc.uv_step <= (high - desc.linear_min_sel)
            * desc.uv_step) by (nonlinear_arith)
            requires
                low <= high,
                desc.linear_min_sel <= low,
                desc.uv_step >= 0,
        ;
        assert((low - desc.linear_min_sel) * desc.uv_step >= 0) by (nonlinear_arith)
            requires
                desc.linear_min_sel <= low,
                desc.uv_step >= 0,
        ;
    } else if high >= desc.linear_min_sel {
        assert((high - desc.linear_min_sel) * desc.uv_step >= 0) by (nonlinear_arith)
            requires
                desc.linear_min_sel <= high,
                desc.uv_step >= 0,
        ;
    }
}

} // verus!
