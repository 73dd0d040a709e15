//! What holds of every run of the regulator's operations.

use crate::error::Error;
use crate::ncv6336::register::{is_chip_declaration, layout, COMMAND, COMMAND_PWMVSEL0};
use crate::ncv6336::{
    is_chip_desc, spec_advance, spec_start, spec_suspend_selector, Call, Pending, MIN_UV, UV_STEP,
};
use crate::regmap::field::{law_bit_round_trip, Fields};
use crate::regmap::request::{merge_bits, Request};
use crate::regulator::driver::desc::{is_current_pick, no_current_within, within_limit, Desc};
use crate::regulator::driver::{RegulatorDev, Reply, Step};
use crate::regulator::Mode;
use vstd::prelude::*;

verus! {

/// Setting the normal or the fast mode and then asking for the mode answers
/// that mode, whatever the command register held before; any other mode is
/// refused as unsupported without a transaction, so the bit stays as it is.
pub proof fn law_mode_round_trip(fields: Fields, rdev: RegulatorDev, mode: Mode, old: u32)
    requires
        fields.wf(),
        is_chip_declaration(fields.desc()),
        fields.handles()[COMMAND_PWMVSEL0 as int].readable,
        fields.handles()[COMMAND_PWMVSEL0 as int].writable,
    ensures
        mode == Mode::Fast || mode == Mode::Normal ==> {
            let set = spec_start(Some(fields), Pending::Idle, rdev, Call::SetMode(mode));
            let get = spec_start(Some(fields), Pending::Idle, rdev, Call::GetMode);
            let after = (set.1->Issue_0).spec_result(old);
            &&& set.0 == Pending::Ack
            &&& set.1 is Issue
            &&& (set.1->Issue_0).spec_reg() == COMMAND
            &&& spec_advance(Some(fields), set.0, rdev, Ok(after)) == (
                Pending::Idle,
                Step::Done(Reply::Unit),
            )
            &&& get == (Pending::Mode, Step::Issue(Request::Read { reg: COMMAND }))
            &&& spec_advance(Some(fields), get.0, rdev, Ok(after)) == (
                Pending::Idle,
                Step::Done(Reply::Mode(mode)),
            )
        },
        mode != Mode::Fast && mode != Mode::Normal ==> spec_start(
            Some(fields),
            Pending::Idle,
            rdev,
            Call::SetMode(mode),
        ) == (Pending::Idle, Step::Failed(Error::Unsupported)),
{
    let index = COMMAND_PWMVSEL0 as int;
    let handle = fields.handles()[index];
    let field = fields.desc()[index];
    if mode == Mode::Fast {
        law_bit_round_trip(fields, index, true, old, false);
    } else if mode == Mode::Normal {
        law_bit_round_trip(fields, index, false, old, false);
    }
}

/// The chip's voltages: selector `s` below 128 stands for 600 mV plus `s`
/// steps of 6.25 mV, and no selector from 128 on is supported.
pub proof fn law_list_voltage(desc: Desc, selector: u32)
    requires
        is_chip_desc(desc),
    ensures
        selector < 128 ==> desc.spec_list_voltage_linear(selector) == Ok::<i32, Error>(
            (600000 + selector * 6250) as i32,
        ),
        selector >= 128 ==> desc.spec_list_voltage_linear(selector) == Err::<i32, Error>(
            Error::Unsupported,
        ),
{
    if selector < 128 {
        assert(selector * 6250 <= 127 * 6250) by (nonlinear_arith)
            requires
                selector < 128,
        ;
    }
}

/// The selector written for a suspend voltage stands for the lowest voltage
/// of the grid that is not below the voltage asked for: it is never rounded down.
pub proof fn law_suspend_voltage_rounds_up(uv: i32)
    ensures
        MIN_UV + spec_suspend_selector(uv) * UV_STEP >= uv,
        MIN_UV + (spec_suspend_selector(uv) - 1) * UV_STEP < uv,
{
    let distance = MIN_UV - uv;
    let quotient = distance / (UV_STEP as int);
}

/// Enabling the regulator and then asking whether it is enabled answers
/// yes, and disabling it and then asking answers no, whatever the voltage
/// register held before; neither changes the voltage selector.
pub proof fn law_enable_round_trip(desc: Desc, old: u32)
    requires
        is_chip_desc(desc),
    ensures
        desc.spec_is_enabled(merge_bits(old, desc.enable_mask, desc.spec_enable_value())),
        !desc.spec_is_enabled(merge_bits(old, desc.enable_mask, desc.spec_disable_value())),
        merge_bits(old, desc.enable_mask, desc.spec_enable_value()) & desc.vsel_mask == old
            & desc.vsel_mask,
        merge_bits(old, desc.enable_mask, desc.spec_disable_value()) & desc.vsel_mask == old
            & desc.vsel_mask,
{
    assert((((old & !0x80u32) | (0x80u32 & 0x80u32)) & 0x80u32) == 0x80u32) by (bit_vector);
    assert((((old & !0x80u32) | (0u32 & 0x80u32)) & 0x80u32) == 0u32) by (bit_vector);
    assert(((old & !0x80u32) | (0x80u32 & 0x80u32)) & 0x7fu32 == old & 0x7fu32) by (bit_vector);
    assert(((old & !0x80u32) | (0u32 & 0x80u32)) & 0x7fu32 == old & 0x7fu32) by (bit_vector);
}

/// The selector of the chip's largest peak current that does not exceed `max_ua`.
pub open spec fn chip_current_pick(max_ua: i32) -> int {
    if max_ua < 4000000 {
        0
    } else if max_ua < 4500000 {
        1
    } else if max_ua < 5000000 {
        2
    } else {
        3
    }
}

/// The chip limits the current to the largest of 3.5 A, 4 A, 4.5 A and 5 A
/// that does not exceed the limit asked for, whatever lower bound is asked
/// for, and supports no limit below 3.5 A.
pub proof fn law_chip_current_limit(desc: Desc, max_ua: i32)
    requires
        is_chip_desc(desc),
    ensures
        max_ua < 3500000 <==> no_current_within(desc.curr_table@, max_ua),
        max_ua >= 3500000 ==> is_current_pick(desc.curr_table@, max_ua, chip_current_pick(max_ua)),
{
    let table = desc.curr_table@;
    assert(table[0] == 3500000 && table[1] == 4000000 && table[2] == 4500000 && table[3]
        == 5000000);
    if max_ua >= 3500000 {
        assert(within_limit(table[0], max_ua));
    }
}

} // verus!
