//! The static description of a regulator and what follows from it alone.

use crate::bits::{lowest_bit, lowest_set_bit};
use crate::error::Error;
use crate::regulator::driver::Type;
use vstd::prelude::*;

verus! {

/// Linear Range Descriptor
#[derive(Clone, Copy, Debug, PartialEq, Eq, Structural)]
pub struct LinearRange {
    /// The value at the lowest selector of the range.
    pub min: u32,
    /// The lowest selector of the range.
    pub min_sel: u32,
    /// The highest selector of the range.
    pub max_sel: u32,
    /// The step between the values of two adjacent selectors.
    pub step: u32,
}

impl LinearRange {
    /// The range holds the selector.
    pub open spec fn contains(self, selector: u32) -> bool {
        self.min_sel <= selector <= self.max_sel
    }

    /// The value of a selector of the range.
    pub open spec fn value(self, selector: u32) -> int {
        self.min + (selector - self.min_sel) * self.step
    }
}

/// Regulator descriptor
#[derive(Debug)]
pub struct Desc {
    /// The regulator's name.
    pub name: &'static str,
    /// Whether the regulator regulates a voltage or a current.
    pub reg_type: Type,
    /// Register of the enable control.
    pub enable_reg: u32,
    /// Mask of the enable control.
    pub enable_mask: u32,
    /// Value of the control when the regulator is enabled.
    pub enable_val: u32,
    /// Value of the control when the regulator is disabled.
    pub disable_val: u32,
    /// Whether the two values above are swapped.
    pub enable_is_inverted: bool,
    /// Register of the active-discharge control.
    pub active_discharge_reg: u32,
    /// Mask of the active-discharge control.
    pub active_discharge_mask: u32,
    /// Value that switches active discharge on.
    pub active_discharge_on: u32,
    /// Value that switches active discharge off.
    pub active_discharge_off: u32,
    /// Register of the current selector.
    pub csel_reg: u32,
    /// Mask of the current selector.
    pub csel_mask: u32,
    /// The current limit of each selector, in microamperes.
    pub curr_table: Vec<u32>,
    /// Register of the voltage selector.
    pub vsel_reg: u32,
    /// Mask of the voltage selector.
    pub vsel_mask: u32,
    /// Number of selectors of the linear mapping.
    pub n_voltages: u32,
    /// Voltage of the lowest usable selector, in microvolts.
    pub min_uv: u32,
    /// Voltage step between two selectors, in microvolts.
    pub uv_step: u32,
    /// The lowest usable selector of the linear mapping.
    pub linear_min_sel: u32,
    /// The ranges of a piecewise linear mapping; empty for a linear one.
    pub linear_ranges: Vec<LinearRange>,
}

/// The current does not exceed the limit asked for.
pub open spec fn within_limit(value: u32, max_ua: i32) -> bool {
    value <= max_ua
}

/// The selector `selector` is the pick for the limit `max_ua`: its current
/// does not exceed the limit, no current of the table that does not exceed
/// the limit is larger, and among equal currents it is the last.
pub open spec fn is_current_pick(table: Seq<u32>, max_ua: i32, selector: int) -> bool {
    &&& 0 <= selector < table.len()
    &&& within_limit(table[selector], max_ua)
    &&& forall|j: int|
        0 <= j < table.len() && within_limit(#[trigger] table[j], max_ua) ==> table[j]
            <= table[selector]
    &&& forall|j: int|
        selector < j < table.len() && within_limit(#[trigger] table[j], max_ua) ==> table[j]
            < table[selector]
}

/// Every current of the table exceeds the limit.
pub open spec fn no_current_within(table: Seq<u32>, max_ua: i32) -> bool {
    forall|j: int| 0 <= j < table.len() ==> !within_limit(#[trigger] table[j], max_ua)
}

/// A table with a current that does not exceed the limit has a pick.
pub proof fn lemma_current_pick_exists(table: Seq<u32>, max_ua: i32)
    requires
        !no_current_within(table, max_ua),
    ensures
        exists|pick: int| is_current_pick(table, max_ua, pick),
    decreases table.len(),
{
    let rest = table.drop_last();
    let last = table.len() - 1;
    if no_current_within(rest, max_ua) {
        assert forall|j: int| 0 <= j < last implies !within_limit(#[trigger] table[j], max_ua) by {
            assert(rest[j] == table[j]);
        }
        assert(is_current_pick(table, max_ua, last));
    } else {
        lemma_current_pick_exists(rest, max_ua);
        let before = choose|pick: int| is_current_pick(rest, max_ua, pick);
        assert(rest[before] == table[before]);
        assert forall|j: int| 0 <= j < last implies rest[j] == #[trigger] table[j] by {}
        if within_limit(table[last], max_ua) && table[last] >= table[before] {
            assert(is_current_pick(table, max_ua, last));
        } else {
            assert(is_current_pick(table, max_ua, before));
        }
    }
}

/// A table has at most one pick for a limit.
pub proof fn lemma_current_pick_unique(table: Seq<u32>, max_ua: i32, one: int, other: int)
    requires
        is_current_pick(table, max_ua, one),
        is_current_pick(table, max_ua, other),
    ensures
        one == other,
{
}

/// The first range of `ranges` at or after position `from` that holds the selector.
pub open spec fn first_range(ranges: Seq<LinearRange>, selector: u32, from: int) -> Option<int>
    decreases ranges.len() - from,
{
    if from < 0 || from >= ranges.len() {
        None
    } else if ranges[from].contains(selector) {
        Some(from)
    } else {
        first_range(ranges, selector, from + 1)
    }
}

impl Desc {
    /// Create a new regulator descriptor
    pub fn new(name: &'static str, reg_type: Type) -> (desc: Desc)
        ensures
            desc.name == name,
            desc.reg_type == reg_type,
            desc.enable_reg == 0 && desc.enable_mask == 0 && desc.enable_val == 0
                && desc.disable_val == 0 && !desc.enable_is_inverted,
            desc.active_discharge_reg == 0 && desc.active_discharge_mask == 0
                && desc.active_discharge_on == 0 && desc.active_discharge_off == 0,
            desc.csel_reg == 0 && desc.csel_mask == 0 && desc.curr_table@.len() == 0,
            desc.vsel_reg == 0 && desc.vsel_mask == 0 && desc.n_voltages == 0 && desc.min_uv == 0
                && desc.uv_step == 0 && desc.linear_min_sel == 0,
            desc.linear_ranges@.len() == 0,
    {
        Desc {
            name,
            reg_type,
            enable_reg: 0,
            enable_mask: 0,
            enable_val: 0,
            disable_val: 0,
            enable_is_inverted: false,
            active_discharge_reg: 0,
            active_discharge_mask: 0,
            active_discharge_on: 0,
            active_discharge_off: 0,
            csel_reg: 0,
            csel_mask: 0,
            curr_table: Vec::new(),
            vsel_reg: 0,
            vsel_mask: 0,
            n_voltages: 0,
            min_uv: 0,
            uv_step: 0,
            linear_min_sel: 0,
            linear_ranges: Vec::new(),
        }
    }

    /// Setup the register address, mask, and {en,dis}able values
    pub fn with_enable(self, reg: u32, mask: u32, en_val: u32, dis_val: u32) -> (desc: Desc)
        ensures
            desc == (Desc {
                enable_reg: reg,
                enable_mask: mask,
                enable_val: en_val,
                disable_val: dis_val,
                ..self
            }),
    {
        Desc { enable_reg: reg, enable_mask: mask, enable_val: en_val, disable_val: dis_val, ..self }
    }

    /// Setup the register address, mask, and {en,dis}able values. {En,Dis}able values are
    /// inverted, i.e. `dis_val` will be use to enable the regulator while `en_val` will be used
    /// to disable the regulator.
    pub fn with_inverted_enable(self, reg: u32, mask: u32, en_val: u32, dis_val: u32) -> (desc: Desc)
        ensures
            desc == (Desc {
                enable_reg: reg,
                enable_mask: mask,
                enable_val: en_val,
                disable_val: dis_val,
                enable_is_inverted: true,
                ..self
            }),
    {
        Desc {
            enable_reg: reg,
            enable_mask: mask,
            enable_val: en_val,
            disable_val: dis_val,
            enable_is_inverted: true,
            ..self
        }
    }

    /// Setup the active discharge regiter address, mask, on/off values.
    pub fn with_active_discharge(self, reg: u32, mask: u32, on: u32, off: u32) -> (desc: Desc)
        ensures
            desc == (Desc {
                active_discharge_reg: reg,
                active_discharge_mask: mask,
                active_discharge_on: on,
                active_discharge_off: off,
                ..self
            }),
    {
        Desc {
            active_discharge_reg: reg,
            active_discharge_mask: mask,
            active_discharge_on: on,
            active_discharge_off: off,
            ..self
        }
    }

    /// Setup the current selection regiater address, mask, and current table
    pub fn with_csel(self, reg: u32, mask: u32, table: Vec<u32>) -> (desc: Desc)
        ensures
            desc == (Desc { csel_reg: reg, csel_mask: mask, curr_table: table, ..self }),
    {
        Desc { csel_reg: reg, csel_mask: mask, curr_table: table, ..self }
    }

    /// Setup the voltage selector's register address and mask, and a linear
    /// mapping from selectors to voltages.
    pub fn with_linear_mapping(
        self,
        reg: u32,
        mask: u32,
        min_uv: u32,
        uv_step: u32,
        n_voltages: u32,
        linear_min_sel: u32,
    ) -> (desc: Desc)
        ensures
            desc == (Desc {
                vsel_reg: reg,
                vsel_mask: mask,
                n_voltages,
                min_uv,
                uv_step,
                linear_min_sel,
                ..self
            }),
    {
        Desc { vsel_reg: reg, vsel_mask: mask, n_voltages, min_uv, uv_step, linear_min_sel, ..self }
    }

    /// Setup the voltage selector's register address and mask, and a
    /// piecewise linear mapping from selectors to voltages.
    pub fn with_linear_ranges(self, reg: u32, mask: u32, ranges: Vec<LinearRange>) -> (desc: Desc)
        ensures
            desc == (Desc { vsel_reg: reg, vsel_mask: mask, linear_ranges: ranges, ..self }),
    {
        Desc { vsel_reg: reg, vsel_mask: mask, linear_ranges: ranges, ..self }
    }

    /// The value that the enable control takes to enable the regulator.
    pub open spec fn spec_enable_value(&self) -> u32 {
        if self.enable_is_inverted {
            self.disable_val
        } else if self.enable_val != 0 {
            self.enable_val
        } else {
            self.enable_mask
        }
    }

    /// The value that the enable control takes to disable the regulator.
    pub open spec fn spec_disable_value(&self) -> u32 {
        if !self.enable_is_inverted {
            self.disable_val
        } else if self.enable_val != 0 {
            self.enable_val
        } else {
            self.enable_mask
        }
    }

    /// Whether the regulator is enabled when the enable register holds `raw`.
    pub open spec fn spec_is_enabled(&self, raw: u32) -> bool {
        let control = raw & self.enable_mask;
        if self.enable_is_inverted {
            if self.enable_val != 0 {
                control != self.enable_val
            } else {
                control == 0
            }
        } else {
            if self.enable_val != 0 {
                control == self.enable_val
            } else {
                control != 0
            }
        }
    }

    /// The value that the enable control takes to enable the regulator: the
    /// enable value, or the whole mask where none is given; with inverted
    /// values, the disable value.
    pub fn enable_value(&self) -> (value: u32)
        ensures
            value == self.spec_enable_value(),
    {
        if self.enable_is_inverted {
            self.disable_val
        } else if self.enable_val != 0 {
            self.enable_val
        } else {
            self.enable_mask
        }
    }

    /// The value that the enable control takes to disable the regulator.
    pub fn disable_value(&self) -> (value: u32)
        ensures
            value == self.spec_disable_value(),
    {
        if !self.enable_is_inverted {
            self.disable_val
        } else if self.enable_val != 0 {
            self.enable_val
        } else {
            self.enable_mask
        }
    }

    /// Whether the regulator is enabled when the enable register holds `raw`.
    pub fn is_enabled(&self, raw: u32) -> (enabled: bool)
        ensures
            enabled == self.spec_is_enabled(raw),
    {
        let control: u32 = raw & self.enable_mask;
        if self.enable_is_inverted {
            if self.enable_val != 0 {
                control != self.enable_val
            } else {
                control == 0
            }
        } else {
            if self.enable_val != 0 {
                control == self.enable_val
            } else {
                control != 0
            }
        }
    }

    /// What `list_voltage_linear` answers.
    pub open spec fn spec_list_voltage_linear(&self, selector: u32) -> Result<i32, Error> {
        if selector >= self.n_voltages {
            Err(Error::Unsupported)
        } else if selector < self.linear_min_sel {
            Ok(0)
        } else if self.min_uv + (selector - self.linear_min_sel) * self.uv_step > i32::MAX {
            Err(Error::Unsupported)
        } else {
            Ok((self.min_uv + (selector - self.linear_min_sel) * self.uv_step) as i32)
        }
    }

    /// The voltage of a selector of the linear mapping, in microvolts: the
    /// lowest voltage plus one step for each selector above the lowest
    /// usable one. A selector below the lowest usable one is answered with
    /// zero; one at or beyond the number of selectors, or one whose voltage
    /// is beyond the range of the result, is not supported.
    pub fn list_voltage_linear(&self, selector: u32) -> (microvolts: Result<i32, Error>)
        ensures
            microvolts == self.spec_list_voltage_linear(selector),
            microvolts matches Ok(uv) ==> uv >= 0,
    {
        if selector >= self.n_voltages {
            return Err(Error::Unsupported);
        }
        if selector < self.linear_min_sel {
            return Ok(0);
        }
        let steps: u64 = (selector - self.linear_min_sel) as u64;
        assert(steps * self.uv_step <= 0xffff_ffff * 0xffff_ffff) by (nonlinear_arith)
            requires
                steps <= 0xffff_ffff,
                self.uv_step <= 0xffff_ffff,
        ;
        let microvolts: u64 = self.min_uv as u64 + steps * (self.uv_step as u64);
        if microvolts > 0x7fff_ffff {
            Err(Error::Unsupported)
        } else {
            Ok(microvolts as i32)
        }
    }

    /// What `list_voltage_linear_range` answers.
    pub open spec fn spec_list_voltage_linear_range(&self, selector: u32) -> Result<i32, Error> {
        match first_range(self.linear_ranges@, selector, 0) {
            None => Err(Error::Unsupported),
            Some(at) => if self.linear_ranges@[at].value(selector) > i32::MAX {
                Err(Error::Unsupported)
            } else {
                Ok(self.linear_ranges@[at].value(selector) as i32)
            },
        }
    }

    /// The voltage of a selector of the piecewise linear mapping, in
    /// microvolts: the value the first range that holds the selector gives
    /// it. A selector that no range holds, or one whose voltage is beyond
    /// the range of the result, is not supported.
    pub fn list_voltage_linear_range(&self, selector: u32) -> (microvolts: Result<i32, Error>)
        ensures
            microvolts == self.spec_list_voltage_linear_range(selector),
            microvolts matches Ok(uv) ==> uv >= 0,
    {
        let mut i: usize = 0;
        while i < self.linear_ranges.len()
            invariant
                i <= self.linear_ranges@.len(),
                first_range(self.linear_ranges@, selector, 0) == first_range(
                    self.linear_ranges@,
                    selector,
                    i as int,
                ),
            decreases self.linear_ranges@.len() - i,
        {
            let range = self.linear_ranges[i];
            if range.min_sel <= selector && selector <= range.max_sel {
                let steps: u64 = (selector - range.min_sel) as u64;
                assert(steps * range.step <= 0xffff_ffff * 0xffff_ffff) by (nonlinear_arith)
                    requires
                        steps <= 0xffff_ffff,
                        range.step <= 0xffff_ffff,
                ;
                let microvolts: u64 = range.min as u64 + steps * (range.step as u64);
                if microvolts > 0x7fff_ffff {
                    return Err(Error::Unsupported);
                } else {
                    return Ok(microvolts as i32);
                }
            }
            i += 1;
        }
        Err(Error::Unsupported)
    }

    /// Whether the mapping in force has the selector.
    pub open spec fn spec_has_selector(&self, selector: u32) -> bool {
        if self.linear_ranges@.len() > 0 {
            first_range(self.linear_ranges@, selector, 0) is Some
        } else {
            selector < self.n_voltages
        }
    }

    /// Tests whether the mapping in force has the selector: with ranges,
    /// whether one of them holds it; else whether it lies below the number of
    /// selectors.
    pub fn has_selector(&self, selector: u32) -> (has: bool)
        ensures
            has == self.spec_has_selector(selector),
    {
        if self.linear_ranges.len() > 0 {
            let mut i: usize = 0;
            while i < self.linear_ranges.len()
                invariant
                    i <= self.linear_ranges@.len(),
                    first_range(self.linear_ranges@, selector, 0) == first_range(
                        self.linear_ranges@,
                        selector,
                        i as int,
                    ),
                decreases self.linear_ranges@.len() - i,
            {
                let range = self.linear_ranges[i];
                if range.min_sel <= selector && selector <= range.max_sel {
                    return true;
                }
                i += 1;
            }
            false
        } else {
            selector < self.n_voltages
        }
    }

    /// Picks the selector of the current limit for the limit `max_ua`: the
    /// largest current of the table that does not exceed the limit, the last
    /// one among equals. Where every current of the table exceeds the limit,
    /// the request is not supported.
    pub fn current_limit_selector(&self, max_ua: i32) -> (selector: Result<usize, Error>)
        ensures
            selector is Err <==> no_current_within(self.curr_table@, max_ua),
            selector matches Ok(s) ==> is_current_pick(self.curr_table@, max_ua, s as int),
            selector matches Err(e) ==> e == Error::Unsupported,
    {
        let mut best: Option<usize> = None;
        let mut i: usize = 0;
        while i < self.curr_table.len()
            invariant
                i <= self.curr_table@.len(),
                best matches Some(b) ==> is_current_pick(
                    self.curr_table@.take(i as int),
                    max_ua,
                    b as int,
                ),
                best is None ==> no_current_within(self.curr_table@.take(i as int), max_ua),
            decreases self.curr_table@.len() - i,
        {
            let value = self.curr_table[i];
            let ghost before = self.curr_table@.take(i as int);
            let ghost after = self.curr_table@.take(i + 1);
            assert(forall|j: int| 0 <= j < i ==> before[j] == #[trigger] after[j]);
            if value as i64 <= max_ua as i64 {
                match best {
                    Some(b) => {
                        if value >= self.curr_table[b] {
                            best = Some(i);
                        }
                    },
                    None => {
                        best = Some(i);
                    },
                }
            }
            i += 1;
        }
        assert(self.curr_table@.take(i as int) =~= self.curr_table@);
        match best {
            Some(b) => {
                assert(within_limit(self.curr_table@[b as int], max_ua));
                Ok(b)
            },
            None => Err(Error::Unsupported),
        }
    }

    /// What a read of the current selector means when the register holds
    /// `raw`: the current of the table at the selector found under the mask.
    pub open spec fn spec_current_limit(&self, raw: u32) -> Result<i32, Error> {
        if self.csel_mask == 0 {
            Err(Error::InvalidArgument)
        } else {
            let selector = (raw & self.csel_mask) >> lowest_bit(self.csel_mask) as u32;
            if selector >= self.curr_table@.len() || self.curr_table@[selector as int] > i32::MAX {
                Err(Error::DecodeError)
            } else {
                Ok(self.curr_table@[selector as int] as i32)
            }
        }
    }

    /// Reads the current limit out of the value `raw` of the current
    /// selector's register. A selector beyond the table, or a current beyond
    /// the range of the result, is a decode error; a descriptor without a
    /// selector mask is an invalid argument.
    pub fn current_limit(&self, raw: u32) -> (microamps: Result<i32, Error>)
        ensures
            microamps == self.spec_current_limit(raw),
    {
        if self.csel_mask == 0 {
            return Err(Error::InvalidArgument);
        }
        proof {
            crate::bits::lemma_lowest_bit(self.csel_mask);
        }
        let shift = lowest_set_bit(self.csel_mask);
        let selector: u32 = (raw & self.csel_mask) >> shift;
        if selector as usize >= self.curr_table.len() {
            return Err(Error::DecodeError);
        }
        let value = self.curr_table[selector as usize];
        if value > 0x7fff_ffff {
            Err(Error::DecodeError)
        } else {
            Ok(value as i32)
        }
    }

    /// What a read of the voltage selector means when the register holds `raw`.
    pub open spec fn spec_voltage_sel(&self, raw: u32) -> Result<i32, Error> {
        if self.vsel_mask == 0 {
            Err(Error::InvalidArgument)
        } else {
            let selector = (raw & self.vsel_mask) >> lowest_bit(self.vsel_mask) as u32;
            if selector > i32::MAX {
                Err(Error::DecodeError)
            } else {
                Ok(selector as i32)
            }
        }
    }

    /// Reads the voltage selector out of the value `raw` of its register:
    /// the bits under the selector mask, shifted down. A selector beyond the
    /// range of the result is a decode error; a descriptor without a
    /// selector mask is an invalid argument.
    pub fn voltage_sel(&self, raw: u32) -> (selector: Result<i32, Error>)
        ensures
            selector == self.spec_voltage_sel(raw),
            selector matches Ok(s) ==> s >= 0,
    {
        if self.vsel_mask == 0 {
            return Err(Error::InvalidArgument);
        }
        proof {
            crate::bits::lemma_lowest_bit(self.vsel_mask);
        }
        let shift = lowest_set_bit(self.vsel_mask);
        let selector: u32 = (raw & self.vsel_mask) >> shift;
        if selector > 0x7fff_ffff {
            Err(Error::DecodeError)
        } else {
            Ok(selector as i32)
        }
    }
}

/// What placing `selector` under a selector mask gives: the selector shifted
/// up to the mask's lowest bit. A zero mask is an invalid argument and a
/// selector that does not fit under the mask is too wide.
pub open spec fn spec_place(mask: u32, selector: u32) -> Result<u32, Error> {
    if mask == 0 {
        Err(Error::InvalidArgument)
    } else if selector > mask >> lowest_bit(mask) as u32 {
        Err(Error::ValueTooWide)
    } else {
        Ok(selector << lowest_bit(mask) as u32)
    }
}

/// Shifts `selector` up to the lowest bit of `mask`.
pub fn place(mask: u32, selector: u32) -> (bits: Result<u32, Error>)
    ensures
        bits == spec_place(mask, selector),
{
    if mask == 0 {
        return Err(Error::InvalidArgument);
    }
    proof {
        crate::bits::lemma_lowest_bit(mask);
    }
    let shift = lowest_set_bit(mask);
    if selector > mask >> shift {
        Err(Error::ValueTooWide)
    } else {
        Ok(selector << shift)
    }
}

} // verus!
