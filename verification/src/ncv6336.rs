//! Driver for the Onsemi Buck Converter NCV6336
//!
//! The driver never touches the bus. An operation that needs it answers with
//! the transaction to perform; the caller performs it and hands the outcome
//! back, and the driver answers with the next transaction or with the
//! operation's result.

pub mod laws;
pub mod register;

use crate::bits::genmask;
use crate::device::Data;
use crate::error::Error;
use crate::ncv6336::register::{
    COMMAND_PWMVSEL0, COMMAND_PWMVSEL1, COMMAND_VSELGT, FIELD_COUNT, LIMCONF, PGOOD, PROGVSEL0,
    PROGVSEL1_ENVSEL1, PROGVSEL1_VOUTVSEL1,
};
use crate::regmap::desc::FieldsDesc;
use crate::regmap::field::Fields;
use crate::regmap::request::Request;
use crate::regmap::{CacheType, Config, Regmap};
use crate::regulator::driver::desc::Desc;
use crate::regulator::driver::{Operations, RegmapHelpers, RegulatorDev, Reply, Status, Step, Type};
use crate::regulator::Mode;
use vstd::prelude::*;

verus! {

/// Lowest output voltage, in microvolts.
pub const MIN_UV: u32 = 600000;

/// Step between two output voltages, in microvolts.
pub const UV_STEP: u32 = 6250;

/// Number of output voltages.
pub const N_VOLTAGES: u32 = 128;

/// The configuration of the chip's register map: 8-bit addresses and values,
/// registers up to 0x16, cached in a red-black tree.
pub fn regmap_config() -> (config: Config)
    ensures
        config == (Config {
            reg_bits: 8,
            val_bits: 8,
            max_register: 0x16,
            cache_type: CacheType::RbTree,
        }),
{
    Config::new(8, 8).with_max_register(0x16).with_cache_type(CacheType::RbTree)
}

/// The descriptor is the chip's: a voltage regulator enabled by bit 7 of the
/// active state's voltage register, with active discharge on bit 4 of the
/// power-good register, four peak currents selected by bits 7:6 of the limits
/// register, and 128 voltages from 600 mV in steps of 6.25 mV selected by
/// bits 6:0 of the active state's voltage register.
pub open spec fn is_chip_desc(desc: Desc) -> bool {
    &&& desc.name@ == "ncv6336"@
    &&& desc.reg_type == Type::Voltage
    &&& desc.enable_reg == PROGVSEL0 && desc.enable_mask == 0x80 && desc.enable_val == 0x80
        && desc.disable_val == 0 && !desc.enable_is_inverted
    &&& desc.active_discharge_reg == PGOOD && desc.active_discharge_mask == 0x10
        && desc.active_discharge_on == 0x10 && desc.active_discharge_off == 0
    &&& desc.csel_reg == LIMCONF && desc.csel_mask == 0xc0 && desc.curr_table@ == seq![
        3500000u32,
        4000000u32,
        4500000u32,
        5000000u32,
    ]
    &&& desc.vsel_reg == PROGVSEL0 && desc.vsel_mask == 0x7f && desc.n_voltages == N_VOLTAGES
        && desc.min_uv == MIN_UV && desc.uv_step == UV_STEP && desc.linear_min_sel == 0
    &&& desc.linear_ranges@.len() == 0
}

/// Describes the chip's regulator.
pub fn desc() -> (desc: Desc)
    ensures
        is_chip_desc(desc),
{
    proof {
        crate::ncv6336::register::lemma_chip_masks();
    }
    let mut table: Vec<u32> = Vec::new();
    table.push(3500000);
    table.push(4000000);
    table.push(4500000);
    table.push(5000000);
    assert(table@ =~= seq![3500000u32, 4000000u32, 4500000u32, 5000000u32]);
    Desc::new("ncv6336", Type::Voltage).with_active_discharge(
        PGOOD,
        genmask(4, 4),
        genmask(4, 4),
        0,
    ).with_csel(LIMCONF, genmask(7, 6), table).with_enable(
        PROGVSEL0,
        genmask(7, 7),
        genmask(7, 7),
        0,
    ).with_linear_mapping(PROGVSEL0, genmask(6, 0), MIN_UV, UV_STEP, N_VOLTAGES, 0)
}

/// What is taken down first when the device is removed: the bound fields
/// and the registered regulator.
pub struct Registrations<'a> {
    /// The registered regulator. It is given up before the fields, which it
    /// may still use while it is taken down.
    pub rdev: Option<RegulatorDev<'a>>,
    /// The chip's fields, bound to its register map.
    pub fields: Fields<'a>,
}

/// What the driver waits for.
#[derive(Clone, Copy, Debug, PartialEq, Eq, Structural)]
pub enum Pending {
    /// Nothing: no operation is running.
    Idle,
    /// The completion of an update that ends the operation.
    Ack,
    /// The value of the register of the field with this position.
    Field(usize),
    /// The enable register, to tell whether the regulator is enabled.
    IsEnabled,
    /// The current selector's register.
    CurrentLimit,
    /// The voltage selector's register.
    VoltageSel,
    /// The command register, to tell the operating mode.
    Mode,
    /// The enable register, as the first step of a status query.
    StatusEnable,
    /// The command register, as the second step of a status query.
    StatusMode,
    /// The completion of the first update of enabling the suspend state.
    SuspendEnable,
    /// The completion of the first update of disabling the suspend state.
    SuspendDisable,
}

/// An operation of the driver with its arguments.
#[derive(Clone, Copy, Debug, PartialEq, Eq, Structural)]
pub enum Call {
    /// Read the field with this position.
    ReadField(usize),
    /// The voltage of a selector.
    ListVoltage(u32),
    /// Enable the regulator.
    Enable,
    /// Disable the regulator.
    Disable,
    /// Whether the regulator is enabled.
    IsEnabled,
    /// Switch active discharge on or off.
    SetActiveDischarge(bool),
    /// Limit the current to the largest peak current that does not exceed
    /// the second number; the first, the lower bound asked for, plays no part.
    SetCurrentLimit(i32, i32),
    /// The current limit in force.
    GetCurrentLimit,
    /// Select an output voltage.
    SetVoltageSel(u32),
    /// The selector of the output voltage.
    GetVoltageSel,
    /// Choose the operating mode.
    SetMode(Mode),
    /// The operating mode in force.
    GetMode,
    /// The regulator's status.
    GetStatus,
    /// Set the output voltage of the suspend state.
    SetSuspendVoltage(i32),
    /// Enable the regulator in the suspend state.
    SetSuspendEnable,
    /// Disable the regulator in the suspend state.
    SetSuspendDisable,
    /// Choose the operating mode of the suspend state.
    SetSuspendMode(Mode),
}

/// Goes on with the transaction `request` and waits for `then`; ends the
/// operation with the failure where no transaction could be named.
pub open spec fn issue(request: Result<Request, Error>, then: Pending) -> (Pending, Step) {
    match request {
        Ok(request) => (then, Step::Issue(request)),
        Err(e) => (Pending::Idle, Step::Failed(e)),
    }
}

/// Ends the operation with the answer or the failure.
pub open spec fn finish(result: Result<Reply, Error>) -> (Pending, Step) {
    match result {
        Ok(reply) => (Pending::Idle, Step::Done(reply)),
        Err(e) => (Pending::Idle, Step::Failed(e)),
    }
}

/// The selector of the lowest output voltage that is not below `uv`
/// microvolts: the distance from the lowest voltage in steps, rounded up.
pub open spec fn spec_suspend_selector(uv: i32) -> int {
    -((MIN_UV - uv) / UV_STEP as int)
}

/// The update that writes the suspend voltage: the selector of
/// `spec_suspend_selector`, refused as too wide where it is negative.
pub open spec fn spec_suspend_voltage(fields: Fields, uv: i32) -> Result<Request, Error> {
    let selector = spec_suspend_selector(uv);
    if selector < 0 {
        Err(Error::ValueTooWide)
    } else {
        fields.spec_write(PROGVSEL1_VOUTVSEL1 as int, selector as u32, false)
    }
}

/// The update that puts the mode bit `index` in the state that `mode` asks
/// for: clear for normal, set for fast. No other mode is supported.
pub open spec fn spec_mode_request(fields: Fields, index: int, mode: Mode) -> Result<
    Request,
    Error,
> {
    match mode {
        Mode::Normal => fields.spec_assign_bit(index, false, false),
        Mode::Fast => fields.spec_assign_bit(index, true, false),
        _ => Err(Error::Unsupported),
    }
}

/// The operating mode that the command register's value `raw` tells.
pub open spec fn spec_mode_of(fields: Fields, raw: u32) -> Mode {
    if fields.handles()[COMMAND_PWMVSEL0 as int].spec_extract(raw) == 1 {
        Mode::Fast
    } else {
        Mode::Normal
    }
}

/// What the driver does when `call` is made while it waits for `pending`:
/// what it waits for afterwards, and its answer. `fields` holds the chip's
/// fields unless the device was removed.
pub open spec fn spec_start(
    fields: Option<Fields>,
    pending: Pending,
    rdev: RegulatorDev,
    call: Call,
) -> (Pending, Step) {
    if pending != Pending::Idle {
        (pending, Step::Failed(Error::NotReady))
    } else {
        match call {
            Call::ReadField(index) => match fields {
                None => finish(Err(Error::NotReady)),
                Some(f) => if index >= FIELD_COUNT {
                    finish(Err(Error::InvalidArgument))
                } else {
                    issue(f.spec_read(index as int), Pending::Field(index))
                },
            },
            Call::ListVoltage(selector) => match rdev.desc().spec_list_voltage_linear(selector) {
                Ok(uv) => finish(Ok(Reply::Value(uv))),
                Err(e) => finish(Err(e)),
            },
            Call::Enable => issue(
                rdev.regmap().spec_update_bits(
                    rdev.desc().enable_reg,
                    rdev.desc().enable_mask,
                    rdev.desc().spec_enable_value(),
                    false,
                ),
                Pending::Ack,
            ),
            Call::Disable => issue(
                rdev.regmap().spec_update_bits(
                    rdev.desc().enable_reg,
                    rdev.desc().enable_mask,
                    rdev.desc().spec_disable_value(),
                    false,
                ),
                Pending::Ack,
            ),
            Call::IsEnabled => issue(
                rdev.regmap().spec_read(rdev.desc().enable_reg),
                Pending::IsEnabled,
            ),
            Call::SetActiveDischarge(enable) => issue(
                rdev.regmap().spec_update_bits(
                    rdev.desc().active_discharge_reg,
                    rdev.desc().active_discharge_mask,
                    if enable {
                        rdev.desc().active_discharge_on
                    } else {
                        rdev.desc().active_discharge_off
                    },
                    false,
                ),
                Pending::Ack,
            ),
            Call::SetCurrentLimit(min_ua, max_ua) => issue(
                rdev.spec_set_current_limit(max_ua),
                Pending::Ack,
            ),
            Call::GetCurrentLimit => issue(
                rdev.regmap().spec_read(rdev.desc().csel_reg),
                Pending::CurrentLimit,
            ),
            Call::SetVoltageSel(selector) => issue(
                rdev.spec_set_voltage_sel(selector),
                Pending::Ack,
            ),
            Call::GetVoltageSel => issue(
                rdev.regmap().spec_read(rdev.desc().vsel_reg),
                Pending::VoltageSel,
            ),
            Call::SetMode(mode) => match fields {
                None => finish(Err(Error::NotReady)),
                Some(f) => issue(spec_mode_request(f, COMMAND_PWMVSEL0 as int, mode), Pending::Ack),
            },
            Call::GetMode => match fields {
                None => finish(Ok(Reply::Mode(Mode::Invalid))),
                Some(f) => match f.spec_is_set(COMMAND_PWMVSEL0 as int) {
                    Ok(request) => (Pending::Mode, Step::Issue(request)),
                    Err(_) => finish(Ok(Reply::Mode(Mode::Invalid))),
                },
            },
            Call::GetStatus => issue(
                rdev.regmap().spec_read(rdev.desc().enable_reg),
                Pending::StatusEnable,
            ),
            Call::SetSuspendVoltage(uv) => match fields {
                None => finish(Err(Error::NotReady)),
                Some(f) => issue(spec_suspend_voltage(f, uv), Pending::Ack),
            },
            Call::SetSuspendEnable => match fields {
                None => finish(Err(Error::NotReady)),
                Some(f) => issue(
                    f.spec_assign_bit(PROGVSEL1_ENVSEL1 as int, true, false),
                    Pending::SuspendEnable,
                ),
            },
            Call::SetSuspendDisable => match fields {
                None => finish(Err(Error::NotReady)),
                Some(f) => issue(
                    f.spec_assign_bit(PROGVSEL1_ENVSEL1 as int, false, false),
                    Pending::SuspendDisable,
                ),
            },
            Call::SetSuspendMode(mode) => match fields {
                None => finish(Err(Error::NotReady)),
                Some(f) => issue(spec_mode_request(f, COMMAND_PWMVSEL1 as int, mode), Pending::Ack),
            },
        }
    }
}

/// What the driver does with the outcome `response` of the transaction it
/// waits for: what it waits for afterwards, and its answer.
///
/// A failed transaction ends the operation with its failure, except where
/// the operating mode is asked for: there it is answered with the invalid
/// mode, or the undefined status.
pub open spec fn spec_advance(
    fields: Option<Fields>,
    pending: Pending,
    rdev: RegulatorDev,
    response: Result<u32, Error>,
) -> (Pending, Step) {
    match pending {
        Pending::Idle => (Pending::Idle, Step::Failed(Error::InvalidArgument)),
        Pending::Ack => match response {
            Ok(_) => finish(Ok(Reply::Unit)),
            Err(e) => finish(Err(e)),
        },
        Pending::Field(index) => match response {
            Err(e) => finish(Err(e)),
            Ok(raw) => match fields {
                None => finish(Err(Error::NotReady)),
                Some(f) => match f.spec_decode(index as int, raw) {
                    Ok(value) => finish(Ok(Reply::Number(value))),
                    Err(e) => finish(Err(e)),
                },
            },
        },
        Pending::IsEnabled => match response {
            Ok(raw) => finish(Ok(Reply::Flag(rdev.desc().spec_is_enabled(raw)))),
            Err(e) => finish(Err(e)),
        },
        Pending::CurrentLimit => match response {
            Err(e) => finish(Err(e)),
            Ok(raw) => match rdev.desc().spec_current_limit(raw) {
                Ok(microamps) => finish(Ok(Reply::Value(microamps))),
                Err(e) => finish(Err(e)),
            },
        },
        Pending::VoltageSel => match response {
            Err(e) => finish(Err(e)),
            Ok(raw) => match rdev.desc().spec_voltage_sel(raw) {
                Ok(selector) => finish(Ok(Reply::Value(selector))),
                Err(e) => finish(Err(e)),
            },
        },
        Pending::Mode => match (response, fields) {
            (Ok(raw), Some(f)) => finish(Ok(Reply::Mode(spec_mode_of(f, raw)))),
            _ => finish(Ok(Reply::Mode(Mode::Invalid))),
        },
        Pending::StatusEnable => match response {
            Err(e) => finish(Err(e)),
            Ok(raw) => if !rdev.desc().spec_is_enabled(raw) {
                finish(Ok(Reply::Status(Status::Off)))
            } else {
                match fields {
                    None => finish(Ok(Reply::Status(Status::Undefined))),
                    Some(f) => match f.spec_is_set(COMMAND_PWMVSEL0 as int) {
                        Ok(request) => (Pending::StatusMode, Step::Issue(request)),
                        Err(_) => finish(Ok(Reply::Status(Status::Undefined))),
                    },
                }
            },
        },
        Pending::StatusMode => match (response, fields) {
            (Ok(raw), Some(f)) => finish(
                Ok(Reply::Status(Status::spec_from_mode(spec_mode_of(f, raw)))),
            ),
            _ => finish(Ok(Reply::Status(Status::Undefined))),
        },
        Pending::SuspendEnable => match response {
            Err(e) => finish(Err(e)),
            Ok(_) => match fields {
                None => finish(Err(Error::NotReady)),
                Some(f) => issue(f.spec_assign_bit(COMMAND_VSELGT as int, false, false), Pending::Ack),
            },
        },
        Pending::SuspendDisable => match response {
            Err(e) => finish(Err(e)),
            Ok(_) => match fields {
                None => finish(Err(Error::NotReady)),
                Some(f) => issue(f.spec_assign_bit(COMMAND_VSELGT as int, true, false), Pending::Ack),
            },
        },
    }
}

/// The driver of one chip.
pub struct Driver<'a> {
    data: Data<Registrations<'a>, (), ()>,
    pending: Pending,
}

fn answer(request: Result<Request, Error>, then: Pending) -> (out: (Pending, Step))
    ensures
        out == issue(request, then),
{
    match request {
        Ok(request) => (then, Step::Issue(request)),
        Err(e) => (Pending::Idle, Step::Failed(e)),
    }
}

fn mode_request(fields: &Fields, index: usize, mode: Mode) -> (request: Result<Request, Error>)
    requires
        index < fields.desc().len(),
    ensures
        request == spec_mode_request(*fields, index as int, mode),
{
    match mode {
        Mode::Normal => fields.clear(index),
        Mode::Fast => fields.set(index),
        _ => Err(Error::Unsupported),
    }
}

fn suspend_voltage(fields: &Fields, uv: i32) -> (request: Result<Request, Error>)
    requires
        fields.desc().len() == FIELD_COUNT,
    ensures
        request == spec_suspend_voltage(*fields, uv),
{
    let distance: i64 = uv as i64 - MIN_UV as i64;
    let quot: i64 = distance / (UV_STEP as i64);
    let rem: i64 = distance % (UV_STEP as i64);
    let selector: i64 = if rem > 0 {
        quot + 1
    } else {
        quot
    };
    if selector < 0 {
        Err(Error::ValueTooWide)
    } else {
        fields.write(PROGVSEL1_VOUTVSEL1, selector as u32)
    }
}

impl<'a> Driver<'a> {
    /// The chip's fields, unless the device was removed.
    pub open spec fn fields(&self) -> Option<Fields<'a>> {
        match self.registrations() {
            Some(r) => Some(r.fields),
            None => None,
        }
    }

    /// The registrations, unless the device was removed.
    pub closed spec fn registrations(&self) -> Option<Registrations<'a>> {
        self.data.spec_registrations()
    }

    /// What the driver waits for.
    pub closed spec fn pending(&self) -> Pending {
        self.pending
    }

    /// The driver holds all the chip's fields, and a field it reads is one of them.
    #[verifier::type_invariant]
    pub open spec fn wf(&self) -> bool {
        &&& self.registrations() matches Some(r) ==> r.fields.desc().len() == FIELD_COUNT
        &&& self.pending() matches Pending::Field(index) ==> index < FIELD_COUNT
    }

    /// Binds the chip's fields to `regmap` and registers the regulator that
    /// `desc` describes. The probe fails where the declaration does not hold
    /// the chip's fifteen fields or does not fit the register map.
    pub fn probe(regmap: &'a Regmap<'a>, reg_fields: &'a FieldsDesc, desc: &'a Desc) -> (driver: Result<
        Driver<'a>,
        Error,
    >)
        ensures
            driver is Ok <==> reg_fields@.len() == FIELD_COUNT && forall|i: int|
                0 <= i < reg_fields@.len() ==> regmap.config().admits(#[trigger] reg_fields@[i]),
            driver matches Err(e) ==> e == Error::InvalidArgument,
            driver matches Ok(d) ==> {
                &&& d.pending() == Pending::Idle
                &&& d.registrations() matches Some(r) && {
                    &&& r.fields.wf()
                    &&& r.fields.desc() == reg_fields@
                    &&& forall|i: int|
                        0 <= i < reg_fields@.len() ==> (#[trigger] r.fields.handles()[i]).permits(
                            reg_fields@[i],
                            regmap.ops(),
                        )
                    &&& r.rdev matches Some(rdev) && rdev.desc() == *desc && rdev.regmap()
                        == *regmap
                }
            },
    {
        let fields = match regmap.alloc_fields(reg_fields) {
            Ok(fields) => fields,
            Err(e) => {
                return Err(e);
            },
        };
        if fields.count() != FIELD_COUNT {
            return Err(Error::InvalidArgument);
        }
        let config = crate::regulator::driver::Config::new().with_regmap(regmap);
        let rdev = match RegulatorDev::register(desc, config) {
            Ok(rdev) => rdev,
            Err(e) => {
                return Err(e);
            },
        };
        match Data::try_new(Registrations { rdev: Some(rdev), fields }, (), ()) {
            Ok(data) => Ok(Driver { data, pending: Pending::Idle }),
            Err(e) => Err(e),
        }
    }

    /// The regulator registered at probe, unless the device was removed.
    pub fn rdev(&self) -> (rdev: Option<RegulatorDev<'a>>)
        ensures
            rdev == match self.registrations() {
                Some(r) => r.rdev,
                None => None,
            },
    {
        match self.data.registrations() {
            Some(r) => r.rdev,
            None => None,
        }
    }

    /// Whether no operation is running.
    pub fn is_idle(&self) -> (idle: bool)
        ensures
            idle == (self.pending() == Pending::Idle),
    {
        matches!(self.pending, Pending::Idle)
    }

    /// Whether the device was removed.
    pub fn is_removed(&self) -> (removed: bool)
        ensures
            removed == self.registrations() is None,
    {
        self.data.registrations().is_none()
    }

    /// Removes the device: the fields and the registered regulator are
    /// given up, and a running operation is abandoned.
    pub fn remove(&mut self)
        ensures
            final(self).registrations() is None,
            final(self).pending() == Pending::Idle,
    {
        proof {
            use_type_invariant(&*self);
        }
        self.pending = Pending::Idle;
        self.data.device_remove();
    }

    /// Starts the operation `call` and answers with its first transaction or
    /// with its result. While an operation is running the driver is not
    /// ready for another.
    pub fn start(&mut self, rdev: &RegulatorDev, call: Call) -> (step: Step)
        ensures
            (final(self).pending(), step) == spec_start(
                old(self).fields(),
                old(self).pending(),
                *rdev,
                call,
            ),
            final(self).registrations() == old(self).registrations(),
    {
        proof {
            use_type_invariant(&*self);
        }
        if !matches!(self.pending, Pending::Idle) {
            return Step::Failed(Error::NotReady);
        }
        let registrations = self.data.registrations();
        let (pending, step) = match call {
            Call::ReadField(index) => match registrations {
                None => (Pending::Idle, Step::Failed(Error::NotReady)),
                Some(r) => if index >= FIELD_COUNT {
                    (Pending::Idle, Step::Failed(Error::InvalidArgument))
                } else {
                    answer(r.fields.read(index), Pending::Field(index))
                },
            },
            Call::ListVoltage(selector) => match rdev.list_voltage_linear(selector) {
                Ok(uv) => (Pending::Idle, Step::Done(Reply::Value(uv))),
                Err(e) => (Pending::Idle, Step::Failed(e)),
            },
            Call::Enable => answer(rdev.enable_regmap(), Pending::Ack),
            Call::Disable => answer(rdev.disable_regmap(), Pending::Ack),
            Call::IsEnabled => answer(rdev.is_enabled_regmap(), Pending::IsEnabled),
            Call::SetActiveDischarge(enable) => answer(
                rdev.set_active_discharge_regmap(enable),
                Pending::Ack,
            ),
            Call::SetCurrentLimit(min_ua, max_ua) => answer(
                rdev.set_current_limit_regmap(min_ua, max_ua),
                Pending::Ack,
            ),
            Call::GetCurrentLimit => answer(rdev.get_current_limit_regmap(), Pending::CurrentLimit),
            Call::SetVoltageSel(selector) => answer(
                rdev.set_voltage_sel_regmap(selector),
                Pending::Ack,
            ),
            Call::GetVoltageSel => answer(rdev.get_voltage_sel_regmap(), Pending::VoltageSel),
            Call::SetMode(mode) => match registrations {
                None => (Pending::Idle, Step::Failed(Error::NotReady)),
                Some(r) => answer(mode_request(&r.fields, COMMAND_PWMVSEL0, mode), Pending::Ack),
            },
            Call::GetMode => match registrations {
                None => (Pending::Idle, Step::Done(Reply::Mode(Mode::Invalid))),
                Some(r) => match r.fields.is_set(COMMAND_PWMVSEL0) {
                    Ok(request) => (Pending::Mode, Step::Issue(request)),
                    Err(_) => (Pending::Idle, Step::Done(Reply::Mode(Mode::Invalid))),
                },
            },
            Call::GetStatus => answer(rdev.is_enabled_regmap(), Pending::StatusEnable),
            Call::SetSuspendVoltage(uv) => match registrations {
                None => (Pending::Idle, Step::Failed(Error::NotReady)),
                Some(r) => answer(suspend_voltage(&r.fields, uv), Pending::Ack),
            },
            Call::SetSuspendEnable => match registrations {
                None => (Pending::Idle, Step::Failed(Error::NotReady)),
                Some(r) => answer(r.fields.set(PROGVSEL1_ENVSEL1), Pending::SuspendEnable),
            },
            Call::SetSuspendDisable => match registrations {
                None => (Pending::Idle, Step::Failed(Error::NotReady)),
                Some(r) => answer(r.fields.clear(PROGVSEL1_ENVSEL1), Pending::SuspendDisable),
            },
            Call::SetSuspendMode(mode) => match registrations {
                None => (Pending::Idle, Step::Failed(Error::NotReady)),
                Some(r) => answer(mode_request(&r.fields, COMMAND_PWMVSEL1, mode), Pending::Ack),
            },
        };
        self.pending = pending;
        step
    }

    /// Reads the field at position `index` of the chip's declaration: names
    /// the read, and answers the field's value once the register's value is
    /// handed to `advance`.
    pub fn read_field(&mut self, rdev: &RegulatorDev, index: usize) -> (step: Step)
        ensures
            (final(self).pending(), step) == spec_start(
                old(self).fields(),
                old(self).pending(),
                *rdev,
                Call::ReadField(index),
            ),
            final(self).registrations() == old(self).registrations(),
    {
        self.start(rdev, Call::ReadField(index))
    }

    fn complete(&mut self, rdev: &RegulatorDev, response: Result<u32, Error>) -> (step: Step)
        ensures
            (final(self).pending(), step) == spec_advance(
                old(self).fields(),
                old(self).pending(),
                *rdev,
                response,
            ),
            final(self).registrations() == old(self).registrations(),
    {
        proof {
            use_type_invariant(&*self);
        }
        let registrations = self.data.registrations();
        let (pending, step) = match self.pending {
            Pending::Idle => (Pending::Idle, Step::Failed(Error::InvalidArgument)),
            Pending::Ack => match response {
                Ok(_) => (Pending::Idle, Step::Done(Reply::Unit)),
                Err(e) => (Pending::Idle, Step::Failed(e)),
            },
            Pending::Field(index) => match response {
                Err(e) => (Pending::Idle, Step::Failed(e)),
                Ok(raw) => match registrations {
                    None => (Pending::Idle, Step::Failed(Error::NotReady)),
                    Some(r) => match r.fields.decode(index, raw) {
                        Ok(value) => (Pending::Idle, Step::Done(Reply::Number(value))),
                        Err(e) => (Pending::Idle, Step::Failed(e)),
                    },
                },
            },
            Pending::IsEnabled => match response {
                Ok(raw) => (
                    Pending::Idle,
                    Step::Done(Reply::Flag(rdev.descriptor().is_enabled(raw))),
                ),
                Err(e) => (Pending::Idle, Step::Failed(e)),
            },
            Pending::CurrentLimit => match response {
                Err(e) => (Pending::Idle, Step::Failed(e)),
                Ok(raw) => match rdev.descriptor().current_limit(raw) {
                    Ok(microamps) => (Pending::Idle, Step::Done(Reply::Value(microamps))),
                    Err(e) => (Pending::Idle, Step::Failed(e)),
                },
            },
            Pending::VoltageSel => match response {
                Err(e) => (Pending::Idle, Step::Failed(e)),
                Ok(raw) => match rdev.descriptor().voltage_sel(raw) {
                    Ok(selector) => (Pending::Idle, Step::Done(Reply::Value(selector))),
                    Err(e) => (Pending::Idle, Step::Failed(e)),
                },
            },
            Pending::Mode => match (response, registrations) {
                (Ok(raw), Some(r)) => {
                    let mode = if r.fields.decode_bit(COMMAND_PWMVSEL0, raw) {
                        Mode::Fast
                    } else {
                        Mode::Normal
                    };
                    (Pending::Idle, Step::Done(Reply::Mode(mode)))
                },
                _ => (Pending::Idle, Step::Done(Reply::Mode(Mode::Invalid))),
            },
            Pending::StatusEnable => match response {
                Err(e) => (Pending::Idle, Step::Failed(e)),
                Ok(raw) => if !rdev.descriptor().is_enabled(raw) {
                    (Pending::Idle, Step::Done(Reply::Status(Status::Off)))
                } else {
                    match registrations {
                        None => (Pending::Idle, Step::Done(Reply::Status(Status::Undefined))),
                        Some(r) => match r.fields.is_set(COMMAND_PWMVSEL0) {
                            Ok(request) => (Pending::StatusMode, Step::Issue(request)),
                            Err(_) => (Pending::Idle, Step::Done(Reply::Status(Status::Undefined))),
                        },
                    }
                },
            },
            Pending::StatusMode => match (response, registrations) {
                (Ok(raw), Some(r)) => {
                    let mode = if r.fields.decode_bit(COMMAND_PWMVSEL0, raw) {
                        Mode::Fast
                    } else {
                        Mode::Normal
                    };
                    (Pending::Idle, Step::Done(Reply::Status(Status::from_mode(mode))))
                },
                _ => (Pending::Idle, Step::Done(Reply::Status(Status::Undefined))),
            },
            Pending::SuspendEnable => match response {
                Err(e) => (Pending::Idle, Step::Failed(e)),
                Ok(_) => match registrations {
                    None => (Pending::Idle, Step::Failed(Error::NotReady)),
                    Some(r) => answer(r.fields.clear(COMMAND_VSELGT), Pending::Ack),
                },
            },
            Pending::SuspendDisable => match response {
                Err(e) => (Pending::Idle, Step::Failed(e)),
                Ok(_) => match registrations {
                    None => (Pending::Idle, Step::Failed(Error::NotReady)),
                    Some(r) => answer(r.fields.set(COMMAND_VSELGT), Pending::Ack),
                },
            },
        };
        self.pending = pending;
        step
    }
}

impl<'a> Operations for Driver<'a> {
    /// The voltage of `selector`: 600 mV plus 6.25 mV for each selector step.
    fn list_voltage(&mut self, rdev: &RegulatorDev, selector: u32) -> (step: Step)
        ensures
            (final(self).pending(), step) == spec_start(
                old(self).fields(),
                old(self).pending(),
                *rdev,
                Call::ListVoltage(selector),
            ),
            final(self).registrations() == old(self).registrations(),
    {
        self.start(rdev, Call::ListVoltage(selector))
    }

    /// Selects the output voltage of the active state.
    fn set_voltage_sel(&mut self, rdev: &RegulatorDev, selector: u32) -> (step: Step)
        ensures
            (final(self).pending(), step) == spec_start(
                old(self).fields(),
                old(self).pending(),
                *rdev,
                Call::SetVoltageSel(selector),
            ),
            final(self).registrations() == old(self).registrations(),
    {
        self.start(rdev, Call::SetVoltageSel(selector))
    }

    /// Reads the selector of the output voltage of the active state.
    fn get_voltage_sel(&mut self, rdev: &RegulatorDev) -> (step: Step)
        ensures
            (final(self).pending(), step) == spec_start(
                old(self).fields(),
                old(self).pending(),
                *rdev,
                Call::GetVoltageSel,
            ),
            final(self).registrations() == old(self).registrations(),
    {
        self.start(rdev, Call::GetVoltageSel)
    }

    /// Limits the inductor peak current to the largest of the chip's four currents that does
    /// not exceed `max_ua`; where all four exceed it, the request is not supported.
    fn set_current_limit(&mut self, rdev: &RegulatorDev, min_ua: i32, max_ua: i32) -> (step: Step)
        ensures
            (final(self).pending(), step) == spec_start(
                old(self).fields(),
                old(self).pending(),
                *rdev,
                Call::SetCurrentLimit(min_ua, max_ua),
            ),
            final(self).registrations() == old(self).registrations(),
    {
        self.start(rdev, Call::SetCurrentLimit(min_ua, max_ua))
    }

    /// Reads the inductor peak current limit in force.
    fn get_current_limit(&mut self, rdev: &RegulatorDev) -> (step: Step)
        ensures
            (final(self).pending(), step) == spec_start(
                old(self).fields(),
                old(self).pending(),
                *rdev,
                Call::GetCurrentLimit,
            ),
            final(self).registrations() == old(self).registrations(),
    {
        self.start(rdev, Call::GetCurrentLimit)
    }

    /// Switches active discharge on or off.
    fn set_active_discharge(&mut self, rdev: &RegulatorDev, enable: bool) -> (step: Step)
        ensures
            (final(self).pending(), step) == spec_start(
                old(self).fields(),
                old(self).pending(),
                *rdev,
                Call::SetActiveDischarge(enable),
            ),
            final(self).registrations() == old(self).registrations(),
    {
        self.start(rdev, Call::SetActiveDischarge(enable))
    }

    /// Enables the regulator in the active state.
    fn enable(&mut self, rdev: &RegulatorDev) -> (step: Step)
        ensures
            (final(self).pending(), step) == spec_start(
                old(self).fields(),
                old(self).pending(),
                *rdev,
                Call::Enable,
            ),
            final(self).registrations() == old(self).registrations(),
    {
        self.start(rdev, Call::Enable)
    }

    /// Disables the regulator in the active state.
    fn disable(&mut self, rdev: &RegulatorDev) -> (step: Step)
        ensures
            (final(self).pending(), step) == spec_start(
                old(self).fields(),
                old(self).pending(),
                *rdev,
                Call::Disable,
            ),
            final(self).registrations() == old(self).registrations(),
    {
        self.start(rdev, Call::Disable)
    }

    /// Tells whether the regulator is enabled in the active state.
    fn is_enabled(&mut self, rdev: &RegulatorDev) -> (step: Step)
        ensures
            (final(self).pending(), step) == spec_start(
                old(self).fields(),
                old(self).pending(),
                *rdev,
                Call::IsEnabled,
            ),
            final(self).registrations() == old(self).registrations(),
    {
        self.start(rdev, Call::IsEnabled)
    }

    /// Chooses the operating mode of the active state: normal or fast. No other mode is
    /// supported, and none is written for it.
    fn set_mode(&mut self, rdev: &RegulatorDev, mode: Mode) -> (step: Step)
        ensures
            (final(self).pending(), step) == spec_start(
                old(self).fields(),
                old(self).pending(),
                *rdev,
                Call::SetMode(mode),
            ),
            final(self).registrations() == old(self).registrations(),
    {
        self.start(rdev, Call::SetMode(mode))
    }

    /// Tells the operating mode of the active state; the invalid mode where it cannot be read.
    fn get_mode(&mut self, rdev: &RegulatorDev) -> (step: Step)
        ensures
            (final(self).pending(), step) == spec_start(
                old(self).fields(),
                old(self).pending(),
                *rdev,
                Call::GetMode,
            ),
            final(self).registrations() == old(self).registrations(),
    {
        self.start(rdev, Call::GetMode)
    }

    /// Tells the regulator's status: off where it is disabled, else the status of its
    /// operating mode.
    fn get_status(&mut self, rdev: &RegulatorDev) -> (step: Step)
        ensures
            (final(self).pending(), step) == spec_start(
                old(self).fields(),
                old(self).pending(),
                *rdev,
                Call::GetStatus,
            ),
            final(self).registrations() == old(self).registrations(),
    {
        self.start(rdev, Call::GetStatus)
    }

    /// Sets the output voltage of the suspend state to the lowest voltage of the chip that is
    /// not below `uv`.
    fn set_suspend_voltage(&mut self, rdev: &RegulatorDev, uv: i32) -> (step: Step)
        ensures
            (final(self).pending(), step) == spec_start(
                old(self).fields(),
                old(self).pending(),
                *rdev,
                Call::SetSuspendVoltage(uv),
            ),
            final(self).registrations() == old(self).registrations(),
    {
        self.start(rdev, Call::SetSuspendVoltage(uv))
    }

    /// Enables the regulator in the suspend state, then hands the voltage selection to the
    /// selection pin.
    fn set_suspend_enable(&mut self, rdev: &RegulatorDev) -> (step: Step)
        ensures
            (final(self).pending(), step) == spec_start(
                old(self).fields(),
                old(self).pending(),
                *rdev,
                Call::SetSuspendEnable,
            ),
            final(self).registrations() == old(self).registrations(),
    {
        self.start(rdev, Call::SetSuspendEnable)
    }

    /// Disables the regulator in the suspend state, then takes the voltage selection from the
    /// selection pin.
    fn set_suspend_disable(&mut self, rdev: &RegulatorDev) -> (step: Step)
        ensures
            (final(self).pending(), step) == spec_start(
                old(self).fields(),
                old(self).pending(),
                *rdev,
                Call::SetSuspendDisable,
            ),
            final(self).registrations() == old(self).registrations(),
    {
        self.start(rdev, Call::SetSuspendDisable)
    }

    /// Chooses the operating mode of the suspend state: normal or fast.
    fn set_suspend_mode(&mut self, rdev: &RegulatorDev, mode: Mode) -> (step: Step)
        ensures
            (final(self).pending(), step) == spec_start(
                old(self).fields(),
                old(self).pending(),
                *rdev,
                Call::SetSuspendMode(mode),
            ),
            final(self).registrations() == old(self).registrations(),
    {
        self.start(rdev, Call::SetSuspendMode(mode))
    }

    /// Takes the outcome of the transaction named last: the register's value
    /// after it, or its failure. Answers with the operation's next
    /// transaction or with its result.
    fn advance(&mut self, rdev: &RegulatorDev, response: Result<u32, Error>) -> (step: Step)
        ensures
            (final(self).pending(), step) == spec_advance(
                old(self).fields(),
                old(self).pending(),
                *rdev,
                response,
            ),
            final(self).registrations() == old(self).registrations(),
    {
        self.complete(rdev, response)
    }
}

} // verus!
