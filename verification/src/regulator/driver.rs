//! SoC Regulator Driver Interface

pub mod desc;
pub mod laws;

use crate::error::Error;
use crate::regmap::request::Request;
use crate::regmap::Regmap;
use crate::regulator::driver::desc::{
    is_current_pick, lemma_current_pick_unique, no_current_within, place, spec_place, Desc,
};
use crate::regulator::Mode;
use crate::time::Delta;
use vstd::prelude::*;

verus! {

/// Regulator status
#[derive(Clone, Copy, Debug, PartialEq, Eq, Structural)]
pub enum Status {
    /// Regulator is OFF
    Off,
    /// Regulator is ON
    On,
    /// Regulator is in an error state
    Error,
    /// Regulator is ON and in Fast mode
    Fast,
    /// Regulator is ON and in Normal mode
    Normal,
    /// Regulator is ON and in Idle mode
    Idle,
    /// Regulator is ON and in Standby mode
    Standby,
    /// Regulator is enabled but not regulating
    Bypass,
    /// Regulator is any other status
    Undefined,
}

impl Status {
    /// The number that stands for the status at a C boundary.
    pub open spec fn spec_to_bindings(self) -> u32 {
        match self {
            Status::Off => 0,
            Status::On => 1,
            Status::Error => 2,
            Status::Fast => 3,
            Status::Normal => 4,
            Status::Idle => 5,
            Status::Standby => 6,
            Status::Bypass => 7,
            Status::Undefined => 8,
        }
    }

    /// The status of an enabled regulator that runs in `mode`.
    pub open spec fn spec_from_mode(mode: Mode) -> Status {
        match mode {
            Mode::Fast => Status::Fast,
            Mode::Normal => Status::Normal,
            Mode::Idle => Status::Idle,
            Mode::Standby => Status::Standby,
            Mode::Invalid => Status::Undefined,
        }
    }

    /// The number that stands for the status at a C boundary.
    pub fn to_bindings(self) -> (status: u32)
        ensures
            status == self.spec_to_bindings(),
    {
        match self {
            Status::Off => 0,
            Status::On => 1,
            Status::Error => 2,
            Status::Fast => 3,
            Status::Normal => 4,
            Status::Idle => 5,
            Status::Standby => 6,
            Status::Bypass => 7,
            Status::Undefined => 8,
        }
    }

    /// The status that the number `status` stands for; a number that stands
    /// for none is an invalid argument.
    pub fn from_bindings(status: u32) -> (result: Result<Status, Error>)
        ensures
            result matches Ok(s) ==> s.spec_to_bindings() == status,
            result matches Err(e) ==> e == Error::InvalidArgument && status > 8,
    {
        match status {
            0 => Ok(Status::Off),
            1 => Ok(Status::On),
            2 => Ok(Status::Error),
            3 => Ok(Status::Fast),
            4 => Ok(Status::Normal),
            5 => Ok(Status::Idle),
            6 => Ok(Status::Standby),
            7 => Ok(Status::Bypass),
            8 => Ok(Status::Undefined),
            _ => Err(Error::InvalidArgument),
        }
    }

    /// The status of an enabled regulator that runs in `mode`; a mode that
    /// is none of the four operating modes gives the undefined status.
    pub fn from_mode(mode: Mode) -> (status: Status)
        ensures
            status == Status::spec_from_mode(mode),
    {
        match mode {
            Mode::Fast => Status::Fast,
            Mode::Normal => Status::Normal,
            Mode::Idle => Status::Idle,
            Mode::Standby => Status::Standby,
            Mode::Invalid => Status::Undefined,
        }
    }
}

impl From<Mode> for Status {
    fn from(mode: Mode) -> (status: Status) {
        Status::from_mode(mode)
    }
}

impl vstd::std_specs::convert::FromSpecImpl<Mode> for Status {
    open spec fn obeys_from_spec() -> bool {
        true
    }

    open spec fn from_spec(mode: Mode) -> Status {
        Status::spec_from_mode(mode)
    }
}

/// Type of regulator
#[derive(Clone, Copy, Debug, PartialEq, Eq, Structural)]
pub enum Type {
    /// Voltage regulator
    Voltage,
    /// Current regulator
    Current,
}

/// What an operation answers once it is over.
#[derive(Clone, Copy, Debug, PartialEq, Eq, Structural)]
pub enum Reply {
    /// Nothing beyond success.
    Unit,
    /// A yes or a no.
    Flag(bool),
    /// A voltage, a current or a selector.
    Value(i32),
    /// An unsigned number: a selector or a set of flags.
    Number(u32),
    /// An operating mode.
    Mode(Mode),
    /// A status.
    Status(Status),
    /// A span of time.
    Span(Delta),
}

impl Reply {
    /// The number that stands for the answer where an operation hands back
    /// one number: the value, the number of the mode or of the status, the
    /// whole microseconds of a span cut to the range of the number. It is
    /// zero for bare success, for a yes or a no, and for an unsigned number,
    /// which is handed over by other means.
    pub open spec fn spec_number(self) -> int {
        match self {
            Reply::Value(value) => value as int,
            Reply::Mode(mode) => mode.spec_to_bindings() as int,
            Reply::Status(status) => status.spec_to_bindings() as int,
            Reply::Span(span) => {
                let micros = crate::time::div_toward_zero(span.nanos(), 1000);
                if micros > i32::MAX {
                    i32::MAX as int
                } else if micros < 0 {
                    0
                } else {
                    micros
                }
            },
            Reply::Unit => 0,
            Reply::Flag(_) => 0,
            Reply::Number(_) => 0,
        }
    }

    /// The number that stands for the answer where an operation hands back
    /// one number.
    pub fn number(self) -> (number: i32)
        ensures
            number == self.spec_number(),
    {
        match self {
            Reply::Value(value) => value,
            Reply::Mode(mode) => mode.to_bindings() as i32,
            Reply::Status(status) => status.to_bindings() as i32,
            Reply::Span(span) => {
                let micros = span.as_micros();
                if micros > 0x7fff_ffff {
                    0x7fff_ffff
                } else if micros < 0 {
                    0
                } else {
                    micros as i32
                }
            },
            Reply::Unit => 0,
            Reply::Flag(_) => 0,
            Reply::Number(_) => 0,
        }
    }
}

/// The number that stands for the end of an operation: what
/// `Reply::spec_number` says for an answer, the failure's error number otherwise.
pub open spec fn spec_answer_number(result: Result<Reply, Error>) -> int {
    match result {
        Ok(reply) => reply.spec_number(),
        Err(e) => e.spec_errno(),
    }
}

/// The number that a caller across a C boundary is handed for the end of an
/// operation.
pub fn answer_number(result: Result<Reply, Error>) -> (number: i32)
    ensures
        number == spec_answer_number(result),
        result is Err ==> number < 0,
{
    match result {
        Ok(reply) => reply.number(),
        Err(e) => e.to_errno(),
    }
}

/// What a driver answers to a call: the transaction to perform on the
/// register backend, or the end of the operation.
#[derive(Clone, Copy, Debug, PartialEq, Eq, Structural)]
pub enum Step {
    /// Perform the transaction, then report its outcome with `advance`.
    Issue(Request),
    /// The operation is over and succeeded with this answer.
    Done(Reply),
    /// The operation is over and failed.
    Failed(Error),
}

/// The operations of a regulator driver. A driver overrides those its chip
/// has; the others answer that they are not supported.
///
/// An operation that needs the bus answers with the transaction to perform;
/// the caller performs it and hands its outcome to `advance`: the register's
/// value after the transaction, or the failure.
pub trait Operations: Sized {
    /// Return one of the supported voltages, in microvolt; zero if the selector indicates a
    /// voltage that is unusable by the system. Selectors range from zero to one less than the
    /// number of voltages supported by the system.
    fn list_voltage(&mut self, rdev: &RegulatorDev, selector: u32) -> (step: Step)
        default_ensures
            step == Step::Failed(Error::Unsupported),
            *final(self) == *old(self),
    {
        Step::Failed(Error::Unsupported)
    }

    /// Set the voltage for the regulator within the range specified. The driver should select the
    /// voltage closest to `min_uv`.
    fn set_voltage(&mut self, rdev: &RegulatorDev, min_uv: i32, max_uv: i32) -> (step: Step)
        default_ensures
            step == Step::Failed(Error::Unsupported),
            *final(self) == *old(self),
    {
        Step::Failed(Error::Unsupported)
    }

    /// Convert a voltage into a selector
    fn map_voltage(&mut self, rdev: &RegulatorDev, min_uv: i32, max_uv: i32) -> (step: Step)
        default_ensures
            step == Step::Failed(Error::Unsupported),
            *final(self) == *old(self),
    {
        Step::Failed(Error::Unsupported)
    }

    /// Set the voltage for the regulator using the specified selector.
    fn set_voltage_sel(&mut self, rdev: &RegulatorDev, selector: u32) -> (step: Step)
        default_ensures
            step == Step::Failed(Error::Unsupported),
            *final(self) == *old(self),
    {
        Step::Failed(Error::Unsupported)
    }

    /// Get the currently configured voltage for the regulator.
    fn get_voltage(&mut self, rdev: &RegulatorDev) -> (step: Step)
        default_ensures
            step == Step::Failed(Error::Unsupported),
            *final(self) == *old(self),
    {
        Step::Failed(Error::Unsupported)
    }

    /// Get the currently configured voltage selector for the regulator.
    fn get_voltage_sel(&mut self, rdev: &RegulatorDev) -> (step: Step)
        default_ensures
            step == Step::Failed(Error::Unsupported),
            *final(self) == *old(self),
    {
        Step::Failed(Error::Unsupported)
    }

    /// Configure a limit for a current-limited regulator.
    ///
    /// The driver should select the current closest to `max_ua`.
    fn set_current_limit(&mut self, rdev: &RegulatorDev, min_ua: i32, max_ua: i32) -> (step: Step)
        default_ensures
            step == Step::Failed(Error::Unsupported),
            *final(self) == *old(self),
    {
        Step::Failed(Error::Unsupported)
    }

    /// Get the configured limit for a current-limited regulator.
    fn get_current_limit(&mut self, rdev: &RegulatorDev) -> (step: Step)
        default_ensures
            step == Step::Failed(Error::Unsupported),
            *final(self) == *old(self),
    {
        Step::Failed(Error::Unsupported)
    }

    /// Configure an input current limit.
    fn set_input_current_limit(&mut self, rdev: &RegulatorDev, lim_ua: i32) -> (step: Step)
        default_ensures
            step == Step::Failed(Error::Unsupported),
            *final(self) == *old(self),
    {
        Step::Failed(Error::Unsupported)
    }

    /// Set over current protection
    fn set_over_current_protection(&mut self, rdev: &RegulatorDev, lim_ua: i32, severity: i32, enable: bool) -> (step: Step)
        default_ensures
            step == Step::Failed(Error::Unsupported),
            *final(self) == *old(self),
    {
        Step::Failed(Error::Unsupported)
    }

    /// Set over voltage protection
    fn set_over_voltage_protection(&mut self, rdev: &RegulatorDev, lim_uv: i32, severity: i32, enable: bool) -> (step: Step)
        default_ensures
            step == Step::Failed(Error::Unsupported),
            *final(self) == *old(self),
    {
        Step::Failed(Error::Unsupported)
    }

    /// Set under voltage protection
    fn set_under_voltage_protection(&mut self, rdev: &RegulatorDev, lim_uv: i32, severity: i32, enable: bool) -> (step: Step)
        default_ensures
            step == Step::Failed(Error::Unsupported),
            *final(self) == *old(self),
    {
        Step::Failed(Error::Unsupported)
    }

    /// Set thermal protection
    fn set_thermal_protection(&mut self, rdev: &RegulatorDev, lim: i32, severity: i32, enable: bool) -> (step: Step)
        default_ensures
            step == Step::Failed(Error::Unsupported),
            *final(self) == *old(self),
    {
        Step::Failed(Error::Unsupported)
    }

    /// Enable or disable the active discharge of the regulator.
    fn set_active_discharge(&mut self, rdev: &RegulatorDev, enable: bool) -> (step: Step)
        default_ensures
            step == Step::Failed(Error::Unsupported),
            *final(self) == *old(self),
    {
        Step::Failed(Error::Unsupported)
    }

    /// Configure the regulator as enabled.
    fn enable(&mut self, rdev: &RegulatorDev) -> (step: Step)
        default_ensures
            step == Step::Failed(Error::Unsupported),
            *final(self) == *old(self),
    {
        Step::Failed(Error::Unsupported)
    }

    /// Configure the regulator as disabled.
    fn disable(&mut self, rdev: &RegulatorDev) -> (step: Step)
        default_ensures
            step == Step::Failed(Error::Unsupported),
            *final(self) == *old(self),
    {
        Step::Failed(Error::Unsupported)
    }

    /// Returns enablement state of the regulator.
    fn is_enabled(&mut self, rdev: &RegulatorDev) -> (step: Step)
        default_ensures
            step == Step::Failed(Error::Unsupported),
            *final(self) == *old(self),
    {
        Step::Failed(Error::Unsupported)
    }

    /// Set the configured operating [`Mode`] for the regulator.
    fn set_mode(&mut self, rdev: &RegulatorDev, mode: Mode) -> (step: Step)
        default_ensures
            step == Step::Failed(Error::Unsupported),
            *final(self) == *old(self),
    {
        Step::Failed(Error::Unsupported)
    }

    /// Get the configured operating [`Mode`] for the regulator
    fn get_mode(&mut self, rdev: &RegulatorDev) -> (step: Step)
        default_ensures
            step == Step::Done(Reply::Mode(Mode::Invalid)),
            *final(self) == *old(self),
    {
        Step::Done(Reply::Mode(Mode::Invalid))
    }

    /// Get the current error(s) of the regulator.
    fn get_error_flags(&mut self, rdev: &RegulatorDev) -> (step: Step)
        default_ensures
            step == Step::Failed(Error::Unsupported),
            *final(self) == *old(self),
    {
        Step::Failed(Error::Unsupported)
    }

    /// Time taken for the regulator voltage output voltage to stabilise after being enabled.
    ///
    /// Minimum accuracy: 1 microsecond.
    fn enable_time(&mut self, rdev: &RegulatorDev) -> (step: Step)
        default_ensures
            step == Step::Failed(Error::Unsupported),
            *final(self) == *old(self),
    {
        Step::Failed(Error::Unsupported)
    }

    /// Set the ramp delay for the regulator. The driver should select ramp delay equal to or less
    /// than(closest) ramp_delay.
    fn set_ramp_delay(&mut self, rdev: &RegulatorDev, ramp_delay: i32) -> (step: Step)
        default_ensures
            step == Step::Failed(Error::Unsupported),
            *final(self) == *old(self),
    {
        Step::Failed(Error::Unsupported)
    }

    /// Time taken for the regulator voltage output voltage to stabilise after being set to a new
    /// value. The function takes the `from` and `to` voltage as input, it should return the worst
    /// case.
    ///
    /// The minimum accuracy is 1 microsecond
    fn set_voltage_time(&mut self, rdev: &RegulatorDev, old_uv: i32, new_uv: i32) -> (step: Step)
        default_ensures
            step == Step::Failed(Error::Unsupported),
            *final(self) == *old(self),
    {
        Step::Failed(Error::Unsupported)
    }

    /// Time taken for the regulator voltage output voltage to stabilise after being set to a new
    /// value. The function takes the `from` and `to` voltage selector as input, it should return
    /// the worst case.
    ///
    /// The minimum accuracy is 1 microsecond
    fn set_voltage_time_sel(&mut self, rdev: &RegulatorDev, old_selector: u32, new_selector: u32) -> (step: Step)
        default_ensures
            step == Step::Failed(Error::Unsupported),
            *final(self) == *old(self),
    {
        Step::Failed(Error::Unsupported)
    }

    /// Enable soft start for the regulator.
    fn set_soft_start(&mut self, rdev: &RegulatorDev) -> (step: Step)
        default_ensures
            step == Step::Failed(Error::Unsupported),
            *final(self) == *old(self),
    {
        Step::Failed(Error::Unsupported)
    }

    /// Report the regulator [`Status`].
    fn get_status(&mut self, rdev: &RegulatorDev) -> (step: Step)
        default_ensures
            step == Step::Failed(Error::Unsupported),
            *final(self) == *old(self),
    {
        Step::Failed(Error::Unsupported)
    }

    /// Get the most efficient operating mode for the regulator when running with the specified
    /// parameters.
    fn get_optimum_mode(&mut self, rdev: &RegulatorDev, input_uv: i32, output_uv: i32, load_ua: i32) -> (step: Step)
        default_ensures
            step == Step::Done(Reply::Mode(Mode::Invalid)),
            *final(self) == *old(self),
    {
        Step::Done(Reply::Mode(Mode::Invalid))
    }

    /// Set the load for the regulator.
    fn set_load(&mut self, rdev: &RegulatorDev, load_ua: i32) -> (step: Step)
        default_ensures
            step == Step::Failed(Error::Unsupported),
            *final(self) == *old(self),
    {
        Step::Failed(Error::Unsupported)
    }

    /// Set the regulator in bypass mode.
    fn set_bypass(&mut self, rdev: &RegulatorDev, enable: bool) -> (step: Step)
        default_ensures
            step == Step::Failed(Error::Unsupported),
            *final(self) == *old(self),
    {
        Step::Failed(Error::Unsupported)
    }

    /// Get the regulator bypass mode state.
    fn get_bypass(&mut self, rdev: &RegulatorDev) -> (step: Step)
        default_ensures
            step == Step::Failed(Error::Unsupported),
            *final(self) == *old(self),
    {
        Step::Failed(Error::Unsupported)
    }

    /// Set the voltage for the regaultor when the system is suspended.
    fn set_suspend_voltage(&mut self, rdev: &RegulatorDev, uv: i32) -> (step: Step)
        default_ensures
            step == Step::Failed(Error::Unsupported),
            *final(self) == *old(self),
    {
        Step::Failed(Error::Unsupported)
    }

    /// Mark the regulator as enabled when the system is suspended.
    fn set_suspend_enable(&mut self, rdev: &RegulatorDev) -> (step: Step)
        default_ensures
            step == Step::Failed(Error::Unsupported),
            *final(self) == *old(self),
    {
        Step::Failed(Error::Unsupported)
    }

    /// Mark the regulator as disabled when the system is suspended.
    fn set_suspend_disable(&mut self, rdev: &RegulatorDev) -> (step: Step)
        default_ensures
            step == Step::Failed(Error::Unsupported),
            *final(self) == *old(self),
    {
        Step::Failed(Error::Unsupported)
    }

    /// Set the operating mode for the regulator when the system is suspended.
    fn set_suspend_mode(&mut self, rdev: &RegulatorDev, mode: Mode) -> (step: Step)
        default_ensures
            step == Step::Failed(Error::Unsupported),
            *final(self) == *old(self),
    {
        Step::Failed(Error::Unsupported)
    }

    /// Resume operation of suspended regulator.
    fn resume(&mut self, rdev: &RegulatorDev) -> (step: Step)
        default_ensures
            step == Step::Failed(Error::Unsupported),
            *final(self) == *old(self),
    {
        Step::Failed(Error::Unsupported)
    }

    /// Configure the regulator to pull down when the regulator is disabled.
    fn set_pull_down(&mut self, rdev: &RegulatorDev) -> (step: Step)
        default_ensures
            step == Step::Failed(Error::Unsupported),
            *final(self) == *old(self),
    {
        Step::Failed(Error::Unsupported)
    }

    /// Takes the outcome of the transaction named last and names the next
    /// step of the running operation, or ends it.
    fn advance(&mut self, rdev: &RegulatorDev, response: Result<u32, Error>) -> (step: Step)
        default_ensures
            step == Step::Failed(Error::Unsupported),
            *final(self) == *old(self),
    {
        Step::Failed(Error::Unsupported)
    }
}

/// Regulator Config
#[derive(Clone, Copy)]
pub struct Config<'a> {
    /// The register map through which the regulator is driven.
    pub regmap: Option<&'a Regmap<'a>>,
}

impl<'a> Config<'a> {
    /// Create a regulator config
    pub fn new() -> (config: Config<'a>)
        ensures
            config.regmap is None,
    {
        Config { regmap: None }
    }

    /// Assign a regmap device to the config
    pub fn with_regmap(self, regmap: &'a Regmap<'a>) -> (config: Config<'a>)
        ensures
            config.regmap == Some(regmap),
    {
        Config { regmap: Some(regmap) }
    }
}

/// Regulator Device
///
/// A registered regulator: its descriptor and the register map it is driven through.
#[derive(Clone, Copy)]
pub struct RegulatorDev<'a> {
    desc: &'a Desc,
    regmap: &'a Regmap<'a>,
}

/// The request builders that implement the common operations over a register map.
pub trait RegmapHelpers {
    /// Helper to implement [`Operations::get_voltage_sel`] using regmap
    fn get_voltage_sel_regmap(&self) -> Result<Request, Error>;

    /// Helper to implement [`Operations::set_voltage_sel`] using regmap
    fn set_voltage_sel_regmap(&self, sel: u32) -> Result<Request, Error>;

    /// Helper to implement [`Operations::is_enabled`] using regmap.
    ///
    /// [`Desc::with_enable`] or [`Desc::with_inverted_enable`] must have been called
    /// to setup the fields required by regmap.
    fn is_enabled_regmap(&self) -> Result<Request, Error>;

    /// Helper to implement [`Operations::enable`] using regmap.
    ///
    /// [`Desc::with_enable`] or [`Desc::with_inverted_enable`] must have been called
    /// to setup the fields required by regmap.
    fn enable_regmap(&self) -> Result<Request, Error>;

    /// Helper to implement [`Operations::disable`] using regmap.
    ///
    /// [`Desc::with_enable`] or [`Desc::with_inverted_enable`] must have been called
    /// to setup the fields required by regmap.
    fn disable_regmap(&self) -> Result<Request, Error>;

    /// Helper to implement [`Operations::set_active_discharge`] using regmap
    ///
    /// [`Desc::with_active_discharge`] must have been called to setup the fields required
    /// by regmap.
    fn set_active_discharge_regmap(&self, enable: bool) -> Result<Request, Error>;

    /// Helper to implement [`Operations::set_current_limit`] using regmap
    fn set_current_limit_regmap(&self, min_ua: i32, max_ua: i32) -> Result<Request, Error>;

    /// Helper to implement [`Operations::get_current_limit`] using regmap
    fn get_current_limit_regmap(&self) -> Result<Request, Error>;
}

impl<'a> RegulatorDev<'a> {
    /// The descriptor the regulator was registered with.
    pub closed spec fn desc(&self) -> Desc {
        *self.desc
    }

    /// The register map the regulator is driven through.
    pub closed spec fn regmap(&self) -> Regmap<'a> {
        *self.regmap
    }

    /// register a regulator
    ///
    /// A regulator that is driven through a register map needs one: a
    /// config without a register map is refused.
    pub fn register(desc: &'a Desc, cfg: Config<'a>) -> (rdev: Result<RegulatorDev<'a>, Error>)
        ensures
            rdev is Ok <==> cfg.regmap is Some,
            rdev matches Ok(r) ==> r.desc() == *desc && r.regmap() == *cfg.regmap->0,
            rdev matches Err(e) ==> e == Error::InvalidArgument,
    {
        match cfg.regmap {
            Some(regmap) => Ok(RegulatorDev { desc, regmap }),
            None => Err(Error::InvalidArgument),
        }
    }

    /// The descriptor the regulator was registered with.
    pub fn descriptor(&self) -> (desc: &'a Desc)
        ensures
            *desc == self.desc(),
    {
        self.desc
    }

    /// The voltage of `selector` under the piecewise linear mapping.
    pub fn list_voltage_linear_range(&self, selector: u32) -> (microvolts: Result<i32, Error>)
        ensures
            microvolts == self.desc().spec_list_voltage_linear_range(selector),
            microvolts matches Ok(uv) ==> uv >= 0,
    {
        self.desc.list_voltage_linear_range(selector)
    }

    /// The voltage of `selector` under the linear mapping.
    pub fn list_voltage_linear(&self, selector: u32) -> (microvolts: Result<i32, Error>)
        ensures
            microvolts == self.desc().spec_list_voltage_linear(selector),
            microvolts matches Ok(uv) ==> uv >= 0,
    {
        self.desc.list_voltage_linear(selector)
    }

    /// Get regulator's name
    pub fn get_name(&self) -> (name: &'static str)
        ensures
            name == self.desc().name,
    {
        self.desc.name
    }

    /// What `set_voltage_sel_regmap` answers.
    pub open spec fn spec_set_voltage_sel(&self, sel: u32) -> Result<Request, Error> {
        if !self.desc().spec_has_selector(sel) {
            Err(Error::Unsupported)
        } else {
            match spec_place(self.desc().vsel_mask, sel) {
                Err(e) => Err(e),
                Ok(bits) => self.regmap().spec_update_bits(
                    self.desc().vsel_reg,
                    self.desc().vsel_mask,
                    bits,
                    false,
                ),
            }
        }
    }

    /// What `set_current_limit_regmap` answers for the limit `max_ua`: the
    /// update that selects the pick, or a refusal as unsupported where every
    /// current of the table exceeds the limit.
    pub open spec fn spec_set_current_limit(&self, max_ua: i32) -> Result<Request, Error> {
        if no_current_within(self.desc().curr_table@, max_ua) {
            Err(Error::Unsupported)
        } else {
            self.spec_set_current_selector(
                choose|pick: int| is_current_pick(self.desc().curr_table@, max_ua, pick),
            )
        }
    }

    /// What `set_current_limit_regmap` answers once the selector `pick` is chosen.
    pub open spec fn spec_set_current_selector(&self, pick: int) -> Result<Request, Error> {
        if pick > u32::MAX {
            Err(Error::ValueTooWide)
        } else {
            match spec_place(self.desc().csel_mask, pick as u32) {
                Err(e) => Err(e),
                Ok(bits) => self.regmap().spec_update_bits(
                    self.desc().csel_reg,
                    self.desc().csel_mask,
                    bits,
                    false,
                ),
            }
        }
    }
}

impl<'a> RegmapHelpers for RegulatorDev<'a> {
    /// Names the read of the voltage selector's register.
    fn get_voltage_sel_regmap(&self) -> (request: Result<Request, Error>)
        ensures
            request == self.regmap().spec_read(self.desc().vsel_reg),
    {
        self.regmap.read(self.desc.vsel_reg)
    }

    /// Names the update that stores the selector `sel`. A selector that the
    /// mapping does not have is not supported.
    fn set_voltage_sel_regmap(&self, sel: u32) -> (request: Result<Request, Error>)
        ensures
            request == self.spec_set_voltage_sel(sel),
    {
        if !self.desc.has_selector(sel) {
            return Err(Error::Unsupported);
        }
        match place(self.desc.vsel_mask, sel) {
            Err(e) => Err(e),
            Ok(bits) => self.regmap.update_bits(self.desc.vsel_reg, self.desc.vsel_mask, bits, false),
        }
    }

    /// Names the read of the enable control's register.
    fn is_enabled_regmap(&self) -> (request: Result<Request, Error>)
        ensures
            request == self.regmap().spec_read(self.desc().enable_reg),
    {
        self.regmap.read(self.desc.enable_reg)
    }

    /// Names the update that sets the enable control to its enabling value.
    fn enable_regmap(&self) -> (request: Result<Request, Error>)
        ensures
            request == self.regmap().spec_update_bits(
                self.desc().enable_reg,
                self.desc().enable_mask,
                self.desc().spec_enable_value(),
                false,
            ),
    {
        self.regmap.update_bits(
            self.desc.enable_reg,
            self.desc.enable_mask,
            self.desc.enable_value(),
            false,
        )
    }

    /// Names the update that sets the enable control to its disabling value.
    fn disable_regmap(&self) -> (request: Result<Request, Error>)
        ensures
            request == self.regmap().spec_update_bits(
                self.desc().enable_reg,
                self.desc().enable_mask,
                self.desc().spec_disable_value(),
                false,
            ),
    {
        self.regmap.update_bits(
            self.desc.enable_reg,
            self.desc.enable_mask,
            self.desc.disable_value(),
            false,
        )
    }

    /// Names the update that switches active discharge on or off.
    fn set_active_discharge_regmap(&self, enable: bool) -> (request: Result<Request, Error>)
        ensures
            request == self.regmap().spec_update_bits(
                self.desc().active_discharge_reg,
                self.desc().active_discharge_mask,
                if enable {
                    self.desc().active_discharge_on
                } else {
                    self.desc().active_discharge_off
                },
                false,
            ),
    {
        let value = if enable {
            self.desc.active_discharge_on
        } else {
            self.desc.active_discharge_off
        };
        self.regmap.update_bits(
            self.desc.active_discharge_reg,
            self.desc.active_discharge_mask,
            value,
            false,
        )
    }

    /// Names the update that selects the current limit: the largest current
    /// of the table that does not exceed `max_ua`. The lower bound `min_ua`
    /// plays no part in the choice. Where every current of the table exceeds
    /// `max_ua`, the request is not supported and no update is named.
    fn set_current_limit_regmap(&self, min_ua: i32, max_ua: i32) -> (request: Result<Request, Error>)
        ensures
            request == self.spec_set_current_limit(max_ua),
            request == Err::<Request, Error>(Error::Unsupported) <==> no_current_within(
                self.desc().curr_table@,
                max_ua,
            ),
            forall|pick: int|
                is_current_pick(self.desc().curr_table@, max_ua, pick) ==> request
                    == #[trigger] self.spec_set_current_selector(pick),
    {
        let pick = match self.desc.current_limit_selector(max_ua) {
            Err(e) => {
                return Err(e);
            },
            Ok(pick) => pick,
        };
        assert forall|other: int|
            is_current_pick(self.desc().curr_table@, max_ua, other) implies other == pick by {
            lemma_current_pick_unique(self.desc().curr_table@, max_ua, other, pick as int);
        }
        if pick > 0xffff_ffff {
            return Err(Error::ValueTooWide);
        }
        match place(self.desc.csel_mask, pick as u32) {
            Err(e) => Err(e),
            Ok(bits) => self.regmap.update_bits(self.desc.csel_reg, self.desc.csel_mask, bits, false),
        }
    }

    /// Names the read of the current selector's register.
    fn get_current_limit_regmap(&self) -> (request: Result<Request, Error>)
        ensures
            request == self.regmap().spec_read(self.desc().csel_reg),
    {
        self.regmap.read(self.desc.csel_reg)
    }
}

} // verus!
