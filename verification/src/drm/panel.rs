//! Panels, and the steps by which a panel driver brings its hardware up and down.
//!
//! A driver never touches the hardware. It names one action at a time; the
//! caller performs the action and reports how it went, and the driver names
//! the next.

use crate::drm::connector::{Connector, Type};
use crate::error::Error;
use crate::time::Delta;
use vstd::prelude::*;

verus! {

/// A panel before it is registered.
#[derive(Clone, Copy, Debug, PartialEq, Eq, Structural)]
pub struct Panel {
    /// The kind of connector the panel sits behind.
    pub connector_type: Type,
    /// Whether the upstream bridge is prepared before the panel.
    pub prepare_prev_first: bool,
}

impl Panel {
    /// A panel behind a connector of `connector_type`, prepared after its upstream.
    pub fn new(connector_type: Type) -> (panel: Panel)
        ensures
            panel == (Panel { connector_type, prepare_prev_first: false }),
    {
        Panel { connector_type, prepare_prev_first: false }
    }

    /// Chooses whether the upstream bridge is prepared before the panel.
    pub fn prepare_prev_first(&mut self, val: bool)
        ensures
            *final(self) == (Panel { prepare_prev_first: val, ..*old(self) }),
    {
        self.prepare_prev_first = val;
    }

    /// Registers the panel.
    pub fn register(self) -> (registration: PanelRegistration)
        ensures
            registration.panel() == self,
    {
        PanelRegistration(self)
    }
}

/// A registered panel.
#[derive(Clone, Copy, Debug, PartialEq, Eq, Structural)]
pub struct PanelRegistration(Panel);

impl PanelRegistration {
    /// The panel that was registered.
    pub closed spec fn panel(self) -> Panel {
        self.0
    }

    /// The panel that was registered.
    pub fn get(&self) -> (panel: Panel)
        ensures
            panel == self.panel(),
    {
        self.0
    }
}

/// One thing done to the panel's hardware.
#[derive(Clone, Copy, Debug, PartialEq, Eq, Structural)]
pub enum Action {
    /// Drive the reset line to its asserted level.
    AssertReset,
    /// Drive the reset line to its released level.
    ReleaseReset,
    /// Block for at least the given span.
    Sleep(Delta),
    /// Enable the power rail with the given index.
    EnableRail(usize),
    /// Disable the power rail with the given index.
    DisableRail(usize),
    /// Switch low-power transmission on the bus on or off.
    SetLowPower(bool),
    /// Send the soft-reset command.
    SoftReset,
    /// Send the command with the given index of the power-on table.
    WritePowerOn(usize),
    /// Send the command with the given index of the power-off table.
    WritePowerOff(usize),
    /// Send the exit-sleep command.
    ExitSleepMode,
    /// Send the display-on command.
    SetDisplayOn,
    /// Send the display-off command.
    SetDisplayOff,
    /// Send the enter-sleep command.
    EnterSleepMode,
}

/// What a driver answers: the next action to perform, or the end of the
/// operation with its result.
#[derive(Clone, Copy, Debug, PartialEq, Eq, Structural)]
pub enum Step {
    /// Perform the action, then report its outcome with `advance`.
    Perform(Action),
    /// The operation is over and succeeded.
    Done,
    /// The operation is over and failed.
    Failed(Error),
}

/// The operations of a panel driver. A driver overrides those its hardware
/// has; the others answer that they are not supported.
pub trait Operations: Sized {
    /// Starts powering the panel up.
    fn prepare(&mut self) -> (step: Step)
        default_ensures
            step == Step::Failed(Error::Unsupported),
            *final(self) == *old(self),
    {
        Step::Failed(Error::Unsupported)
    }

    /// Starts powering the panel down.
    fn unprepare(&mut self) -> (step: Step)
        default_ensures
            step == Step::Failed(Error::Unsupported),
            *final(self) == *old(self),
    {
        Step::Failed(Error::Unsupported)
    }

    /// Takes the outcome of the action named last and names the next step.
    fn advance(&mut self, outcome: Result<(), Error>) -> (step: Step)
        default_ensures
            step == Step::Failed(Error::Unsupported),
            *final(self) == *old(self),
    {
        Step::Failed(Error::Unsupported)
    }

    /// Adds the panel's display modes to `connector` and returns their number.
    fn get_modes(&mut self, connector: &mut Connector) -> (count: Result<u16, Error>)
        default_ensures
            count == Err::<u16, Error>(Error::Unsupported),
            *final(self) == *old(self),
            *final(connector) == *old(connector),
    {
        Err(Error::Unsupported)
    }
}

} // verus!
