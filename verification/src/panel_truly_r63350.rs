//! Driver for the Truly R63350 DSI panel

pub mod laws;
pub mod sequence;

use crate::drm::connector::{Connector, DisplayInfo, Type};
use crate::drm::mipi_dsi::mode::{VIDEO, VIDEO_BURST};
use crate::drm::mipi_dsi::{Device, PixelFormat};
use crate::drm::mode::{DisplayMode, DisplayModeData};
use crate::drm::panel::{Action, Operations, Panel, PanelRegistration, Step};
use crate::error::Error;
use crate::panel_truly_r63350::sequence::{
    build_prepare, build_unprepare, build_unwind, delays, prepare_script, unprepare_script, unwind,
    Command, PlatformData,
};
use vstd::prelude::*;

verus! {

/// Number of power rails of the panel: avdd, avee and iovcc, in that order.
pub const RAILS: usize = 3;

/// What the sequences of one panel instance are built from.
pub struct Setup {
    /// Number of power rails.
    pub rails: nat,
    /// Whether the panel has a reset line.
    pub has_reset: bool,
    /// The declared waits of the power-on table.
    pub on_waits: Seq<i64>,
    /// The declared waits of the power-off table.
    pub off_waits: Seq<i64>,
}

impl Setup {
    /// The power-up sequence of this panel.
    pub open spec fn power_up(self) -> Seq<Action> {
        prepare_script(self.rails, self.has_reset, self.on_waits)
    }

    /// The power-down sequence of this panel.
    pub open spec fn power_down(self) -> Seq<Action> {
        unprepare_script(self.rails, self.has_reset, self.off_waits)
    }
}

/// Where a panel stands in an operation. In each running state `script[pc]`
/// is the action that was named last and whose outcome is awaited.
pub enum Progress {
    /// No operation is running.
    Idle,
    /// Powering up.
    Preparing { script: Seq<Action>, pc: nat },
    /// Undoing a power-up that failed with `fault` after `done` of its
    /// actions had taken effect.
    Unwinding { script: Seq<Action>, pc: nat, done: nat, fault: Error },
    /// Powering down.
    Unpreparing { script: Seq<Action>, pc: nat },
}

/// What `prepare` does in the state `(prepared, progress)`: the state after
/// it and its answer.
pub open spec fn spec_prepare(setup: Setup, prepared: bool, progress: Progress) -> (
    bool,
    Progress,
    Step,
) {
    if progress is Idle {
        (
            prepared,
            Progress::Preparing { script: setup.power_up(), pc: 0 },
            Step::Perform(setup.power_up()[0]),
        )
    } else {
        (prepared, progress, Step::Failed(Error::NotReady))
    }
}

/// What `unprepare` does in the state `(prepared, progress)`.
pub open spec fn spec_unprepare(setup: Setup, prepared: bool, progress: Progress) -> (
    bool,
    Progress,
    Step,
) {
    if !(progress is Idle) {
        (prepared, progress, Step::Failed(Error::NotReady))
    } else if !prepared {
        (prepared, progress, Step::Done)
    } else {
        (
            prepared,
            Progress::Unpreparing { script: setup.power_down(), pc: 0 },
            Step::Perform(setup.power_down()[0]),
        )
    }
}

/// What `advance` does in the state `(prepared, progress)` on the outcome of
/// the action named last.
///
/// While powering up, the first failure ends the sequence: what was done is
/// undone and the failure is the operation's result. While undoing and while
/// powering down, failures are passed over.
pub open spec fn spec_advance(prepared: bool, progress: Progress, outcome: Result<(), Error>) -> (
    bool,
    Progress,
    Step,
) {
    match progress {
        Progress::Idle => (prepared, progress, Step::Failed(Error::InvalidArgument)),
        Progress::Preparing { script, pc } => match outcome {
            Err(fault) => {
                let undo = unwind(script.take(pc as int));
                if undo.len() == 0 {
                    (prepared, Progress::Idle, Step::Failed(fault))
                } else {
                    (
                        prepared,
                        Progress::Unwinding { script: undo, pc: 0, done: pc, fault },
                        Step::Perform(undo[0]),
                    )
                }
            },
            Ok(_) => if pc + 1 < script.len() {
                (
                    prepared,
                    Progress::Preparing { script, pc: pc + 1 },
                    Step::Perform(script[pc as int + 1]),
                )
            } else {
                (true, Progress::Idle, Step::Done)
            },
        },
        Progress::Unwinding { script, pc, done, fault } => if pc + 1 < script.len() {
            (
                prepared,
                Progress::Unwinding { script, pc: pc + 1, done, fault },
                Step::Perform(script[pc as int + 1]),
            )
        } else {
            (prepared, Progress::Idle, Step::Failed(fault))
        },
        Progress::Unpreparing { script, pc } => if pc + 1 < script.len() {
            (
                prepared,
                Progress::Unpreparing { script, pc: pc + 1 },
                Step::Perform(script[pc as int + 1]),
            )
        } else {
            (false, Progress::Idle, Step::Done)
        },
    }
}

/// The one display mode of the panel.
pub open spec fn spec_display_mode() -> DisplayModeData {
    DisplayModeData {
        clock: 144981,
        hdisplay: 1080,
        hsync_start: 1172,
        hsync_end: 1192,
        htotal: 1252,
        vdisplay: 1920,
        vsync_start: 1924,
        vsync_end: 1925,
        vtotal: 1930,
        width_mm: 68,
        height_mm: 121,
    }
}

/// The one display mode of the panel.
pub fn display_mode() -> (mode: DisplayModeData)
    ensures
        mode == spec_display_mode(),
        mode.wf(),
{
    DisplayModeData {
        clock: 144981,
        hdisplay: 1080,
        hsync_start: 1080 + 92,
        hsync_end: 1080 + 92 + 20,
        htotal: 1080 + 92 + 20 + 60,
        vdisplay: 1920,
        vsync_start: 1920 + 4,
        vsync_end: 1920 + 4 + 1,
        vtotal: 1920 + 4 + 1 + 5,
        width_mm: 68,
        height_mm: 121,
    }
}

#[derive(Clone, Copy, Debug, PartialEq, Eq, Structural)]
enum Phase {
    Idle,
    Preparing,
    Unwinding,
    Unpreparing,
}

/// The state of one panel instance.
pub struct Registrations {
    dsi: Device,
    rails: usize,
    has_reset: bool,
    prepared: bool,
    pdata: PlatformData,
    panel: PanelRegistration,
    phase: Phase,
    script: Vec<Action>,
    pc: usize,
    done: usize,
    fault: Error,
}

/// The panel driver.
pub struct Driver;

impl Driver {
    /// Sets up a panel instance on the DSI peripheral `dsi`: four lanes,
    /// 24-bit pixels, burst video mode, registered behind a DSI connector and
    /// prepared before its upstream. `id_info` holds the command tables of
    /// the variant that matched, and `has_reset` tells whether the optional
    /// reset line was found. Without a matching variant the probe fails.
    pub fn probe(dsi: Device, id_info: Option<PlatformData>, has_reset: bool) -> (data: Result<
        Registrations,
        Error,
    >)
        ensures
            id_info is Some <==> data is Ok,
            data matches Err(e) ==> e == Error::InvalidArgument,
            data matches Ok(r) ==> {
                &&& r.dsi() == (Device {
                    lanes: 4,
                    format: PixelFormat::Rgb888,
                    mode_flags: VIDEO | VIDEO_BURST,
                })
                &&& r.panel() == (Panel { connector_type: Type::DSI, prepare_prev_first: true })
                &&& !r.prepared()
                &&& r.progress() is Idle
                &&& r.setup() == (Setup {
                    rails: RAILS as nat,
                    has_reset,
                    on_waits: delays(id_info->0.panel_on_cmds@),
                    off_waits: delays(id_info->0.panel_off_cmds@),
                })
                &&& r.pdata() == id_info->0
            },
    {
        let pdata = match id_info {
            Some(pdata) => pdata,
            None => {
                return Err(Error::InvalidArgument);
            },
        };
        let mut panel = Panel::new(Type::DSI);
        panel.prepare_prev_first(true);
        let panel = panel.register();
        let mut dsi = dsi;
        dsi.set_lanes(4);
        dsi.set_format(PixelFormat::Rgb888);
        *dsi.mode_flags_mut() = VIDEO | VIDEO_BURST;
        Ok(
            Registrations {
                dsi,
                rails: RAILS,
                has_reset,
                prepared: false,
                pdata,
                panel,
                phase: Phase::Idle,
                script: Vec::new(),
                pc: 0,
                done: 0,
                fault: Error::InvalidArgument,
            },
        )
    }
}

impl Registrations {
    /// The link parameters chosen at probe.
    pub closed spec fn dsi(&self) -> Device {
        self.dsi
    }

    /// The panel as registered at probe.
    pub closed spec fn panel(&self) -> Panel {
        self.panel.panel()
    }

    /// The command tables of the panel's variant.
    pub closed spec fn pdata(&self) -> PlatformData {
        self.pdata
    }

    /// What the panel's sequences are built from.
    pub closed spec fn setup(&self) -> Setup {
        Setup {
            rails: self.rails as nat,
            has_reset: self.has_reset,
            on_waits: delays(self.pdata.panel_on_cmds@),
            off_waits: delays(self.pdata.panel_off_cmds@),
        }
    }

    /// Whether the panel is powered up.
    pub closed spec fn prepared(&self) -> bool {
        self.prepared
    }

    /// Where the panel stands in an operation.
    pub closed spec fn progress(&self) -> Progress {
        match self.phase {
            Phase::Idle => Progress::Idle,
            Phase::Preparing => Progress::Preparing { script: self.script@, pc: self.pc as nat },
            Phase::Unwinding => Progress::Unwinding {
                script: self.script@,
                pc: self.pc as nat,
                done: self.done as nat,
                fault: self.fault,
            },
            Phase::Unpreparing => Progress::Unpreparing {
                script: self.script@,
                pc: self.pc as nat,
            },
        }
    }

    /// A running operation follows one of the panel's sequences, and the
    /// action awaited lies inside it.
    #[verifier::type_invariant]
    pub open spec fn wf(&self) -> bool {
        match self.progress() {
            Progress::Idle => true,
            Progress::Preparing { script, pc } => script == self.setup().power_up() && pc
                < script.len(),
            Progress::Unwinding { script, pc, done, fault } => pc < script.len() && done
                < self.setup().power_up().len() && script == unwind(
                self.setup().power_up().take(done as int),
            ),
            Progress::Unpreparing { script, pc } => script == self.setup().power_down() && pc
                < script.len(),
        }
    }

    /// Whether the panel is powered up.
    pub fn is_prepared(&self) -> (prepared: bool)
        ensures
            prepared == self.prepared(),
    {
        self.prepared
    }

    /// Whether no operation is running.
    pub fn is_idle(&self) -> (idle: bool)
        ensures
            idle == (self.progress() is Idle),
    {
        matches!(self.phase, Phase::Idle)
    }

    /// The link parameters chosen at probe.
    pub fn link(&self) -> (dsi: Device)
        ensures
            dsi == self.dsi(),
    {
        self.dsi
    }

    /// The command tables of the panel's variant.
    pub fn platform_data(&self) -> (pdata: &PlatformData)
        ensures
            *pdata == self.pdata(),
    {
        &self.pdata
    }

    fn next(&mut self) -> (step: Option<Action>)
        requires
            !(old(self).progress() is Idle),
        ensures
            step.is_some() == (old(self).pc + 1 < old(self).script@.len()),
            step matches Some(action) ==> action == old(self).script@[old(self).pc + 1]
                && final(self).pc == old(self).pc + 1,
            step is None ==> final(self).pc == old(self).pc,
            final(self).phase == old(self).phase,
            final(self).script == old(self).script,
            final(self).fault == old(self).fault,
            final(self).done == old(self).done,
            final(self).prepared == old(self).prepared,
            final(self).setup() == old(self).setup(),
            final(self).dsi == old(self).dsi,
            final(self).panel == old(self).panel,
            final(self).pdata == old(self).pdata,
    {
        proof {
            use_type_invariant(&*self);
        }
        let len = self.script.len();
        if self.pc + 1 < len {
            self.pc = self.pc + 1;
            Some(self.script[self.pc])
        } else {
            None
        }
    }
}

impl Operations for Registrations {
    /// Starts the power-up sequence and names its first action. While an
    /// operation is running the panel is not ready for another.
    fn prepare(&mut self) -> (step: Step)
        ensures
            (final(self).prepared(), final(self).progress(), step) == spec_prepare(
                old(self).setup(),
                old(self).prepared(),
                old(self).progress(),
            ),
            final(self).setup() == old(self).setup(),
            final(self).dsi() == old(self).dsi(),
            final(self).panel() == old(self).panel(),
            final(self).pdata() == old(self).pdata(),
    {
        if !matches!(self.phase, Phase::Idle) {
            return Step::Failed(Error::NotReady);
        }
        let script = build_prepare(self.rails, self.has_reset, &self.pdata.panel_on_cmds);
        let first = script[0];
        self.script = script;
        self.pc = 0;
        self.phase = Phase::Preparing;
        Step::Perform(first)
    }

    /// Starts the power-down sequence and names its first action. On a panel
    /// that is not powered up this succeeds at once and names no action.
    fn unprepare(&mut self) -> (step: Step)
        ensures
            (final(self).prepared(), final(self).progress(), step) == spec_unprepare(
                old(self).setup(),
                old(self).prepared(),
                old(self).progress(),
            ),
            final(self).setup() == old(self).setup(),
            final(self).dsi() == old(self).dsi(),
            final(self).panel() == old(self).panel(),
            final(self).pdata() == old(self).pdata(),
    {
        if !matches!(self.phase, Phase::Idle) {
            return Step::Failed(Error::NotReady);
        }
        if !self.prepared {
            return Step::Done;
        }
        let script = build_unprepare(self.rails, self.has_reset, &self.pdata.panel_off_cmds);
        let first = script[0];
        self.script = script;
        self.pc = 0;
        self.phase = Phase::Unpreparing;
        Step::Perform(first)
    }

    /// Takes the outcome of the action named last and names the next step of
    /// the running operation, or ends it.
    fn advance(&mut self, outcome: Result<(), Error>) -> (step: Step)
        ensures
            (final(self).prepared(), final(self).progress(), step) == spec_advance(
                old(self).prepared(),
                old(self).progress(),
                outcome,
            ),
            final(self).setup() == old(self).setup(),
            final(self).dsi() == old(self).dsi(),
            final(self).panel() == old(self).panel(),
            final(self).pdata() == old(self).pdata(),
    {
        proof {
            use_type_invariant(&*self);
        }
        match self.phase {
            Phase::Idle => Step::Failed(Error::InvalidArgument),
            Phase::Preparing => match outcome {
                Err(fault) => {
                    let done = self.pc;
                    let undo = build_unwind(&self.script, done);
                    self.phase = Phase::Idle;
                    if undo.len() == 0 {
                        Step::Failed(fault)
                    } else {
                        let first = undo[0];
                        self.script = undo;
                        self.pc = 0;
                        self.fault = fault;
                        self.done = done;
                        self.phase = Phase::Unwinding;
                        Step::Perform(first)
                    }
                },
                Ok(_) => match self.next() {
                    Some(action) => Step::Perform(action),
                    None => {
                        self.phase = Phase::Idle;
                        self.prepared = true;
                        Step::Done
                    },
                },
            },
            Phase::Unwinding => match self.next() {
                Some(action) => Step::Perform(action),
                None => {
                    self.phase = Phase::Idle;
                    Step::Failed(self.fault)
                },
            },
            Phase::Unpreparing => match self.next() {
                Some(action) => Step::Perform(action),
                None => {
                    self.phase = Phase::Idle;
                    self.prepared = false;
                    Step::Done
                },
            },
        }
    }

    /// Adds the panel's one display mode to `connector`, named, records the
    /// picture's physical size there, and reports one mode.
    fn get_modes(&mut self, connector: &mut Connector) -> (count: Result<u16, Error>)
        ensures
            count == Ok::<u16, Error>(1),
            final(connector).probed_modes@ == old(connector).probed_modes@.push(
                DisplayMode { data: spec_display_mode(), named: true },
            ),
            final(connector).display_info == (DisplayInfo { width_mm: 68, height_mm: 121 }),
            final(self).prepared() == old(self).prepared(),
            final(self).progress() == old(self).progress(),
            final(self).setup() == old(self).setup(),
            final(self).dsi() == old(self).dsi(),
            final(self).panel() == old(self).panel(),
            final(self).pdata() == old(self).pdata(),
    {
        let display_mode = display_mode();
        let mut mode = DisplayMode::duplicate(&display_mode);
        mode.set_name();
        mode.probed_add(connector);
        connector.display_info = DisplayInfo {
            width_mm: display_mode.width_mm as u32,
            height_mm: display_mode.height_mm as u32,
        };
        Ok(1)
    }
}

} // verus!
