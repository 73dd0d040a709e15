use regmap_hal::drm::connector::{Connector, DisplayInfo, Type};
use regmap_hal::drm::mipi_dsi::{Device, PixelFormat};
use regmap_hal::drm::mode::DisplayMode;
use regmap_hal::drm::panel::{Action, Operations, Panel, Step};
use regmap_hal::error::Error;
use regmap_hal::panel_truly_r63350::sequence::{
    build_prepare, build_unprepare, build_unwind, Command, PlatformData,
};
use regmap_hal::panel_truly_r63350::{display_mode, Driver, Registrations, RAILS};
use regmap_hal::time::Delta;

/// The hardware the sequences act on, with the actions that shall fail.
struct Rig {
    rails: [bool; 3],
    reset_asserted: bool,
    low_power: bool,
    slept: i64,
    log: Vec<Action>,
    failing: Vec<Action>,
}

impl Rig {
    fn new(failing: Vec<Action>) -> Rig {
        Rig {
            rails: [false; 3],
            reset_asserted: false,
            low_power: false,
            slept: 0,
            log: Vec::new(),
            failing,
        }
    }

    fn perform(&mut self, action: Action) -> Result<(), Error> {
        self.log.push(action);
        if self.failing.contains(&action) {
            return Err(Error::BusError(-5));
        }
        match action {
            Action::AssertReset => self.reset_asserted = true,
            Action::ReleaseReset => self.reset_asserted = false,
            Action::Sleep(delta) => self.slept += delta.as_nanos(),
            Action::EnableRail(rail) => self.rails[rail] = true,
            Action::DisableRail(rail) => self.rails[rail] = false,
            Action::SetLowPower(on) => self.low_power = on,
            _ => {}
        }
        Ok(())
    }
}

fn drive(panel: &mut Registrations, first: Step, rig: &mut Rig) -> Result<(), Error> {
    let mut step = first;
    loop {
        match step {
            Step::Perform(action) => {
                let outcome = rig.perform(action);
                step = panel.advance(outcome);
            }
            Step::Done => return Ok(()),
            Step::Failed(e) => return Err(e),
        }
    }
}

fn command(payload: &[u8], post_delay_ms: i64) -> Command {
    Command { payload: payload.to_vec(), post_delay_ms }
}

fn tables() -> PlatformData {
    PlatformData {
        panel_on_cmds: vec![command(&[0xb0, 0x04], 0), command(&[0x29], 100)],
        panel_off_cmds: vec![command(&[0x28], 10), command(&[0xb0, 0x04], 0)],
    }
}

fn panel(has_reset: bool) -> Registrations {
    Driver::probe(Device::new(), Some(tables()), has_reset).unwrap()
}

fn ms(millis: i64) -> Action {
    Action::Sleep(Delta::from_millis(millis))
}

fn power_up(has_reset: bool) -> Vec<Action> {
    let mut script = Vec::new();
    if has_reset {
        script.push(Action::AssertReset);
    }
    script.push(ms(30));
    script.extend([Action::EnableRail(0), Action::EnableRail(1), Action::EnableRail(2)]);
    script.push(ms(30));
    if has_reset {
        script.push(Action::ReleaseReset);
    }
    script.extend([ms(30), Action::SetLowPower(true), Action::SoftReset, ms(20)]);
    script.extend([
        Action::WritePowerOn(0),
        Action::Sleep(Delta::from_nanos(100)),
        Action::WritePowerOn(1),
        ms(100),
    ]);
    script.extend([Action::ExitSleepMode, ms(120), Action::SetDisplayOn, ms(120)]);
    script
}

fn power_down(has_reset: bool) -> Vec<Action> {
    let mut script = vec![
        Action::SetLowPower(false),
        Action::SetDisplayOff,
        ms(120),
        Action::EnterSleepMode,
        Action::WritePowerOff(0),
        ms(10),
        Action::WritePowerOff(1),
        Action::Sleep(Delta::from_nanos(100)),
    ];
    if has_reset {
        script.push(Action::AssertReset);
    }
    script.extend([Action::DisableRail(0), Action::DisableRail(1), Action::DisableRail(2)]);
    script
}

#[test]
fn probe_needs_a_matching_variant() {
    assert_eq!(Driver::probe(Device::new(), None, true).err(), Some(Error::InvalidArgument));
}

#[test]
fn probe_configures_link_and_panel() {
    let panel = panel(true);
    assert_eq!(panel.link(), Device { lanes: 4, format: PixelFormat::Rgb888, mode_flags: 3 });
    assert!(!panel.is_prepared());
    assert!(panel.is_idle());
    assert_eq!(panel.platform_data().panel_on_cmds.len(), 2);
    assert_eq!(panel.platform_data().panel_off_cmds[0].payload, vec![0x28]);
    assert_eq!(RAILS, 3);
    assert_eq!(Panel::new(Type::DSI).connector_type, Type::DSI);
}

#[test]
fn prepare_performs_the_power_up_sequence_in_order() {
    let mut panel = panel(true);
    let mut rig = Rig::new(vec![]);
    let first = panel.prepare();
    assert_eq!(first, Step::Perform(Action::AssertReset));
    assert!(!panel.is_idle());
    assert_eq!(drive(&mut panel, first, &mut rig), Ok(()));
    assert_eq!(rig.log, power_up(true));
    assert!(panel.is_prepared());
    assert!(panel.is_idle());
    assert_eq!(rig.rails, [true, true, true]);
    assert!(!rig.reset_asserted);
    assert!(rig.low_power);
    assert_eq!(rig.slept, 450_000_100);
}

#[test]
fn prepare_without_a_reset_line_skips_the_reset_steps() {
    let mut panel = panel(false);
    let mut rig = Rig::new(vec![]);
    let first = panel.prepare();
    assert_eq!(first, Step::Perform(ms(30)));
    assert_eq!(drive(&mut panel, first, &mut rig), Ok(()));
    assert_eq!(rig.log, power_up(false));
    assert!(panel.is_prepared());
}

#[test]
fn prepare_unwinds_when_the_third_rail_fails() {
    let mut panel = panel(true);
    let mut rig = Rig::new(vec![Action::EnableRail(2)]);
    let first = panel.prepare();
    assert_eq!(drive(&mut panel, first, &mut rig), Err(Error::BusError(-5)));
    assert_eq!(
        rig.log,
        vec![
            Action::AssertReset,
            ms(30),
            Action::EnableRail(0),
            Action::EnableRail(1),
            Action::EnableRail(2),
            Action::DisableRail(1),
            Action::DisableRail(0),
        ]
    );
    assert_eq!(rig.rails, [false, false, false]);
    assert!(rig.reset_asserted);
    assert!(!panel.is_prepared());
    assert!(panel.is_idle());
}

#[test]
fn prepare_with_a_failing_first_rail_has_nothing_to_undo() {
    let mut panel = panel(false);
    let mut rig = Rig::new(vec![Action::EnableRail(0)]);
    let first = panel.prepare();
    assert_eq!(drive(&mut panel, first, &mut rig), Err(Error::BusError(-5)));
    assert_eq!(rig.log, vec![ms(30), Action::EnableRail(0)]);
    assert!(!panel.is_prepared());
    assert!(panel.is_idle());
}

#[test]
fn prepare_unwinds_reset_and_rails_when_a_command_fails() {
    let mut panel = panel(true);
    let mut rig = Rig::new(vec![Action::WritePowerOn(1)]);
    let first = panel.prepare();
    assert_eq!(drive(&mut panel, first, &mut rig), Err(Error::BusError(-5)));
    let mut expected: Vec<Action> = power_up(true).into_iter().take(14).collect();
    assert_eq!(expected.last(), Some(&Action::WritePowerOn(1)));
    expected.extend([
        Action::AssertReset,
        Action::DisableRail(2),
        Action::DisableRail(1),
        Action::DisableRail(0),
    ]);
    assert_eq!(rig.log, expected);
    assert_eq!(rig.rails, [false, false, false]);
    assert!(rig.reset_asserted);
    assert!(!panel.is_prepared());
}

#[test]
fn prepare_reports_the_first_failure_even_if_undoing_fails() {
    let mut panel = panel(true);
    let mut rig = Rig::new(vec![Action::SetDisplayOn, Action::DisableRail(1)]);
    let first = panel.prepare();
    assert_eq!(drive(&mut panel, first, &mut rig), Err(Error::BusError(-5)));
    let tail: Vec<Action> = rig.log.iter().rev().take(4).rev().cloned().collect();
    assert_eq!(
        tail,
        vec![
            Action::AssertReset,
            Action::DisableRail(2),
            Action::DisableRail(1),
            Action::DisableRail(0),
        ]
    );
    assert_eq!(rig.rails, [false, true, false]);
    assert!(!panel.is_prepared());
    assert!(panel.is_idle());
}

#[test]
fn prepare_passes_the_failing_action_s_error_on() {
    let mut panel = panel(true);
    let first = panel.prepare();
    assert_eq!(first, Step::Perform(Action::AssertReset));
    assert_eq!(panel.advance(Ok(())), Step::Perform(ms(30)));
    assert_eq!(panel.advance(Ok(())), Step::Perform(Action::EnableRail(0)));
    assert_eq!(panel.advance(Ok(())), Step::Perform(Action::EnableRail(1)));
    assert_eq!(panel.advance(Err(Error::PermissionDenied)), Step::Perform(Action::DisableRail(0)));
    assert_eq!(panel.advance(Err(Error::BusError(-1))), Step::Failed(Error::PermissionDenied));
    assert!(panel.is_idle());
}

#[test]
fn unprepare_on_an_unprepared_panel_touches_nothing() {
    let mut panel = panel(true);
    assert_eq!(panel.unprepare(), Step::Done);
    assert_eq!(panel.unprepare(), Step::Done);
    assert!(panel.is_idle());
    assert!(!panel.is_prepared());
}

#[test]
fn unprepare_twice_performs_the_sequence_once() {
    let mut panel = panel(true);
    let mut rig = Rig::new(vec![]);
    let first = panel.prepare();
    drive(&mut panel, first, &mut rig).unwrap();
    rig.log.clear();
    let first = panel.unprepare();
    assert_eq!(first, Step::Perform(Action::SetLowPower(false)));
    assert_eq!(drive(&mut panel, first, &mut rig), Ok(()));
    assert_eq!(rig.log, power_down(true));
    assert!(!panel.is_prepared());
    assert_eq!(rig.rails, [false, false, false]);
    assert!(rig.reset_asserted);
    assert!(!rig.low_power);
    rig.log.clear();
    let second = panel.unprepare();
    assert_eq!(second, Step::Done);
    assert_eq!(drive(&mut panel, second, &mut rig), Ok(()));
    assert!(rig.log.is_empty());
}

#[test]
fn unprepare_goes_on_past_every_failure() {
    let mut panel = panel(false);
    let mut rig = Rig::new(vec![]);
    let first = panel.prepare();
    drive(&mut panel, first, &mut rig).unwrap();
    let mut rig = Rig::new(power_down(false));
    let first = panel.unprepare();
    assert_eq!(drive(&mut panel, first, &mut rig), Ok(()));
    assert_eq!(rig.log, power_down(false));
    assert!(!panel.is_prepared());
    assert!(panel.is_idle());
}

#[test]
fn a_running_operation_refuses_another() {
    let mut panel = panel(true);
    let first = panel.prepare();
    assert_eq!(first, Step::Perform(Action::AssertReset));
    assert_eq!(panel.prepare(), Step::Failed(Error::NotReady));
    assert_eq!(panel.unprepare(), Step::Failed(Error::NotReady));
    assert_eq!(panel.advance(Ok(())), Step::Perform(ms(30)));
}

#[test]
fn advance_without_a_running_operation_is_refused() {
    let mut panel = panel(true);
    assert_eq!(panel.advance(Ok(())), Step::Failed(Error::InvalidArgument));
    assert_eq!(panel.advance(Err(Error::BusError(-5))), Step::Failed(Error::InvalidArgument));
    assert!(panel.is_idle());
}

#[test]
fn prepare_of_a_prepared_panel_runs_the_sequence_again() {
    let mut panel = panel(true);
    let mut rig = Rig::new(vec![]);
    let first = panel.prepare();
    drive(&mut panel, first, &mut rig).unwrap();
    let mut rig = Rig::new(vec![Action::SoftReset]);
    let first = panel.prepare();
    assert_eq!(drive(&mut panel, first, &mut rig), Err(Error::BusError(-5)));
    assert!(panel.is_prepared());
}

#[test]
fn a_command_without_a_declared_wait_waits_a_hundred_nanoseconds() {
    assert_eq!(command(&[1], 0).delay(), Delta::from_nanos(100));
    assert_eq!(command(&[1], 27).delay(), Delta::from_millis(27));
    assert_eq!(command(&[1], 120).delay().as_nanos(), 120_000_000);
}

#[test]
fn sequence_builders_follow_the_tables() {
    let data = tables();
    assert_eq!(build_prepare(3, true, &data.panel_on_cmds), power_up(true));
    assert_eq!(build_unprepare(3, false, &data.panel_off_cmds), power_down(false));
    assert_eq!(build_prepare(0, false, &Vec::new()).len(), 10);
    assert_eq!(build_unprepare(0, false, &Vec::new()).len(), 4);
}

#[test]
fn unwinding_undoes_the_last_action_first() {
    let script = power_up(true);
    assert_eq!(build_unwind(&script, 0), vec![]);
    assert_eq!(build_unwind(&script, 2), vec![]);
    assert_eq!(build_unwind(&script, 3), vec![Action::DisableRail(0)]);
    assert_eq!(
        build_unwind(&script, script.len()),
        vec![
            Action::AssertReset,
            Action::DisableRail(2),
            Action::DisableRail(1),
            Action::DisableRail(0),
        ]
    );
}

#[test]
fn get_modes_publishes_the_one_display_mode() {
    let mut panel = panel(true);
    let mut connector = Connector::new();
    assert_eq!(panel.get_modes(&mut connector), Ok(1));
    let mode = display_mode();
    assert_eq!(mode.clock, 144981);
    assert_eq!((mode.hdisplay, mode.hsync_start, mode.hsync_end, mode.htotal), (1080, 1172, 1192, 1252));
    assert_eq!((mode.vdisplay, mode.vsync_start, mode.vsync_end, mode.vtotal), (1920, 1924, 1925, 1930));
    assert_eq!(connector.probed_modes, vec![DisplayMode { data: mode, named: true }]);
    assert_eq!(connector.display_info, DisplayInfo { width_mm: 68, height_mm: 121 });
    assert!(!panel.is_prepared());
    assert!(panel.is_idle());
}

/// A driver that overrides nothing.
struct Bare;

impl Operations for Bare {}

#[test]
fn operations_that_a_driver_lacks_are_unsupported() {
    let mut bare = Bare;
    assert_eq!(bare.prepare(), Step::Failed(Error::Unsupported));
    assert_eq!(bare.unprepare(), Step::Failed(Error::Unsupported));
    assert_eq!(bare.advance(Ok(())), Step::Failed(Error::Unsupported));
    assert_eq!(bare.get_modes(&mut Connector::new()), Err(Error::Unsupported));
}
