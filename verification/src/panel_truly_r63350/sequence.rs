//! The power-up and power-down sequences of the panel, and how a failed
//! power-up is undone.

use crate::drm::panel::Action;
use crate::time::{saturate, Delta, NSEC_PER_MSEC};
use vstd::prelude::*;

verus! {

/// One command of a chip's command table.
#[derive(Debug)]
pub struct Command {
    /// The opcode and its arguments.
    pub payload: Vec<u8>,
    /// Milliseconds to wait after the command; zero asks for the nominal minimum.
    pub post_delay_ms: i64,
}

/// The command tables of one panel variant.
#[derive(Debug)]
pub struct PlatformData {
    /// The commands that initialise the panel, in order.
    pub panel_on_cmds: Vec<Command>,
    /// The commands that shut the panel down, in order.
    pub panel_off_cmds: Vec<Command>,
}

/// The wait after a command declared with `ms` milliseconds: 100 nanoseconds
/// where none is declared.
pub open spec fn spec_post_delay(ms: i64) -> Delta {
    if ms == 0 {
        Delta { nanos: 100 }
    } else {
        Delta { nanos: saturate(ms * NSEC_PER_MSEC) as i64 }
    }
}

/// The declared waits of a command table.
pub open spec fn delays(cmds: Seq<Command>) -> Seq<i64> {
    Seq::new(cmds.len(), |i: int| cmds[i].post_delay_ms)
}

impl Command {
    /// The wait to observe after the command.
    pub fn delay(&self) -> (delta: Delta)
        ensures
            delta == spec_post_delay(self.post_delay_ms),
    {
        if self.post_delay_ms == 0 {
            Delta::from_nanos(100)
        } else {
            Delta::from_millis(self.post_delay_ms)
        }
    }
}

/// A wait of `ms` milliseconds, for the fixed waits of the sequences.
pub open spec fn pause(ms: i64) -> Action {
    Action::Sleep(Delta { nanos: (ms * NSEC_PER_MSEC) as i64 })
}

/// The action `action` where `present`, nothing otherwise.
pub open spec fn optional(present: bool, action: Action) -> Seq<Action> {
    if present {
        seq![action]
    } else {
        Seq::empty()
    }
}

/// Enabling the rails `0..rails` in declared order.
pub open spec fn rails_on(rails: nat) -> Seq<Action> {
    Seq::new(rails, |i: int| Action::EnableRail(i as usize))
}

/// Disabling the rails `0..rails` in declared order.
pub open spec fn rails_off(rails: nat) -> Seq<Action> {
    Seq::new(rails, |i: int| Action::DisableRail(i as usize))
}

/// Each command of a table followed by its wait.
pub open spec fn command_steps(power_on: bool, waits: Seq<i64>) -> Seq<Action> {
    Seq::new(
        2 * waits.len(),
        |i: int|
            if i % 2 == 0 {
                if power_on {
                    Action::WritePowerOn((i / 2) as usize)
                } else {
                    Action::WritePowerOff((i / 2) as usize)
                }
            } else {
                Action::Sleep(spec_post_delay(waits[i / 2]))
            },
    )
}

/// The power-up sequence: hold reset, enable the rails, release reset, put
/// the bus in low-power mode and soft-reset the panel, send the power-on
/// table, leave sleep and switch the display on, with the settle waits between.
pub open spec fn prepare_script(rails: nat, has_reset: bool, on_waits: Seq<i64>) -> Seq<Action> {
    optional(has_reset, Action::AssertReset) + seq![pause(30)] + rails_on(rails) + seq![pause(30)]
        + optional(has_reset, Action::ReleaseReset) + seq![
        pause(30),
        Action::SetLowPower(true),
        Action::SoftReset,
        pause(20),
    ] + command_steps(true, on_waits) + seq![
        Action::ExitSleepMode,
        pause(120),
        Action::SetDisplayOn,
        pause(120),
    ]
}

/// The power-down sequence: leave low-power mode, switch the display off,
/// enter sleep, send the power-off table, hold reset and disable the rails.
pub open spec fn unprepare_script(rails: nat, has_reset: bool, off_waits: Seq<i64>) -> Seq<
    Action,
> {
    seq![
        Action::SetLowPower(false),
        Action::SetDisplayOff,
        pause(120),
        Action::EnterSleepMode,
    ] + command_steps(false, off_waits) + optional(has_reset, Action::AssertReset) + rails_off(
        rails,
    )
}

/// What takes back the effect of one action of the power-up sequence: a rail
/// that was enabled is disabled, a reset line that was released is asserted.
pub open spec fn inverse(action: Action) -> Seq<Action> {
    match action {
        Action::EnableRail(rail) => seq![Action::DisableRail(rail)],
        Action::ReleaseReset => seq![Action::AssertReset],
        _ => Seq::empty(),
    }
}

/// What undoes the actions `done`, which all took effect: the inverse of
/// each, the last action's first.
pub open spec fn unwind(done: Seq<Action>) -> Seq<Action>
    decreases done.len(),
{
    if done.len() == 0 {
        Seq::empty()
    } else {
        inverse(done.last()) + unwind(done.drop_last())
    }
}

fn push_pause(script: &mut Vec<Action>, ms: i64)
    requires
        0 <= ms <= 1000,
    ensures
        final(script)@ == old(script)@.push(pause(ms)),
{
    script.push(Action::Sleep(Delta::from_millis(ms)));
}

fn push_commands(script: &mut Vec<Action>, power_on: bool, cmds: &Vec<Command>)
    ensures
        final(script)@ == old(script)@ + command_steps(power_on, delays(cmds@)),
{
    let ghost before = script@;
    let ghost waits = delays(cmds@);
    let mut i: usize = 0;
    while i < cmds.len()
        invariant
            i <= cmds@.len(),
            waits == delays(cmds@),
            script@.len() == before.len() + 2 * i,
            forall|k: int| 0 <= k < before.len() ==> #[trigger] script@[k] == before[k],
            forall|k: int|
                before.len() <= k < before.len() + 2 * i ==> #[trigger] script@[k] == command_steps(
                    power_on,
                    waits,
                )[k - before.len()],
        decreases cmds@.len() - i,
    {
        if power_on {
            script.push(Action::WritePowerOn(i));
        } else {
            script.push(Action::WritePowerOff(i));
        }
        script.push(Action::Sleep(cmds[i].delay()));
        i += 1;
    }
}

/// Builds the power-up sequence for `rails` rails, with or without a reset
/// line, around the power-on table `cmds`.
pub fn build_prepare(rails: usize, has_reset: bool, cmds: &Vec<Command>) -> (script: Vec<Action>)
    ensures
        script@ == prepare_script(rails as nat, has_reset, delays(cmds@)),
        script@.len() > 0,
{
    let mut script: Vec<Action> = Vec::new();
    if has_reset {
        script.push(Action::AssertReset);
    }
    push_pause(&mut script, 30);
    let ghost head = script@;
    let mut i: usize = 0;
    while i < rails
        invariant
            i <= rails,
            script@.len() == head.len() + i,
            forall|k: int| 0 <= k < head.len() ==> #[trigger] script@[k] == head[k],
            forall|k: int|
                head.len() <= k < head.len() + i ==> #[trigger] script@[k] == Action::EnableRail(
                    (k - head.len()) as usize,
                ),
        decreases rails - i,
    {
        script.push(Action::EnableRail(i));
        i += 1;
    }
    push_pause(&mut script, 30);
    if has_reset {
        script.push(Action::ReleaseReset);
    }
    push_pause(&mut script, 30);
    script.push(Action::SetLowPower(true));
    script.push(Action::SoftReset);
    push_pause(&mut script, 20);
    let ghost middle = script@;
    assert(middle =~= head + rails_on(rails as nat) + seq![pause(30)] + optional(
        has_reset,
        Action::ReleaseReset,
    ) + seq![pause(30), Action::SetLowPower(true), Action::SoftReset, pause(20)]);
    push_commands(&mut script, true, cmds);
    let ghost body = script@;
    script.push(Action::ExitSleepMode);
    push_pause(&mut script, 120);
    script.push(Action::SetDisplayOn);
    push_pause(&mut script, 120);
    assert(script@ =~= body + seq![
        Action::ExitSleepMode,
        pause(120),
        Action::SetDisplayOn,
        pause(120),
    ]);
    script
}

/// Builds the power-down sequence for `rails` rails, with or without a reset
/// line, around the power-off table `cmds`.
pub fn build_unprepare(rails: usize, has_reset: bool, cmds: &Vec<Command>) -> (script: Vec<Action>)
    ensures
        script@ == unprepare_script(rails as nat, has_reset, delays(cmds@)),
        script@.len() > 0,
{
    let mut script: Vec<Action> = Vec::new();
    script.push(Action::SetLowPower(false));
    script.push(Action::SetDisplayOff);
    push_pause(&mut script, 120);
    script.push(Action::EnterSleepMode);
    assert(script@ =~= seq![
        Action::SetLowPower(false),
        Action::SetDisplayOff,
        pause(120),
        Action::EnterSleepMode,
    ]);
    push_commands(&mut script, false, cmds);
    if has_reset {
        script.push(Action::AssertReset);
    }
    let ghost head = script@;
    assert(head =~= seq![
        Action::SetLowPower(false),
        Action::SetDisplayOff,
        pause(120),
        Action::EnterSleepMode,
    ] + command_steps(false, delays(cmds@)) + optional(has_reset, Action::AssertReset));
    let mut i: usize = 0;
    while i < rails
        invariant
            i <= rails,
            script@.len() == head.len() + i,
            forall|k: int| 0 <= k < head.len() ==> #[trigger] script@[k] == head[k],
            forall|k: int|
                head.len() <= k < head.len() + i ==> #[trigger] script@[k] == Action::DisableRail(
                    (k - head.len()) as usize,
                ),
        decreases rails - i,
    {
        script.push(Action::DisableRail(i));
        i += 1;
    }
    script
}

/// Builds what undoes the first `done` actions of `script`.
pub fn build_unwind(script: &Vec<Action>, done: usize) -> (undo: Vec<Action>)
    requires
        done <= script@.len(),
    ensures
        undo@ == unwind(script@.take(done as int)),
{
    let mut undo: Vec<Action> = Vec::new();
    let mut i: usize = done;
    while i > 0
        invariant
            i <= done,
            done <= script@.len(),
            undo@ + unwind(script@.take(i as int)) == unwind(script@.take(done as int)),
        decreases i,
    {
        let ghost before = undo@;
        let ghost prefix = script@.take(i as int);
        assert(prefix.drop_last() =~= script@.take(i - 1));
        i -= 1;
        match script[i] {
            Action::EnableRail(rail) => {
                undo.push(Action::DisableRail(rail));
            },
            Action::ReleaseReset => {
                undo.push(Action::AssertReset);
            },
            _ => {},
        }
        assert(undo@ + unwind(script@.take(i as int)) =~= before + (inverse(script@[i as int])
            + unwind(script@.take(i as int))));
    }
    undo
}

} // verus!
