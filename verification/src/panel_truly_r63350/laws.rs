//! What holds of every run of the panel's operations.

use crate::drm::panel::{Action, Step};
use crate::error::Error;
use crate::panel_truly_r63350::sequence::{inverse, optional, unwind};
use crate::panel_truly_r63350::{spec_prepare, spec_advance, spec_unprepare, Progress, Setup};
use vstd::prelude::*;

verus! {

/// The part of the hardware that the sequences switch: which rails are
/// enabled and where the reset line stands.
pub struct Rig {
    /// The rails that are enabled.
    pub enabled: Set<usize>,
    /// Whether the reset line is at its asserted level.
    pub reset_asserted: bool,
}

/// The rig after `action` took effect.
pub open spec fn effect(rig: Rig, action: Action) -> Rig {
    match action {
        Action::EnableRail(rail) => Rig { enabled: rig.enabled.insert(rail), ..rig },
        Action::DisableRail(rail) => Rig { enabled: rig.enabled.remove(rail), ..rig },
        Action::AssertReset => Rig { reset_asserted: true, ..rig },
        Action::ReleaseReset => Rig { reset_asserted: false, ..rig },
        _ => rig,
    }
}

/// The rig after each of `actions` took effect, in order.
pub open spec fn effects(rig: Rig, actions: Seq<Action>) -> Rig
    decreases actions.len(),
{
    if actions.len() == 0 {
        rig
    } else {
        effects(effect(rig, actions[0]), actions.drop_first())
    }
}

/// The actions that a driver names and the state it ends in, when the
/// outcomes `outcomes` are reported to it one after the other, starting in
/// the state `(prepared, progress)` with `step` as its last answer. The run
/// ends with the operation or with the outcomes.
pub open spec fn run(prepared: bool, progress: Progress, step: Step, outcomes: Seq<Result<(), Error>>) -> (
    bool,
    Progress,
    Step,
    Seq<Action>,
)
    decreases outcomes.len(),
{
    match step {
        Step::Perform(action) => if outcomes.len() == 0 {
            (prepared, progress, step, Seq::empty())
        } else {
            let next = spec_advance(prepared, progress, outcomes[0]);
            let rest = run(next.0, next.1, next.2, outcomes.drop_first());
            (rest.0, rest.1, rest.2, seq![action] + rest.3)
        },
        _ => (prepared, progress, step, Seq::empty()),
    }
}

/// Every outcome of `outcomes` is a success.
pub open spec fn all_ok(outcomes: Seq<Result<(), Error>>) -> bool {
    forall|i: int| 0 <= i < outcomes.len() ==> (#[trigger] outcomes[i]) is Ok
}

proof fn lemma_effects_concat(rig: Rig, first: Seq<Action>, second: Seq<Action>)
    ensures
        effects(rig, first + second) == effects(effects(rig, first), second),
    decreases first.len(),
{
    if !(first.len() == 0) {
        assert((first + second).drop_first() =~= first.drop_first() + second);
        lemma_effects_concat(effect(rig, first[0]), first.drop_first(), second);
    }
}

/// Every action of `actions` disables a rail or asserts the reset line.
pub open spec fn only_restores(actions: Seq<Action>) -> bool {
    forall|i: int|
        0 <= i < actions.len() ==> (#[trigger] actions[i]) is DisableRail || actions[i] is AssertReset
}

proof fn lemma_unwind_restores(done: Seq<Action>)
    ensures
        only_restores(unwind(done)),
        forall|j: int|
            0 <= j < done.len() ==> (#[trigger] done[j] matches Action::EnableRail(rail) ==> unwind(
                done,
            ).contains(Action::DisableRail(rail))),
        (exists|j: int| 0 <= j < done.len() && #[trigger] done[j] == Action::ReleaseReset)
            ==> unwind(done).contains(Action::AssertReset),
    decreases done.len(),
{
    if done.len() > 0 {
        let rest = done.drop_last();
        let head = inverse(done.last());
        lemma_unwind_restores(rest);
        let undo = unwind(done);
        assert forall|j: int| 0 <= j < done.len() implies (#[trigger] done[j] matches Action::EnableRail(
            rail,
        ) ==> undo.contains(Action::DisableRail(rail))) by {
            if let Action::EnableRail(rail) = done[j] {
                if !(j == done.len() - 1) {
                    assert(rest[j] == done[j]);
                    let at = choose|at: int|
                        0 <= at < unwind(rest).len() && unwind(rest)[at] == Action::DisableRail(
                            rail,
                        );
                    assert(undo[head.len() + at] == Action::DisableRail(rail));
                }
            }
        }
        if exists|j: int| 0 <= j < done.len() && #[trigger] done[j] == Action::ReleaseReset {
            let j = choose|j: int| 0 <= j < done.len() && #[trigger] done[j] == Action::ReleaseReset;
            if j == done.len() - 1 {
                assert(undo[0] == Action::AssertReset);
            } else {
                assert(rest[j] == done[j]);
                let at = choose|at: int|
                    0 <= at < unwind(rest).len() && unwind(rest)[at] == Action::AssertReset;
                assert(undo[head.len() + at] == Action::AssertReset);
            }
        }
    }
}

proof fn lemma_restoring(rig: Rig, actions: Seq<Action>)
    requires
        only_restores(actions),
    ensures
        effects(rig, actions).enabled.subset_of(rig.enabled),
        forall|rail: usize| #[trigger]
            actions.contains(Action::DisableRail(rail)) ==> !effects(rig, actions).enabled.contains(
                rail,
            ),
        rig.reset_asserted || actions.contains(Action::AssertReset) ==> effects(
            rig,
            actions,
        ).reset_asserted,
    decreases actions.len(),
{
    if actions.len() > 0 {
        let first = actions[0];
        let rest = actions.drop_first();
        let mid = effect(rig, first);
        assert(only_restores(rest)) by {
            assert forall|i: int| 0 <= i < rest.len() implies (#[trigger] rest[i]) is DisableRail
                || rest[i] is AssertReset by {}
        }
        lemma_restoring(mid, rest);
        assert forall|rail: usize| #[trigger]
            actions.contains(Action::DisableRail(rail)) implies !effects(
            rig,
            actions,
        ).enabled.contains(rail) by {
            let at = choose|at: int|
                0 <= at < actions.len() && actions[at] == Action::DisableRail(rail);
            if !(at == 0) {
                assert(rest[at - 1] == actions[at]);
                assert(rest.contains(Action::DisableRail(rail)));
            }
        }
        if actions.contains(Action::AssertReset) && !rig.reset_asserted {
            let at = choose|at: int| 0 <= at < actions.len() && actions[at] == Action::AssertReset;
            if !(at == 0) {
                assert(rest[at - 1] == actions[at]);
            }
        }
    }
}

proof fn lemma_forward(rig: Rig, done: Seq<Action>)
    ensures
        forall|rail: usize| #[trigger]
            effects(rig, done).enabled.contains(rail) ==> rig.enabled.contains(rail) || exists|
                j: int,
            |
                0 <= j < done.len() && #[trigger] done[j] == Action::EnableRail(rail),
        (forall|j: int| 0 <= j < done.len() ==> #[trigger] done[j] != Action::ReleaseReset) && (
        rig.reset_asserted || done.contains(Action::AssertReset)) ==> effects(
            rig,
            done,
        ).reset_asserted,
    decreases done.len(),
{
    if done.len() > 0 {
        let first = done[0];
        let rest = done.drop_first();
        let mid = effect(rig, first);
        lemma_forward(mid, rest);
        assert forall|rail: usize| #[trigger]
            effects(rig, done).enabled.contains(rail) implies rig.enabled.contains(rail) || exists|
            j: int,
        |
            0 <= j < done.len() && #[trigger] done[j] == Action::EnableRail(rail) by {
            assert(effects(mid, rest).enabled.contains(rail));
            if !rig.enabled.contains(rail) {
                if !(mid.enabled.contains(rail)) {
                    let j = choose|j: int|
                        0 <= j < rest.len() && #[trigger] rest[j] == Action::EnableRail(rail);
                }
            }
        }
        if (forall|j: int| 0 <= j < done.len() ==> #[trigger] done[j] != Action::ReleaseReset) && (
        rig.reset_asserted || done.contains(Action::AssertReset)) {
            assert forall|j: int| 0 <= j < rest.len() implies #[trigger] rest[j]
                != Action::ReleaseReset by {}
            if !mid.reset_asserted {
                let at = choose|at: int| 0 <= at < done.len() && done[at] == Action::AssertReset;
                assert(rest[at - 1] == done[at]);
            }
        }
    }
}

/// Undoing what was done leaves no rail enabled that was not enabled
/// before, and leaves the reset line asserted if it was touched at all:
/// after the actions `done` took effect on a rig without an enabled rail and
/// were then undone, no rail is enabled, and the reset line is asserted
/// where `done` asserted or released it.
pub proof fn law_unwind_restores_rig(rig: Rig, done: Seq<Action>)
    requires
        rig.enabled == Set::<usize>::empty(),
    ensures
        effects(rig, done + unwind(done)).enabled == Set::<usize>::empty(),
        done.contains(Action::AssertReset) || done.contains(Action::ReleaseReset) ==> effects(
            rig,
            done + unwind(done),
        ).reset_asserted,
{
    let undo = unwind(done);
    let mid = effects(rig, done);
    let end = effects(mid, undo);
    lemma_effects_concat(rig, done, undo);
    lemma_unwind_restores(done);
    lemma_restoring(mid, undo);
    lemma_forward(rig, done);
    assert forall|rail: usize| !end.enabled.contains(rail) by {
        if end.enabled.contains(rail) {
            let j = choose|j: int|
                0 <= j < done.len() && #[trigger] done[j] == Action::EnableRail(rail);
        }
    }
}

proof fn lemma_run_power_up(prepared: bool, script: Seq<Action>, pc: nat, outcomes: Seq<Result<(), Error>>)
    requires
        pc < script.len(),
        outcomes.len() == script.len() - pc,
        all_ok(outcomes),
    ensures
        run(prepared, Progress::Preparing { script, pc }, Step::Perform(script[pc as int]), outcomes)
            == (true, Progress::Idle, Step::Done, script.skip(pc as int)),
    decreases script.len() - pc,
{
    let progress = Progress::Preparing { script, pc };
    let next = spec_advance(prepared, progress, outcomes[0]);
    let rest = outcomes.drop_first();
    let whole = run(prepared, progress, Step::Perform(script[pc as int]), outcomes);
    let tail = run(next.0, next.1, next.2, rest);
    if pc + 1 < script.len() {
        assert(all_ok(rest)) by {
            assert forall|i: int| 0 <= i < rest.len() implies (#[trigger] rest[i]) is Ok by {}
        }
        assert(next == (
            prepared,
            Progress::Preparing { script, pc: pc + 1 },
            Step::Perform(script[pc as int + 1]),
        ));
        lemma_run_power_up(prepared, script, pc + 1, rest);
    }
}

proof fn lemma_run_unwinding(
    prepared: bool,
    script: Seq<Action>,
    pc: nat,
    done: nat,
    fault: Error,
    outcomes: Seq<Result<(), Error>>,
)
    requires
        pc < script.len(),
        outcomes.len() == script.len() - pc,
    ensures
        run(
            prepared,
            Progress::Unwinding { script, pc, done, fault },
            Step::Perform(script[pc as int]),
            outcomes,
        ) == (prepared, Progress::Idle, Step::Failed(fault), script.skip(pc as int)),
    decreases script.len() - pc,
{
    let rest = outcomes.drop_first();
    let progress = Progress::Unwinding { script, pc, done, fault };
    let next = spec_advance(prepared, progress, outcomes[0]);
    let whole = run(prepared, progress, Step::Perform(script[pc as int]), outcomes);
    let tail = run(next.0, next.1, next.2, rest);
    if pc + 1 < script.len() {
        assert(next == (
            prepared,
            Progress::Unwinding { script, pc: pc + 1, done, fault },
            Step::Perform(script[pc as int + 1]),
        ));
        lemma_run_unwinding(prepared, script, pc + 1, done, fault, rest);
    }
}

proof fn lemma_run_power_down(prepared: bool, script: Seq<Action>, pc: nat, outcomes: Seq<Result<(), Error>>)
    requires
        pc < script.len(),
        outcomes.len() == script.len() - pc,
    ensures
        run(
            prepared,
            Progress::Unpreparing { script, pc },
            Step::Perform(script[pc as int]),
            outcomes,
        ) == (false, Progress::Idle, Step::Done, script.skip(pc as int)),
    decreases script.len() - pc,
{
    let rest = outcomes.drop_first();
    let progress = Progress::Unpreparing { script, pc };
    let next = spec_advance(prepared, progress, outcomes[0]);
    let whole = run(prepared, progress, Step::Perform(script[pc as int]), outcomes);
    let tail = run(next.0, next.1, next.2, rest);
    if pc + 1 < script.len() {
        assert(next == (
            prepared,
            Progress::Unpreparing { script, pc: pc + 1 },
            Step::Perform(script[pc as int + 1]),
        ));
        lemma_run_power_down(prepared, script, pc + 1, rest);
    }
}

proof fn lemma_run_failing(
    prepared: bool,
    script: Seq<Action>,
    pc: nat,
    failed: nat,
    fault: Error,
    outcomes: Seq<Result<(), Error>>,
)
    requires
        pc <= failed < script.len(),
        outcomes.len() == failed - pc + 1 + unwind(script.take(failed as int)).len(),
        forall|i: int| 0 <= i < failed - pc ==> (#[trigger] outcomes[i]) is Ok,
        outcomes[failed - pc] == Err::<(), Error>(fault),
    ensures
        run(prepared, Progress::Preparing { script, pc }, Step::Perform(script[pc as int]), outcomes)
            == (
            prepared,
            Progress::Idle,
            Step::Failed(fault),
            script.subrange(pc as int, failed as int + 1) + unwind(script.take(failed as int)),
        ),
    decreases failed - pc,
{
    let rest = outcomes.drop_first();
    let undo = unwind(script.take(failed as int));
    let progress = Progress::Preparing { script, pc };
    let next = spec_advance(prepared, progress, outcomes[0]);
    let whole = run(prepared, progress, Step::Perform(script[pc as int]), outcomes);
    let tail = run(next.0, next.1, next.2, rest);
    if pc < failed {
        assert(next == (
            prepared,
            Progress::Preparing { script, pc: pc + 1 },
            Step::Perform(script[pc as int + 1]),
        ));
        assert forall|i: int| 0 <= i < failed - (pc + 1) implies (#[trigger] rest[i]) is Ok by {}
        lemma_run_failing(prepared, script, pc + 1, failed, fault, rest);
        assert(seq![script[pc as int]] + (script.subrange(pc as int + 1, failed as int + 1) + undo)
            =~= script.subrange(pc as int, failed as int + 1) + undo);
    } else {
        if undo.len() == 0 {
            assert(seq![script[pc as int]] + Seq::<Action>::empty() =~= seq![script[pc as int]]
                + undo);
        } else {
            assert(next == (
                prepared,
                Progress::Unwinding { script: undo, pc: 0, done: pc, fault },
                Step::Perform(undo[0]),
            ));
            lemma_run_unwinding(prepared, undo, 0, pc, fault, rest);
        }
    }
}

/// A power-up on which every action succeeds performs the power-up sequence
/// and nothing else, succeeds, and leaves the panel prepared.
pub proof fn law_prepare_success(setup: Setup, prepared: bool, outcomes: Seq<Result<(), Error>>)
    requires
        setup.power_up().len() > 0,
        outcomes.len() == setup.power_up().len(),
        all_ok(outcomes),
    ensures
        ({
            let start = spec_prepare(setup, prepared, Progress::Idle);
            run(start.0, start.1, start.2, outcomes)
        }) == (true, Progress::Idle, Step::Done, setup.power_up()),
{
    lemma_run_power_up(prepared, setup.power_up(), 0, outcomes);
}

/// A power-up whose action number `failed` is the first to fail performs the
/// sequence up to that action, then undoes the actions before it, the last
/// first, whatever the undoing actions report. It ends with the failure of
/// that action as its result and leaves the prepared flag as it was. Once
/// the run is over, no rail is enabled that was not before, and the reset
/// line is asserted if the panel has one and an action beyond its first had
/// been reached. The undoing asserts the reset line if it was released and
/// then disables the enabled rails, the last enabled first.
pub proof fn law_prepare_failure(
    setup: Setup,
    prepared: bool,
    failed: nat,
    fault: Error,
    outcomes: Seq<Result<(), Error>>,
    rig: Rig,
)
    requires
        failed < setup.power_up().len(),
        outcomes.len() == failed + 1 + unwind(setup.power_up().take(failed as int)).len(),
        forall|i: int| 0 <= i < failed ==> (#[trigger] outcomes[i]) is Ok,
        outcomes[failed as int] == Err::<(), Error>(fault),
        rig.enabled == Set::<usize>::empty(),
    ensures
        ({
            let start = spec_prepare(setup, prepared, Progress::Idle);
            run(start.0, start.1, start.2, outcomes)
        }) == (
            prepared,
            Progress::Idle,
            Step::Failed(fault),
            setup.power_up().take(failed as int + 1) + unwind(setup.power_up().take(failed as int)),
        ),
        only_restores(unwind(setup.power_up().take(failed as int))),
        setup.rails <= usize::MAX ==> unwind(setup.power_up().take(failed as int))
            == power_up_undo(setup, failed as int),
        effects(
            rig,
            setup.power_up().take(failed as int) + unwind(setup.power_up().take(failed as int)),
        ).enabled == Set::<usize>::empty(),
        setup.has_reset && failed > 0 ==> effects(
            rig,
            setup.power_up().take(failed as int) + unwind(setup.power_up().take(failed as int)),
        ).reset_asserted,
{
    let script = setup.power_up();
    let done = script.take(failed as int);
    lemma_run_failing(prepared, script, 0, failed, fault, outcomes);
    lemma_unwind_restores(done);
    law_unwind_restores_rig(rig, done);
    if setup.rails <= usize::MAX {
        law_power_up_undo(setup, failed as int);
    }
}

/// A power-down of a prepared panel performs the whole power-down sequence
/// whatever its actions report, succeeds, and leaves the panel unprepared.
pub proof fn law_unprepare_best_effort(setup: Setup, outcomes: Seq<Result<(), Error>>)
    requires
        setup.power_down().len() > 0,
        outcomes.len() == setup.power_down().len(),
    ensures
        ({
            let start = spec_unprepare(setup, true, Progress::Idle);
            run(start.0, start.1, start.2, outcomes)
        }) == (false, Progress::Idle, Step::Done, setup.power_down()),
{
    lemma_run_power_down(true, setup.power_down(), 0, outcomes);
}

/// A power-down of a panel that is not prepared succeeds at once, names no
/// action and changes nothing; so does a second power-down after a first.
pub proof fn law_unprepare_idempotent(setup: Setup, outcomes: Seq<Result<(), Error>>)
    requires
        setup.power_down().len() > 0,
        outcomes.len() == setup.power_down().len(),
    ensures
        spec_unprepare(setup, false, Progress::Idle) == (false, Progress::Idle, Step::Done),
        ({
            let start = spec_unprepare(setup, true, Progress::Idle);
            let first = run(start.0, start.1, start.2, outcomes);
            spec_unprepare(setup, first.0, first.1)
        }) == (false, Progress::Idle, Step::Done),
{
    law_unprepare_best_effort(setup, outcomes);
}

/// How many rails the first `done` actions of the power-up sequence enable.
pub open spec fn rails_enabled(setup: Setup, done: int) -> int {
    let first = if setup.has_reset {
        2int
    } else {
        1int
    };
    if done <= first {
        0
    } else if done >= first + setup.rails {
        setup.rails as int
    } else {
        done - first
    }
}

/// Whether the first `done` actions of the power-up sequence release the reset line.
pub open spec fn reset_released(setup: Setup, done: int) -> bool {
    setup.has_reset && done > setup.rails + 3
}

/// What undoes the first `done` actions of the power-up sequence: the reset
/// line is asserted again if it was released, then the rails that were
/// enabled are disabled, the last enabled first.
pub open spec fn power_up_undo(setup: Setup, done: int) -> Seq<Action> {
    let enabled = rails_enabled(setup, done);
    optional(reset_released(setup, done), Action::AssertReset) + Seq::new(
        enabled as nat,
        |i: int| Action::DisableRail((enabled - 1 - i) as usize),
    )
}

/// The undoing of a failed power-up has the shape of `power_up_undo`: it
/// holds no action but the assertion of a released reset line and the
/// disabling of the enabled rails in the reverse of their order.
pub proof fn law_power_up_undo(setup: Setup, done: int)
    requires
        0 <= done <= setup.power_up().len(),
        setup.rails <= usize::MAX,
    ensures
        unwind(setup.power_up().take(done)) == power_up_undo(setup, done),
    decreases done,
{
    let script = setup.power_up();
    if done == 0 {
        assert(power_up_undo(setup, 0) =~= Seq::<Action>::empty());
    } else {
        law_power_up_undo(setup, done - 1);
        let prefix = script.take(done);
        let last = script[done - 1];
        assert(prefix.drop_last() =~= script.take(done - 1));
        assert(prefix.last() == last);
        let first = if setup.has_reset {
            2int
        } else {
            1int
        };
        let before = power_up_undo(setup, done - 1);
        let after = power_up_undo(setup, done);
        if first <= done - 1 < first + setup.rails {
            assert(last == Action::EnableRail((done - 1 - first) as usize));
        } else if setup.has_reset && done - 1 == setup.rails + 3 {
            assert(last == Action::ReleaseReset);
        } else {
            assert(inverse(last) =~= Seq::<Action>::empty());
        }
        assert(after =~= inverse(last) + before);
    }
}

} // verus!
