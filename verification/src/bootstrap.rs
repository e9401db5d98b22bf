//! Starting the control plane where none runs: the decisions, one step at a
//! time. The caller performs each action and reports what came of it.

use crate::appmode::{mode_of, AppMode, APP_MODE_MQTT, ENV_APP_MODE_KEY};
use vstd::prelude::*;

verus! {

/// How long the caller waits after the spawn before it looks again.
pub const SETTLE_DELAY_MS: u64 = 1000;

/// The name of the log file of the child, in the directory for temporary
/// files.
pub const CHILD_LOG_FILE: &'static str = "unigen_mqtt.log";

/// The directory that the child works in: one that nobody needs to unmount.
pub const CHILD_WORKING_DIR: &'static str = "/";

/// Where an output stream of the child goes.
#[derive(Debug, Clone, Copy, PartialEq, Eq, Structural)]
pub enum OutputTarget {
    /// Appended to the log file.
    LogFile,
    /// Nowhere.
    Discard,
}

/// How the child is spawned.
#[derive(Debug)]
pub struct SpawnPlan {
    /// The environment variable that is set for the child.
    pub env_key: &'static str,
    /// The value that it is set to.
    pub env_value: &'static str,
    /// Whether the child gets a session of its own, away from the terminal
    /// of the parent.
    pub new_session: bool,
    /// The directory that the child works in.
    pub working_dir: &'static str,
    /// Whether the standard input of the child is closed.
    pub close_stdin: bool,
    /// Where standard output and standard error of the child go.
    pub output: OutputTarget,
    /// Whether the parent keeps a handle of the child, waits for it or
    /// reaps it.
    pub keep_handle: bool,
}

/// How the child is spawned: in the control-plane role, detached from the
/// parent, its output in the log file where that could be opened and
/// nowhere where it could not.
pub fn spawn_plan(log_opened: bool) -> (plan: SpawnPlan)
    ensures
        plan.env_key@ == ENV_APP_MODE_KEY@,
        plan.env_value@ == APP_MODE_MQTT@,
        mode_of(Some(plan.env_value@)) == AppMode::Mqtt,
        plan.new_session,
        plan.working_dir@ == CHILD_WORKING_DIR@,
        plan.close_stdin,
        plan.output == if log_opened {
            OutputTarget::LogFile
        } else {
            OutputTarget::Discard
        },
        !plan.keep_handle,
{
    SpawnPlan {
        env_key: ENV_APP_MODE_KEY,
        env_value: APP_MODE_MQTT,
        new_session: true,
        working_dir: CHILD_WORKING_DIR,
        close_stdin: true,
        output: if log_opened {
            OutputTarget::LogFile
        } else {
            OutputTarget::Discard
        },
        keep_handle: false,
    }
}

/// Where the bootstrap stands.
#[derive(Debug, Clone, Copy, PartialEq, Eq, Structural)]
pub enum BootState {
    /// Asked whether a control plane runs; nothing has been spawned.
    FirstCheck,
    /// Asked for the path of the current executable.
    Resolving,
    /// Asked for a detached child in the control-plane role.
    Spawning,
    /// Waiting for the child to settle.
    Settling,
    /// Asked again whether a control plane runs.
    SecondCheck,
    /// Finished; the answer is whether a control plane runs.
    Done(bool),
}

/// What the caller reports back.
#[derive(Debug, Clone, Copy, PartialEq, Eq, Structural)]
pub enum BootEvent {
    /// Whether the lock of the control plane is held by someone.
    Running(bool),
    /// Whether the path of the current executable could be resolved.
    Executable(bool),
    /// Whether the child process was spawned.
    Spawned(bool),
    /// The settle delay has passed.
    Settled,
}

/// What the caller does next.
#[derive(Debug, Clone, Copy, PartialEq, Eq, Structural)]
pub enum BootAction {
    /// Probe the lock of the control plane and report `Running`.
    CheckRunning,
    /// Resolve the current executable and report `Executable`.
    ResolveExecutable,
    /// Spawn the detached child and report `Spawned`; do not wait for it.
    SpawnDetached,
    /// Sleep for this many milliseconds and report `Settled`.
    Sleep(u64),
    /// Stop; the value is the answer.
    Finish(bool),
}

/// The state after `event` arrives in `state`, and the action that it asks
/// for. An event that does not answer the pending action ends the bootstrap
/// with `false`.
pub open spec fn boot_next(state: BootState, event: BootEvent) -> (BootState, BootAction) {
    match (state, event) {
        (BootState::FirstCheck, BootEvent::Running(true)) => (
            BootState::Done(true),
            BootAction::Finish(true),
        ),
        (BootState::FirstCheck, BootEvent::Running(false)) => (
            BootState::Resolving,
            BootAction::ResolveExecutable,
        ),
        (BootState::Resolving, BootEvent::Executable(true)) => (
            BootState::Spawning,
            BootAction::SpawnDetached,
        ),
        (BootState::Spawning, BootEvent::Spawned(true)) => (
            BootState::Settling,
            BootAction::Sleep(SETTLE_DELAY_MS),
        ),
        (BootState::Settling, BootEvent::Settled) => (
            BootState::SecondCheck,
            BootAction::CheckRunning,
        ),
        (BootState::SecondCheck, BootEvent::Running(running)) => (
            BootState::Done(running),
            BootAction::Finish(running),
        ),
        (BootState::Done(answer), _) => (BootState::Done(answer), BootAction::Finish(answer)),
        _ => (BootState::Done(false), BootAction::Finish(false)),
    }
}

/// The state in which a bootstrap begins, and its first action.
pub fn boot_start() -> (r: (BootState, BootAction))
    ensures
        r == (BootState::FirstCheck, BootAction::CheckRunning),
{
    (BootState::FirstCheck, BootAction::CheckRunning)
}

/// One step of the bootstrap: the next state and the next action.
pub fn boot_step(state: BootState, event: BootEvent) -> (r: (BootState, BootAction))
    ensures
        r == boot_next(state, event),
{
    match state {
        BootState::FirstCheck => match event {
            BootEvent::Running(true) => (BootState::Done(true), BootAction::Finish(true)),
            BootEvent::Running(false) => (BootState::Resolving, BootAction::ResolveExecutable),
            _ => (BootState::Done(false), BootAction::Finish(false)),
        },
        BootState::Resolving => match event {
            BootEvent::Executable(true) => (BootState::Spawning, BootAction::SpawnDetached),
            _ => (BootState::Done(false), BootAction::Finish(false)),
        },
        BootState::Spawning => match event {
            BootEvent::Spawned(true) => (BootState::Settling, BootAction::Sleep(SETTLE_DELAY_MS)),
            _ => (BootState::Done(false), BootAction::Finish(false)),
        },
        BootState::Settling => match event {
            BootEvent::Settled => (BootState::SecondCheck, BootAction::CheckRunning),
            _ => (BootState::Done(false), BootAction::Finish(false)),
        },
        BootState::SecondCheck => match event {
            BootEvent::Running(running) => (BootState::Done(running), BootAction::Finish(running)),
            _ => (BootState::Done(false), BootAction::Finish(false)),
        },
        BootState::Done(answer) => (BootState::Done(answer), BootAction::Finish(answer)),
    }
}

/// The state that a run of events leads to from `state`.
pub open spec fn boot_run(state: BootState, events: Seq<BootEvent>) -> BootState
    decreases events.len(),
{
    if events.len() == 0 {
        state
    } else {
        boot_run(boot_next(state, events[0]).0, events.drop_first())
    }
}

/// Whether a run of events from `state` ever asks for a spawn.
pub open spec fn boot_spawns(state: BootState, events: Seq<BootEvent>) -> bool
    decreases events.len(),
{
    if events.len() == 0 {
        false
    } else {
        boot_next(state, events[0]).1 == BootAction::SpawnDetached || boot_spawns(
            boot_next(state, events[0]).0,
            events.drop_first(),
        )
    }
}

/// Whether a run of events holds a report that a control plane runs.
pub open spec fn reports_running(events: Seq<BootEvent>) -> bool {
    exists|i: int| 0 <= i < events.len() && events[i] == BootEvent::Running(true)
}

/// What a bootstrap answers when its four questions get these answers: a
/// control plane ran already, or the executable resolved, the child spawned
/// and a control plane ran afterwards.
pub open spec fn boot_answer(first: bool, executable: bool, spawned: bool, second: bool) -> bool {
    first || (executable && spawned && second)
}

/// The events of a bootstrap whose questions get these answers.
pub open spec fn boot_script(first: bool, executable: bool, spawned: bool, second: bool) -> Seq<
    BootEvent,
> {
    if first {
        seq![BootEvent::Running(true)]
    } else if !executable {
        seq![BootEvent::Running(false), BootEvent::Executable(false)]
    } else if !spawned {
        seq![BootEvent::Running(false), BootEvent::Executable(true), BootEvent::Spawned(false)]
    } else {
        seq![
            BootEvent::Running(false),
            BootEvent::Executable(true),
            BootEvent::Spawned(true),
            BootEvent::Settled,
            BootEvent::Running(second),
        ]
    }
}

/// A finished bootstrap stays finished, whatever is reported to it.
pub proof fn lemma_done_is_final(answer: bool, events: Seq<BootEvent>)
    ensures
        boot_run(BootState::Done(answer), events) == BootState::Done(answer),
        !boot_spawns(BootState::Done(answer), events),
    decreases events.len(),
{
    if events.len() > 0 {
        lemma_done_is_final(answer, events.drop_first());
    }
}

/// A bootstrap whose questions are answered in turn finishes with
/// `boot_answer`, and it asks for a spawn exactly when no control plane ran
/// at first and the executable resolved.
pub proof fn lemma_boot_script(first: bool, executable: bool, spawned: bool, second: bool)
    ensures
        boot_run(BootState::FirstCheck, boot_script(first, executable, spawned, second))
            == BootState::Done(boot_answer(first, executable, spawned, second)),
        boot_spawns(BootState::FirstCheck, boot_script(first, executable, spawned, second)) == (
        !first && executable),
{
    reveal_with_fuel(boot_run, 7);
    reveal_with_fuel(boot_spawns, 7);
    let script = boot_script(first, executable, spawned, second);
    let s1 = script.drop_first();
    let s2 = s1.drop_first();
    let s3 = s2.drop_first();
    let s4 = s3.drop_first();
    let s5 = s4.drop_first();
    if first {
        assert(s1.len() == 0);
    } else if !executable {
        assert(s2.len() == 0);
    } else if !spawned {
        assert(s3.len() == 0);
    } else {
        assert(s5.len() == 0);
    }
}

/// Where a control plane ran at the first look, nothing is ever spawned.
pub proof fn lemma_no_spawn_when_running(events: Seq<BootEvent>)
    requires
        events.len() > 0,
        events[0] == BootEvent::Running(true),
    ensures
        !boot_spawns(BootState::FirstCheck, events),
        boot_run(BootState::FirstCheck, events) == BootState::Done(true),
{
    lemma_done_is_final(true, events.drop_first());
}

/// A bootstrap answers `true` only where a control plane was reported to
/// run: it never takes a spawn alone for success.
pub proof fn lemma_true_needs_report(state: BootState, events: Seq<BootEvent>)
    requires
        state != BootState::Done(true),
        boot_run(state, events) == BootState::Done(true),
    ensures
        reports_running(events),
    decreases events.len(),
{
    if events.len() > 0 {
        let next = boot_next(state, events[0]).0;
        let rest = events.drop_first();
        if next == BootState::Done(true) {
            assert(events[0] == BootEvent::Running(true));
        } else {
            lemma_true_needs_report(next, rest);
            let i = choose|i: int| 0 <= i < rest.len() && rest[i] == BootEvent::Running(true);
            assert(events[i + 1] == BootEvent::Running(true));
        }
    }
}

} // verus!
