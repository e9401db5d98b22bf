use unigen::appmode::AppMode;
use unigen::bootstrap::{
    boot_start, boot_step, spawn_plan, BootAction, BootEvent, BootState, OutputTarget,
    CHILD_LOG_FILE, CHILD_WORKING_DIR, SETTLE_DELAY_MS,
};

/// Runs a bootstrap whose questions get these answers; returns the answer
/// and the actions that were asked for.
fn run(first: bool, executable: bool, spawned: bool, second: bool) -> (bool, Vec<BootAction>) {
    let (mut state, mut action) = boot_start();
    let mut checks = 0;
    let mut actions = vec![action];
    loop {
        let event = match action {
            BootAction::CheckRunning => {
                checks += 1;
                BootEvent::Running(if checks == 1 { first } else { second })
            }
            BootAction::ResolveExecutable => BootEvent::Executable(executable),
            BootAction::SpawnDetached => BootEvent::Spawned(spawned),
            BootAction::Sleep(_) => BootEvent::Settled,
            BootAction::Finish(answer) => return (answer, actions),
        };
        let next = boot_step(state, event);
        state = next.0;
        action = next.1;
        actions.push(action);
    }
}

#[test]
fn bootstrap_finishes_at_once_when_a_control_plane_runs() {
    let (answer, actions) = run(true, true, true, true);
    assert!(answer);
    assert_eq!(actions, vec![BootAction::CheckRunning, BootAction::Finish(true)]);
}

#[test]
fn bootstrap_fails_closed_without_an_executable() {
    let (answer, actions) = run(false, false, true, true);
    assert!(!answer);
    assert_eq!(
        actions,
        vec![BootAction::CheckRunning, BootAction::ResolveExecutable, BootAction::Finish(false)]
    );
}

#[test]
fn bootstrap_fails_when_the_spawn_fails() {
    let (answer, actions) = run(false, true, false, true);
    assert!(!answer);
    assert_eq!(
        actions,
        vec![
            BootAction::CheckRunning,
            BootAction::ResolveExecutable,
            BootAction::SpawnDetached,
            BootAction::Finish(false)
        ]
    );
}

#[test]
fn bootstrap_spawns_waits_and_looks_again() {
    let (answer, actions) = run(false, true, true, true);
    assert!(answer);
    assert_eq!(
        actions,
        vec![
            BootAction::CheckRunning,
            BootAction::ResolveExecutable,
            BootAction::SpawnDetached,
            BootAction::Sleep(1000),
            BootAction::CheckRunning,
            BootAction::Finish(true)
        ]
    );
    assert_eq!(SETTLE_DELAY_MS, 1000);
}

#[test]
fn bootstrap_reports_a_child_that_did_not_come_up() {
    let (answer, _) = run(false, true, true, false);
    assert!(!answer);
}

#[test]
fn bootstrap_answer_for_every_combination() {
    for bits in 0..16u8 {
        let first = bits & 1 != 0;
        let executable = bits & 2 != 0;
        let spawned = bits & 4 != 0;
        let second = bits & 8 != 0;
        let (answer, actions) = run(first, executable, spawned, second);
        assert_eq!(answer, first || (executable && spawned && second));
        assert_eq!(actions.contains(&BootAction::SpawnDetached), !first && executable);
    }
}

#[test]
fn bootstrap_ends_on_a_report_out_of_turn() {
    let done = (BootState::Done(false), BootAction::Finish(false));
    assert_eq!(boot_step(BootState::FirstCheck, BootEvent::Spawned(true)), done);
    assert_eq!(boot_step(BootState::Resolving, BootEvent::Running(true)), done);
    assert_eq!(boot_step(BootState::Spawning, BootEvent::Settled), done);
    assert_eq!(boot_step(BootState::Settling, BootEvent::Running(true)), done);
    assert_eq!(boot_step(BootState::SecondCheck, BootEvent::Settled), done);
    assert_eq!(
        boot_step(BootState::Done(true), BootEvent::Running(false)),
        (BootState::Done(true), BootAction::Finish(true))
    );
}

#[test]
fn spawn_plan_detaches_the_child_in_the_control_plane_role() {
    let plan = spawn_plan(true);
    assert_eq!(plan.env_key, "UNIGEN_APP_MODE");
    assert_eq!(plan.env_value, "mqtt");
    assert_eq!(AppMode::from_env(Some(plan.env_value)), AppMode::Mqtt);
    assert!(plan.new_session);
    assert_eq!(plan.working_dir, "/");
    assert!(plan.close_stdin);
    assert_eq!(plan.output, OutputTarget::LogFile);
    assert!(!plan.keep_handle);
    assert_eq!(spawn_plan(false).output, OutputTarget::Discard);
    assert_eq!(CHILD_LOG_FILE, "unigen_mqtt.log");
    assert_eq!(CHILD_WORKING_DIR, "/");
}
