//! The lock file: what a holder writes into it and what a reader makes of
//! it. The file itself, and the advisory lock on it, belong to the caller.

use crate::text::{
    decimal, is_white_space, lemma_decimal_digits, lemma_leading_white_is,
    lemma_trailing_white_is, parse_u32, parse_u32_str, push_decimal, trim, trim_str,
};
use vstd::prelude::*;
use vstd::string::StringExecFns;

verus! {

/// The content of a lock file held by process `pid`: its decimal numeral
/// and a newline.
pub open spec fn lock_content(pid: u32) -> Seq<char> {
    decimal(pid as nat).push('\n')
}

/// The process ID that a lock file with content `content` names: the number
/// that the trimmed content denotes, and 0 where it denotes none.
pub open spec fn content_pid(content: Seq<char>) -> u32 {
    match parse_u32(trim(content)) {
        Some(pid) => pid,
        None => 0,
    }
}

/// What a process writes into the lock file once it holds the lock.
pub fn lock_file_content(pid: u32) -> (content: String)
    ensures
        content@ == lock_content(pid),
{
    let mut content = String::new();
    push_decimal(&mut content, pid as u128);
    proof {
        reveal_strlit("\n");
    }
    content.append("\n");
    content
}

/// The process ID that the content of a lock file names, 0 where it names
/// none.
pub fn pid_from_content(content: &str) -> (pid: u32)
    ensures
        pid == content_pid(content@),
{
    match parse_u32_str(trim_str(content)) {
        Some(pid) => pid,
        None => 0,
    }
}

/// What a reader finds: the content of the lock file where it could be read
/// as text, and the process ID 0 where it could not.
pub fn read_lock_pid(content: Option<&str>) -> (pid: u32)
    ensures
        pid == match content {
            Some(text) => content_pid(text@),
            None => 0,
        },
{
    match content {
        Some(text) => pid_from_content(text),
        None => 0,
    }
}

/// A reader of the lock file gets the process ID that the holder wrote.
pub proof fn lemma_content_round_trip(pid: u32)
    ensures
        content_pid(lock_content(pid)) == pid,
{
    let digits = decimal(pid as nat);
    let s = lock_content(pid);
    lemma_decimal_digits(pid as nat);
    assert(s[0] == digits[0]);
    assert(!is_white_space(s[0]));
    lemma_leading_white_is(s, 0);
    let rest = s.subrange(0, s.len() as int);
    assert(rest =~= s);
    assert(s[s.len() - 1] == '\n');
    assert(is_white_space('\n'));
    assert(s[s.len() - 2] == digits[digits.len() - 1]);
    assert(!is_white_space(s[s.len() - 2]));
    lemma_trailing_white_is(s, 1);
    assert(s.subrange(0, s.len() - 1) =~= digits);
    assert(trim(s) == digits);
}

/// The name of the lock file of the control plane, in the directory for
/// temporary files.
pub const MQTT_LOCK_FILE: &'static str = "unigen-mqtt-service.lock";

/// Where an acquisition stands.
#[derive(Debug, Clone, Copy, PartialEq, Eq, Structural)]
pub enum AcquireState {
    /// Asked for the file to be opened for reading and writing, and
    /// created where it is missing.
    Opening,
    /// Asked for the exclusive lock, without waiting.
    Locking,
    /// Holds the lock; asked for the file to be emptied.
    Truncating,
    /// Asked for the content to be written.
    Writing,
    /// Asked for the content to reach the disk.
    Syncing,
    /// Finished; the value says whether the lock is held.
    Done(bool),
}

/// What the caller reports back: whether the action asked for succeeded.
#[derive(Debug, Clone, Copy, PartialEq, Eq, Structural)]
pub enum AcquireEvent {
    Opened(bool),
    Locked(bool),
    Truncated(bool),
    Written(bool),
    Synced(bool),
}

/// What the caller does next.
#[derive(Debug, Clone, Copy, PartialEq, Eq, Structural)]
pub enum AcquireAction {
    /// Open the file, creating it where it is missing; report `Opened`.
    Open,
    /// Try to lock the file exclusively and return at once; report
    /// `Locked`.
    TryLock,
    /// Cut the file down to nothing; report `Truncated`.
    Truncate,
    /// Write the content for the own process ID; report `Written`.
    WriteContent,
    /// Flush the file to the disk; report `Synced`.
    Sync,
    /// Keep the open file: it is the handle of the lock.
    Keep,
    /// Close the file: the lock is not held.
    Abandon,
}

/// The state after `event` arrives in `state`, and the action that it asks
/// for. A failure to open, lock, empty or write abandons the acquisition;
/// a failure to flush does not. An event that answers no pending action
/// abandons it too.
pub open spec fn acquire_next(state: AcquireState, event: AcquireEvent) -> (
    AcquireState,
    AcquireAction,
) {
    match (state, event) {
        (AcquireState::Opening, AcquireEvent::Opened(true)) => (
            AcquireState::Locking,
            AcquireAction::TryLock,
        ),
        (AcquireState::Locking, AcquireEvent::Locked(true)) => (
            AcquireState::Truncating,
            AcquireAction::Truncate,
        ),
        (AcquireState::Truncating, AcquireEvent::Truncated(true)) => (
            AcquireState::Writing,
            AcquireAction::WriteContent,
        ),
        (AcquireState::Writing, AcquireEvent::Written(true)) => (
            AcquireState::Syncing,
            AcquireAction::Sync,
        ),
        (AcquireState::Syncing, AcquireEvent::Synced(_)) => (
            AcquireState::Done(true),
            AcquireAction::Keep,
        ),
        (AcquireState::Done(true), _) => (AcquireState::Done(true), AcquireAction::Keep),
        _ => (AcquireState::Done(false), AcquireAction::Abandon),
    }
}

/// The state in which an acquisition begins, and its first action.
pub fn acquire_start() -> (r: (AcquireState, AcquireAction))
    ensures
        r == (AcquireState::Opening, AcquireAction::Open),
{
    (AcquireState::Opening, AcquireAction::Open)
}

/// One step of an acquisition: the next state and the next action.
pub fn acquire_step(state: AcquireState, event: AcquireEvent) -> (r: (
    AcquireState,
    AcquireAction,
))
    ensures
        r == acquire_next(state, event),
{
    let abandoned = (AcquireState::Done(false), AcquireAction::Abandon);
    match state {
        AcquireState::Opening => match event {
            AcquireEvent::Opened(true) => (AcquireState::Locking, AcquireAction::TryLock),
            _ => abandoned,
        },
        AcquireState::Locking => match event {
            AcquireEvent::Locked(true) => (AcquireState::Truncating, AcquireAction::Truncate),
            _ => abandoned,
        },
        AcquireState::Truncating => match event {
            AcquireEvent::Truncated(true) => (AcquireState::Writing, AcquireAction::WriteContent),
            _ => abandoned,
        },
        AcquireState::Writing => match event {
            AcquireEvent::Written(true) => (AcquireState::Syncing, AcquireAction::Sync),
            _ => abandoned,
        },
        AcquireState::Syncing => match event {
            AcquireEvent::Synced(_) => (AcquireState::Done(true), AcquireAction::Keep),
            _ => abandoned,
        },
        AcquireState::Done(true) => (AcquireState::Done(true), AcquireAction::Keep),
        AcquireState::Done(false) => abandoned,
    }
}

/// The state that a run of events leads to from `state`.
pub open spec fn acquire_run(state: AcquireState, events: Seq<AcquireEvent>) -> AcquireState
    decreases events.len(),
{
    if events.len() == 0 {
        state
    } else {
        acquire_run(acquire_next(state, events[0]).0, events.drop_first())
    }
}

/// Whether a run of events from `state` ever asks for the file to be
/// changed.
pub open spec fn acquire_modifies(state: AcquireState, events: Seq<AcquireEvent>) -> bool
    decreases events.len(),
{
    if events.len() == 0 {
        false
    } else {
        let (next, action) = acquire_next(state, events[0]);
        action == AcquireAction::Truncate || action == AcquireAction::WriteContent
            || acquire_modifies(next, events.drop_first())
    }
}

/// A finished acquisition stays finished and leaves the file alone.
pub proof fn lemma_acquire_done_is_final(held: bool, events: Seq<AcquireEvent>)
    ensures
        acquire_run(AcquireState::Done(held), events) == AcquireState::Done(held),
        !acquire_modifies(AcquireState::Done(held), events),
    decreases events.len(),
{
    if events.len() > 0 {
        lemma_acquire_done_is_final(held, events.drop_first());
    }
}

/// Only the holder writes: the file is changed only after it was opened
/// and the lock on it was won. A process that finds the lock taken leaves
/// the content, and with it the process ID of the holder, as it is.
pub proof fn lemma_modifies_only_when_locked(events: Seq<AcquireEvent>)
    requires
        acquire_modifies(AcquireState::Opening, events),
    ensures
        events.len() >= 2,
        events[0] == AcquireEvent::Opened(true),
        events[1] == AcquireEvent::Locked(true),
{
    let rest = events.drop_first();
    if events[0] != AcquireEvent::Opened(true) {
        lemma_acquire_done_is_final(false, rest);
    } else {
        assert(acquire_modifies(AcquireState::Locking, rest));
        assert(rest[0] == events[1]);
        if rest[0] != AcquireEvent::Locked(true) {
            lemma_acquire_done_is_final(false, rest.drop_first());
        }
    }
}

/// An acquisition never claims a lock that it was not granted: it ends
/// with the lock held only where the file was reported as opened, the lock
/// as won, and the content as emptied and written, in that order.
pub proof fn lemma_held_only_when_granted(events: Seq<AcquireEvent>)
    requires
        acquire_run(AcquireState::Opening, events) == AcquireState::Done(true),
    ensures
        events.len() >= 5,
        events[0] == AcquireEvent::Opened(true),
        events[1] == AcquireEvent::Locked(true),
        events[2] == AcquireEvent::Truncated(true),
        events[3] == AcquireEvent::Written(true),
        events[4] is Synced,
{
    reveal_with_fuel(acquire_run, 6);
    let e1 = events.drop_first();
    let e2 = e1.drop_first();
    let e3 = e2.drop_first();
    let e4 = e3.drop_first();
    let e5 = e4.drop_first();
    if events.len() >= 1 && events[0] != AcquireEvent::Opened(true) {
        lemma_acquire_done_is_final(false, e1);
    } else if events.len() >= 2 && e1[0] != AcquireEvent::Locked(true) {
        lemma_acquire_done_is_final(false, e2);
    } else if events.len() >= 3 && e2[0] != AcquireEvent::Truncated(true) {
        lemma_acquire_done_is_final(false, e3);
    } else if events.len() >= 4 && e3[0] != AcquireEvent::Written(true) {
        lemma_acquire_done_is_final(false, e4);
    } else if events.len() >= 5 && !(e4[0] is Synced) {
        lemma_acquire_done_is_final(false, e5);
    }
}

/// What an acquisition comes to when its five actions succeed or fail as
/// given: the lock is held exactly when the file was opened, locked,
/// emptied and written; whether it was flushed does not count.
pub proof fn lemma_acquire_outcome(
    opened: bool,
    locked: bool,
    truncated: bool,
    written: bool,
    synced: bool,
)
    ensures
        acquire_run(
            AcquireState::Opening,
            seq![
                AcquireEvent::Opened(opened),
                AcquireEvent::Locked(locked),
                AcquireEvent::Truncated(truncated),
                AcquireEvent::Written(written),
                AcquireEvent::Synced(synced),
            ],
        ) == AcquireState::Done(opened && locked && truncated && written),
{
    reveal_with_fuel(acquire_run, 7);
    let s = seq![
        AcquireEvent::Opened(opened),
        AcquireEvent::Locked(locked),
        AcquireEvent::Truncated(truncated),
        AcquireEvent::Written(written),
        AcquireEvent::Synced(synced),
    ];
    let s1 = s.drop_first();
    let s2 = s1.drop_first();
    let s3 = s2.drop_first();
    let s4 = s3.drop_first();
    let s5 = s4.drop_first();
    assert(s5.len() == 0);
}

/// What a probe of the lock tells.
#[derive(Debug, Clone, Copy, PartialEq, Eq, Structural)]
pub struct Probe {
    /// Whether some process holds the lock.
    pub running: bool,
    /// Whether the probe itself got the lock and has to let go of it at
    /// once.
    pub release: bool,
}

/// Whether an instance runs, told from an attempt to acquire its lock: it
/// runs exactly when the attempt failed. An attempt that succeeded is
/// undone at once.
pub fn mqtt_is_running(acquired: bool) -> (probe: Probe)
    ensures
        probe.running == !acquired,
        probe.release == acquired,
{
    Probe { running: !acquired, release: acquired }
}

} // verus!
