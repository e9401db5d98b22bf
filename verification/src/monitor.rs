//! The subscriber that waits for a shutdown command: what it does about
//! each thing that its connection reports. The caller owns the connection,
//! performs each action and reports what came of it.

use crate::command::{dispose_message, message_disposition, Disposition};
use vstd::prelude::*;

verus! {

/// How long the subscriber waits for the broker before it connects.
pub const BROKER_STARTUP_DELAY_SECS: u64 = 2;

/// How long the subscriber waits after a connection error.
pub const CONNECTION_ERROR_RETRY_SECS: u64 = 1;

/// What the connection of the subscriber, or the caller, reports.
#[derive(Debug)]
pub enum MonitorEvent {
    /// The broker acknowledged the connection.
    ConnAck,
    /// The broker acknowledged the subscription.
    SubAck,
    /// The broker delivered a message.
    Publish { topic: String, payload: Vec<u8> },
    /// Something else arrived or left.
    Other,
    /// The connection failed.
    ConnectionError,
    /// Whether the request to subscribe was accepted by the client.
    Subscribed(bool),
    /// Whether the hosting thread took the shutdown notification.
    Notified(bool),
}

/// A report as plain values.
pub enum MonitorEventView {
    ConnAck,
    SubAck,
    Publish { topic: Seq<char>, payload: Seq<u8> },
    Other,
    ConnectionError,
    Subscribed(bool),
    Notified(bool),
}

impl View for MonitorEvent {
    type V = MonitorEventView;

    open spec fn view(&self) -> MonitorEventView {
        match self {
            MonitorEvent::ConnAck => MonitorEventView::ConnAck,
            MonitorEvent::SubAck => MonitorEventView::SubAck,
            MonitorEvent::Publish { topic, payload } => MonitorEventView::Publish {
                topic: topic@,
                payload: payload@,
            },
            MonitorEvent::Other => MonitorEventView::Other,
            MonitorEvent::ConnectionError => MonitorEventView::ConnectionError,
            MonitorEvent::Subscribed(accepted) => MonitorEventView::Subscribed(*accepted),
            MonitorEvent::Notified(delivered) => MonitorEventView::Notified(*delivered),
        }
    }
}

/// What the caller does next.
#[derive(Debug, Clone, Copy, PartialEq, Eq, Structural)]
pub enum MonitorAction {
    /// Take the next report from the connection.
    Continue,
    /// A message was left alone, for this reason; take the next report.
    Skip(Disposition),
    /// Ask for the command topic, at least once delivery, and report
    /// `Subscribed`.
    Subscribe,
    /// Notify the hosting thread and report `Notified`.
    Notify,
    /// Sleep for this many seconds, then take the next report.
    Backoff(u64),
    /// The shutdown is under way: leave the loop.
    Stop,
    /// Nobody is left to stop the broker: end the process with this code.
    Exit(i32),
}

/// What the subscriber has asked the caller for and waits to hear of.
#[derive(Debug, Clone, Copy, PartialEq, Eq, Structural)]
pub enum Pending {
    /// Nothing.
    Nothing,
    /// Whether the request to subscribe was accepted.
    Subscription,
    /// Whether the hosting thread took the notification.
    Notification,
}

/// The subscriber between two reports.
#[derive(Debug, Clone, Copy, PartialEq, Eq, Structural)]
pub struct Monitor {
    /// The process that the subscriber runs in.
    pub own_pid: u32,
    /// Whether the command topic is asked for on the current connection.
    pub subscribed: bool,
    /// What the last action asked the caller to report.
    pub pending: Pending,
}

/// The subscriber after `event`, and the action that the event asks for.
/// An answer counts only right after the action that asked for it: a
/// `Subscribed` or `Notified` that comes out of turn is passed over.
pub open spec fn monitor_next(monitor: Monitor, event: MonitorEventView) -> (
    Monitor,
    MonitorAction,
) {
    let settled = Monitor {
        own_pid: monitor.own_pid,
        subscribed: monitor.subscribed,
        pending: Pending::Nothing,
    };
    match event {
        MonitorEventView::ConnAck => if monitor.subscribed {
            (settled, MonitorAction::Continue)
        } else {
            (
                Monitor {
                    own_pid: monitor.own_pid,
                    subscribed: false,
                    pending: Pending::Subscription,
                },
                MonitorAction::Subscribe,
            )
        },
        MonitorEventView::Subscribed(accepted) => if monitor.pending == Pending::Subscription {
            (
                Monitor {
                    own_pid: monitor.own_pid,
                    subscribed: monitor.subscribed || accepted,
                    pending: Pending::Nothing,
                },
                MonitorAction::Continue,
            )
        } else {
            (settled, MonitorAction::Continue)
        },
        MonitorEventView::Publish { topic, payload } => {
            let disposition = message_disposition(topic, payload, monitor.own_pid);
            if disposition == Disposition::Shutdown {
                (
                    Monitor {
                        own_pid: monitor.own_pid,
                        subscribed: monitor.subscribed,
                        pending: Pending::Notification,
                    },
                    MonitorAction::Notify,
                )
            } else {
                (settled, MonitorAction::Skip(disposition))
            }
        },
        MonitorEventView::Notified(delivered) => if monitor.pending != Pending::Notification {
            (settled, MonitorAction::Continue)
        } else if delivered {
            (settled, MonitorAction::Stop)
        } else {
            (settled, MonitorAction::Exit(0))
        },
        MonitorEventView::ConnectionError => (
            Monitor { own_pid: monitor.own_pid, subscribed: false, pending: Pending::Nothing },
            MonitorAction::Backoff(CONNECTION_ERROR_RETRY_SECS),
        ),
        MonitorEventView::SubAck => (settled, MonitorAction::Continue),
        MonitorEventView::Other => (settled, MonitorAction::Continue),
    }
}

impl Monitor {
    /// The subscriber of the process `own_pid` before it has connected.
    pub fn new(own_pid: u32) -> (monitor: Monitor)
        ensures
            monitor == (Monitor { own_pid, subscribed: false, pending: Pending::Nothing }),
    {
        Monitor { own_pid, subscribed: false, pending: Pending::Nothing }
    }

    /// Takes one report: updates the subscriber and says what to do next.
    pub fn step(&mut self, event: &MonitorEvent) -> (action: MonitorAction)
        ensures
            (*final(self), action) == monitor_next(*old(self), event@),
    {
        let asked = self.pending;
        self.pending = Pending::Nothing;
        match event {
            MonitorEvent::ConnAck => if self.subscribed {
                MonitorAction::Continue
            } else {
                self.pending = Pending::Subscription;
                MonitorAction::Subscribe
            },
            MonitorEvent::Subscribed(accepted) => {
                if asked == Pending::Subscription && *accepted {
                    self.subscribed = true;
                }
                MonitorAction::Continue
            },
            MonitorEvent::Publish { topic, payload } => {
                let disposition = dispose_message(
                    topic.as_str(),
                    payload.as_slice(),
                    self.own_pid,
                );
                match disposition {
                    Disposition::Shutdown => {
                        self.pending = Pending::Notification;
                        MonitorAction::Notify
                    },
                    _ => MonitorAction::Skip(disposition),
                }
            },
            MonitorEvent::Notified(delivered) => if asked != Pending::Notification {
                MonitorAction::Continue
            } else if *delivered {
                MonitorAction::Stop
            } else {
                MonitorAction::Exit(0)
            },
            MonitorEvent::ConnectionError => {
                self.subscribed = false;
                MonitorAction::Backoff(CONNECTION_ERROR_RETRY_SECS)
            },
            MonitorEvent::SubAck => MonitorAction::Continue,
            MonitorEvent::Other => MonitorAction::Continue,
        }
    }
}

/// The subscriber never gives up on its own: it leaves the loop or ends
/// the process only on the answer to a notification that it asked for.
/// Nothing that the connection reports, and no answer out of turn, does.
pub proof fn lemma_never_gives_up(monitor: Monitor, event: MonitorEventView)
    ensures
        monitor_next(monitor, event).1 == MonitorAction::Stop ==> event
            == MonitorEventView::Notified(true) && monitor.pending == Pending::Notification,
        monitor_next(monitor, event).1 is Exit ==> event == MonitorEventView::Notified(false)
            && monitor.pending == Pending::Notification,
{
}

/// The subscriber waits for an answer exactly after it asked for one.
pub proof fn lemma_pending_follows_action(monitor: Monitor, event: MonitorEventView)
    ensures
        monitor_next(monitor, event).0.pending == Pending::Notification <==> monitor_next(
            monitor,
            event,
        ).1 == MonitorAction::Notify,
        monitor_next(monitor, event).0.pending == Pending::Subscription <==> monitor_next(
            monitor,
            event,
        ).1 == MonitorAction::Subscribe,
{
}

/// An answer that nothing asked for is passed over: it changes neither
/// whether the topic counts as asked for nor what the caller does next.
pub proof fn lemma_out_of_turn_is_passed_over(monitor: Monitor, answer: bool)
    ensures
        monitor.pending != Pending::Subscription ==> monitor_next(
            monitor,
            MonitorEventView::Subscribed(answer),
        ).0.subscribed == monitor.subscribed,
        monitor.pending != Pending::Notification ==> monitor_next(
            monitor,
            MonitorEventView::Notified(answer),
        ).1 == MonitorAction::Continue,
{
}

/// Whether a report is a message that the subscriber makes a shutdown of.
pub open spec fn is_shutdown_report(own_pid: u32, event: MonitorEventView) -> bool {
    match event {
        MonitorEventView::Publish { topic, payload } => message_disposition(
            topic,
            payload,
            own_pid,
        ) == Disposition::Shutdown,
        _ => false,
    }
}

/// The hosting thread is notified for a shutdown command addressed to this
/// process, and for nothing else.
pub proof fn lemma_notify_iff_shutdown(monitor: Monitor, event: MonitorEventView)
    ensures
        monitor_next(monitor, event).1 == MonitorAction::Notify <==> is_shutdown_report(
            monitor.own_pid,
            event,
        ),
{
}

/// How often a run of reports makes the subscriber notify the hosting
/// thread.
pub open spec fn notifications(monitor: Monitor, events: Seq<MonitorEventView>) -> nat
    decreases events.len(),
{
    if events.len() == 0 {
        0
    } else {
        let step = monitor_next(monitor, events[0]);
        let here: nat = if step.1 == MonitorAction::Notify {
            1
        } else {
            0
        };
        here + notifications(step.0, events.drop_first())
    }
}

/// How many of the reports are shutdown commands for the process
/// `own_pid`.
pub open spec fn shutdown_reports(own_pid: u32, events: Seq<MonitorEventView>) -> nat
    decreases events.len(),
{
    if events.len() == 0 {
        0
    } else {
        let here: nat = if is_shutdown_report(own_pid, events[0]) {
            1
        } else {
            0
        };
        here + shutdown_reports(own_pid, events.drop_first())
    }
}

/// Each shutdown command for this process notifies the hosting thread
/// once, and nothing else notifies it: over any run of reports there are as
/// many notifications as there are such commands.
pub proof fn lemma_one_notification_per_shutdown(monitor: Monitor, events: Seq<MonitorEventView>)
    ensures
        notifications(monitor, events) == shutdown_reports(monitor.own_pid, events),
    decreases events.len(),
{
    if events.len() > 0 {
        let step = monitor_next(monitor, events[0]);
        lemma_notify_iff_shutdown(monitor, events[0]);
        assert(step.0.own_pid == monitor.own_pid);
        lemma_one_notification_per_shutdown(step.0, events.drop_first());
    }
}

/// After a connection error the topic counts as not asked for, so the next
/// acknowledged connection asks for it again.
pub proof fn lemma_resubscribes_after_error(monitor: Monitor)
    ensures
        monitor_next(monitor, MonitorEventView::ConnectionError).1 == MonitorAction::Backoff(
            CONNECTION_ERROR_RETRY_SECS,
        ),
        monitor_next(
            monitor_next(monitor, MonitorEventView::ConnectionError).0,
            MonitorEventView::ConnAck,
        ).1 == MonitorAction::Subscribe,
{
}

/// The topic is asked for only while it is not asked for already, and a
/// request that the client accepted is not repeated on that connection.
pub proof fn lemma_subscribes_once(monitor: Monitor, event: MonitorEventView)
    ensures
        monitor_next(monitor, event).1 == MonitorAction::Subscribe ==> !monitor.subscribed,
        monitor_next(monitor, event).0.own_pid == monitor.own_pid,
        ({
            let asked = monitor_next(monitor, MonitorEventView::ConnAck).0;
            let accepted = monitor_next(asked, MonitorEventView::Subscribed(true)).0;
            monitor_next(accepted, MonitorEventView::ConnAck).1 == MonitorAction::Continue
        }),
{
}

} // verus!
