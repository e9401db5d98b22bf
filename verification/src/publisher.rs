//! Sending one shutdown command: what is published, and the wait for the
//! confirmation that it left the client. The caller owns the connection.

use crate::command::{shutdown_payload, shutdown_payload_chars, COMMAND_TOPIC};
use vstd::prelude::*;

verus! {

/// How long the publisher sleeps between two looks at its connection.
pub const MESSAGE_SEND_TIMEOUT_MS: u64 = 10;

/// How many reports the publisher takes from its connection before it
/// gives the confirmation up: with the sleep between them, five seconds.
pub const DELIVERY_POLL_LIMIT: u32 = 500;

/// How sure the delivery of a message is to be.
#[derive(Debug, Clone, Copy, PartialEq, Eq, Structural)]
pub enum Delivery {
    /// The broker may never get the message.
    AtMostOnce,
    /// The broker gets the message, perhaps more than once.
    AtLeastOnce,
    /// The broker gets the message once.
    ExactlyOnce,
}

/// One message to publish.
#[derive(Debug)]
pub struct Publication {
    /// The topic that the message goes to.
    pub topic: &'static str,
    /// How sure its delivery is to be.
    pub delivery: Delivery,
    /// Whether the broker keeps the message for later subscribers.
    pub retain: bool,
    /// What the message says.
    pub payload: String,
}

/// The message that tells the process `target_pid` to shut down: on the
/// command topic, delivered at least once, not retained.
pub fn shutdown_publication(target_pid: u32) -> (publication: Publication)
    ensures
        publication.topic@ == COMMAND_TOPIC@,
        publication.delivery == Delivery::AtLeastOnce,
        !publication.retain,
        publication.payload@ == shutdown_payload_chars(target_pid),
{
    Publication {
        topic: COMMAND_TOPIC,
        delivery: Delivery::AtLeastOnce,
        retain: false,
        payload: shutdown_payload(target_pid),
    }
}

/// What the connection of the publisher reports.
#[derive(Debug, Clone, Copy, PartialEq, Eq, Structural)]
pub enum DeliveryEvent {
    /// The publish left the client.
    PublishSent,
    /// Something else arrived or left.
    Other,
    /// The connection failed.
    ConnectionError,
    /// The connection has nothing more to report.
    Closed,
}

/// Why a command counts as not delivered.
#[derive(Debug, Clone, Copy, PartialEq, Eq, Structural)]
pub enum DeliveryError {
    /// The connection failed while the command was sent.
    Connection,
    /// No confirmation came before the wait ran out.
    Unconfirmed,
}

/// What the publisher does next.
#[derive(Debug, Clone, Copy, PartialEq, Eq, Structural)]
pub enum DeliveryAction {
    /// The command left the client: done.
    Confirmed,
    /// Sleep for this many milliseconds, then take the next report.
    Poll(u64),
    /// Give up with this error.
    Fail(DeliveryError),
}

/// The wait of a publisher for its confirmation.
#[derive(Debug, Clone, Copy, PartialEq, Eq, Structural)]
pub struct DeliveryWait {
    /// How many more reports the publisher may sleep on.
    pub polls_left: u32,
}

/// The wait after `event`, and the action that the event asks for.
pub open spec fn delivery_next(wait: DeliveryWait, event: DeliveryEvent) -> (
    DeliveryWait,
    DeliveryAction,
) {
    match event {
        DeliveryEvent::PublishSent => (wait, DeliveryAction::Confirmed),
        DeliveryEvent::ConnectionError => (wait, DeliveryAction::Fail(DeliveryError::Connection)),
        DeliveryEvent::Closed => (wait, DeliveryAction::Fail(DeliveryError::Unconfirmed)),
        DeliveryEvent::Other => if wait.polls_left == 0 {
            (wait, DeliveryAction::Fail(DeliveryError::Unconfirmed))
        } else {
            (
                DeliveryWait { polls_left: (wait.polls_left - 1) as u32 },
                DeliveryAction::Poll(MESSAGE_SEND_TIMEOUT_MS),
            )
        },
    }
}

/// How a wait ends when the connection reports `events` in turn: `None`
/// while it has not ended.
pub open spec fn delivery_result(wait: DeliveryWait, events: Seq<DeliveryEvent>) -> Option<
    Result<(), DeliveryError>,
>
    decreases events.len(),
{
    if events.len() == 0 {
        None
    } else {
        match delivery_next(wait, events[0]) {
            (_, DeliveryAction::Confirmed) => Some(Ok(())),
            (_, DeliveryAction::Fail(e)) => Some(Err(e)),
            (next, DeliveryAction::Poll(_)) => delivery_result(next, events.drop_first()),
        }
    }
}

impl DeliveryWait {
    /// The wait of a publisher that has just published.
    pub fn new() -> (wait: DeliveryWait)
        ensures
            wait == (DeliveryWait { polls_left: DELIVERY_POLL_LIMIT }),
    {
        DeliveryWait { polls_left: DELIVERY_POLL_LIMIT }
    }

    /// Takes one report: updates the wait and says what to do next.
    pub fn step(&mut self, event: DeliveryEvent) -> (action: DeliveryAction)
        ensures
            (*final(self), action) == delivery_next(*old(self), event),
    {
        match event {
            DeliveryEvent::PublishSent => DeliveryAction::Confirmed,
            DeliveryEvent::ConnectionError => DeliveryAction::Fail(DeliveryError::Connection),
            DeliveryEvent::Closed => DeliveryAction::Fail(DeliveryError::Unconfirmed),
            DeliveryEvent::Other => if self.polls_left == 0 {
                DeliveryAction::Fail(DeliveryError::Unconfirmed)
            } else {
                self.polls_left = self.polls_left - 1;
                DeliveryAction::Poll(MESSAGE_SEND_TIMEOUT_MS)
            },
        }
    }
}

/// The wait is bounded: whatever the connection reports, a wait has ended
/// once it has taken one report more than it has polls left.
pub proof fn lemma_wait_is_bounded(wait: DeliveryWait, events: Seq<DeliveryEvent>)
    requires
        events.len() > wait.polls_left,
    ensures
        delivery_result(wait, events) is Some,
    decreases events.len(),
{
    match delivery_next(wait, events[0]) {
        (next, DeliveryAction::Poll(_)) => {
            lemma_wait_is_bounded(next, events.drop_first());
        },
        _ => {},
    }
}

/// A wait ends well only where the connection reported that the publish
/// left the client.
pub proof fn lemma_confirmed_needs_sent(wait: DeliveryWait, events: Seq<DeliveryEvent>)
    requires
        delivery_result(wait, events) == Some(Ok::<(), DeliveryError>(())),
    ensures
        exists|i: int| 0 <= i < events.len() && events[i] == DeliveryEvent::PublishSent,
    decreases events.len(),
{
    if events.len() > 0 {
        match delivery_next(wait, events[0]) {
            (next, DeliveryAction::Poll(_)) => {
                let rest = events.drop_first();
                lemma_confirmed_needs_sent(next, rest);
                let i = choose|i: int| 0 <= i < rest.len() && rest[i] == DeliveryEvent::PublishSent;
                assert(events[i + 1] == DeliveryEvent::PublishSent);
            },
            _ => {
                assert(events[0] == DeliveryEvent::PublishSent);
            },
        }
    }
}

} // verus!
