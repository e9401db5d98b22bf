//! The control-plane process: its fixed listeners, the configuration of
//! its broker, and the order in which it starts and stops. The caller
//! performs each action and reports what came of it.

use crate::client::{monitor_id, sender_id, MQTT_BROKER_PORT};
use crate::command::shutdown_payload_chars;
use crate::config::{broker_config_text, config_chars};
use crate::text::{lemma_decimal_len, pow10};
use vstd::prelude::*;

verus! {

/// The address that every listener binds.
pub const LISTEN_HOST: &'static str = "127.0.0.1";

/// The port of the listener for protocol version 3.1.1, which the clients
/// of this library connect to.
pub const V4_PORT: u16 = MQTT_BROKER_PORT;

/// The port of the listener for protocol version 5.
pub const V5_PORT: u16 = 31884;

/// The port of the web-socket listener.
pub const WS_PORT: u16 = 38286;

/// How long a connection may take to establish itself, in milliseconds.
pub const CONNECTION_TIMEOUT_MS: u16 = 60000;

/// The longest client identity that the broker accepts.
pub const MAX_CLIENT_ID_LEN: usize = 256;

/// The largest payload that the broker accepts, in bytes.
pub const MAX_PAYLOAD_SIZE: usize = 268435455;

/// How long the broker is given to come up, in milliseconds.
pub const BROKER_WARMUP_MS: u64 = 2000;

/// How long deliveries under way are given once the shutdown is signalled,
/// in milliseconds.
pub const SHUTDOWN_GRACE_MS: u64 = 500;

/// The transport that a listener speaks.
#[derive(Debug, Clone, Copy, PartialEq, Eq, Structural)]
pub enum Transport {
    /// Publish/subscribe, protocol version 3.1.1, over TCP.
    V4,
    /// Publish/subscribe, protocol version 5, over TCP.
    V5,
    /// Publish/subscribe over web sockets.
    WebSocket,
}

/// One listener of the broker.
#[derive(Debug, Clone, Copy, PartialEq, Eq, Structural)]
pub struct Listener {
    /// What it speaks.
    pub transport: Transport,
    /// The port that it binds on `LISTEN_HOST`.
    pub port: u16,
}

/// The listeners of the broker.
pub open spec fn listener_table() -> Seq<Listener> {
    seq![
        Listener { transport: Transport::V4, port: V4_PORT },
        Listener { transport: Transport::V5, port: V5_PORT },
        Listener { transport: Transport::WebSocket, port: WS_PORT },
    ]
}

/// The listeners of the broker: always the same three.
pub fn broker_listeners() -> (listeners: Vec<Listener>)
    ensures
        listeners@ == listener_table(),
{
    let mut listeners = Vec::new();
    listeners.push(Listener { transport: Transport::V4, port: V4_PORT });
    listeners.push(Listener { transport: Transport::V5, port: V5_PORT });
    listeners.push(Listener { transport: Transport::WebSocket, port: WS_PORT });
    listeners
}

/// No two listeners share a port or a transport.
pub proof fn lemma_listeners_distinct(i: int, j: int)
    requires
        0 <= i < j < listener_table().len(),
    ensures
        listener_table()[i].port != listener_table()[j].port,
        listener_table()[i].transport != listener_table()[j].transport,
{
}

/// Every identity that a subscriber or a publisher of this library shows
/// is short enough for the broker.
pub proof fn lemma_client_ids_fit(pid: u32, millis: u128)
    ensures
        monitor_id(pid).len() <= MAX_CLIENT_ID_LEN,
        sender_id(pid, millis).len() <= MAX_CLIENT_ID_LEN,
{
    reveal_strlit("shutdown_monitor");
    reveal_strlit("shutdown_sender");
    assert(pow10(10) == 10_000_000_000) by {
        reveal_with_fuel(pow10, 11);
    }
    assert(pow10(39) == 1_000_000_000_000_000_000_000_000_000_000_000_000_000) by {
        reveal_with_fuel(pow10, 40);
    }
    lemma_decimal_len(pid as nat, 10);
    lemma_decimal_len(millis as nat, 39);
}

/// Every shutdown command that this library writes is small enough for
/// the broker.
pub proof fn lemma_payload_fits(pid: u32)
    ensures
        shutdown_payload_chars(pid).len() <= 38,
        shutdown_payload_chars(pid).len() <= MAX_PAYLOAD_SIZE,
{
    reveal_strlit("{\"action\":\"shutdown\",\"pid\":");
    reveal_strlit("}");
    assert(pow10(10) == 10_000_000_000) by {
        reveal_with_fuel(pow10, 11);
    }
    lemma_decimal_len(pid as nat, 10);
}

/// A broker configuration, as the broker takes it.
#[verifier::external_type_specification]
#[verifier::external_body]
pub struct ExBrokerConfig(rumqttd::Config);

/// Why a text is no broker configuration.
#[verifier::external_type_specification]
#[verifier::external_body]
pub struct ExTomlError(toml::de::Error);

/// The broker configuration that `toml::from_str` reads from `text`;
/// `None` where it reports an error.
pub uninterp spec fn broker_config(text: Seq<char>) -> Option<rumqttd::Config>;

/// `toml::from_str` at `rumqttd::Config`: the configuration, or the error
/// of the parser.
#[verifier::external_body]
pub(crate) fn parse_broker_config(text: &str) -> (r: Result<rumqttd::Config, toml::de::Error>)
    ensures
        match r {
            Ok(config) => broker_config(text@) == Some(config),
            Err(_) => broker_config(text@) is None,
        },
{
    toml::from_str::<rumqttd::Config>(text)
}

/// Why the control plane did not serve, or why it stopped.
#[derive(Debug, Clone, Copy, PartialEq, Eq, Structural)]
pub enum StopReason {
    /// Another process holds the lock: a control plane runs already.
    AlreadyRunning,
    /// The configuration of the broker does not parse.
    BadConfig,
    /// The shutdown was signalled and the grace period has passed.
    ShutDown,
    /// The caller reported something that answers no pending action.
    OutOfTurn,
}

/// The configuration of the broker, read from `text`.
pub fn config_from(text: &str) -> (r: Result<rumqttd::Config, StopReason>)
    ensures
        match r {
            Ok(config) => broker_config(text@) == Some(config),
            Err(reason) => reason == StopReason::BadConfig && broker_config(text@) is None,
        },
{
    match parse_broker_config(text) {
        Ok(config) => Ok(config),
        Err(_) => Err(StopReason::BadConfig),
    }
}

/// The configuration of the broker, read from the text that is written
/// from the table of listeners.
pub fn create_mqtt_config() -> (r: Result<rumqttd::Config, StopReason>)
    ensures
        match r {
            Ok(config) => broker_config(config_chars()) == Some(config),
            Err(reason) => reason == StopReason::BadConfig && broker_config(config_chars())
                is None,
        },
{
    let text = broker_config_text();
    config_from(text.as_str())
}

/// Where the control plane stands.
#[derive(Debug, Clone, Copy, PartialEq, Eq, Structural)]
pub enum ServiceState {
    /// Asked for the lock of the control plane.
    Locking,
    /// Holds the lock; asked for the configuration of the broker.
    Configuring,
    /// Asked for the broker to bind its listeners and run.
    Launching,
    /// Giving the broker time to come up.
    Warming,
    /// Asked for the subscriber to be started.
    Arming,
    /// Serving until the shutdown is signalled.
    Serving,
    /// Giving deliveries under way time to finish.
    Draining,
    /// Not serving, for this reason.
    Stopped(StopReason),
}

/// What the caller reports back.
#[derive(Debug, Clone, Copy, PartialEq, Eq, Structural)]
pub enum ServiceEvent {
    /// Whether the lock was acquired.
    Lock(bool),
    /// Whether the configuration parsed.
    Config(bool),
    /// The broker runs in its thread.
    Launched,
    /// The subscriber runs in its thread.
    Armed,
    /// The sleep asked for has passed.
    Slept,
    /// The shutdown was signalled, or nobody is left who could signal it.
    ShutdownSignal,
}

/// What the caller does next.
#[derive(Debug, Clone, Copy, PartialEq, Eq, Structural)]
pub enum ServiceAction {
    /// Try, without waiting, to acquire the lock of the control plane, keep
    /// it for as long as the process lives, and report `Lock`.
    AcquireLock,
    /// Read the configuration of the broker and report `Config`.
    LoadConfig,
    /// Start the broker, which binds the listeners, and report `Launched`.
    LaunchBroker,
    /// Start the subscriber and report `Armed`.
    StartMonitor,
    /// Block until the shutdown is signalled and report `ShutdownSignal`.
    AwaitShutdown,
    /// Sleep for this many milliseconds and report `Slept`.
    Sleep(u64),
    /// Leave, for this reason.
    Exit(StopReason),
}

/// The state after `event` arrives in `state`, and the action that it asks
/// for. An event that answers no pending action stops the service.
pub open spec fn service_next(state: ServiceState, event: ServiceEvent) -> (
    ServiceState,
    ServiceAction,
) {
    match (state, event) {
        (ServiceState::Locking, ServiceEvent::Lock(true)) => (
            ServiceState::Configuring,
            ServiceAction::LoadConfig,
        ),
        (ServiceState::Locking, ServiceEvent::Lock(false)) => (
            ServiceState::Stopped(StopReason::AlreadyRunning),
            ServiceAction::Exit(StopReason::AlreadyRunning),
        ),
        (ServiceState::Configuring, ServiceEvent::Config(true)) => (
            ServiceState::Launching,
            ServiceAction::LaunchBroker,
        ),
        (ServiceState::Configuring, ServiceEvent::Config(false)) => (
            ServiceState::Stopped(StopReason::BadConfig),
            ServiceAction::Exit(StopReason::BadConfig),
        ),
        (ServiceState::Launching, ServiceEvent::Launched) => (
            ServiceState::Warming,
            ServiceAction::Sleep(BROKER_WARMUP_MS),
        ),
        (ServiceState::Warming, ServiceEvent::Slept) => (
            ServiceState::Arming,
            ServiceAction::StartMonitor,
        ),
        (ServiceState::Arming, ServiceEvent::Armed) => (
            ServiceState::Serving,
            ServiceAction::AwaitShutdown,
        ),
        (ServiceState::Serving, ServiceEvent::ShutdownSignal) => (
            ServiceState::Draining,
            ServiceAction::Sleep(SHUTDOWN_GRACE_MS),
        ),
        (ServiceState::Draining, ServiceEvent::Slept) => (
            ServiceState::Stopped(StopReason::ShutDown),
            ServiceAction::Exit(StopReason::ShutDown),
        ),
        (ServiceState::Stopped(reason), _) => (
            ServiceState::Stopped(reason),
            ServiceAction::Exit(reason),
        ),
        _ => (
            ServiceState::Stopped(StopReason::OutOfTurn),
            ServiceAction::Exit(StopReason::OutOfTurn),
        ),
    }
}

/// The state in which the control plane begins, and its first action.
pub fn service_start() -> (r: (ServiceState, ServiceAction))
    ensures
        r == (ServiceState::Locking, ServiceAction::AcquireLock),
{
    (ServiceState::Locking, ServiceAction::AcquireLock)
}

/// One step of the control plane: the next state and the next action.
pub fn service_step(state: ServiceState, event: ServiceEvent) -> (r: (
    ServiceState,
    ServiceAction,
))
    ensures
        r == service_next(state, event),
{
    let out_of_turn = (
        ServiceState::Stopped(StopReason::OutOfTurn),
        ServiceAction::Exit(StopReason::OutOfTurn),
    );
    match state {
        ServiceState::Locking => match event {
            ServiceEvent::Lock(true) => (ServiceState::Configuring, ServiceAction::LoadConfig),
            ServiceEvent::Lock(false) => (
                ServiceState::Stopped(StopReason::AlreadyRunning),
                ServiceAction::Exit(StopReason::AlreadyRunning),
            ),
            _ => out_of_turn,
        },
        ServiceState::Configuring => match event {
            ServiceEvent::Config(true) => (ServiceState::Launching, ServiceAction::LaunchBroker),
            ServiceEvent::Config(false) => (
                ServiceState::Stopped(StopReason::BadConfig),
                ServiceAction::Exit(StopReason::BadConfig),
            ),
            _ => out_of_turn,
        },
        ServiceState::Launching => match event {
            ServiceEvent::Launched => (
                ServiceState::Warming,
                ServiceAction::Sleep(BROKER_WARMUP_MS),
            ),
            _ => out_of_turn,
        },
        ServiceState::Warming => match event {
            ServiceEvent::Slept => (ServiceState::Arming, ServiceAction::StartMonitor),
            _ => out_of_turn,
        },
        ServiceState::Arming => match event {
            ServiceEvent::Armed => (ServiceState::Serving, ServiceAction::AwaitShutdown),
            _ => out_of_turn,
        },
        ServiceState::Serving => match event {
            ServiceEvent::ShutdownSignal => (
                ServiceState::Draining,
                ServiceAction::Sleep(SHUTDOWN_GRACE_MS),
            ),
            _ => out_of_turn,
        },
        ServiceState::Draining => match event {
            ServiceEvent::Slept => (
                ServiceState::Stopped(StopReason::ShutDown),
                ServiceAction::Exit(StopReason::ShutDown),
            ),
            _ => out_of_turn,
        },
        ServiceState::Stopped(reason) => (
            ServiceState::Stopped(reason),
            ServiceAction::Exit(reason),
        ),
    }
}

/// The state that a run of events leads to from `state`.
pub open spec fn service_run(state: ServiceState, events: Seq<ServiceEvent>) -> ServiceState
    decreases events.len(),
{
    if events.len() == 0 {
        state
    } else {
        service_run(service_next(state, events[0]).0, events.drop_first())
    }
}

/// Whether a run of events from `state` ever asks for the broker, and so
/// for its listeners.
pub open spec fn service_launches(state: ServiceState, events: Seq<ServiceEvent>) -> bool
    decreases events.len(),
{
    if events.len() == 0 {
        false
    } else {
        service_next(state, events[0]).1 == ServiceAction::LaunchBroker || service_launches(
            service_next(state, events[0]).0,
            events.drop_first(),
        )
    }
}

/// A stopped control plane stays stopped and binds nothing.
pub proof fn lemma_stopped_is_final(reason: StopReason, events: Seq<ServiceEvent>)
    ensures
        service_run(ServiceState::Stopped(reason), events) == ServiceState::Stopped(reason),
        !service_launches(ServiceState::Stopped(reason), events),
    decreases events.len(),
{
    if events.len() > 0 {
        lemma_stopped_is_final(reason, events.drop_first());
    }
}

/// The lock comes before the listeners: whatever is reported, the broker
/// is asked for only after the lock was reported as acquired, and the
/// configuration as parsed.
pub proof fn lemma_lock_before_bind(events: Seq<ServiceEvent>)
    requires
        service_launches(ServiceState::Locking, events),
    ensures
        events.len() >= 2,
        events[0] == ServiceEvent::Lock(true),
        events[1] == ServiceEvent::Config(true),
{
    let first = service_next(ServiceState::Locking, events[0]).0;
    let rest = events.drop_first();
    if events[0] != ServiceEvent::Lock(true) {
        match first {
            ServiceState::Stopped(reason) => {
                lemma_stopped_is_final(reason, rest);
            },
            _ => {},
        }
    } else {
        assert(service_launches(ServiceState::Configuring, rest));
        assert(rest[0] == events[1]);
        if rest[0] != ServiceEvent::Config(true) {
            match service_next(ServiceState::Configuring, rest[0]).0 {
                ServiceState::Stopped(reason) => {
                    lemma_stopped_is_final(reason, rest.drop_first());
                },
                _ => {},
            }
        }
    }
}

/// A second control plane binds nothing: where the lock is reported as
/// held by another, the only action ever asked for is to leave.
pub proof fn lemma_second_instance_binds_nothing(events: Seq<ServiceEvent>)
    requires
        events.len() > 0,
        events[0] == ServiceEvent::Lock(false),
    ensures
        service_next(ServiceState::Locking, events[0]).1 == ServiceAction::Exit(
            StopReason::AlreadyRunning,
        ),
        !service_launches(ServiceState::Locking, events),
        service_run(ServiceState::Locking, events) == ServiceState::Stopped(
            StopReason::AlreadyRunning,
        ),
{
    lemma_stopped_is_final(StopReason::AlreadyRunning, events.drop_first());
}

/// The events of a control plane that serves until it is told to stop.
pub open spec fn service_script() -> Seq<ServiceEvent> {
    seq![
        ServiceEvent::Lock(true),
        ServiceEvent::Config(true),
        ServiceEvent::Launched,
        ServiceEvent::Slept,
        ServiceEvent::Armed,
        ServiceEvent::ShutdownSignal,
        ServiceEvent::Slept,
    ]
}

/// A control plane whose actions all succeed serves, and stops once the
/// shutdown is signalled and the grace period has passed.
pub proof fn lemma_service_script()
    ensures
        service_run(ServiceState::Locking, service_script().take(5)) == ServiceState::Serving,
        service_run(ServiceState::Locking, service_script()) == ServiceState::Stopped(
            StopReason::ShutDown,
        ),
        service_launches(ServiceState::Locking, service_script()),
{
    reveal_with_fuel(service_run, 9);
    reveal_with_fuel(service_launches, 9);
    let s = service_script();
    let s1 = s.drop_first();
    let s2 = s1.drop_first();
    let s3 = s2.drop_first();
    let s4 = s3.drop_first();
    let s5 = s4.drop_first();
    let s6 = s5.drop_first();
    let s7 = s6.drop_first();
    assert(s7.len() == 0);
    let t = s.take(5);
    let t1 = t.drop_first();
    let t2 = t1.drop_first();
    let t3 = t2.drop_first();
    let t4 = t3.drop_first();
    let t5 = t4.drop_first();
    assert(t5.len() == 0);
}

} // verus!
