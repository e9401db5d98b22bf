use fs2::FileExt;
use std::sync::mpsc;
use std::time::Duration;
use tempfile::NamedTempFile;
use unigen::client::{create_mqtt_client, monitor_client_id, sender_client_id};
use unigen::command::{send_shutdown_signal, COMMAND_TOPIC};
use unigen::monitor::{Monitor, MonitorAction, MonitorEvent};
use unigen::publisher::{
    shutdown_publication, Delivery, DeliveryAction, DeliveryEvent, DeliveryWait, Publication,
};
use unigen::service::{
    create_mqtt_config, service_start, service_step, ServiceAction, ServiceEvent, ServiceState,
    StopReason,
};

/// A broker in memory: it keeps which topics were asked for and hands each
/// message on a topic that was asked for to the subscriber.
struct Relay {
    topics: Vec<String>,
}

impl Relay {
    fn deliver(&self, publication: &Publication) -> Option<MonitorEvent> {
        if self.topics.iter().any(|t| t == publication.topic) {
            Some(MonitorEvent::Publish {
                topic: publication.topic.to_string(),
                payload: publication.payload.as_bytes().to_vec(),
            })
        } else {
            None
        }
    }
}

/// Hands one report to the subscriber and performs what it asks for, as
/// its loop does. Returns the action that ended the handling.
fn handle(
    monitor: &mut Monitor,
    relay: &mut Relay,
    shutdown_tx: &mpsc::Sender<()>,
    first: MonitorEvent,
) -> MonitorAction {
    let mut event = first;
    loop {
        let action = monitor.step(&event);
        match action {
            MonitorAction::Subscribe => {
                relay.topics.push(COMMAND_TOPIC.to_string());
                event = MonitorEvent::Subscribed(true);
            }
            MonitorAction::Notify => {
                event = MonitorEvent::Notified(send_shutdown_signal(shutdown_tx).is_ok());
            }
            other => return other,
        }
    }
}

/// The wait of a publisher whose connection reports these events.
fn confirmed(reports: &[DeliveryEvent]) -> bool {
    let mut wait = DeliveryWait::new();
    for report in reports {
        match wait.step(*report) {
            DeliveryAction::Confirmed => return true,
            DeliveryAction::Poll(_) => {}
            DeliveryAction::Fail(_) => return false,
        }
    }
    false
}

#[test]
fn published_shutdown_reaches_the_subscriber_in_time() {
    assert!(create_mqtt_config().is_ok());
    let own_pid = 424242;
    let (shutdown_tx, shutdown_rx) = mpsc::channel();
    let mut relay = Relay { topics: Vec::new() };

    let subscriber = create_mqtt_client(&monitor_client_id(own_pid));
    assert_eq!(subscriber.client_id, "shutdown_monitor_424242");
    let mut monitor = Monitor::new(own_pid);
    assert_eq!(
        handle(&mut monitor, &mut relay, &shutdown_tx, MonitorEvent::ConnAck),
        MonitorAction::Continue
    );
    assert_eq!(
        handle(&mut monitor, &mut relay, &shutdown_tx, MonitorEvent::SubAck),
        MonitorAction::Continue
    );
    assert_eq!(relay.topics, vec!["syscommand".to_string()]);

    let publisher = create_mqtt_client(&sender_client_id(7, 1700000000000));
    assert_ne!(publisher.client_id, subscriber.client_id);
    assert_eq!((publisher.host, publisher.port), (subscriber.host, subscriber.port));

    let elsewhere = shutdown_publication(own_pid + 1);
    assert!(confirmed(&[DeliveryEvent::Other, DeliveryEvent::PublishSent]));
    let report = relay.deliver(&elsewhere).unwrap();
    assert!(matches!(
        handle(&mut monitor, &mut relay, &shutdown_tx, report),
        MonitorAction::Skip(_)
    ));
    assert_eq!(
        shutdown_rx.recv_timeout(Duration::from_millis(50)),
        Err(mpsc::RecvTimeoutError::Timeout)
    );

    let publication = shutdown_publication(own_pid);
    assert_eq!(publication.delivery, Delivery::AtLeastOnce);
    assert!(confirmed(&[DeliveryEvent::Other, DeliveryEvent::PublishSent]));
    let report = relay.deliver(&publication).unwrap();
    assert_eq!(handle(&mut monitor, &mut relay, &shutdown_tx, report), MonitorAction::Stop);
    assert_eq!(shutdown_rx.recv_timeout(Duration::from_secs(2)), Ok(()));
    assert_eq!(
        shutdown_rx.recv_timeout(Duration::from_millis(50)),
        Err(mpsc::RecvTimeoutError::Timeout)
    );
}

#[test]
fn message_before_the_subscription_is_not_delivered() {
    let relay = Relay { topics: Vec::new() };
    assert!(relay.deliver(&shutdown_publication(1)).is_none());
}

#[test]
fn second_control_plane_detects_the_first_and_binds_nothing() {
    let lock_file = NamedTempFile::new().unwrap();
    let first = lock_file.reopen().unwrap();
    assert!(FileExt::try_lock_exclusive(&first).is_ok());

    let (mut state, mut action) = service_start();
    let mut asked = vec![action];
    let mut steps = 0;
    while !matches!(action, ServiceAction::Exit(_)) && steps < 10 {
        let event = match action {
            ServiceAction::AcquireLock => {
                let second = lock_file.reopen().unwrap();
                ServiceEvent::Lock(FileExt::try_lock_exclusive(&second).is_ok())
            }
            ServiceAction::LoadConfig => ServiceEvent::Config(create_mqtt_config().is_ok()),
            ServiceAction::LaunchBroker => ServiceEvent::Launched,
            ServiceAction::StartMonitor => ServiceEvent::Armed,
            ServiceAction::Sleep(_) => ServiceEvent::Slept,
            ServiceAction::AwaitShutdown => ServiceEvent::ShutdownSignal,
            ServiceAction::Exit(_) => ServiceEvent::Slept,
        };
        let next = service_step(state, event);
        state = next.0;
        action = next.1;
        asked.push(action);
        steps += 1;
    }
    assert_eq!(
        asked,
        vec![ServiceAction::AcquireLock, ServiceAction::Exit(StopReason::AlreadyRunning)]
    );
    assert_eq!(state, ServiceState::Stopped(StopReason::AlreadyRunning));
}
