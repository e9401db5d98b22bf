use unigen::command::{Disposition, ParseError};
use unigen::monitor::{
    Monitor, MonitorAction, MonitorEvent, Pending, BROKER_STARTUP_DELAY_SECS,
    CONNECTION_ERROR_RETRY_SECS,
};

fn publish(topic: &str, payload: &str) -> MonitorEvent {
    MonitorEvent::Publish { topic: topic.to_string(), payload: payload.as_bytes().to_vec() }
}

#[test]
fn monitor_subscribes_on_first_connack_only() {
    let mut m = Monitor::new(10);
    assert!(!m.subscribed);
    assert_eq!(m.step(&MonitorEvent::ConnAck), MonitorAction::Subscribe);
    assert_eq!(m.step(&MonitorEvent::Subscribed(true)), MonitorAction::Continue);
    assert!(m.subscribed);
    assert_eq!(m.step(&MonitorEvent::SubAck), MonitorAction::Continue);
    assert_eq!(m.step(&MonitorEvent::ConnAck), MonitorAction::Continue);
    assert!(m.subscribed);
}

#[test]
fn monitor_asks_again_after_a_refused_subscription() {
    let mut m = Monitor::new(10);
    assert_eq!(m.step(&MonitorEvent::ConnAck), MonitorAction::Subscribe);
    assert_eq!(m.step(&MonitorEvent::Subscribed(false)), MonitorAction::Continue);
    assert!(!m.subscribed);
    assert_eq!(m.step(&MonitorEvent::ConnAck), MonitorAction::Subscribe);
}

#[test]
fn monitor_backs_off_and_resubscribes_after_an_error() {
    let mut m = Monitor::new(10);
    m.step(&MonitorEvent::ConnAck);
    m.step(&MonitorEvent::Subscribed(true));
    for _ in 0..5 {
        assert_eq!(m.step(&MonitorEvent::ConnectionError), MonitorAction::Backoff(1));
        assert!(!m.subscribed);
    }
    assert_eq!(m.step(&MonitorEvent::ConnAck), MonitorAction::Subscribe);
    assert_eq!(CONNECTION_ERROR_RETRY_SECS, 1);
    assert_eq!(BROKER_STARTUP_DELAY_SECS, 2);
}

#[test]
fn monitor_notifies_for_a_shutdown_addressed_to_it() {
    let mut m = Monitor::new(4242);
    let event = publish("syscommand", r#"{"action":"shutdown","pid":4242}"#);
    assert_eq!(m.step(&event), MonitorAction::Notify);
    assert_eq!(m.step(&MonitorEvent::Notified(true)), MonitorAction::Stop);
    assert_eq!(m.own_pid, 4242);
}

#[test]
fn monitor_ends_the_process_when_nobody_takes_the_notification() {
    let mut m = Monitor::new(4242);
    let event = publish("syscommand", r#"{"action":"shutdown","pid":4242}"#);
    assert_eq!(m.step(&event), MonitorAction::Notify);
    assert_eq!(m.pending, Pending::Notification);
    assert_eq!(m.step(&MonitorEvent::Notified(false)), MonitorAction::Exit(0));
}

#[test]
fn monitor_passes_over_answers_out_of_turn() {
    let mut m = Monitor::new(4242);
    assert_eq!(m.step(&MonitorEvent::Notified(true)), MonitorAction::Continue);
    assert_eq!(m.step(&MonitorEvent::Notified(false)), MonitorAction::Continue);
    assert_eq!(m.step(&MonitorEvent::Subscribed(true)), MonitorAction::Continue);
    assert!(!m.subscribed);
    assert_eq!(m, Monitor::new(4242));

    let event = publish("syscommand", r#"{"action":"shutdown","pid":4242}"#);
    assert_eq!(m.step(&event), MonitorAction::Notify);
    assert_eq!(m.step(&MonitorEvent::Other), MonitorAction::Continue);
    assert_eq!(m.step(&MonitorEvent::Notified(true)), MonitorAction::Continue);

    assert_eq!(m.step(&MonitorEvent::ConnAck), MonitorAction::Subscribe);
    assert_eq!(m.pending, Pending::Subscription);
    assert_eq!(m.step(&MonitorEvent::SubAck), MonitorAction::Continue);
    assert_eq!(m.step(&MonitorEvent::Subscribed(true)), MonitorAction::Continue);
    assert!(!m.subscribed);
}

#[test]
fn monitor_skips_what_is_not_meant_for_it() {
    let mut m = Monitor::new(4242);
    assert_eq!(
        m.step(&publish("syscommand", r#"{"action":"shutdown","pid":1}"#)),
        MonitorAction::Skip(Disposition::OtherProcess)
    );
    assert_eq!(
        m.step(&publish("syscommand", r#"{"action":"dance","pid":4242}"#)),
        MonitorAction::Skip(Disposition::UnknownAction)
    );
    assert_eq!(
        m.step(&publish("elsewhere", r#"{"action":"shutdown","pid":4242}"#)),
        MonitorAction::Skip(Disposition::OtherTopic)
    );
    assert_eq!(
        m.step(&publish("syscommand", "{oops")),
        MonitorAction::Skip(Disposition::Malformed(ParseError::NotJson))
    );
    assert_eq!(m.step(&MonitorEvent::Other), MonitorAction::Continue);
    assert_eq!(m, Monitor::new(4242));
}

#[test]
fn monitor_goes_on_after_malformed_messages() {
    let mut m = Monitor::new(77);
    m.step(&MonitorEvent::ConnAck);
    m.step(&MonitorEvent::Subscribed(true));
    for payload in ["", "null", "[1,2", r#"{"pid":77}"#, r#"{"action":"shutdown","pid":"77"}"#] {
        let action = m.step(&publish("syscommand", payload));
        assert!(matches!(action, MonitorAction::Skip(Disposition::Malformed(_))), "{:?}", payload);
        assert!(m.subscribed);
    }
    assert_eq!(
        m.step(&publish("syscommand", r#"{"action":"SHUTDOWN","pid":77}"#)),
        MonitorAction::Notify
    );
}
