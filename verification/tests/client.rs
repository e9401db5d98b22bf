use unigen::client::{
    create_mqtt_client, monitor_client_id, sender_client_id, CLIENT_ID_MONITOR, CLIENT_ID_SENDER,
    MQTT_BROKER_HOST, MQTT_BROKER_PORT, MQTT_KEEP_ALIVE_SECS, MQTT_QUEUE_CAPACITY,
};
use unigen::service::MAX_CLIENT_ID_LEN;

#[test]
fn monitor_client_id_holds_the_pid() {
    assert_eq!(monitor_client_id(4242), "shutdown_monitor_4242");
    assert_eq!(monitor_client_id(0), "shutdown_monitor_0");
    assert_eq!(monitor_client_id(4242), format!("{}_{}", CLIENT_ID_MONITOR, 4242));
}

#[test]
fn sender_client_id_holds_pid_and_time() {
    assert_eq!(sender_client_id(4242, 1700000000123), "shutdown_sender_4242_1700000000123");
    assert_eq!(
        sender_client_id(7, 0),
        format!("{}_{}_{}", CLIENT_ID_SENDER, 7, 0)
    );
}

#[test]
fn sender_client_ids_differ_between_invocations() {
    let a = sender_client_id(1, 23);
    let b = sender_client_id(12, 3);
    let c = sender_client_id(1, 24);
    assert_ne!(a, b);
    assert_ne!(a, c);
    assert_ne!(sender_client_id(5, 5), monitor_client_id(5));
}

#[test]
fn longest_client_id_fits_the_broker_limit() {
    assert!(sender_client_id(u32::MAX, u128::MAX).chars().count() <= MAX_CLIENT_ID_LEN);
    assert!(monitor_client_id(u32::MAX).chars().count() <= MAX_CLIENT_ID_LEN);
}

#[test]
fn create_mqtt_client_uses_the_fixed_settings() {
    let s = create_mqtt_client("shutdown_monitor_9");
    assert_eq!(s.client_id, "shutdown_monitor_9");
    assert_eq!(s.host, "127.0.0.1");
    assert_eq!(s.port, 31883);
    assert!(s.clean_session);
    assert_eq!(s.keep_alive_secs, 10);
    assert_eq!(s.queue_capacity, 10);
    assert_eq!(MQTT_BROKER_HOST, "127.0.0.1");
    assert_eq!(MQTT_BROKER_PORT, 31883);
    assert_eq!(MQTT_KEEP_ALIVE_SECS, 10);
    assert_eq!(MQTT_QUEUE_CAPACITY, 10);
}
