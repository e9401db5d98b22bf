use unigen::config::{
    broker_config_text, key_of, name_of, push_listen_line, push_section, CONFIG_HEAD,
};
use unigen::service::{
    broker_listeners, config_from, create_mqtt_config, service_start, service_step, Listener,
    ServiceAction, ServiceEvent, ServiceState, StopReason, Transport,
    BROKER_WARMUP_MS, CONNECTION_TIMEOUT_MS, LISTEN_HOST, MAX_CLIENT_ID_LEN, MAX_PAYLOAD_SIZE,
    SHUTDOWN_GRACE_MS, V4_PORT, V5_PORT, WS_PORT,
};

#[test]
fn listeners_are_the_three_fixed_ones() {
    assert_eq!(
        broker_listeners(),
        vec![
            Listener { transport: Transport::V4, port: 31883 },
            Listener { transport: Transport::V5, port: 31884 },
            Listener { transport: Transport::WebSocket, port: 38286 },
        ]
    );
    assert_eq!(LISTEN_HOST, "127.0.0.1");
    assert_eq!((V4_PORT, V5_PORT, WS_PORT), (31883, 31884, 38286));
}

#[test]
fn broker_config_parses() {
    assert!(create_mqtt_config().is_ok());
    assert!(config_from(&broker_config_text()).is_ok());
}

#[test]
fn broker_config_binds_the_fixed_listeners() {
    let config = create_mqtt_config().unwrap();
    let v4 = config.v4.unwrap();
    let v5 = config.v5.unwrap();
    let ws = config.ws.unwrap();
    assert_eq!((v4.len(), v5.len(), ws.len()), (1, 1, 1));
    for (servers, port) in [(&v4, V4_PORT), (&v5, V5_PORT), (&ws, WS_PORT)] {
        let settings = &servers["1"];
        assert_eq!(settings.listen.port(), port);
        assert_eq!(settings.listen.ip().to_string(), LISTEN_HOST);
        assert!(settings.listen.ip().is_loopback());
        assert_eq!(settings.connections.connection_timeout_ms, CONNECTION_TIMEOUT_MS);
        assert_eq!(settings.connections.max_payload_size, MAX_PAYLOAD_SIZE);
    }
    assert_eq!(MAX_CLIENT_ID_LEN, 256);
    assert!(broker_config_text().contains("max_client_id_len = 256"));
    assert_eq!(config.id, 0);
    assert_eq!(config.router.max_connections, 1001);
}

#[test]
fn config_that_does_not_parse_is_a_bad_config() {
    assert_eq!(config_from("id = ").unwrap_err(), StopReason::BadConfig);
    assert_eq!(config_from("").unwrap_err(), StopReason::BadConfig);
    assert_eq!(config_from("[v4.1]\nname = 3").unwrap_err(), StopReason::BadConfig);
}

fn run(events: &[ServiceEvent]) -> (ServiceState, Vec<ServiceAction>) {
    let (mut state, first) = service_start();
    let mut actions = vec![first];
    for event in events {
        let (next, action) = service_step(state, *event);
        state = next;
        actions.push(action);
    }
    (state, actions)
}

#[test]
fn service_serves_and_stops_on_the_signal() {
    let (state, actions) = run(&[
        ServiceEvent::Lock(true),
        ServiceEvent::Config(true),
        ServiceEvent::Launched,
        ServiceEvent::Slept,
        ServiceEvent::Armed,
        ServiceEvent::ShutdownSignal,
        ServiceEvent::Slept,
    ]);
    assert_eq!(state, ServiceState::Stopped(StopReason::ShutDown));
    assert_eq!(
        actions,
        vec![
            ServiceAction::AcquireLock,
            ServiceAction::LoadConfig,
            ServiceAction::LaunchBroker,
            ServiceAction::Sleep(2000),
            ServiceAction::StartMonitor,
            ServiceAction::AwaitShutdown,
            ServiceAction::Sleep(500),
            ServiceAction::Exit(StopReason::ShutDown),
        ]
    );
    assert_eq!((BROKER_WARMUP_MS, SHUTDOWN_GRACE_MS), (2000, 500));
}

#[test]
fn second_instance_leaves_without_binding() {
    let (state, actions) = run(&[
        ServiceEvent::Lock(false),
        ServiceEvent::Config(true),
        ServiceEvent::Launched,
        ServiceEvent::Slept,
    ]);
    assert_eq!(state, ServiceState::Stopped(StopReason::AlreadyRunning));
    assert!(!actions.contains(&ServiceAction::LaunchBroker));
    assert_eq!(actions[1], ServiceAction::Exit(StopReason::AlreadyRunning));
    assert!(actions[1..].iter().all(|a| *a == ServiceAction::Exit(StopReason::AlreadyRunning)));
}

#[test]
fn bad_config_aborts_before_any_listener() {
    let (state, actions) =
        run(&[ServiceEvent::Lock(true), ServiceEvent::Config(false), ServiceEvent::Launched]);
    assert_eq!(state, ServiceState::Stopped(StopReason::BadConfig));
    assert!(!actions.contains(&ServiceAction::LaunchBroker));
}

#[test]
fn no_events_before_the_lock_lead_to_a_launch() {
    let all = [
        ServiceEvent::Lock(true),
        ServiceEvent::Lock(false),
        ServiceEvent::Config(true),
        ServiceEvent::Config(false),
        ServiceEvent::Launched,
        ServiceEvent::Armed,
        ServiceEvent::Slept,
        ServiceEvent::ShutdownSignal,
    ];
    for a in all {
        for b in all {
            for c in all {
                let (_, actions) = run(&[a, b, c]);
                let launched = actions.contains(&ServiceAction::LaunchBroker);
                assert_eq!(
                    launched,
                    a == ServiceEvent::Lock(true) && b == ServiceEvent::Config(true)
                );
            }
        }
    }
}

#[test]
fn report_out_of_turn_stops_the_service() {
    let stopped = (
        ServiceState::Stopped(StopReason::OutOfTurn),
        ServiceAction::Exit(StopReason::OutOfTurn),
    );
    assert_eq!(service_step(ServiceState::Locking, ServiceEvent::Launched), stopped);
    assert_eq!(service_step(ServiceState::Serving, ServiceEvent::Slept), stopped);
    assert_eq!(service_step(ServiceState::Draining, ServiceEvent::ShutdownSignal), stopped);
}

const EXPECTED_CONFIG: &str = r#"
id = 0

[router]
instant_ack = false
max_segment_size = 104857600
max_segment_count = 10
max_connections = 1001
max_outgoing_packet_count = 200

[v4.1]
name = "mqtt-v4-server"
listen = "127.0.0.1:31883"
next_connection_delay_ms = 1

[v4.1.connections]
connection_timeout_ms = 60000
max_client_id_len = 256
max_payload_size = 268435455
max_inflight_count = 500
dynamic_filters = true

[v5.1]
name = "mqtt-tcp-server"
listen = "127.0.0.1:31884"
next_connection_delay_ms = 1

[v5.1.connections]
connection_timeout_ms = 60000
max_client_id_len = 256
max_payload_size = 268435455
max_inflight_count = 500
max_inflight_size = 1024
dynamic_filters = true

[ws.1]
name = "mqtt-ws-server"
listen = "127.0.0.1:38286"
next_connection_delay_ms = 1

[ws.1.connections]
connection_timeout_ms = 60000
max_client_id_len = 256
throttle_delay_ms = 0
max_payload_size = 268435455
max_inflight_count = 500
max_inflight_size = 1024
"#;

#[test]
fn broker_config_text_is_the_fixed_configuration() {
    assert_eq!(broker_config_text(), EXPECTED_CONFIG);
    assert!(EXPECTED_CONFIG.starts_with(CONFIG_HEAD));
}

#[test]
fn broker_config_text_gives_the_address_of_every_listener() {
    let text = broker_config_text();
    for listener in broker_listeners() {
        let line = format!("listen = \"{}:{}\"\n", LISTEN_HOST, listener.port);
        assert_eq!(text.matches(&line).count(), 1, "{}", line);
        let mut built = String::new();
        push_listen_line(&mut built, &listener);
        assert_eq!(built, line);
    }
}

#[test]
fn section_of_a_listener_names_its_table_and_its_server() {
    assert_eq!((key_of(Transport::V4), name_of(Transport::V4)), ("v4.1", "mqtt-v4-server"));
    assert_eq!((key_of(Transport::V5), name_of(Transport::V5)), ("v5.1", "mqtt-tcp-server"));
    assert_eq!(
        (key_of(Transport::WebSocket), name_of(Transport::WebSocket)),
        ("ws.1", "mqtt-ws-server")
    );
    let mut text = String::from("# ");
    push_section(&mut text, &Listener { transport: Transport::V4, port: 1883 });
    let opening = "# \n[v4.1]\nname = \"mqtt-v4-server\"\nlisten = \"127.0.0.1:1883\"\n";
    assert!(text.starts_with(opening));
    assert!(text.ends_with("max_inflight_count = 500\ndynamic_filters = true\n"));
}
