use esp32_ble_proxy::config::{auth_method_for, wifi_client_settings, AuthMethod, Config};
use esp32_ble_proxy::identity::{fresh_identity, restore_identity, stored_uuid_len, MAX_STR_LEN};
use esp32_ble_proxy::mqtt::{
    before_connect_message, classify_incoming, classify_outgoing, client_id, init_mqtt_action,
    init_mqtt_after, queued_payload, register_event, rpc_topic, send_topic,
    serialization_failure_response, Incoming, InitAction, InitStage, MqttEvent, Outgoing, QoS,
    MQTT_TOPIC_RECEIVE,
};
use esp32_ble_proxy::text::decimal_text;
use esp32_ble_proxy::wifi::{collect_bssids, ms_until_next_mark, MonitorAction, WifiMonitor};

const UUID: &str = "550e8400-e29b-41d4-a716-446655440000";

#[test]
fn topics_and_client_id_follow_the_identity() {
    let id = UUID.to_string();
    let send = send_topic(&id);
    assert_eq!(MQTT_TOPIC_RECEIVE, "esp32-ble-proxy/devices");
    assert_eq!(send, "esp32-ble-proxy/devices/550e8400-e29b-41d4-a716-446655440000");
    assert_eq!(rpc_topic(&send), "esp32-ble-proxy/devices/550e8400-e29b-41d4-a716-446655440000/rpc");
    assert_eq!(client_id(&id), "esp32-ble-proxy-550e8400-e29b-41d4-a716-446655440000");
}

#[test]
fn register_event_names_the_device() {
    let e = register_event(&UUID.to_string());
    assert_eq!(e.name, "register");
    assert_eq!(e.packet_type, "event");
    assert_eq!(e.data, Some(UUID.to_string()));
}

#[test]
fn init_subscribes_twice_then_registers() {
    let id = UUID.to_string();
    assert_eq!(
        init_mqtt_action(InitStage::SubscribeDevices, &id),
        InitAction::Subscribe { topic: "esp32-ble-proxy/devices".to_string(), qos: QoS::AtLeastOnce }
    );
    assert_eq!(init_mqtt_after(InitStage::SubscribeDevices, false), (InitStage::SubscribeDevices, 5));
    assert_eq!(init_mqtt_after(InitStage::SubscribeDevices, true), (InitStage::SubscribeRpc, 0));
    assert_eq!(
        init_mqtt_action(InitStage::SubscribeRpc, &id),
        InitAction::Subscribe { topic: format!("esp32-ble-proxy/devices/{}/rpc", UUID), qos: QoS::ExactlyOnce }
    );
    assert_eq!(init_mqtt_after(InitStage::SubscribeRpc, false), (InitStage::SubscribeRpc, 5));
    assert_eq!(init_mqtt_after(InitStage::SubscribeRpc, true), (InitStage::Register, 0));
    match init_mqtt_action(InitStage::Register, &id) {
        InitAction::Publish { topic, qos, retain, event } => {
            assert_eq!(topic, format!("esp32-ble-proxy/devices/{}", UUID));
            assert_eq!(qos, QoS::AtLeastOnce);
            assert!(!retain);
            assert_eq!(event, register_event(&id));
        }
        other => panic!("unexpected {:?}", other),
    }
    assert_eq!(init_mqtt_after(InitStage::Register, false), (InitStage::Register, 0));
    assert_eq!(init_mqtt_after(InitStage::Register, true), (InitStage::Ready, 0));
    assert_eq!(init_mqtt_action(InitStage::Ready, &id), InitAction::Finished);
}

#[test]
fn queue_keeps_complete_messages_and_the_reconnect_marker() {
    assert_eq!(queued_payload(MqttEvent::Received { data: vec![1, 2], complete: true }), Some(vec![1, 2]));
    assert_eq!(queued_payload(MqttEvent::Received { data: vec![1, 2], complete: false }), None);
    assert_eq!(queued_payload(MqttEvent::BeforeConnect), Some(b"BeforeConnect".to_vec()));
    assert_eq!(queued_payload(MqttEvent::Other), None);
    assert_eq!(before_connect_message(), b"BeforeConnect".to_vec());
}

#[test]
fn incoming_messages_are_sorted() {
    assert_eq!(classify_incoming(&[0xff, 0xfe]), Incoming::NotText);
    assert_eq!(classify_incoming(b"BeforeConnect"), Incoming::Reconnect);
    assert_eq!(
        classify_incoming(b"{\"id\":1}"),
        Incoming::Request("{\"id\":1}".to_string())
    );
    assert_eq!(classify_incoming("héllo".as_bytes()), Incoming::Request("héllo".to_string()));
}

#[test]
fn outgoing_messages_are_published_except_the_marker() {
    let topic = "t".to_string();
    assert_eq!(classify_outgoing(b"BeforeConnect", &topic), Outgoing::Reinitialize);
    assert_eq!(
        classify_outgoing(b"BeforeConnect!", &topic),
        Outgoing::Publish { topic: "t".to_string(), qos: QoS::ExactlyOnce, retain: false }
    );
    assert_eq!(
        classify_outgoing(&[0xc3], &topic),
        Outgoing::Publish { topic: "t".to_string(), qos: QoS::ExactlyOnce, retain: false }
    );
}

#[test]
fn serialization_failure_answer_holds_a_default_response_text() {
    let r = serialization_failure_response();
    assert_eq!(r.id, 0);
    assert_eq!(r.packet_type, "response");
    assert_eq!(
        r.error,
        Some("RpcResponse { id: 0, packet_type: \"response\", error: None, result: None }".to_string())
    );
    assert_eq!(r.result, None);
}

#[test]
fn stored_length_ignores_missing_and_overlong_texts() {
    assert_eq!(MAX_STR_LEN, 128);
    assert_eq!(stored_uuid_len(None), 0);
    assert_eq!(stored_uuid_len(Some(None)), 0);
    assert_eq!(stored_uuid_len(Some(Some(37))), 37);
    assert_eq!(stored_uuid_len(Some(Some(127))), 127);
    assert_eq!(stored_uuid_len(Some(Some(128))), 0);
    assert_eq!(stored_uuid_len(Some(Some(usize::MAX))), 0);
}

#[test]
fn stored_identity_is_restored() {
    assert_eq!(restore_identity(UUID), Some((0x550e8400_e29b_41d4_a716_446655440000u128, UUID.to_string())));
    assert_eq!(restore_identity("550E8400E29B41D4A716446655440000"), Some((0x550e8400_e29b_41d4_a716_446655440000u128, UUID.to_string())));
    assert_eq!(restore_identity("not a uuid"), None);
}

#[test]
fn fresh_identity_is_a_random_uuid_that_survives_restart() {
    let (id, text) = fresh_identity();
    assert_eq!((id >> 76) & 0xf, 4);
    assert_eq!((id >> 62) & 0x3, 2);
    assert_eq!(text.len(), 36);
    assert_eq!(text, text.to_lowercase());
    let bytes = text.as_bytes();
    for i in [8, 13, 18, 23] {
        assert_eq!(bytes[i], b'-');
    }
    assert_eq!(restore_identity(&text), Some((id, text.clone())));
    let (other, _) = fresh_identity();
    assert_ne!(id, other);
}

#[test]
fn default_config_joins_the_simulator_network() {
    let c = Config::default();
    assert_eq!(c.wifi_ssid, "Wokwi-GUEST");
    assert_eq!(c.wifi_psk, "");
    assert_eq!(c.mqtt_endpoint, "mqtt://192.168.1.8:1883");
    let w = wifi_client_settings(&c);
    assert_eq!(w.ssid, "Wokwi-GUEST");
    assert_eq!(w.password, "");
    assert_eq!(w.auth_method, AuthMethod::Open);
}

#[test]
fn a_passphrase_means_wpa2() {
    assert_eq!(auth_method_for(""), AuthMethod::Open);
    assert_eq!(auth_method_for("secret"), AuthMethod::WPA2Personal);
    let c = Config { wifi_ssid: "home".to_string(), wifi_psk: "secret".to_string(), mqtt_endpoint: String::new() };
    assert_eq!(wifi_client_settings(&c).auth_method, AuthMethod::WPA2Personal);
}

#[test]
fn fresh_monitor_only_waits() {
    let mut m = WifiMonitor::new();
    for _ in 0..100 {
        let (next, action) = m.tick();
        assert_eq!(action, MonitorAction::Wait);
        assert_eq!(next.fail_count, 0);
        m = next;
    }
}

#[test]
fn failing_time_checks_lead_to_a_reconnect() {
    let m = WifiMonitor { count: 5, fail_count: 1 };
    let (m, a) = m.tick();
    assert_eq!((m.count, a), (6, MonitorAction::CheckTime));
    let m = m.time_checked(false);
    assert_eq!(m.fail_count, 2);
    let (m, a) = m.tick();
    assert_eq!((m.count, a), (7, MonitorAction::CheckTime));
    let (m, a) = m.tick();
    assert_eq!((m.count, a), (0, MonitorAction::Reconnect));
    let m = m.time_checked(true);
    assert_eq!(m.fail_count, 0);
    let (_, a) = WifiMonitor { count: 2, fail_count: 3 }.tick();
    assert_eq!(a, MonitorAction::Wait);
}

#[test]
fn scan_addresses_are_kept_in_order() {
    let scan: Vec<[u8; 6]> = (0..32u8).map(|i| [i, 1, 2, 3, 4, 5]).collect();
    let list = collect_bssids(&scan);
    assert_eq!(list.as_slice(), scan.as_slice());
    assert_eq!(collect_bssids(&Vec::new()).len(), 0);
}

#[test]
fn blinking_waits_for_the_next_five_second_mark() {
    assert_eq!(ms_until_next_mark(12_345), 2_655);
    assert_eq!(ms_until_next_mark(10_000), 5_000);
    assert_eq!(ms_until_next_mark(1_700_000_004_999), 1);
}

#[test]
fn numbers_are_written_in_decimal() {
    assert_eq!(decimal_text(0), "0");
    assert_eq!(decimal_text(7), "7");
    assert_eq!(decimal_text(1234567890), "1234567890");
    assert_eq!(decimal_text(u64::MAX), "18446744073709551615");
}

#[test]
fn init_retries_each_phase_until_it_succeeds() {
    // two failed subscriptions, one failed request subscription, three failed registrations
    let outcomes = [false, false, true, false, true, false, false, false, true];
    let mut stage = InitStage::SubscribeDevices;
    let mut waited = 0;
    let mut attempts = 0;
    for ok in outcomes {
        assert_ne!(stage, InitStage::Ready);
        let (next, wait) = init_mqtt_after(stage, ok);
        stage = next;
        waited += wait;
        attempts += 1;
    }
    assert_eq!(stage, InitStage::Ready);
    assert_eq!(attempts, 2 + 1 + 1 + 1 + 3 + 1);
    assert_eq!(waited, 5 * (2 + 1));
}
