use esp32_ble_proxy::hex::HexError;
use esp32_ble_proxy::json::{JsonNumber, JsonValue};
use esp32_ble_proxy::rpc::{HeapInfo, RpcRequest, RpcResponse};
use esp32_ble_proxy::session::{
    handle_rpc, RpcAction, RpcCall, RpcEvent, ScanSettings, Stage, FIND_DEVICE_TIMEOUT_MS,
    SCAN_DURATION_MS,
};

const UUID: &str = "550e8400-e29b-41d4-a716-446655440000";

fn request(id: u64, method: &str, params: Vec<(&str, JsonValue)>) -> RpcRequest {
    RpcRequest {
        id,
        method: method.to_string(),
        params: params.into_iter().map(|(k, v)| (k.to_string(), v)).collect(),
    }
}

fn s(v: &str) -> JsonValue {
    JsonValue::String(v.to_string())
}

fn start(req: RpcRequest) -> (RpcCall, RpcAction) {
    handle_rpc(Ok(req), &UUID.to_string())
}

fn ok(id: u64, v: JsonValue) -> RpcAction {
    RpcAction::Respond(RpcResponse {
        id,
        packet_type: "response".to_string(),
        error: None,
        result: Some(v),
    })
}

fn err(id: u64, m: &str) -> RpcAction {
    RpcAction::Respond(RpcResponse {
        id,
        packet_type: "response".to_string(),
        error: Some(m.to_string()),
        result: None,
    })
}

fn step(call: RpcCall, event: RpcEvent) -> (RpcCall, RpcAction) {
    assert!(call.accepts(&event));
    call.resume(event)
}

fn char_params(extra: Vec<(&'static str, JsonValue)>) -> Vec<(&'static str, JsonValue)> {
    let mut p = vec![
        ("address", s("aa:bb:cc:dd:ee:ff")),
        ("service_uuid", s("0000180F-0000-1000-8000-00805F9B34FB")),
        ("characteristic_uuid", s("00002A19-0000-1000-8000-00805F9B34FB")),
    ];
    p.extend(extra);
    p
}

/// Walks a characteristic request up to the point where it holds the characteristic.
fn up_to_characteristic(method: &str, extra: Vec<(&'static str, JsonValue)>) -> (RpcCall, RpcAction) {
    let (call, action) = start(request(42, method, char_params(extra)));
    assert_eq!(call.stage, Stage::ParsingCharacteristicUuid);
    assert_eq!(
        action,
        RpcAction::ParseUuid { text: "00002A19-0000-1000-8000-00805F9B34FB".to_string() }
    );
    let (call, action) = step(call, RpcEvent::UuidParsed { canonical: "0x2a19".to_string() });
    assert_eq!(
        action,
        RpcAction::ParseUuid { text: "0000180F-0000-1000-8000-00805F9B34FB".to_string() }
    );
    let (call, action) = step(call, RpcEvent::UuidParsed { canonical: "0x180f".to_string() });
    assert_eq!(
        action,
        RpcAction::FindDevice {
            address: "aa:bb:cc:dd:ee:ff".to_string(),
            settings: ScanSettings { active: true, interval: 100, window: 99 },
            timeout_ms: 5000,
        }
    );
    let (call, action) = step(call, RpcEvent::DeviceFound);
    assert_eq!(action, RpcAction::Connect);
    let (call, action) = step(call, RpcEvent::Done);
    assert_eq!(action, RpcAction::GetService);
    let (call, action) = step(call, RpcEvent::Done);
    assert_eq!(action, RpcAction::GetCharacteristic);
    step(call, RpcEvent::Done)
}

#[test]
fn unparsable_request_is_answered_with_id_zero() {
    let (call, action) = handle_rpc(Err("EOF while parsing a value at line 1 column 0".to_string()), &UUID.to_string());
    assert!(call.is_answered());
    assert_eq!(action, err(0, "failed to parse request: EOF while parsing a value at line 1 column 0"));
}

#[test]
fn unknown_method_is_refused() {
    let (call, action) = start(request(5, "reboot", vec![]));
    assert!(call.is_answered());
    assert_eq!(action, err(5, "unknown method"));
}

#[test]
fn add_is_answered_at_once() {
    let (_, action) = start(request(1, "add", vec![("a", JsonValue::Number(JsonNumber::PosInt(40))), ("b", JsonValue::Number(JsonNumber::PosInt(2)))]));
    assert_eq!(action, ok(1, JsonValue::Number(JsonNumber::PosInt(42))));
    let (_, action) = start(request(2, "sub", vec![("a", JsonValue::Number(JsonNumber::PosInt(40)))]));
    assert_eq!(action, err(2, "Parameter 'b' is missing or not an integer"));
}

#[test]
fn get_uuid_answers_the_device_identity() {
    let (_, action) = start(request(3, "get_uuid", vec![]));
    assert_eq!(action, ok(3, s(UUID)));
}

#[test]
fn scan_is_started_then_acknowledged() {
    let (call, action) = start(request(9, "bluetooth_start_scan", vec![]));
    assert_eq!(
        action,
        RpcAction::StartScan {
            settings: ScanSettings { active: true, interval: 100, window: 99 },
            duration_ms: SCAN_DURATION_MS,
        }
    );
    assert_eq!(SCAN_DURATION_MS, 10000);
    assert_eq!(FIND_DEVICE_TIMEOUT_MS, 5000);
    assert!(!call.accepts(&RpcEvent::Done));
    let (call, action) = step(call, RpcEvent::ScanStarted);
    assert!(call.is_answered());
    assert_eq!(action, ok(9, s("OK")));
}

#[test]
fn get_info_reads_the_heap() {
    let (call, action) = start(request(11, "get_info", vec![]));
    assert_eq!(action, RpcAction::ReadHeapInfo);
    let heap = HeapInfo { heap_caps_free_size: 1, minimum_free_heap_size: 2, free_heap_size: 3 };
    let (_, action) = step(call, RpcEvent::HeapRead(heap));
    let expected = JsonValue::Object(vec![
        ("heap_caps_get_free_size".to_string(), JsonValue::Number(JsonNumber::PosInt(1))),
        ("esp_get_minimum_free_heap_size".to_string(), JsonValue::Number(JsonNumber::PosInt(2))),
        ("esp_get_free_heap_size".to_string(), JsonValue::Number(JsonNumber::PosInt(3))),
    ]);
    assert_eq!(action, ok(11, expected));
}

#[test]
fn read_reports_the_value_in_hex() {
    let (call, action) = up_to_characteristic("ble_read_characteristic", vec![]);
    assert_eq!(action, RpcAction::ReadValue);
    let (call, action) = step(call, RpcEvent::ValueRead { data: vec![0xde, 0xad, 0x01] });
    assert!(call.is_answered());
    assert_eq!(action, ok(42, s("dead01")));
}

#[test]
fn read_names_the_first_missing_parameter() {
    let (call, action) = start(request(4, "ble_read_characteristic", vec![("address", s("x"))]));
    assert!(call.is_answered());
    assert_eq!(action, err(4, "Parameter 'service_uuid' is missing or not a string"));
}

#[test]
fn write_decodes_mixed_case_hex() {
    let (call, action) = up_to_characteristic("ble_write_characteristic", vec![("value", s("0aFF"))]);
    assert_eq!(action, RpcAction::WriteValue { data: vec![0x0a, 0xff], with_response: true });
    let (_, action) = step(call, RpcEvent::Done);
    assert_eq!(action, ok(42, s("OK")));
}

#[test]
fn write_needs_a_value() {
    let (_, action) = start(request(6, "ble_write_characteristic", char_params(vec![])));
    assert_eq!(action, err(6, "Parameter 'value' is missing or not a string"));
}

#[test]
fn write_refuses_text_that_is_not_hex() {
    let (call, action) = up_to_characteristic("ble_write_characteristic", vec![("value", s("0g"))]);
    assert!(call.is_answered());
    assert_eq!(action, err(42, "failed to decode value: InvalidHexCharacter { c: 'g', index: 1 }"));
    let (_, action) = up_to_characteristic("ble_write_characteristic", vec![("value", s("abc"))]);
    assert_eq!(action, err(42, "failed to decode value: OddLength"));
}

#[test]
fn written_read_value_is_the_same_bytes() {
    let data = vec![0x00, 0x10, 0xfe, 0x7a];
    let (call, _) = up_to_characteristic("ble_read_characteristic", vec![]);
    let (_, action) = step(call, RpcEvent::ValueRead { data: data.clone() });
    let text = match action {
        RpcAction::Respond(RpcResponse { result: Some(JsonValue::String(t)), .. }) => t,
        other => panic!("unexpected {:?}", other),
    };
    let (_, action) = up_to_characteristic("ble_write_characteristic", vec![("value", JsonValue::String(text))]);
    assert_eq!(action, RpcAction::WriteValue { data, with_response: true });
}

#[test]
fn subscribe_names_the_parsed_uuids() {
    let (call, action) = up_to_characteristic("ble_subscribe_characteristic", vec![]);
    assert_eq!(action, RpcAction::CheckNotify);
    let (call, action) = step(call, RpcEvent::NotifySupport { supported: true });
    assert_eq!(
        action,
        RpcAction::Subscribe {
            address: "aa:bb:cc:dd:ee:ff".to_string(),
            service_uuid: "0x180f".to_string(),
            characteristic_uuid: "0x2a19".to_string(),
        }
    );
    let (_, action) = step(call, RpcEvent::Done);
    assert_eq!(action, ok(42, s("OK")));
}

#[test]
fn subscribe_needs_notifications() {
    let (call, _) = up_to_characteristic("ble_subscribe_characteristic", vec![]);
    let (_, action) = step(call, RpcEvent::NotifySupport { supported: false });
    assert_eq!(action, err(42, "characteristic does not support notifications"));
}

#[test]
fn subscribe_failure_is_reported() {
    let (call, _) = up_to_characteristic("ble_subscribe_characteristic", vec![]);
    let (call, _) = step(call, RpcEvent::NotifySupport { supported: true });
    let (_, action) = step(call, RpcEvent::Failed { debug: "BLEError(3)".to_string() });
    assert_eq!(action, err(42, "failed to subscribe to notifications: BLEError(3)"));
}

fn to_find(method: &str) -> RpcCall {
    let (call, _) = start(request(8, method, char_params(vec![])));
    let (call, _) = step(call, RpcEvent::UuidParsed { canonical: "c".to_string() });
    let (call, _) = step(call, RpcEvent::UuidParsed { canonical: "s".to_string() });
    assert_eq!(call.stage, Stage::FindingDevice);
    call
}

#[test]
fn missing_device_is_reported_through_the_client_search() {
    let (_, action) = step(to_find("ble_read_characteristic"), RpcEvent::DeviceNotFound);
    assert_eq!(action, err(8, "failed to find client: \"device not found\""));
    let (_, action) = step(to_find("ble_read_characteristic"), RpcEvent::Failed { debug: "Timeout".to_string() });
    assert_eq!(action, err(8, "failed to find client: \"failed to find device: Timeout\""));
    let (call, _) = step(to_find("ble_read_characteristic"), RpcEvent::DeviceFound);
    let (_, action) = step(call, RpcEvent::Failed { debug: "Refused".to_string() });
    assert_eq!(action, err(8, "failed to find client: \"failed to connect to device: Refused\""));
}

#[test]
fn uuid_and_lookup_failures_are_reported() {
    let (call, _) = start(request(8, "ble_read_characteristic", char_params(vec![])));
    let (_, action) = step(call, RpcEvent::Failed { debug: "InvalidUuid".to_string() });
    assert_eq!(action, err(8, "failed to parse characteristic uuid: InvalidUuid"));
    let (call, _) = start(request(8, "ble_read_characteristic", char_params(vec![])));
    let (call, _) = step(call, RpcEvent::UuidParsed { canonical: "c".to_string() });
    let (_, action) = step(call, RpcEvent::Failed { debug: "InvalidUuid".to_string() });
    assert_eq!(action, err(8, "failed to parse service uuid: InvalidUuid"));
    let (call, _) = step(to_find("ble_read_characteristic"), RpcEvent::DeviceFound);
    let (call, _) = step(call, RpcEvent::Done);
    let (_, action) = step(call, RpcEvent::Failed { debug: "NotFound".to_string() });
    assert_eq!(action, err(8, "failed to get service: NotFound"));
    let (call, _) = step(to_find("ble_read_characteristic"), RpcEvent::DeviceFound);
    let (call, _) = step(call, RpcEvent::Done);
    let (call, _) = step(call, RpcEvent::Done);
    let (_, action) = step(call, RpcEvent::Failed { debug: "NotFound".to_string() });
    assert_eq!(action, err(8, "failed to get characteristic: NotFound"));
    let (call, _) = step(to_find("ble_read_characteristic"), RpcEvent::DeviceFound);
    let (call, _) = step(call, RpcEvent::Done);
    let (call, _) = step(call, RpcEvent::Done);
    let (call, _) = step(call, RpcEvent::Done);
    let (_, action) = step(call, RpcEvent::Failed { debug: "Timeout".to_string() });
    assert_eq!(action, err(8, "failed to read value: Timeout"));
    let (call, _) = up_to_characteristic("ble_write_characteristic", vec![("value", s("00"))]);
    let (_, action) = step(call, RpcEvent::Failed { debug: "Timeout".to_string() });
    assert_eq!(action, err(42, "failed to write value: Timeout"));
}

#[test]
fn every_request_is_answered_within_nine_steps() {
    let (mut call, mut action) = up_to_characteristic("ble_subscribe_characteristic", vec![]);
    let mut steps = 6;
    while !call.is_answered() {
        let event = match action {
            RpcAction::CheckNotify => RpcEvent::NotifySupport { supported: true },
            _ => RpcEvent::Done,
        };
        let next = step(call, event);
        call = next.0;
        action = next.1;
        steps += 1;
    }
    assert!(steps <= 9);
    assert!(matches!(action, RpcAction::Respond(_)));
}

#[test]
fn hex_errors_are_written_as_their_debug_notation() {
    assert_eq!(HexError::InvalidStringLength.debug_text(), "InvalidStringLength");
    assert_eq!(HexError::OddLength.debug_text(), "OddLength");
    assert_eq!(
        HexError::InvalidHexCharacter { c: '\n', index: 12 }.debug_text(),
        "InvalidHexCharacter { c: '\\n', index: 12 }"
    );
    let (_, action) = up_to_characteristic("ble_write_characteristic", vec![("value", s("é"))]);
    assert_eq!(action, err(42, "failed to decode value: InvalidHexCharacter { c: 'Ã', index: 0 }"));
}

#[test]
fn arithmetic_without_integer_operands_is_refused() {
    let (call, action) = start(request(12, "add", vec![]));
    assert!(call.is_answered());
    assert_eq!(action, err(12, "Parameter 'a' is missing or not an integer"));
    let (_, action) = start(request(13, "add", vec![("a", JsonValue::Number(JsonNumber::Float)), ("b", JsonValue::Number(JsonNumber::PosInt(3)))]));
    assert_eq!(action, err(13, "Parameter 'a' is missing or not an integer"));
    let (_, action) = start(request(14, "sub", vec![("a", JsonValue::Number(JsonNumber::PosInt(9223372036854775808))), ("b", JsonValue::Number(JsonNumber::PosInt(1)))]));
    assert_eq!(action, err(14, "Parameter 'a' is missing or not an integer"));
    let (_, action) = start(request(15, "add", vec![("a", JsonValue::Number(JsonNumber::PosInt(9223372036854775807))), ("b", s("1"))]));
    assert_eq!(action, err(15, "Parameter 'b' is missing or not an integer"));
}
