use esp32_ble_proxy::json::{object_lookup, JsonNumber, JsonValue};
use esp32_ble_proxy::rpc::{
    add, error_event, get_info, get_uuid, notify_event, on_ble_scan_result, read_param, respond,
    sub, Event, HeapInfo, MyBLEAdvertisedDevice, MyBLEServiceData, RpcResponse,
};

fn params(items: Vec<(&str, JsonValue)>) -> Vec<(String, JsonValue)> {
    items.into_iter().map(|(k, v)| (k.to_string(), v)).collect()
}

fn num(v: i64) -> JsonValue {
    JsonValue::Number(JsonNumber::from_i64(v))
}

#[test]
fn add_sums_two_integers() {
    let p = params(vec![("a", num(2)), ("b", num(3))]);
    assert_eq!(add(&p), Ok(JsonValue::Number(JsonNumber::PosInt(5))));
}

#[test]
fn add_gives_negative_number() {
    let p = params(vec![("b", num(-4)), ("a", num(1))]);
    assert_eq!(add(&p), Ok(JsonValue::Number(JsonNumber::NegInt(-3))));
}

#[test]
fn add_reports_missing_a_first() {
    let p = params(vec![]);
    assert_eq!(add(&p), Err("Parameter 'a' is missing or not an integer".to_string()));
}

#[test]
fn add_reports_b_that_is_not_an_integer() {
    let p = params(vec![("a", num(1)), ("b", JsonValue::String("2".to_string()))]);
    assert_eq!(add(&p), Err("Parameter 'b' is missing or not an integer".to_string()));
}

#[test]
fn add_refuses_fractional_and_huge_numbers() {
    let p = params(vec![("a", JsonValue::Number(JsonNumber::Float)), ("b", num(1))]);
    assert_eq!(add(&p), Err("Parameter 'a' is missing or not an integer".to_string()));
    let p = params(vec![("a", JsonValue::Number(JsonNumber::PosInt(u64::MAX))), ("b", num(1))]);
    assert_eq!(add(&p), Err("Parameter 'a' is missing or not an integer".to_string()));
}

#[test]
fn sub_subtracts_b_from_a() {
    let p = params(vec![("a", num(10)), ("b", num(25))]);
    assert_eq!(sub(&p), Ok(JsonValue::Number(JsonNumber::NegInt(-15))));
    let p = params(vec![("a", num(i64::MIN)), ("b", num(-1))]);
    assert_eq!(sub(&p), Ok(JsonValue::Number(JsonNumber::NegInt(i64::MIN + 1))));
}

#[test]
fn sub_reports_missing_b() {
    let p = params(vec![("a", num(10))]);
    assert_eq!(sub(&p), Err("Parameter 'b' is missing or not an integer".to_string()));
}

#[test]
fn get_uuid_answers_the_identity() {
    let id = "550e8400-e29b-41d4-a716-446655440000".to_string();
    assert_eq!(get_uuid(&id), Ok(JsonValue::String(id.clone())));
}

#[test]
fn get_info_names_the_three_heap_figures() {
    let heap = HeapInfo { heap_caps_free_size: 100, minimum_free_heap_size: 50, free_heap_size: 75 };
    let expected = JsonValue::Object(params(vec![
        ("heap_caps_get_free_size", JsonValue::Number(JsonNumber::PosInt(100))),
        ("esp_get_minimum_free_heap_size", JsonValue::Number(JsonNumber::PosInt(50))),
        ("esp_get_free_heap_size", JsonValue::Number(JsonNumber::PosInt(75))),
    ]));
    assert_eq!(get_info(&heap), Ok(expected));
}

#[test]
fn read_param_takes_strings_only() {
    let p = params(vec![("address", JsonValue::String("aa:bb".to_string())), ("n", num(1))]);
    assert_eq!(read_param(&p, "address"), Ok("aa:bb".to_string()));
    assert_eq!(read_param(&p, "n"), Err("Parameter 'n' is missing or not a string".to_string()));
    assert_eq!(
        read_param(&p, "value"),
        Err("Parameter 'value' is missing or not a string".to_string())
    );
}

#[test]
fn lookup_takes_the_last_member_of_a_name() {
    let p = params(vec![("a", num(1)), ("a", num(2))]);
    assert_eq!(object_lookup(&p, "a"), Some(&num(2)));
    assert_eq!(object_lookup(&p, "b"), None);
}

#[test]
fn defaults_are_empty_messages() {
    let r = RpcResponse::default();
    assert_eq!(r, RpcResponse { id: 0, packet_type: "response".to_string(), error: None, result: None });
    let e: Event<JsonValue> = Event::default();
    assert_eq!(e, Event { name: String::new(), packet_type: "event".to_string(), data: None });
    let e: Event<String> = Event::default();
    assert_eq!(e, Event { name: String::new(), packet_type: "event".to_string(), data: None });
}

#[test]
fn respond_sets_exactly_one_of_error_and_result() {
    let r = respond(7, Ok(JsonValue::String("OK".to_string())));
    assert_eq!(r.id, 7);
    assert_eq!(r.error, None);
    assert_eq!(r.result, Some(JsonValue::String("OK".to_string())));
    let r = respond(8, Err("bad".to_string()));
    assert_eq!(r.error, Some("bad".to_string()));
    assert_eq!(r.result, None);
    assert_eq!(r.packet_type, "response");
}

#[test]
fn scan_result_event_carries_the_device() {
    let device = MyBLEAdvertisedDevice {
        name: "thermo".to_string(),
        address: "aa:bb:cc:dd:ee:ff".to_string(),
        rssi: -60,
        adv_type: "Undirected".to_string(),
        adv_flags: String::new(),
        raw_data: vec![1, 2, 3],
        service_uuids: vec!["0x180f".to_string()],
        service_data_list: vec![MyBLEServiceData { uuid: "0x180f".to_string(), data: vec![99] }],
        manufacture_data: None,
    };
    let e = on_ble_scan_result(device.clone());
    assert_eq!(e.name, "ble_scan_result");
    assert_eq!(e.packet_type, "event");
    assert_eq!(e.data, Some(device));
}

#[test]
fn error_event_carries_the_message() {
    let e = error_event("boom".to_string());
    assert_eq!(e.name, "error");
    assert_eq!(e.packet_type, "event");
    assert_eq!(e.data, Some(JsonValue::String("boom".to_string())));
}

#[test]
fn notify_event_encodes_the_data_in_lowercase_hex() {
    let e = notify_event(&"addr".to_string(), &"svc".to_string(), &"chr".to_string(), &[0x00, 0xAB, 0x7f]);
    assert_eq!(e.name, "ble_notify");
    let n = e.data.unwrap();
    assert_eq!(n.address, "addr");
    assert_eq!(n.service_uuid, "svc");
    assert_eq!(n.characteristic_uuid, "chr");
    assert_eq!(n.data, "00ab7f");
}
