use vstd::prelude::*;
use crate::json::{
    JsonNumber, JsonValue, JsonView, entries_view, int_member, int_member_of, str_member,
    str_member_of, lemma_entries_view,
};
use crate::hex::{hex_encode, hex_encoding};

verus! {

/// The `packet_type` of every answer to a request.
pub const PACKET_TYPE_RESPONSE: &'static str = "response";

/// The `packet_type` of every message the device sends on its own.
pub const PACKET_TYPE_EVENT: &'static str = "event";

/// A request as it arrives: its id, the method to run and the method's
/// named parameters (the members of a JSON object).
#[derive(Debug, PartialEq)]
pub struct RpcRequest {
    pub id: u64,
    pub method: String,
    pub params: Vec<(String, JsonValue)>,
}

/// The answer to a request: either `error` or `result` is set.
#[derive(Debug, PartialEq)]
pub struct RpcResponse {
    pub id: u64,
    pub packet_type: String,
    pub error: Option<String>,
    pub result: Option<JsonValue>,
}

/// A message the device sends without being asked, such as a scan result.
#[derive(Clone, Debug, PartialEq)]
pub struct Event<T> {
    pub name: String,
    pub packet_type: String,
    pub data: Option<T>,
}

/// One entry of the service data a BLE device advertises.
#[derive(Clone, Debug, PartialEq)]
pub struct MyBLEServiceData {
    pub uuid: String,
    pub data: Vec<u8>,
}

/// What a BLE scan reports of one device.
#[derive(Clone, Debug, PartialEq)]
pub struct MyBLEAdvertisedDevice {
    pub name: String,
    pub address: String,
    pub rssi: i32,
    pub adv_type: String,
    pub adv_flags: String,
    pub raw_data: Vec<u8>,
    pub service_uuids: Vec<String>,
    pub service_data_list: Vec<MyBLEServiceData>,
    pub manufacture_data: Option<Vec<u8>>,
}

/// A notification from a subscribed characteristic; `data` is the
/// lowercase hexadecimal text of the notified bytes.
#[derive(Clone, Debug, PartialEq)]
pub struct BLENotifyEvent {
    pub address: String,
    pub service_uuid: String,
    pub characteristic_uuid: String,
    pub data: String,
}

/// The heap figures that `get_info` reports.
#[derive(Clone, Copy, Debug, PartialEq, Eq, Structural)]
pub struct HeapInfo {
    pub heap_caps_free_size: u64,
    pub minimum_free_heap_size: u64,
    pub free_heap_size: u64,
}

/// The JSON number of the integer `v` (`Number::from` of an `i64`).
pub open spec fn int_number(v: i64) -> JsonNumber {
    if v < 0 {
        JsonNumber::NegInt(v)
    } else {
        JsonNumber::PosInt(v as u64)
    }
}

/// An answer with the given id: a result, or an error message.
pub open spec fn is_response(
    resp: RpcResponse,
    id: u64,
    outcome: Result<JsonView, Seq<char>>,
) -> bool {
    &&& resp.id == id
    &&& resp.packet_type@ == PACKET_TYPE_RESPONSE@
    &&& match outcome {
        Ok(v) => resp.error is None && (resp.result matches Some(x) && x@ == v),
        Err(m) => (resp.error matches Some(e) && e@ == m) && resp.result is None,
    }
}

/// The view of a method's outcome.
pub open spec fn outcome_view(r: Result<JsonValue, String>) -> Result<JsonView, Seq<char>> {
    match r {
        Ok(v) => Ok(v@),
        Err(e) => Err(e@),
    }
}

impl Default for RpcResponse {
    fn default() -> (r: RpcResponse)
        ensures
            r.id == 0,
            r.packet_type@ == PACKET_TYPE_RESPONSE@,
            r.error is None,
            r.result is None,
    {
        RpcResponse {
            id: 0,
            packet_type: PACKET_TYPE_RESPONSE.to_owned(),
            error: None,
            result: None,
        }
    }
}

impl Default for Event<JsonValue> {
    fn default() -> (r: Event<JsonValue>)
        ensures
            r.name@ == Seq::<char>::empty(),
            r.packet_type@ == PACKET_TYPE_EVENT@,
            r.data is None,
    {
        Event { name: String::new(), packet_type: PACKET_TYPE_EVENT.to_owned(), data: None }
    }
}

impl Default for Event<String> {
    fn default() -> (r: Event<String>)
        ensures
            r.name@ == Seq::<char>::empty(),
            r.packet_type@ == PACKET_TYPE_EVENT@,
            r.data is None,
    {
        Event { name: String::new(), packet_type: PACKET_TYPE_EVENT.to_owned(), data: None }
    }
}

/// The answer with the given id to a method that ended with `outcome`.
pub fn respond(id: u64, outcome: Result<JsonValue, String>) -> (r: RpcResponse)
    ensures
        is_response(r, id, outcome_view(outcome)),
{
    match outcome {
        Ok(v) => RpcResponse {
            id,
            packet_type: PACKET_TYPE_RESPONSE.to_owned(),
            error: None,
            result: Some(v),
        },
        Err(e) => RpcResponse {
            id,
            packet_type: PACKET_TYPE_RESPONSE.to_owned(),
            error: Some(e),
            result: None,
        },
    }
}

/// The message for a parameter that is absent or not an integer.
pub open spec fn not_an_integer(name: Seq<char>) -> Seq<char> {
    "Parameter '"@ + name + "' is missing or not an integer"@
}

/// The message for a parameter that is absent or not a string.
pub open spec fn not_a_string(name: Seq<char>) -> Seq<char> {
    "Parameter '"@ + name + "' is missing or not a string"@
}

/// Where both integer parameters `a` and `b` are present, `combine` of them
/// fits in an `i64`; a request with `a` or `b` missing or not an integer
/// always qualifies (it is answered with an error).
pub open spec fn operands_fit(
    params: Seq<(Seq<char>, JsonView)>,
    combine: spec_fn(int, int) -> int,
) -> bool {
    match (int_member(params, "a"@), int_member(params, "b"@)) {
        (Some(a), Some(b)) => i64::MIN <= combine(a as int, b as int) <= i64::MAX,
        _ => true,
    }
}

/// The outcome of an arithmetic method on the integer parameters `a` and `b`.
pub open spec fn arith_outcome(
    params: Seq<(Seq<char>, JsonView)>,
    combine: spec_fn(int, int) -> int,
) -> Result<JsonView, Seq<char>> {
    match int_member(params, "a"@) {
        None => Err(not_an_integer("a"@)),
        Some(a) => match int_member(params, "b"@) {
            None => Err(not_an_integer("b"@)),
            Some(b) => Ok(JsonView::Number(int_number(combine(a as int, b as int) as i64))),
        },
    }
}

pub open spec fn plus() -> spec_fn(int, int) -> int {
    |a: int, b: int| a + b
}

pub open spec fn minus() -> spec_fn(int, int) -> int {
    |a: int, b: int| a - b
}

/// The integer parameter `name`, or the message that it is missing.
fn int_param(params: &Vec<(String, JsonValue)>, name: &str) -> (r: Result<i64, String>)
    ensures
        match r {
            Ok(v) => int_member(entries_view(params@), name@) == Some(v),
            Err(e) => int_member(entries_view(params@), name@) is None && e@ == not_an_integer(
                name@,
            ),
        },
{
    match int_member_of(params, name) {
        Some(v) => Ok(v),
        None => {
            let mut e = String::new();
            e.append("Parameter '");
            e.append(name);
            e.append("' is missing or not an integer");
            Err(e)
        },
    }
}

/// The `add` method: the sum of the integer parameters `a` and `b`.
pub fn add(params: &Vec<(String, JsonValue)>) -> (r: Result<JsonValue, String>)
    requires
        operands_fit(entries_view(params@), plus()),
    ensures
        outcome_view(r) == arith_outcome(entries_view(params@), plus()),
{
    let a = match int_param(params, "a") {
        Ok(v) => v,
        Err(e) => return Err(e),
    };
    let b = match int_param(params, "b") {
        Ok(v) => v,
        Err(e) => return Err(e),
    };
    Ok(JsonValue::Number(JsonNumber::from_i64(a + b)))
}

/// The `sub` method: the integer parameter `a` minus the integer parameter `b`.
pub fn sub(params: &Vec<(String, JsonValue)>) -> (r: Result<JsonValue, String>)
    requires
        operands_fit(entries_view(params@), minus()),
    ensures
        outcome_view(r) == arith_outcome(entries_view(params@), minus()),
{
    let a = match int_param(params, "a") {
        Ok(v) => v,
        Err(e) => return Err(e),
    };
    let b = match int_param(params, "b") {
        Ok(v) => v,
        Err(e) => return Err(e),
    };
    Ok(JsonValue::Number(JsonNumber::from_i64(a - b)))
}

/// The `get_uuid` method: the device's identity as text.
pub fn get_uuid(device_uuid: &String) -> (r: Result<JsonValue, String>)
    ensures
        outcome_view(r) == Ok::<JsonView, Seq<char>>(JsonView::Str(device_uuid@)),
{
    Ok(JsonValue::String(device_uuid.clone()))
}

/// The object that the `get_info` method answers with.
pub open spec fn info_view(heap: HeapInfo) -> JsonView {
    JsonView::Object(
        seq![
            ("heap_caps_get_free_size"@, JsonView::Number(JsonNumber::PosInt(heap.heap_caps_free_size))),
            ("esp_get_minimum_free_heap_size"@, JsonView::Number(JsonNumber::PosInt(heap.minimum_free_heap_size))),
            ("esp_get_free_heap_size"@, JsonView::Number(JsonNumber::PosInt(heap.free_heap_size))),
        ],
    )
}

/// The `get_info` method: the heap figures, by name.
pub fn get_info(heap: &HeapInfo) -> (r: Result<JsonValue, String>)
    ensures
        outcome_view(r) == Ok::<JsonView, Seq<char>>(info_view(*heap)),
{
    let mut members: Vec<(String, JsonValue)> = Vec::new();
    members.push(
        (
            "heap_caps_get_free_size".to_owned(),
            JsonValue::Number(JsonNumber::PosInt(heap.heap_caps_free_size)),
        ),
    );
    members.push(
        (
            "esp_get_minimum_free_heap_size".to_owned(),
            JsonValue::Number(JsonNumber::PosInt(heap.minimum_free_heap_size)),
        ),
    );
    members.push(
        (
            "esp_get_free_heap_size".to_owned(),
            JsonValue::Number(JsonNumber::PosInt(heap.free_heap_size)),
        ),
    );
    let r = JsonValue::Object(members);
    proof {
        lemma_entries_view(members@, members@.len());
        assert(entries_view(members@) =~= seq![
            ("heap_caps_get_free_size"@, JsonView::Number(JsonNumber::PosInt(heap.heap_caps_free_size))),
            ("esp_get_minimum_free_heap_size"@, JsonView::Number(JsonNumber::PosInt(heap.minimum_free_heap_size))),
            ("esp_get_free_heap_size"@, JsonView::Number(JsonNumber::PosInt(heap.free_heap_size))),
        ]);
    }
    Ok(r)
}

/// The string parameter `name`, or the message that it is missing.
pub fn read_param(params: &Vec<(String, JsonValue)>, name: &str) -> (r: Result<String, String>)
    ensures
        match r {
            Ok(v) => str_member(entries_view(params@), name@) == Some(v@),
            Err(e) => str_member(entries_view(params@), name@) is None && e@ == not_a_string(
                name@,
            ),
        },
{
    match str_member_of(params, name) {
        Some(v) => Ok(v),
        None => {
            let mut e = String::new();
            e.append("Parameter '");
            e.append(name);
            e.append("' is missing or not a string");
            Err(e)
        },
    }
}

/// The event that reports one device found by a scan.
pub fn on_ble_scan_result(device: MyBLEAdvertisedDevice) -> (r: Event<MyBLEAdvertisedDevice>)
    ensures
        r.name@ == "ble_scan_result"@,
        r.packet_type@ == PACKET_TYPE_EVENT@,
        r.data == Some(device),
{
    Event {
        name: "ble_scan_result".to_owned(),
        packet_type: PACKET_TYPE_EVENT.to_owned(),
        data: Some(device),
    }
}

/// The event that reports a failure while scan results are relayed.
pub fn error_event(message: String) -> (r: Event<JsonValue>)
    ensures
        r.name@ == "error"@,
        r.packet_type@ == PACKET_TYPE_EVENT@,
        r.data matches Some(d) && d@ == JsonView::Str(message@),
{
    Event {
        name: "error".to_owned(),
        packet_type: PACKET_TYPE_EVENT.to_owned(),
        data: Some(JsonValue::String(message)),
    }
}

/// The event that relays a notification of a subscribed characteristic.
pub fn notify_event(
    address: &String,
    service_uuid: &String,
    characteristic_uuid: &String,
    data: &[u8],
) -> (r: Event<BLENotifyEvent>)
    ensures
        r.name@ == "ble_notify"@,
        r.packet_type@ == PACKET_TYPE_EVENT@,
        r.data matches Some(n) && n.address@ == address@ && n.service_uuid@ == service_uuid@
            && n.characteristic_uuid@ == characteristic_uuid@ && n.data@ == hex_encoding(data@),
{
    let n = BLENotifyEvent {
        address: address.clone(),
        service_uuid: service_uuid.clone(),
        characteristic_uuid: characteristic_uuid.clone(),
        data: hex_encode(data),
    };
    Event { name: "ble_notify".to_owned(), packet_type: PACKET_TYPE_EVENT.to_owned(), data: Some(n) }
}

} // verus!
