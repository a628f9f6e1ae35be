use vstd::prelude::*;
use vstd::utf8::encode_utf8;
use crate::json::{JsonNumber, JsonView, int_member, object_get, str_member, is_last_key};
use crate::hex::{hex_encoding, lemma_hex_roundtrip};
use crate::rpc::{HeapInfo, PACKET_TYPE_RESPONSE, info_view};
use crate::session::{
    ActionView, CallView, CommandView, EventView, RequestView, ResponseView, ScanSettings, Stage,
    handle_rpc_spec, resume_spec, FIND_DEVICE_TIMEOUT_MS,
};

verus! {

/// The eight method names are told apart.
pub proof fn lemma_method_names_distinct()
    ensures
        "add"@ != "sub"@,
        "add"@.len() == 3 && "sub"@.len() == 3,
        "get_uuid"@ != "get_info"@,
        "get_uuid"@.len() == 8 && "get_info"@.len() == 8,
        "bluetooth_start_scan"@.len() == 20,
        "ble_read_characteristic"@.len() == 23,
        "ble_write_characteristic"@.len() == 24,
        "ble_subscribe_characteristic"@.len() == 28,
{
    reveal_strlit("add");
    reveal_strlit("sub");
    reveal_strlit("get_uuid");
    reveal_strlit("get_info");
    reveal_strlit("bluetooth_start_scan");
    reveal_strlit("ble_read_characteristic");
    reveal_strlit("ble_write_characteristic");
    reveal_strlit("ble_subscribe_characteristic");
    assert("add"@[0] != "sub"@[0]);
    assert("get_uuid"@[4] != "get_info"@[4]);
}

/// The response with the given id whose result is `v`.
pub open spec fn result_response(id: u64, v: JsonView) -> ActionView {
    ActionView::Respond(
        ResponseView { id, packet_type: PACKET_TYPE_RESPONSE@, error: None, result: Some(v) },
    )
}

/// A `sub` request with integer parameters `a` and `b` is answered with the
/// number `a - b`, under the request's id.
pub proof fn law_sub_answers_difference(req: RequestView, uuid: Seq<char>, a: i64, b: i64)
    requires
        req.method == "sub"@,
        int_member(req.params, "a"@) == Some(a),
        int_member(req.params, "b"@) == Some(b),
        i64::MIN <= a - b <= i64::MAX,
    ensures
        handle_rpc_spec(Ok(req), uuid).1 == result_response(
            req.id,
            JsonView::Number(
                if a - b < 0 {
                    JsonNumber::NegInt((a - b) as i64)
                } else {
                    JsonNumber::PosInt((a - b) as u64)
                },
            ),
        ),
        number_value(handle_rpc_spec(Ok(req), uuid).1) == Some(a - b),
{
    lemma_method_names_distinct();
}

/// An `add` request with integer parameters `a` and `b` is answered with the
/// number `a + b`, under the request's id.
pub proof fn law_add_answers_sum(req: RequestView, uuid: Seq<char>, a: i64, b: i64)
    requires
        req.method == "add"@,
        int_member(req.params, "a"@) == Some(a),
        int_member(req.params, "b"@) == Some(b),
        i64::MIN <= a + b <= i64::MAX,
    ensures
        number_value(handle_rpc_spec(Ok(req), uuid).1) == Some(a + b),
        handle_rpc_spec(Ok(req), uuid).1 is Respond,
{
    lemma_method_names_distinct();
}

/// The integer that an answer carries as its result, if it carries one.
pub open spec fn number_value(a: ActionView) -> Option<int> {
    match a {
        ActionView::Respond(r) => match r.result {
            Some(JsonView::Number(JsonNumber::PosInt(u))) => if r.error is None {
                Some(u as int)
            } else {
                None
            },
            Some(JsonView::Number(JsonNumber::NegInt(i))) => if r.error is None && i < 0 {
                Some(i as int)
            } else {
                None
            },
            _ => None,
        },
        _ => None,
    }
}

/// Every answer to a request carries that request's id, and so does the call
/// that serves it; text that is no request is answered with id 0.
pub proof fn law_answer_carries_request_id(parsed: Result<RequestView, Seq<char>>, uuid: Seq<char>)
    ensures
        handle_rpc_spec(parsed, uuid).0.id == (match parsed {
            Ok(req) => req.id,
            Err(_) => 0u64,
        }),
        handle_rpc_spec(parsed, uuid).1 matches ActionView::Respond(r) ==> r.id == (match parsed {
            Ok(req) => req.id,
            Err(_) => 0u64,
        }),
{
}

/// Serving a request never changes its id, and every answer on the way
/// carries it.
pub proof fn law_resume_keeps_id(c: CallView, e: EventView)
    ensures
        resume_spec(c, e).0.id == c.id,
        resume_spec(c, e).1 matches ActionView::Respond(r) ==> r.id == c.id,
{
}

/// The three walks of a characteristic request up to the device search.
pub open spec fn after_parsing(c: CallView, n1: Seq<char>, n2: Seq<char>) -> (CallView, ActionView) {
    resume_spec(resume_spec(c, EventView::UuidParsed(n1)).0, EventView::UuidParsed(n2))
}

/// A characteristic request searches for the device by exactly the address
/// text the request gave, whatever that text is, once both UUIDs parse.
pub proof fn law_search_uses_given_address(
    req: RequestView,
    uuid: Seq<char>,
    address: Seq<char>,
    n1: Seq<char>,
    n2: Seq<char>,
)
    requires
        req.method == "ble_read_characteristic"@ || req.method == "ble_write_characteristic"@
            || req.method == "ble_subscribe_characteristic"@,
        str_member(req.params, "address"@) == Some(address),
        str_member(req.params, "service_uuid"@) is Some,
        str_member(req.params, "characteristic_uuid"@) is Some,
        req.method == "ble_write_characteristic"@ ==> str_member(req.params, "value"@) is Some,
    ensures
        after_parsing(handle_rpc_spec(Ok(req), uuid).0, n1, n2).1 == (ActionView::FindDevice {
            address,
            settings: ScanSettings { active: true, interval: 100, window: 99 },
            timeout_ms: 5000,
        }),
{
    lemma_method_names_distinct();
}

/// A write request whose `value` parameter is `v` writes the bytes that `v`
/// encodes in hexadecimal, the whole of `v`: once the UUIDs parse, the device
/// is found, connected, and the service and characteristic are there, the
/// write carries exactly the decoded bytes.  In particular a value that is
/// the hexadecimal text of some bytes writes those bytes.
pub proof fn law_write_sends_whole_value(
    req: RequestView,
    uuid: Seq<char>,
    data: Seq<u8>,
    n1: Seq<char>,
    n2: Seq<char>,
)
    requires
        req.method == "ble_write_characteristic"@,
        str_member(req.params, "address"@) is Some,
        str_member(req.params, "service_uuid"@) is Some,
        str_member(req.params, "characteristic_uuid"@) is Some,
        str_member(req.params, "value"@) == Some(hex_encoding(data)),
    ensures
        handle_rpc_spec(Ok(req), uuid).0.command == CommandView::Write(hex_encoding(data)),
        ({
            let c2 = after_parsing(handle_rpc_spec(Ok(req), uuid).0, n1, n2).0;
            let c3 = resume_spec(c2, EventView::DeviceFound).0;
            let c4 = resume_spec(c3, EventView::Done).0;
            let c5 = resume_spec(c4, EventView::Done).0;
            resume_spec(c5, EventView::Done).1 == (ActionView::WriteValue {
                data,
                with_response: true,
            })
        }),
{
    lemma_method_names_distinct();
    lemma_hex_roundtrip(data);
}

/// A write request keeps its whole `value` parameter as the text to decode.
pub proof fn law_write_keeps_value(req: RequestView, uuid: Seq<char>, v: Seq<char>)
    requires
        req.method == "ble_write_characteristic"@,
        str_member(req.params, "address"@) is Some,
        str_member(req.params, "service_uuid"@) is Some,
        str_member(req.params, "characteristic_uuid"@) is Some,
        str_member(req.params, "value"@) == Some(v),
    ensures
        handle_rpc_spec(Ok(req), uuid).0.command == CommandView::Write(v),
{
    lemma_method_names_distinct();
}

/// Each member of the `get_info` answer carries, unchanged, the heap figure
/// it names.
pub proof fn law_info_reports_figures(heap: HeapInfo)
    ensures
        info_view(heap) matches JsonView::Object(m) && object_get(m, "heap_caps_get_free_size"@)
            == Some(JsonView::Number(JsonNumber::PosInt(heap.heap_caps_free_size))),
        info_view(heap) matches JsonView::Object(m) && object_get(
            m,
            "esp_get_minimum_free_heap_size"@,
        ) == Some(JsonView::Number(JsonNumber::PosInt(heap.minimum_free_heap_size))),
        info_view(heap) matches JsonView::Object(m) && object_get(m, "esp_get_free_heap_size"@)
            == Some(JsonView::Number(JsonNumber::PosInt(heap.free_heap_size))),
{
    reveal_strlit("heap_caps_get_free_size");
    reveal_strlit("esp_get_minimum_free_heap_size");
    reveal_strlit("esp_get_free_heap_size");
    let m = match info_view(heap) {
        JsonView::Object(m) => m,
        _ => Seq::empty(),
    };
    let k0 = "heap_caps_get_free_size"@;
    let k1 = "esp_get_minimum_free_heap_size"@;
    let k2 = "esp_get_free_heap_size"@;
    assert(k0.len() == 23 && k1.len() == 30 && k2.len() == 22);
    assert(is_last_key(m, k0, 0));
    assert(is_last_key(m, k1, 1));
    assert(is_last_key(m, k2, 2));
    assert forall|i: int| is_last_key(m, k0, i) implies i == 0 by {}
    assert forall|i: int| is_last_key(m, k1, i) implies i == 1 by {}
    assert forall|i: int| is_last_key(m, k2, i) implies i == 2 by {}
}

/// A `get_info` request reads the heap and answers with those figures.
pub proof fn law_get_info_answers_heap(req: RequestView, uuid: Seq<char>, heap: HeapInfo)
    requires
        req.method == "get_info"@,
    ensures
        handle_rpc_spec(Ok(req), uuid).1 is ReadHeapInfo,
        resume_spec(handle_rpc_spec(Ok(req), uuid).0, EventView::HeapRead(heap)).1
            == result_response(req.id, info_view(heap)),
{
    lemma_method_names_distinct();
}

} // verus!
verus! {

/// The walk of a characteristic request from its start through both UUIDs,
/// the device search, the connection and the service and characteristic
/// lookups, each succeeding.
pub open spec fn up_to_characteristic(
    c: CallView,
    n1: Seq<char>,
    n2: Seq<char>,
) -> (CallView, ActionView) {
    let c2 = after_parsing(c, n1, n2).0;
    let c3 = resume_spec(c2, EventView::DeviceFound).0;
    let c4 = resume_spec(c3, EventView::Done).0;
    let c5 = resume_spec(c4, EventView::Done).0;
    resume_spec(c5, EventView::Done)
}

/// A read request, once the characteristic is reached, reads it and answers
/// with the lowercase hexadecimal text of exactly the bytes read, under the
/// request's id.
pub proof fn law_read_answers_value(
    req: RequestView,
    uuid: Seq<char>,
    data: Seq<u8>,
    n1: Seq<char>,
    n2: Seq<char>,
)
    requires
        req.method == "ble_read_characteristic"@,
        str_member(req.params, "address"@) is Some,
        str_member(req.params, "service_uuid"@) is Some,
        str_member(req.params, "characteristic_uuid"@) is Some,
    ensures
        up_to_characteristic(handle_rpc_spec(Ok(req), uuid).0, n1, n2).1 is ReadValue,
        resume_spec(
            up_to_characteristic(handle_rpc_spec(Ok(req), uuid).0, n1, n2).0,
            EventView::ValueRead(data),
        ).1 == result_response(req.id, JsonView::Str(hex_encoding(data))),
        hex_encoding(data).len() == 2 * data.len(),
{
    lemma_method_names_distinct();
}

/// A subscription request parses the characteristic's UUID first and the
/// service's second, and subscribes naming the given address, the service as
/// parsed and the characteristic as parsed; it is acknowledged with "OK".
pub proof fn law_subscribe_names_target(
    req: RequestView,
    uuid: Seq<char>,
    address: Seq<char>,
    service: Seq<char>,
    characteristic: Seq<char>,
    n1: Seq<char>,
    n2: Seq<char>,
)
    requires
        req.method == "ble_subscribe_characteristic"@,
        str_member(req.params, "address"@) == Some(address),
        str_member(req.params, "service_uuid"@) == Some(service),
        str_member(req.params, "characteristic_uuid"@) == Some(characteristic),
    ensures
        handle_rpc_spec(Ok(req), uuid).1 == ActionView::ParseUuid(characteristic),
        resume_spec(handle_rpc_spec(Ok(req), uuid).0, EventView::UuidParsed(n1)).1
            == ActionView::ParseUuid(service),
        up_to_characteristic(handle_rpc_spec(Ok(req), uuid).0, n1, n2).1 is CheckNotify,
        ({
            let c6 = up_to_characteristic(handle_rpc_spec(Ok(req), uuid).0, n1, n2).0;
            let s = resume_spec(c6, EventView::NotifySupport(true));
            &&& s.1 == (ActionView::Subscribe {
                address,
                service_uuid: n2,
                characteristic_uuid: n1,
            })
            &&& resume_spec(s.0, EventView::Done).1 == result_response(req.id, JsonView::Str("OK"@))
        }),
{
    lemma_method_names_distinct();
}

/// `get_uuid` answers with the device's identity; `bluetooth_start_scan`
/// starts an active scan (interval 100, window 99) of ten seconds and then
/// answers "OK".
pub proof fn law_identity_and_scan(req: RequestView, uuid: Seq<char>)
    ensures
        req.method == "get_uuid"@ ==> handle_rpc_spec(Ok(req), uuid).1 == result_response(
            req.id,
            JsonView::Str(uuid),
        ),
        req.method == "bluetooth_start_scan"@ ==> {
            &&& handle_rpc_spec(Ok(req), uuid).1 == (ActionView::StartScan {
                settings: ScanSettings { active: true, interval: 100, window: 99 },
                duration_ms: 10000,
            })
            &&& resume_spec(handle_rpc_spec(Ok(req), uuid).0, EventView::ScanStarted).1
                == result_response(req.id, JsonView::Str("OK"@))
        },
{
    lemma_method_names_distinct();
}

/// A method that is none of the eight is refused with "unknown method".
pub proof fn law_unknown_method(req: RequestView, uuid: Seq<char>)
    requires
        req.method != "add"@,
        req.method != "sub"@,
        req.method != "get_uuid"@,
        req.method != "get_info"@,
        req.method != "bluetooth_start_scan"@,
        req.method != "ble_read_characteristic"@,
        req.method != "ble_write_characteristic"@,
        req.method != "ble_subscribe_characteristic"@,
    ensures
        handle_rpc_spec(Ok(req), uuid).1 == ActionView::Respond(
            (ResponseView {
                id: req.id,
                packet_type: PACKET_TYPE_RESPONSE@,
                error: Some("unknown method"@),
                result: None,
            }),
        ),
{
}

/// The error an outside failure `d` is answered with, in each stage.
pub open spec fn failure_text(stage: Stage, d: Seq<char>) -> Seq<char> {
    match stage {
        Stage::ParsingCharacteristicUuid => "failed to parse characteristic uuid: "@ + d,
        Stage::ParsingServiceUuid => "failed to parse service uuid: "@ + d,
        Stage::FindingDevice => "failed to find client: "@ + crate::text::str_debug_text(
            "failed to find device: "@ + d,
        ),
        Stage::Connecting => "failed to find client: "@ + crate::text::str_debug_text(
            "failed to connect to device: "@ + d,
        ),
        Stage::GettingService => "failed to get service: "@ + d,
        Stage::GettingCharacteristic => "failed to get characteristic: "@ + d,
        Stage::ReadingValue => "failed to read value: "@ + d,
        Stage::WritingValue => "failed to write value: "@ + d,
        _ => "failed to subscribe to notifications: "@ + d,
    }
}

/// An outside failure ends the request at once with an error that names the
/// failed step and carries the failure's own text, under the request's id.
pub proof fn law_failure_is_reported(c: CallView, d: Seq<char>)
    requires
        c.stage is ParsingCharacteristicUuid || c.stage is ParsingServiceUuid
            || c.stage is FindingDevice || c.stage is Connecting || c.stage is GettingService
            || c.stage is GettingCharacteristic || c.stage is ReadingValue
            || c.stage is WritingValue || c.stage is Subscribing,
    ensures
        resume_spec(c, EventView::Failed(d)).0.stage is Answered,
        resume_spec(c, EventView::Failed(d)).1 == ActionView::Respond(
            (ResponseView {
                id: c.id,
                packet_type: PACKET_TYPE_RESPONSE@,
                error: Some(failure_text(c.stage, d)),
                result: None,
            }),
        ),
{
}

} // verus!
