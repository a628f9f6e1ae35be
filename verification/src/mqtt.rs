use vstd::prelude::*;
use vstd::utf8::{decode_utf8, encode_utf8, valid_utf8};
use crate::rpc::{Event, RpcResponse, PACKET_TYPE_EVENT, PACKET_TYPE_RESPONSE};

verus! {

/// The topic the device listens on, and under which it publishes.
pub const MQTT_TOPIC_RECEIVE: &'static str = "esp32-ble-proxy/devices";

/// The text that stands, in the device's internal queues, for "the MQTT
/// client is about to (re)connect".
pub const BEFORE_CONNECT: &'static str = "BeforeConnect";

/// The Debug notation of a default response, which the device sends as the
/// error text when an answer could not be serialized.
pub const DEFAULT_RESPONSE_DEBUG: &'static str = "RpcResponse { id: 0, packet_type: \"response\", error: None, result: None }";

/// Delivery guarantee of an MQTT message.
#[derive(Clone, Copy, Debug, PartialEq, Eq, Structural)]
pub enum QoS {
    AtMostOnce,
    AtLeastOnce,
    ExactlyOnce,
}

/// `std::str::from_utf8`: the text of `bytes`, if they are valid UTF-8.  std
/// documents that it fails exactly on invalid UTF-8 and otherwise gives the
/// text the bytes encode; the contract states this with vstd's UTF-8 model.
#[verifier::external_body]
pub(crate) fn utf8_text(bytes: &[u8]) -> (r: Option<&str>)
    ensures
        r is Some <==> valid_utf8(bytes@),
        r matches Some(s) ==> s@ == decode_utf8(bytes@),
{
    std::str::from_utf8(bytes).ok()
}

fn owned(s: &str) -> (r: String)
    ensures
        r@ == s@,
{
    s.to_owned()
}

/// The topic the device publishes on: the listening topic, a slash and the
/// device's identity.
pub fn send_topic(device_uuid: &String) -> (r: String)
    ensures
        r@ == MQTT_TOPIC_RECEIVE@ + "/"@ + device_uuid@,
{
    let mut t = owned(MQTT_TOPIC_RECEIVE);
    t.append("/");
    t.append(device_uuid.as_str());
    t
}

/// The topic on which the device takes requests: its publishing topic
/// followed by "/rpc".
pub fn rpc_topic(send_topic: &String) -> (r: String)
    ensures
        r@ == send_topic@ + "/rpc"@,
{
    let mut t = send_topic.clone();
    t.append("/rpc");
    t
}

/// The MQTT client id of the device.
pub fn client_id(device_uuid: &String) -> (r: String)
    ensures
        r@ == "esp32-ble-proxy-"@ + device_uuid@,
{
    let mut t = owned("esp32-ble-proxy-");
    t.append(device_uuid.as_str());
    t
}

/// The event by which the device announces itself after connecting.
pub fn register_event(device_uuid: &String) -> (r: Event<String>)
    ensures
        r.name@ == "register"@,
        r.packet_type@ == PACKET_TYPE_EVENT@,
        r.data matches Some(d) && d@ == device_uuid@,
{
    Event {
        name: owned("register"),
        packet_type: owned(PACKET_TYPE_EVENT),
        data: Some(device_uuid.clone()),
    }
}

/// The answer sent when an answer could not be serialized: a default
/// response whose error is the Debug notation of a default response.
pub fn serialization_failure_response() -> (r: RpcResponse)
    ensures
        r.id == 0,
        r.packet_type@ == PACKET_TYPE_RESPONSE@,
        r.error matches Some(e) && e@ == DEFAULT_RESPONSE_DEBUG@,
        r.result is None,
{
    RpcResponse {
        id: 0,
        packet_type: owned(PACKET_TYPE_RESPONSE),
        error: Some(owned(DEFAULT_RESPONSE_DEBUG)),
        result: None,
    }
}

/// The bytes of the reconnect marker.
pub open spec fn before_connect_bytes() -> Seq<u8> {
    encode_utf8(BEFORE_CONNECT@)
}

/// The bytes of the reconnect marker, for a queue.
pub fn before_connect_message() -> (r: Vec<u8>)
    ensures
        r@ == before_connect_bytes(),
{
    BEFORE_CONNECT.as_bytes_vec()
}

/// `bytes` is the reconnect marker: valid UTF-8 whose text is "BeforeConnect".
pub open spec fn is_before_connect(bytes: Seq<u8>) -> bool {
    valid_utf8(bytes) && decode_utf8(bytes) == BEFORE_CONNECT@
}

/// Whether `data` is the reconnect marker.
fn marks_reconnect(data: &[u8]) -> (r: bool)
    ensures
        r == is_before_connect(data@),
{
    match utf8_text(data) {
        Some(s) => s.to_owned() == owned(BEFORE_CONNECT),
        None => false,
    }
}

/// What the MQTT connection reports.
#[derive(Clone, Debug, PartialEq)]
pub enum MqttEvent {
    /// A message arrived; `complete` is false for a fragment of a message.
    Received { data: Vec<u8>, complete: bool },
    /// The client is about to connect.
    BeforeConnect,
    /// Anything else (connected, subscribed, published, errors ...).
    Other,
}

/// What the connection's listener queues for the main loop: a complete
/// message, the reconnect marker before a connection, nothing otherwise.
pub fn queued_payload(event: MqttEvent) -> (r: Option<Vec<u8>>)
    ensures
        match event {
            MqttEvent::Received { data, complete } => if complete {
                r matches Some(q) && q@ == data@
            } else {
                r is None
            },
            MqttEvent::BeforeConnect => r matches Some(q) && q@ == before_connect_bytes(),
            MqttEvent::Other => r is None,
        },
{
    match event {
        MqttEvent::Received { data, complete } => if complete {
            Some(data)
        } else {
            None
        },
        MqttEvent::BeforeConnect => Some(before_connect_message()),
        MqttEvent::Other => None,
    }
}

/// What the main loop makes of a queued message.
#[derive(Clone, Debug, PartialEq)]
pub enum Incoming {
    /// Not UTF-8 text: dropped.
    NotText,
    /// The reconnect marker: the sender must subscribe and register again.
    Reconnect,
    /// A request to serve.
    Request(String),
}

/// Sorts a queued message.
pub fn classify_incoming(data: &[u8]) -> (r: Incoming)
    ensures
        !valid_utf8(data@) <==> r is NotText,
        r is Reconnect <==> is_before_connect(data@),
        r matches Incoming::Request(t) ==> t@ == decode_utf8(data@) && valid_utf8(data@),
{
    match utf8_text(data) {
        None => Incoming::NotText,
        Some(s) => {
            let t = s.to_owned();
            if t == owned(BEFORE_CONNECT) {
                Incoming::Reconnect
            } else {
                Incoming::Request(t)
            }
        },
    }
}

/// What the sender does with a message handed to it.
#[derive(Clone, Debug, PartialEq)]
pub enum Outgoing {
    /// The reconnect marker: subscribe and register again.
    Reinitialize,
    /// Publish the message on the device's topic.
    Publish { topic: String, qos: QoS, retain: bool },
}

/// Sorts a message handed to the sender.
pub fn classify_outgoing(data: &[u8], send_topic: &String) -> (r: Outgoing)
    ensures
        r is Reinitialize <==> is_before_connect(data@),
        r matches Outgoing::Publish { topic, qos, retain } ==> topic@ == send_topic@ && qos
            == QoS::ExactlyOnce && !retain,
{
    if marks_reconnect(data) {
        Outgoing::Reinitialize
    } else {
        Outgoing::Publish { topic: send_topic.clone(), qos: QoS::ExactlyOnce, retain: false }
    }
}

/// Where the (re)initialisation of the MQTT session stands.
#[derive(Clone, Copy, Debug, PartialEq, Eq, Structural)]
pub enum InitStage {
    SubscribeDevices,
    SubscribeRpc,
    Register,
    Ready,
}

/// The next attempt of the initialisation.
#[derive(Clone, Debug, PartialEq)]
pub enum InitAction {
    Subscribe { topic: String, qos: QoS },
    Publish { topic: String, qos: QoS, retain: bool, event: Event<String> },
    Finished,
}

/// The attempt that `stage` makes.
pub fn init_mqtt_action(stage: InitStage, device_uuid: &String) -> (r: InitAction)
    ensures
        match stage {
            InitStage::SubscribeDevices => r matches InitAction::Subscribe { topic, qos }
                && topic@ == MQTT_TOPIC_RECEIVE@ && qos == QoS::AtLeastOnce,
            InitStage::SubscribeRpc => r matches InitAction::Subscribe { topic, qos } && topic@
                == MQTT_TOPIC_RECEIVE@ + "/"@ + device_uuid@ + "/rpc"@ && qos == QoS::ExactlyOnce,
            InitStage::Register => r matches InitAction::Publish { topic, qos, retain, event }
                && topic@ == MQTT_TOPIC_RECEIVE@ + "/"@ + device_uuid@ && qos == QoS::AtLeastOnce
                && !retain && event.name@ == "register"@ && event.packet_type@ == PACKET_TYPE_EVENT@
                && (event.data matches Some(d) && d@ == device_uuid@),
            InitStage::Ready => r is Finished,
        },
{
    match stage {
        InitStage::SubscribeDevices => InitAction::Subscribe {
            topic: owned(MQTT_TOPIC_RECEIVE),
            qos: QoS::AtLeastOnce,
        },
        InitStage::SubscribeRpc => {
            let t = send_topic(device_uuid);
            let topic = rpc_topic(&t);
            assert(topic@ =~= MQTT_TOPIC_RECEIVE@ + "/"@ + device_uuid@ + "/rpc"@);
            InitAction::Subscribe { topic, qos: QoS::ExactlyOnce }
        },
        InitStage::Register => InitAction::Publish {
            topic: send_topic(device_uuid),
            qos: QoS::AtLeastOnce,
            retain: false,
            event: register_event(device_uuid),
        },
        InitStage::Ready => InitAction::Finished,
    }
}

/// Where the initialisation goes after an attempt in `stage` that
/// `succeeded` or not, and the seconds to wait before the next attempt.
pub open spec fn init_after_spec(stage: InitStage, succeeded: bool) -> (InitStage, u64) {
    match stage {
        InitStage::SubscribeDevices => if succeeded {
            (InitStage::SubscribeRpc, 0)
        } else {
            (InitStage::SubscribeDevices, 5)
        },
        InitStage::SubscribeRpc => if succeeded {
            (InitStage::Register, 0)
        } else {
            (InitStage::SubscribeRpc, 5)
        },
        InitStage::Register => if succeeded {
            (InitStage::Ready, 0)
        } else {
            (InitStage::Register, 0)
        },
        InitStage::Ready => (InitStage::Ready, 0),
    }
}

/// The stage reached from `stage` through attempts with the given outcomes,
/// and the seconds waited on the way.
pub open spec fn init_run(stage: InitStage, outcomes: Seq<bool>) -> (InitStage, nat)
    decreases outcomes.len(),
{
    if outcomes.len() == 0 {
        (stage, 0)
    } else {
        let (next, wait) = init_after_spec(stage, outcomes[0]);
        let rest = init_run(next, outcomes.drop_first());
        (rest.0, (wait + rest.1) as nat)
    }
}

/// `k` failed attempts.
pub open spec fn failures(k: nat) -> Seq<bool> {
    Seq::new(k, |i: int| false)
}

/// The wait after a failed attempt in `stage`.
pub open spec fn retry_wait(stage: InitStage) -> nat {
    match stage {
        InitStage::SubscribeDevices | InitStage::SubscribeRpc => 5,
        _ => 0,
    }
}

/// Failed attempts leave the stage where it is, each followed by its wait.
pub proof fn lemma_init_failures(stage: InitStage, k: nat)
    ensures
        init_run(stage, failures(k)) == (stage, retry_wait(stage) * k),
    decreases k,
{
    if k > 0 {
        assert(failures(k).drop_first() =~= failures((k - 1) as nat));
        lemma_init_failures(stage, (k - 1) as nat);
        assert(retry_wait(stage) * k == retry_wait(stage) + retry_wait(stage) * (k - 1)) by (nonlinear_arith);
    }
}

/// Attempts in a row run one after the other.
pub proof fn lemma_init_run_append(stage: InitStage, a: Seq<bool>, b: Seq<bool>)
    ensures
        init_run(stage, a + b) == (
            init_run(init_run(stage, a).0, b).0,
            init_run(stage, a).1 + init_run(init_run(stage, a).0, b).1,
        ),
    decreases a.len(),
{
    if a.len() > 0 {
        let next = init_after_spec(stage, a[0]).0;
        assert((a + b).drop_first() =~= a.drop_first() + b);
        assert((a + b)[0] == a[0]);
        lemma_init_run_append(next, a.drop_first(), b);
    }
}

/// The initialisation subscribes to the device topic until that works,
/// waiting five seconds after each failure, then to the request topic in the
/// same way, then publishes the registration until that works, at once after
/// each failure; with `k1`, `k2` and `k3` failures in the three phases it is
/// ready after exactly `k1 + k2 + k3 + 3` attempts and `5 * (k1 + k2)` seconds
/// of waiting, and each phase only starts once the one before succeeded.
pub proof fn lemma_init_retries(k1: nat, k2: nat, k3: nat)
    ensures
        init_run(InitStage::SubscribeDevices, failures(k1)) == (InitStage::SubscribeDevices, 5 * k1),
        init_run(InitStage::SubscribeDevices, failures(k1).push(true)) == (InitStage::SubscribeRpc, 5 * k1),
        init_run(InitStage::SubscribeDevices, failures(k1).push(true) + failures(k2)) == (
            InitStage::SubscribeRpc,
            5 * k1 + 5 * k2,
        ),
        init_run(InitStage::SubscribeDevices, failures(k1).push(true) + failures(k2).push(true)) == (
            InitStage::Register,
            5 * k1 + 5 * k2,
        ),
        init_run(
            InitStage::SubscribeDevices,
            failures(k1).push(true) + failures(k2).push(true) + failures(k3),
        ) == (InitStage::Register, 5 * k1 + 5 * k2),
        init_run(
            InitStage::SubscribeDevices,
            failures(k1).push(true) + failures(k2).push(true) + failures(k3).push(true),
        ) == (InitStage::Ready, 5 * k1 + 5 * k2),
        (failures(k1).push(true) + failures(k2).push(true) + failures(k3).push(true)).len() == k1
            + k2 + k3 + 3,
{
    let s = InitStage::SubscribeDevices;
    let one = seq![true];
    lemma_init_failures(s, k1);
    lemma_init_failures(InitStage::SubscribeRpc, k2);
    lemma_init_failures(InitStage::Register, k3);
    let f1 = failures(k1);
    let f2 = failures(k2);
    let f3 = failures(k3);
    assert(f1.push(true) =~= f1 + one);
    assert(f2.push(true) =~= f2 + one);
    assert(f3.push(true) =~= f3 + one);
    assert(init_run(InitStage::SubscribeDevices, one) == (InitStage::SubscribeRpc, 0nat)) by {
        assert(one.drop_first() =~= Seq::<bool>::empty());
        assert(one[0]);
        assert(init_run(InitStage::SubscribeRpc, one.drop_first()) == (InitStage::SubscribeRpc, 0nat));
    }
    assert(init_run(InitStage::SubscribeRpc, one) == (InitStage::Register, 0nat)) by {
        assert(one.drop_first() =~= Seq::<bool>::empty());
        assert(one[0]);
        assert(init_run(InitStage::Register, one.drop_first()) == (InitStage::Register, 0nat));
    }
    assert(init_run(InitStage::Register, one) == (InitStage::Ready, 0nat)) by {
        assert(one.drop_first() =~= Seq::<bool>::empty());
        assert(one[0]);
        assert(init_run(InitStage::Ready, one.drop_first()) == (InitStage::Ready, 0nat));
    }
    lemma_init_run_append(s, f1, one);
    let p1 = f1.push(true);
    lemma_init_run_append(s, p1, f2);
    lemma_init_run_append(InitStage::SubscribeRpc, f2, one);
    lemma_init_run_append(s, p1, f2.push(true));
    let p2 = p1 + f2.push(true);
    lemma_init_run_append(s, p2, f3);
    lemma_init_run_append(InitStage::Register, f3, one);
    lemma_init_run_append(s, p2, f3.push(true));
}

/// Where the initialisation goes after an attempt, and how many seconds to
/// wait before the next one: a failed subscription is retried after five
/// seconds, a failed registration at once, a success moves on.
pub fn init_mqtt_after(stage: InitStage, succeeded: bool) -> (r: (InitStage, u64))
    ensures
        r == init_after_spec(stage, succeeded),
        !succeeded ==> r.0 == stage,
        !succeeded && (stage is SubscribeDevices || stage is SubscribeRpc) ==> r.1 == 5,
        !succeeded && stage is Register ==> r.1 == 0,
        succeeded ==> r.1 == 0,
        succeeded ==> r.0 == match stage {
            InitStage::SubscribeDevices => InitStage::SubscribeRpc,
            InitStage::SubscribeRpc => InitStage::Register,
            _ => InitStage::Ready,
        },
        stage is Ready ==> r == (InitStage::Ready, 0u64),
{
    match stage {
        InitStage::SubscribeDevices => if succeeded {
            (InitStage::SubscribeRpc, 0)
        } else {
            (InitStage::SubscribeDevices, 5)
        },
        InitStage::SubscribeRpc => if succeeded {
            (InitStage::Register, 0)
        } else {
            (InitStage::SubscribeRpc, 5)
        },
        InitStage::Register => if succeeded {
            (InitStage::Ready, 0)
        } else {
            (InitStage::Register, 0)
        },
        InitStage::Ready => (InitStage::Ready, 0),
    }
}

/// The reconnect marker that the connection's listener queues is taken for
/// the marker by the main loop, which then hands the marker to the sender,
/// which takes it for the marker too and subscribes and registers again; no
/// other message is taken for it.
pub proof fn lemma_marker_recognised(data: Seq<u8>)
    ensures
        is_before_connect(before_connect_bytes()),
        is_before_connect(data) ==> data == before_connect_bytes(),
{
    vstd::utf8::encode_utf8_valid_utf8(BEFORE_CONNECT@);
    vstd::utf8::encode_utf8_decode_utf8(BEFORE_CONNECT@);
    if is_before_connect(data) {
        vstd::utf8::decode_utf8_encode_utf8(data);
    }
}

} // verus!
