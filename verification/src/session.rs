use vstd::prelude::*;
use vstd::utf8::encode_utf8;
use crate::json::{JsonValue, JsonView, entries_view};
use crate::hex::{hex_decode, hex_decoding, hex_encode, hex_encoding, hex_error_debug, lemma_hex_roundtrip};
use crate::text::{debug_str, str_debug_text};
use crate::rpc::{
    HeapInfo, RpcRequest, RpcResponse, PACKET_TYPE_RESPONSE, arith_outcome, get_info,
    get_uuid, info_view, minus, not_a_string, operands_fit, plus, read_param, respond,
};
use crate::json::str_member;

verus! {

/// How a scan for BLE devices is run.
#[derive(Clone, Copy, Debug, PartialEq, Eq, Structural)]
pub struct ScanSettings {
    pub active: bool,
    pub interval: u16,
    pub window: u16,
}

/// The settings of every scan the requests start: active, interval 100, window 99.
pub open spec fn scan_settings() -> ScanSettings {
    ScanSettings { active: true, interval: 100, window: 99 }
}

/// How long `bluetooth_start_scan` scans, in milliseconds.
pub const SCAN_DURATION_MS: i32 = 10000;

/// How long a search for the addressed device lasts, in milliseconds.
pub const FIND_DEVICE_TIMEOUT_MS: i32 = 5000;

/// What a characteristic request does once it holds the characteristic.
#[derive(Clone, Debug, PartialEq)]
pub enum BleCommand {
    Read,
    Write { value: String },
    Subscribe,
}

/// Where a request stands: the outside work it waits for, or answered.
#[derive(Clone, Copy, Debug, PartialEq, Eq, Structural)]
pub enum Stage {
    Scanning,
    ReadingHeap,
    ParsingCharacteristicUuid,
    ParsingServiceUuid,
    FindingDevice,
    Connecting,
    GettingService,
    GettingCharacteristic,
    ReadingValue,
    WritingValue,
    CheckingNotify,
    Subscribing,
    Answered,
}

/// A request being served.  `address`, `service_uuid` and
/// `characteristic_uuid` are the parameters as given; `service_name` and
/// `characteristic_name` are the UUIDs as the BLE stack writes them once it
/// has parsed them.
#[derive(Clone, Debug, PartialEq)]
pub struct RpcCall {
    pub id: u64,
    pub stage: Stage,
    pub command: BleCommand,
    pub address: String,
    pub service_uuid: String,
    pub characteristic_uuid: String,
    pub service_name: String,
    pub characteristic_name: String,
}

/// What the device has to do next for a request.
#[derive(Debug, PartialEq)]
pub enum RpcAction {
    /// Send this answer; the request is done.
    Respond(RpcResponse),
    /// Start a background scan that relays each device found as an event.
    StartScan { settings: ScanSettings, duration_ms: i32 },
    /// Read the heap figures.
    ReadHeapInfo,
    /// Parse `text` as a 128-bit BLE UUID.
    ParseUuid { text: String },
    /// Scan for the device whose address is written `address`.
    FindDevice { address: String, settings: ScanSettings, timeout_ms: i32 },
    /// Connect to the device found.
    Connect,
    /// Look up the service of the parsed service UUID.
    GetService,
    /// Look up the characteristic of the parsed characteristic UUID.
    GetCharacteristic,
    /// Read the characteristic's value.
    ReadValue,
    /// Write `data` to the characteristic.
    WriteValue { data: Vec<u8>, with_response: bool },
    /// Ask whether the characteristic can notify.
    CheckNotify,
    /// Subscribe to notifications and relay each as a `ble_notify` event
    /// naming these three.
    Subscribe { address: String, service_uuid: String, characteristic_uuid: String },
}

/// What came of the outside work a request waited for.
#[derive(Clone, Debug, PartialEq)]
pub enum RpcEvent {
    ScanStarted,
    HeapRead(HeapInfo),
    UuidParsed { canonical: String },
    Failed { debug: String },
    DeviceFound,
    DeviceNotFound,
    Done,
    ValueRead { data: Vec<u8> },
    NotifySupport { supported: bool },
}

pub enum CommandView {
    Read,
    Write(Seq<char>),
    Subscribe,
}

pub struct CallView {
    pub id: u64,
    pub stage: Stage,
    pub command: CommandView,
    pub address: Seq<char>,
    pub service_uuid: Seq<char>,
    pub characteristic_uuid: Seq<char>,
    pub service_name: Seq<char>,
    pub characteristic_name: Seq<char>,
}

pub struct ResponseView {
    pub id: u64,
    pub packet_type: Seq<char>,
    pub error: Option<Seq<char>>,
    pub result: Option<JsonView>,
}

pub enum ActionView {
    Respond(ResponseView),
    StartScan { settings: ScanSettings, duration_ms: i32 },
    ReadHeapInfo,
    ParseUuid(Seq<char>),
    FindDevice { address: Seq<char>, settings: ScanSettings, timeout_ms: i32 },
    Connect,
    GetService,
    GetCharacteristic,
    ReadValue,
    WriteValue { data: Seq<u8>, with_response: bool },
    CheckNotify,
    Subscribe { address: Seq<char>, service_uuid: Seq<char>, characteristic_uuid: Seq<char> },
}

pub enum EventView {
    ScanStarted,
    HeapRead(HeapInfo),
    UuidParsed(Seq<char>),
    Failed(Seq<char>),
    DeviceFound,
    DeviceNotFound,
    Done,
    ValueRead(Seq<u8>),
    NotifySupport(bool),
}

pub struct RequestView {
    pub id: u64,
    pub method: Seq<char>,
    pub params: Seq<(Seq<char>, JsonView)>,
}

impl View for BleCommand {
    type V = CommandView;

    open spec fn view(&self) -> CommandView {
        match self {
            BleCommand::Read => CommandView::Read,
            BleCommand::Write { value } => CommandView::Write(value@),
            BleCommand::Subscribe => CommandView::Subscribe,
        }
    }
}

impl View for RpcCall {
    type V = CallView;

    open spec fn view(&self) -> CallView {
        CallView {
            id: self.id,
            stage: self.stage,
            command: self.command@,
            address: self.address@,
            service_uuid: self.service_uuid@,
            characteristic_uuid: self.characteristic_uuid@,
            service_name: self.service_name@,
            characteristic_name: self.characteristic_name@,
        }
    }
}

impl View for RpcResponse {
    type V = ResponseView;

    open spec fn view(&self) -> ResponseView {
        ResponseView {
            id: self.id,
            packet_type: self.packet_type@,
            error: match self.error {
                Some(e) => Some(e@),
                None => None,
            },
            result: match self.result {
                Some(v) => Some(v@),
                None => None,
            },
        }
    }
}

impl View for RpcAction {
    type V = ActionView;

    open spec fn view(&self) -> ActionView {
        match self {
            RpcAction::Respond(r) => ActionView::Respond(r@),
            RpcAction::StartScan { settings, duration_ms } => ActionView::StartScan {
                settings: *settings,
                duration_ms: *duration_ms,
            },
            RpcAction::ReadHeapInfo => ActionView::ReadHeapInfo,
            RpcAction::ParseUuid { text } => ActionView::ParseUuid(text@),
            RpcAction::FindDevice { address, settings, timeout_ms } => ActionView::FindDevice {
                address: address@,
                settings: *settings,
                timeout_ms: *timeout_ms,
            },
            RpcAction::Connect => ActionView::Connect,
            RpcAction::GetService => ActionView::GetService,
            RpcAction::GetCharacteristic => ActionView::GetCharacteristic,
            RpcAction::ReadValue => ActionView::ReadValue,
            RpcAction::WriteValue { data, with_response } => ActionView::WriteValue {
                data: data@,
                with_response: *with_response,
            },
            RpcAction::CheckNotify => ActionView::CheckNotify,
            RpcAction::Subscribe { address, service_uuid, characteristic_uuid } =>
                ActionView::Subscribe {
                address: address@,
                service_uuid: service_uuid@,
                characteristic_uuid: characteristic_uuid@,
            },
        }
    }
}

impl View for RpcEvent {
    type V = EventView;

    open spec fn view(&self) -> EventView {
        match self {
            RpcEvent::ScanStarted => EventView::ScanStarted,
            RpcEvent::HeapRead(h) => EventView::HeapRead(*h),
            RpcEvent::UuidParsed { canonical } => EventView::UuidParsed(canonical@),
            RpcEvent::Failed { debug } => EventView::Failed(debug@),
            RpcEvent::DeviceFound => EventView::DeviceFound,
            RpcEvent::DeviceNotFound => EventView::DeviceNotFound,
            RpcEvent::Done => EventView::Done,
            RpcEvent::ValueRead { data } => EventView::ValueRead(data@),
            RpcEvent::NotifySupport { supported } => EventView::NotifySupport(*supported),
        }
    }
}

impl View for RpcRequest {
    type V = RequestView;

    open spec fn view(&self) -> RequestView {
        RequestView { id: self.id, method: self.method@, params: entries_view(self.params@) }
    }
}

/// The events that the outside work of `stage` can end with.
pub open spec fn expects(stage: Stage, e: EventView) -> bool {
    match stage {
        Stage::Scanning => e is ScanStarted,
        Stage::ReadingHeap => e is HeapRead,
        Stage::ParsingCharacteristicUuid | Stage::ParsingServiceUuid => e is UuidParsed || e is Failed,
        Stage::FindingDevice => e is DeviceFound || e is DeviceNotFound || e is Failed,
        Stage::Connecting | Stage::GettingService | Stage::GettingCharacteristic
        | Stage::WritingValue | Stage::Subscribing => e is Done || e is Failed,
        Stage::ReadingValue => e is ValueRead || e is Failed,
        Stage::CheckingNotify => e is NotifySupport,
        Stage::Answered => false,
    }
}

/// An upper bound on the steps left before a request in `stage` is answered.
pub open spec fn steps_left(stage: Stage) -> nat {
    match stage {
        Stage::Answered => 0,
        Stage::Scanning | Stage::ReadingHeap | Stage::ReadingValue | Stage::WritingValue
        | Stage::Subscribing => 1,
        Stage::CheckingNotify => 2,
        Stage::GettingCharacteristic => 3,
        Stage::GettingService => 4,
        Stage::Connecting => 5,
        Stage::FindingDevice => 6,
        Stage::ParsingServiceUuid => 7,
        Stage::ParsingCharacteristicUuid => 8,
    }
}

/// The answer to a request, with the request set to answered.
pub open spec fn answer(c: CallView, outcome: Result<JsonView, Seq<char>>) -> (CallView, ActionView) {
    (
        CallView { stage: Stage::Answered, ..c },
        ActionView::Respond(
            ResponseView {
                id: c.id,
                packet_type: PACKET_TYPE_RESPONSE@,
                error: match outcome {
                    Ok(_) => None,
                    Err(m) => Some(m),
                },
                result: match outcome {
                    Ok(v) => Some(v),
                    Err(_) => None,
                },
            },
        ),
    )
}

/// The stage entered with an action.
pub open spec fn go(c: CallView, stage: Stage, a: ActionView) -> (CallView, ActionView) {
    (CallView { stage, ..c }, a)
}

/// The message of a failure to reach the addressed device.
pub open spec fn client_failure(inner: Seq<char>) -> Seq<char> {
    "failed to find client: "@ + str_debug_text(inner)
}

pub open spec fn ok_text() -> JsonView {
    JsonView::Str("OK"@)
}

/// How a request in the stage of `c` goes on after event `e`.
pub open spec fn resume_spec(c: CallView, e: EventView) -> (CallView, ActionView) {
    match (c.stage, e) {
        (Stage::Scanning, EventView::ScanStarted) => answer(c, Ok(ok_text())),
        (Stage::ReadingHeap, EventView::HeapRead(h)) => answer(c, Ok(info_view(h))),
        (Stage::ParsingCharacteristicUuid, EventView::UuidParsed(n)) => (
            CallView { stage: Stage::ParsingServiceUuid, characteristic_name: n, ..c },
            ActionView::ParseUuid(c.service_uuid),
        ),
        (Stage::ParsingCharacteristicUuid, EventView::Failed(d)) => answer(
            c,
            Err("failed to parse characteristic uuid: "@ + d),
        ),
        (Stage::ParsingServiceUuid, EventView::UuidParsed(n)) => (
            CallView { stage: Stage::FindingDevice, service_name: n, ..c },
            ActionView::FindDevice {
                address: c.address,
                settings: scan_settings(),
                timeout_ms: FIND_DEVICE_TIMEOUT_MS,
            },
        ),
        (Stage::ParsingServiceUuid, EventView::Failed(d)) => answer(
            c,
            Err("failed to parse service uuid: "@ + d),
        ),
        (Stage::FindingDevice, EventView::DeviceFound) => go(
            c,
            Stage::Connecting,
            ActionView::Connect,
        ),
        (Stage::FindingDevice, EventView::DeviceNotFound) => answer(
            c,
            Err(client_failure("device not found"@)),
        ),
        (Stage::FindingDevice, EventView::Failed(d)) => answer(
            c,
            Err(client_failure("failed to find device: "@ + d)),
        ),
        (Stage::Connecting, EventView::Done) => go(c, Stage::GettingService, ActionView::GetService),
        (Stage::Connecting, EventView::Failed(d)) => answer(
            c,
            Err(client_failure("failed to connect to device: "@ + d)),
        ),
        (Stage::GettingService, EventView::Done) => go(
            c,
            Stage::GettingCharacteristic,
            ActionView::GetCharacteristic,
        ),
        (Stage::GettingService, EventView::Failed(d)) => answer(
            c,
            Err("failed to get service: "@ + d),
        ),
        (Stage::GettingCharacteristic, EventView::Done) => match c.command {
            CommandView::Read => go(c, Stage::ReadingValue, ActionView::ReadValue),
            CommandView::Write(v) => match hex_decoding(encode_utf8(v)) {
                Ok(b) => go(
                    c,
                    Stage::WritingValue,
                    ActionView::WriteValue { data: b, with_response: true },
                ),
                Err(x) => answer(c, Err("failed to decode value: "@ + hex_error_debug(x))),
            },
            CommandView::Subscribe => go(c, Stage::CheckingNotify, ActionView::CheckNotify),
        },
        (Stage::GettingCharacteristic, EventView::Failed(d)) => answer(
            c,
            Err("failed to get characteristic: "@ + d),
        ),
        (Stage::ReadingValue, EventView::ValueRead(b)) => answer(
            c,
            Ok(JsonView::Str(hex_encoding(b))),
        ),
        (Stage::ReadingValue, EventView::Failed(d)) => answer(c, Err("failed to read value: "@ + d)),
        (Stage::WritingValue, EventView::Done) => answer(c, Ok(ok_text())),
        (Stage::WritingValue, EventView::Failed(d)) => answer(
            c,
            Err("failed to write value: "@ + d),
        ),
        (Stage::CheckingNotify, EventView::NotifySupport(supported)) => if supported {
            go(
                c,
                Stage::Subscribing,
                ActionView::Subscribe {
                    address: c.address,
                    service_uuid: c.service_name,
                    characteristic_uuid: c.characteristic_name,
                },
            )
        } else {
            answer(c, Err("characteristic does not support notifications"@))
        },
        (Stage::Subscribing, EventView::Done) => answer(c, Ok(ok_text())),
        (Stage::Subscribing, EventView::Failed(d)) => answer(
            c,
            Err("failed to subscribe to notifications: "@ + d),
        ),
        // No other pair occurs: `resume` requires that the event is one the
        // stage expects.
        _ => (c, ActionView::ReadHeapInfo),
    }
}

/// A request that is answered at once.
pub open spec fn fresh_call(id: u64) -> CallView {
    CallView {
        id,
        stage: Stage::Answered,
        command: CommandView::Read,
        address: Seq::empty(),
        service_uuid: Seq::empty(),
        characteristic_uuid: Seq::empty(),
        service_name: Seq::empty(),
        characteristic_name: Seq::empty(),
    }
}

/// The first steps of a characteristic request: read `address`,
/// `service_uuid`, `characteristic_uuid` (and, for a write, `value`) in that
/// order, answer with the first one missing, else parse the
/// characteristic's UUID.
pub open spec fn start_ble(
    id: u64,
    params: Seq<(Seq<char>, JsonView)>,
    command: CommandView,
) -> (CallView, ActionView) {
    let c = fresh_call(id);
    match str_member(params, "address"@) {
        None => answer(c, Err(not_a_string("address"@))),
        Some(address) => match str_member(params, "service_uuid"@) {
            None => answer(c, Err(not_a_string("service_uuid"@))),
            Some(service_uuid) => match str_member(params, "characteristic_uuid"@) {
                None => answer(c, Err(not_a_string("characteristic_uuid"@))),
                Some(characteristic_uuid) => {
                    let started = CallView {
                        stage: Stage::ParsingCharacteristicUuid,
                        command,
                        address,
                        service_uuid,
                        characteristic_uuid,
                        ..c
                    };
                    (started, ActionView::ParseUuid(characteristic_uuid))
                },
            },
        },
    }
}

/// How the device starts on a request (or on text that is no request: `Err`
/// holds why it could not be read).
pub open spec fn handle_rpc_spec(parsed: Result<RequestView, Seq<char>>, device_uuid: Seq<char>) -> (
    CallView,
    ActionView,
) {
    match parsed {
        Err(m) => answer(fresh_call(0), Err("failed to parse request: "@ + m)),
        Ok(req) => {
            let c = fresh_call(req.id);
            let p = req.params;
            if req.method == "add"@ {
                answer(c, arith_outcome(p, plus()))
            } else if req.method == "sub"@ {
                answer(c, arith_outcome(p, minus()))
            } else if req.method == "get_uuid"@ {
                answer(c, Ok(JsonView::Str(device_uuid)))
            } else if req.method == "bluetooth_start_scan"@ {
                go(
                    c,
                    Stage::Scanning,
                    ActionView::StartScan { settings: scan_settings(), duration_ms: SCAN_DURATION_MS },
                )
            } else if req.method == "ble_read_characteristic"@ {
                start_ble(req.id, p, CommandView::Read)
            } else if req.method == "ble_write_characteristic"@ {
                match str_member(p, "address"@) {
                    None => answer(c, Err(not_a_string("address"@))),
                    Some(_) => match str_member(p, "service_uuid"@) {
                        None => answer(c, Err(not_a_string("service_uuid"@))),
                        Some(_) => match str_member(p, "characteristic_uuid"@) {
                            None => answer(c, Err(not_a_string("characteristic_uuid"@))),
                            Some(_) => match str_member(p, "value"@) {
                                None => answer(c, Err(not_a_string("value"@))),
                                Some(v) => start_ble(req.id, p, CommandView::Write(v)),
                            },
                        },
                    },
                }
            } else if req.method == "ble_subscribe_characteristic"@ {
                start_ble(req.id, p, CommandView::Subscribe)
            } else if req.method == "get_info"@ {
                go(c, Stage::ReadingHeap, ActionView::ReadHeapInfo)
            } else {
                answer(c, Err("unknown method"@))
            }
        },
    }
}

/// The arithmetic of an `add` or `sub` request stays within `i64`.
pub open spec fn request_in_range(parsed: Result<RequestView, Seq<char>>) -> bool {
    parsed matches Ok(req) ==> {
        &&& req.method == "add"@ ==> operands_fit(req.params, plus())
        &&& req.method == "sub"@ ==> operands_fit(req.params, minus())
    }
}

pub open spec fn parsed_view(parsed: Result<RpcRequest, String>) -> Result<RequestView, Seq<char>> {
    match parsed {
        Ok(r) => Ok(r@),
        Err(e) => Err(e@),
    }
}

/// An answer is the only action that ends a request, and it carries the
/// request's id and exactly one of an error and a result.
pub open spec fn well_answered(c: CallView, a: ActionView) -> bool {
    &&& (c.stage is Answered) == (a is Respond)
    &&& a matches ActionView::Respond(r) ==> {
        &&& r.id == c.id
        &&& r.packet_type == PACKET_TYPE_RESPONSE@
        &&& (r.error is Some) != (r.result is Some)
    }
}

fn text_of(s: &str) -> (r: String)
    ensures
        r@ == s@,
{
    s.to_owned()
}

fn joined(prefix: &str, rest: &str) -> (r: String)
    ensures
        r@ == prefix@ + rest@,
{
    let mut s = prefix.to_owned();
    s.append(rest);
    s
}

fn is_method(m: &String, name: &str) -> (r: bool)
    ensures
        r == (m@ == name@),
{
    *m == name.to_owned()
}

impl RpcCall {
    fn answered(id: u64) -> (r: RpcCall)
        ensures
            r@ == fresh_call(id),
    {
        RpcCall {
            id,
            stage: Stage::Answered,
            command: BleCommand::Read,
            address: String::new(),
            service_uuid: String::new(),
            characteristic_uuid: String::new(),
            service_name: String::new(),
            characteristic_name: String::new(),
        }
    }

    /// Whether `event` is one the outside work of this request can end with.
    pub fn accepts(&self, event: &RpcEvent) -> (r: bool)
        ensures
            r == expects(self.stage, event@),
    {
        match self.stage {
            Stage::Scanning => matches!(event, RpcEvent::ScanStarted),
            Stage::ReadingHeap => matches!(event, RpcEvent::HeapRead(_)),
            Stage::ParsingCharacteristicUuid | Stage::ParsingServiceUuid => matches!(event, RpcEvent::UuidParsed { .. })
                || matches!(event, RpcEvent::Failed { .. }),
            Stage::FindingDevice => matches!(event, RpcEvent::DeviceFound) || matches!(event, RpcEvent::DeviceNotFound)
                || matches!(event, RpcEvent::Failed { .. }),
            Stage::Connecting | Stage::GettingService | Stage::GettingCharacteristic
            | Stage::WritingValue | Stage::Subscribing => matches!(event, RpcEvent::Done) || matches!(event, RpcEvent::Failed { .. }),
            Stage::ReadingValue => matches!(event, RpcEvent::ValueRead { .. }) || matches!(event, RpcEvent::Failed { .. }),
            Stage::CheckingNotify => matches!(event, RpcEvent::NotifySupport { .. }),
            Stage::Answered => false,
        }
    }

    /// Whether this request has been answered.
    pub fn is_answered(&self) -> (r: bool)
        ensures
            r == (self.stage is Answered),
    {
        self.stage == Stage::Answered
    }

    fn finish(self, outcome: Result<JsonValue, String>) -> (r: (RpcCall, RpcAction))
        ensures
            (r.0@, r.1@) == answer(self@, match outcome {
                Ok(v) => Ok(v@),
                Err(e) => Err(e@),
            }),
    {
        let resp = respond(self.id, outcome);
        let mut c = self;
        c.stage = Stage::Answered;
        (c, RpcAction::Respond(resp))
    }

    fn fail(self, prefix: &str, debug: &str) -> (r: (RpcCall, RpcAction))
        ensures
            (r.0@, r.1@) == answer(self@, Err(prefix@ + debug@)),
    {
        let m = joined(prefix, debug);
        self.finish(Err(m))
    }

    fn client_fail(self, inner: &str) -> (r: (RpcCall, RpcAction))
        ensures
            (r.0@, r.1@) == answer(self@, Err(client_failure(inner@))),
    {
        let d = debug_str(inner);
        self.fail("failed to find client: ", d.as_str())
    }

    fn advance(self, stage: Stage, action: RpcAction) -> (r: (RpcCall, RpcAction))
        ensures
            (r.0@, r.1@) == go(self@, stage, action@),
    {
        let mut c = self;
        c.stage = stage;
        (c, action)
    }

    /// Goes on with this request after `event`.
    pub fn resume(self, event: RpcEvent) -> (r: (RpcCall, RpcAction))
        requires
            expects(self.stage, event@),
        ensures
            (r.0@, r.1@) == resume_spec(self@, event@),
            well_answered(r.0@, r.1@),
            r.0.id == self.id,
            steps_left(r.0.stage) < steps_left(self.stage),
    {
        let ok = || -> (v: Result<JsonValue, String>)
            ensures
                v matches Ok(x) && x@ == ok_text(),
            { Ok(JsonValue::String(text_of("OK"))) };
        match (self.stage, event) {
            (Stage::Scanning, RpcEvent::ScanStarted) => {
                let v = ok();
                self.finish(v)
            },
            (Stage::ReadingHeap, RpcEvent::HeapRead(h)) => {
                let v = get_info(&h);
                self.finish(v)
            },
            (Stage::ParsingCharacteristicUuid, RpcEvent::UuidParsed { canonical }) => {
                let mut c = self;
                c.characteristic_name = canonical;
                c.stage = Stage::ParsingServiceUuid;
                let text = c.service_uuid.clone();
                (c, RpcAction::ParseUuid { text })
            },
            (Stage::ParsingCharacteristicUuid, RpcEvent::Failed { debug }) => {
                self.fail("failed to parse characteristic uuid: ", debug.as_str())
            },
            (Stage::ParsingServiceUuid, RpcEvent::UuidParsed { canonical }) => {
                let mut c = self;
                c.service_name = canonical;
                c.stage = Stage::FindingDevice;
                let address = c.address.clone();
                (
                    c,
                    RpcAction::FindDevice {
                        address,
                        settings: ScanSettings { active: true, interval: 100, window: 99 },
                        timeout_ms: FIND_DEVICE_TIMEOUT_MS,
                    },
                )
            },
            (Stage::ParsingServiceUuid, RpcEvent::Failed { debug }) => {
                self.fail("failed to parse service uuid: ", debug.as_str())
            },
            (Stage::FindingDevice, RpcEvent::DeviceFound) => {
                self.advance(Stage::Connecting, RpcAction::Connect)
            },
            (Stage::FindingDevice, RpcEvent::DeviceNotFound) => {
                self.client_fail("device not found")
            },
            (Stage::FindingDevice, RpcEvent::Failed { debug }) => {
                let inner = joined("failed to find device: ", debug.as_str());
                self.client_fail(inner.as_str())
            },
            (Stage::Connecting, RpcEvent::Done) => {
                self.advance(Stage::GettingService, RpcAction::GetService)
            },
            (Stage::Connecting, RpcEvent::Failed { debug }) => {
                let inner = joined("failed to connect to device: ", debug.as_str());
                self.client_fail(inner.as_str())
            },
            (Stage::GettingService, RpcEvent::Done) => {
                self.advance(Stage::GettingCharacteristic, RpcAction::GetCharacteristic)
            },
            (Stage::GettingService, RpcEvent::Failed { debug }) => {
                self.fail("failed to get service: ", debug.as_str())
            },
            (Stage::GettingCharacteristic, RpcEvent::Done) => {
                match &self.command {
                    BleCommand::Read => self.advance(Stage::ReadingValue, RpcAction::ReadValue),
                    BleCommand::Write { value } => {
                        match hex_decode(value.as_str()) {
                            Ok(data) => self.advance(
                                Stage::WritingValue,
                                RpcAction::WriteValue { data, with_response: true },
                            ),
                            Err(x) => {
                                let d = x.debug_text();
                                self.fail("failed to decode value: ", d.as_str())
                            },
                        }
                    },
                    BleCommand::Subscribe => self.advance(
                        Stage::CheckingNotify,
                        RpcAction::CheckNotify,
                    ),
                }
            },
            (Stage::GettingCharacteristic, RpcEvent::Failed { debug }) => {
                self.fail("failed to get characteristic: ", debug.as_str())
            },
            (Stage::ReadingValue, RpcEvent::ValueRead { data }) => {
                let text = hex_encode(data.as_slice());
                self.finish(Ok(JsonValue::String(text)))
            },
            (Stage::ReadingValue, RpcEvent::Failed { debug }) => {
                self.fail("failed to read value: ", debug.as_str())
            },
            (Stage::WritingValue, RpcEvent::Done) => {
                let v = ok();
                self.finish(v)
            },
            (Stage::WritingValue, RpcEvent::Failed { debug }) => {
                self.fail("failed to write value: ", debug.as_str())
            },
            (Stage::CheckingNotify, RpcEvent::NotifySupport { supported }) => {
                if supported {
                    let address = self.address.clone();
                    let service_uuid = self.service_name.clone();
                    let characteristic_uuid = self.characteristic_name.clone();
                    self.advance(
                        Stage::Subscribing,
                        RpcAction::Subscribe { address, service_uuid, characteristic_uuid },
                    )
                } else {
                    let m = text_of("characteristic does not support notifications");
                    self.finish(Err(m))
                }
            },
            (Stage::Subscribing, RpcEvent::Done) => {
                let v = ok();
                self.finish(v)
            },
            (Stage::Subscribing, RpcEvent::Failed { debug }) => {
                self.fail("failed to subscribe to notifications: ", debug.as_str())
            },
            _ => {
                proof {
                    assert(false);
                }
                (self, RpcAction::ReadHeapInfo)
            },
        }
    }
}

/// The start of a characteristic request (see `start_ble`).
fn start_ble_call(id: u64, params: &Vec<(String, JsonValue)>, command: BleCommand) -> (r: (
    RpcCall,
    RpcAction,
))
    ensures
        (r.0@, r.1@) == start_ble(id, entries_view(params@), command@),
{
    let c = RpcCall::answered(id);
    let address = match read_param(params, "address") {
        Ok(v) => v,
        Err(e) => return c.finish(Err(e)),
    };
    let service_uuid = match read_param(params, "service_uuid") {
        Ok(v) => v,
        Err(e) => return c.finish(Err(e)),
    };
    let characteristic_uuid = match read_param(params, "characteristic_uuid") {
        Ok(v) => v,
        Err(e) => return c.finish(Err(e)),
    };
    let text = characteristic_uuid.clone();
    let call = RpcCall {
        id,
        stage: Stage::ParsingCharacteristicUuid,
        command,
        address,
        service_uuid,
        characteristic_uuid,
        service_name: String::new(),
        characteristic_name: String::new(),
    };
    (call, RpcAction::ParseUuid { text })
}

/// Starts serving a request: `parsed` is the request, or why the received
/// text is none (the parser's message).  `device_uuid` is the device's
/// identity as text.
pub fn handle_rpc(parsed: Result<RpcRequest, String>, device_uuid: &String) -> (r: (
    RpcCall,
    RpcAction,
))
    requires
        request_in_range(parsed_view(parsed)),
    ensures
        (r.0@, r.1@) == handle_rpc_spec(parsed_view(parsed), device_uuid@),
        well_answered(r.0@, r.1@),
        r.0.id == (match parsed {
            Ok(req) => req.id,
            Err(_) => 0u64,
        }),
        steps_left(r.0.stage) <= 8,
{
    match parsed {
        Err(m) => {
            let c = RpcCall::answered(0);
            c.fail("failed to parse request: ", m.as_str())
        },
        Ok(req) => {
            let c = RpcCall::answered(req.id);
            if is_method(&req.method, "add") {
                let v = crate::rpc::add(&req.params);
                c.finish(v)
            } else if is_method(&req.method, "sub") {
                let v = crate::rpc::sub(&req.params);
                c.finish(v)
            } else if is_method(&req.method, "get_uuid") {
                let v = get_uuid(device_uuid);
                c.finish(v)
            } else if is_method(&req.method, "bluetooth_start_scan") {
                c.advance(
                    Stage::Scanning,
                    RpcAction::StartScan {
                        settings: ScanSettings { active: true, interval: 100, window: 99 },
                        duration_ms: SCAN_DURATION_MS,
                    },
                )
            } else if is_method(&req.method, "ble_read_characteristic") {
                start_ble_call(req.id, &req.params, BleCommand::Read)
            } else if is_method(&req.method, "ble_write_characteristic") {
                match read_param(&req.params, "address") {
                    Err(e) => return c.finish(Err(e)),
                    Ok(_) => {},
                }
                match read_param(&req.params, "service_uuid") {
                    Err(e) => return c.finish(Err(e)),
                    Ok(_) => {},
                }
                match read_param(&req.params, "characteristic_uuid") {
                    Err(e) => return c.finish(Err(e)),
                    Ok(_) => {},
                }
                match read_param(&req.params, "value") {
                    Err(e) => c.finish(Err(e)),
                    Ok(value) => start_ble_call(req.id, &req.params, BleCommand::Write { value }),
                }
            } else if is_method(&req.method, "ble_subscribe_characteristic") {
                start_ble_call(req.id, &req.params, BleCommand::Subscribe)
            } else if is_method(&req.method, "get_info") {
                c.advance(Stage::ReadingHeap, RpcAction::ReadHeapInfo)
            } else {
                let m = text_of("unknown method");
                c.finish(Err(m))
            }
        },
    }
}

/// What a read of a characteristic answers, sent back unchanged as the
/// value of a write, writes the very bytes that were read: a read (`r`)
/// answers the text `hex_encoding(data)`, and a write (`w`) whose value is
/// that text writes `data`.
pub proof fn lemma_read_value_writes_back(r: CallView, w: CallView, data: Seq<u8>)
    requires
        r.stage is ReadingValue,
        w.stage is GettingCharacteristic,
        w.command == CommandView::Write(hex_encoding(data)),
    ensures
        resume_spec(r, EventView::ValueRead(data)).1 == ActionView::Respond(
            (ResponseView {
                id: r.id,
                packet_type: PACKET_TYPE_RESPONSE@,
                error: None,
                result: Some(JsonView::Str(hex_encoding(data))),
            }),
        ),
        resume_spec(w, EventView::Done).1 == (ActionView::WriteValue {
            data,
            with_response: true,
        }),
{
    lemma_hex_roundtrip(data);
}

} // verus!
