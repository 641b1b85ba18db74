//! The decisions of a gateway connection's event loop.
//!
//! The application opens the WebSocket, waits for Hello, sends Identify and
//! then feeds every payload it receives to [`EventLoop::handle`], which says
//! what to do with it.

use vstd::prelude::*;
use crate::error::GatewayError;
use crate::gateway::events::{DispatchEvent, DispatchKind, GatewayPayload, dispatch_kind, dispatch_kind_spec};
use crate::gateway::heartbeat::{build_heartbeat, heartbeat_json};
use crate::gateway::opcodes::Opcode;
use crate::json::{Json, JsonValue, lemma_members_model, members_model};

verus! {

/// The gateway's WebSocket URL (API version 10, JSON encoding).
pub const GATEWAY_URL: &'static str = "wss://gateway.discord.gg/?v=10&encoding=json";

/// What a session keeps for a later RESUME.
#[derive(Debug, Clone)]
pub struct SessionState {
    pub session_id: String,
    pub resume_gateway_url: String,
    pub seq: Option<u64>,
}

/// A dispatch payload whose data still has to be decoded into the type its
/// name announces.
#[derive(Debug)]
pub struct RawDispatch {
    pub kind: DispatchKind,
    pub name: String,
    pub data: JsonValue,
}

/// What the event loop does with one payload.
#[derive(Debug)]
pub enum GatewayAction {
    /// Decode the dispatch and forward the event.
    Dispatch(RawDispatch),
    /// Tell the heartbeat task its heartbeat was acknowledged.
    Acknowledge,
    /// Send this heartbeat payload at once.
    SendHeartbeat(JsonValue),
    /// Stop the heartbeat task and end the connection with this error.
    Close(GatewayError),
    /// Nothing to do.
    Ignore,
}

/// The dispatch name of a payload: its `t`, or the empty string.
pub open spec fn dispatch_name(t: Option<String>) -> Seq<char> {
    match t {
        Some(name) => name@,
        None => ""@,
    }
}

/// Whether an InvalidSession payload says the session can be resumed: its
/// data is `true`.
pub open spec fn resumable_spec(d: Option<JsonValue>) -> bool {
    d matches Some(v) && v matches JsonValue::Bool(b) && b
}

/// Parse a raw dispatch payload: its name, the kind that name announces, and
/// its data (`null` when absent).
pub fn parse_dispatch(payload: GatewayPayload) -> (r: RawDispatch)
    ensures
        r.name@ == dispatch_name(payload.t),
        r.kind == dispatch_kind_spec(r.name@),
        r.data == match payload.d {
            Some(v) => v,
            None => JsonValue::Null,
        },
{
    let name = match payload.t {
        Some(t) => t,
        None => "".to_owned(),
    };
    let data = match payload.d {
        Some(v) => v,
        None => JsonValue::Null,
    };
    let kind = dispatch_kind(name.as_str());
    RawDispatch { kind, name, data }
}

/// The event a dispatch yields: an untyped event for a name the library does
/// not know, otherwise what decoding its data gave (`None` when the data did
/// not decode, and the event is dropped).
pub fn finish_dispatch(raw: RawDispatch, decoded: Option<DispatchEvent>) -> (r: Option<DispatchEvent>)
    requires
        decoded matches Some(e) ==> e.kind() == raw.kind,
    ensures
        raw.kind == DispatchKind::Unknown ==> r == Some(DispatchEvent::Unknown { name: raw.name, data: raw.data }),
        raw.kind != DispatchKind::Unknown ==> r == decoded,
{
    match raw.kind {
        DispatchKind::Unknown => Some(DispatchEvent::Unknown { name: raw.name, data: raw.data }),
        _ => decoded,
    }
}

/// The outcome of one payload while waiting for Hello: `None` to keep
/// waiting, else the Hello data or the error that ends the wait.
pub fn hello_step(payload: GatewayPayload) -> (r: Option<Result<JsonValue, GatewayError>>)
    ensures
        payload.op != 10 ==> r is None,
        payload.op == 10 ==> match payload.d {
            Some(v) => r == Some(Ok::<JsonValue, GatewayError>(v)),
            None => r matches Some(Err(GatewayError::Connection(m))) && m@ == "Hello payload missing 'd' field"@,
        },
{
    if payload.op != Opcode::Hello.code() {
        return None;
    }
    match payload.d {
        Some(v) => Some(Ok(v)),
        None => Some(Err(GatewayError::Connection("Hello payload missing 'd' field".to_owned()))),
    }
}

/// The Identify payload (opcode 2): the bot token, the intents and the
/// connection properties.
pub open spec fn identify_json(token: Seq<char>, intents: u64, os: Seq<char>) -> Json {
    Json::Object(seq![
        ("op"@, Json::UInt(2)),
        ("d"@, Json::Object(seq![
            ("token"@, Json::Str("Bot "@ + token)),
            ("intents"@, Json::UInt(intents)),
            ("properties"@, Json::Object(seq![
                ("os"@, Json::Str(os)),
                ("browser"@, Json::Str("oxidian"@)),
                ("device"@, Json::Str("oxidian"@)),
            ])),
        ])),
    ])
}

/// Build the Identify payload; `os` names the operating system the bot runs on.
pub fn identify_payload(token: &str, intents: u64, os: &str) -> (r: JsonValue)
    ensures
        r.model() == identify_json(token@, intents, os@),
{
    let mut bot_token = "Bot ".to_owned();
    bot_token.append(token);

    let mut props: Vec<(String, JsonValue)> = Vec::new();
    props.push(("os".to_owned(), JsonValue::Str(os.to_owned())));
    props.push(("browser".to_owned(), JsonValue::Str("oxidian".to_owned())));
    props.push(("device".to_owned(), JsonValue::Str("oxidian".to_owned())));
    proof {
        lemma_members_model(props@);
    }
    let ghost props_expected = seq![
        ("os"@, Json::Str(os@)),
        ("browser"@, Json::Str("oxidian"@)),
        ("device"@, Json::Str("oxidian"@)),
    ];
    assert(members_model(props@) =~= props_expected);
    let properties = JsonValue::Object(props);
    assert(properties.model() == Json::Object(props_expected));

    let mut data: Vec<(String, JsonValue)> = Vec::new();
    data.push(("token".to_owned(), JsonValue::Str(bot_token)));
    data.push(("intents".to_owned(), JsonValue::UInt(intents)));
    data.push(("properties".to_owned(), properties));
    proof {
        lemma_members_model(data@);
    }
    let ghost data_expected = seq![
        ("token"@, Json::Str("Bot "@ + token@)),
        ("intents"@, Json::UInt(intents)),
        ("properties"@, Json::Object(props_expected)),
    ];
    assert(members_model(data@) =~= data_expected);
    let d = JsonValue::Object(data);
    assert(d.model() == Json::Object(data_expected));

    let mut top: Vec<(String, JsonValue)> = Vec::new();
    top.push(("op".to_owned(), JsonValue::UInt(2)));
    top.push(("d".to_owned(), d));
    proof {
        lemma_members_model(top@);
    }
    let ghost top_expected = seq![
        ("op"@, Json::UInt(2)),
        ("d"@, Json::Object(data_expected)),
    ];
    assert(members_model(top@) =~= top_expected);
    let r = JsonValue::Object(top);
    assert(r.model() == Json::Object(top_expected));
    r
}

/// The event loop of one gateway connection: the last sequence number
/// received, which heartbeats report.
#[derive(Debug, Clone, Copy, PartialEq, Eq, Structural)]
pub struct EventLoop {
    pub seq: Option<u64>,
}

impl EventLoop {
    /// A connection that has received nothing yet.
    pub fn new() -> (r: Self)
        ensures
            r.seq is None,
    {
        EventLoop { seq: None }
    }

    /// Decide what to do with one payload received from the gateway.
    ///
    /// A payload with a sequence number updates the one heartbeats report.
    /// A dispatch is passed on to be decoded; an acknowledgement goes to the
    /// heartbeat task; a heartbeat request is answered at once; Reconnect and
    /// InvalidSession end the connection; anything else is ignored.
    pub fn handle(&mut self, payload: GatewayPayload) -> (a: GatewayAction)
        ensures
            final(self).seq == match payload.s {
                Some(s) => Some(s),
                None => old(self).seq,
            },
            match Opcode::from_code_spec(payload.op) {
                Some(Opcode::Dispatch) => a matches GatewayAction::Dispatch(raw) && {
                    &&& raw.name@ == dispatch_name(payload.t)
                    &&& raw.kind == dispatch_kind_spec(raw.name@)
                    &&& raw.data == match payload.d {
                        Some(v) => v,
                        None => JsonValue::Null,
                    }
                },
                Some(Opcode::HeartbeatAck) => a is Acknowledge,
                Some(Opcode::Heartbeat) => a matches GatewayAction::SendHeartbeat(p)
                    && p.model() == heartbeat_json(final(self).seq),
                Some(Opcode::Reconnect) => a matches GatewayAction::Close(GatewayError::Connection(m))
                    && m@ == "gateway requested reconnect (op 7)"@,
                Some(Opcode::InvalidSession) => a matches GatewayAction::Close(GatewayError::SessionInvalidated { resumable })
                    && resumable == resumable_spec(payload.d),
                _ => a is Ignore,
            },
    {
        if let Some(s) = payload.s {
            self.seq = Some(s);
        }
        match Opcode::from_u8(payload.op) {
            Some(Opcode::Dispatch) => GatewayAction::Dispatch(parse_dispatch(payload)),
            Some(Opcode::HeartbeatAck) => GatewayAction::Acknowledge,
            Some(Opcode::Heartbeat) => GatewayAction::SendHeartbeat(build_heartbeat(self.seq)),
            Some(Opcode::Reconnect) => GatewayAction::Close(
                GatewayError::Connection("gateway requested reconnect (op 7)".to_owned()),
            ),
            Some(Opcode::InvalidSession) => {
                let resumable = match &payload.d {
                    Some(v) => match v.as_bool() {
                        Some(b) => b,
                        None => false,
                    },
                    None => false,
                };
                GatewayAction::Close(GatewayError::SessionInvalidated { resumable })
            },
            _ => GatewayAction::Ignore,
        }
    }
}

} // verus!
