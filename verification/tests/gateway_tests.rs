use oxidian::error::{Error, GatewayError};
use oxidian::gateway::connection::{
    finish_dispatch, hello_step, identify_payload, EventLoop, GatewayAction, SessionState,
};
use oxidian::gateway::events::{dispatch_kind, DispatchEvent, DispatchKind, GatewayPayload};
use oxidian::gateway::heartbeat::{build_heartbeat, Heartbeat, HeartbeatAction, HeartbeatMessage, HeartbeatStop};
use oxidian::gateway::opcodes::Opcode;
use oxidian::gateway::shard::{backoff_secs, ConnectionOutcome, Reconnector, ShardStep};
use oxidian::json::JsonValue;

fn text(v: &JsonValue) -> String {
    match v {
        JsonValue::Null => "null".to_owned(),
        JsonValue::Bool(b) => b.to_string(),
        JsonValue::UInt(n) => n.to_string(),
        JsonValue::Int(n) => n.to_string(),
        JsonValue::Float(t) => t.clone(),
        JsonValue::Str(s) => format!("{s:?}"),
        JsonValue::Array(items) => format!("[{}]", items.iter().map(text).collect::<Vec<_>>().join(",")),
        JsonValue::Object(m) => format!(
            "{{{}}}",
            m.iter().map(|(k, v)| format!("{k:?}:{}", text(v))).collect::<Vec<_>>().join(",")
        ),
    }
}

fn payload(op: u8, d: Option<JsonValue>, s: Option<u64>, t: Option<&str>) -> GatewayPayload {
    GatewayPayload { op, d, s, t: t.map(|x| x.to_owned()) }
}

#[test]
fn opcode_roundtrip() {
    for v in 0u8..=255 {
        match Opcode::from_u8(v) {
            Some(op) => assert_eq!(op.code(), v),
            None => assert!(v == 5 || v > 11),
        }
    }
    assert_eq!(Opcode::from_u8(10), Some(Opcode::Hello));
}

#[test]
fn heartbeat_payload_text() {
    assert_eq!(text(&build_heartbeat(Some(42))), "{\"op\":1,\"d\":42}");
    assert_eq!(text(&build_heartbeat(None)), "{\"op\":1,\"d\":null}");
}

#[test]
fn two_ticks_without_ack_stop() {
    let mut hb = Heartbeat::new();
    assert!(matches!(hb.on_tick(Some(1)), HeartbeatAction::Send(_)));
    assert!(matches!(hb.on_tick(Some(2)), HeartbeatAction::Stop(HeartbeatStop::NotAcknowledged)));
}

#[test]
fn ack_between_ticks_keeps_going() {
    let mut hb = Heartbeat::new();
    assert!(matches!(hb.on_tick(None), HeartbeatAction::Send(_)));
    assert!(matches!(hb.on_control(Some(HeartbeatMessage::Ack)), HeartbeatAction::Wait));
    assert!(matches!(hb.on_tick(Some(3)), HeartbeatAction::Send(_)));
    assert!(matches!(hb.on_control(None), HeartbeatAction::Stop(HeartbeatStop::Requested)));
    assert!(matches!(hb.on_control(Some(HeartbeatMessage::Stop)), HeartbeatAction::Stop(HeartbeatStop::Requested)));
}

#[test]
fn event_loop_tracks_sequence_and_answers_heartbeat_requests() {
    let mut ev = EventLoop::new();
    assert!(matches!(ev.handle(payload(11, None, None, None)), GatewayAction::Acknowledge));
    match ev.handle(payload(0, Some(JsonValue::Null), Some(7), Some("TYPING_START"))) {
        GatewayAction::Dispatch(raw) => {
            assert_eq!(raw.kind, DispatchKind::Unknown);
            assert_eq!(raw.name, "TYPING_START");
        }
        _ => panic!("expected a dispatch"),
    }
    assert_eq!(ev.seq, Some(7));
    match ev.handle(payload(1, None, None, None)) {
        GatewayAction::SendHeartbeat(p) => assert_eq!(text(&p), "{\"op\":1,\"d\":7}"),
        _ => panic!("expected a heartbeat"),
    }
    assert!(matches!(ev.handle(payload(3, None, None, None)), GatewayAction::Ignore));
    assert!(matches!(ev.handle(payload(200, None, None, None)), GatewayAction::Ignore));
}

#[test]
fn event_loop_closes_on_reconnect_and_invalid_session() {
    let mut ev = EventLoop::new();
    match ev.handle(payload(7, None, None, None)) {
        GatewayAction::Close(GatewayError::Connection(m)) => assert_eq!(m, "gateway requested reconnect (op 7)"),
        _ => panic!("expected a close"),
    }
    match ev.handle(payload(9, Some(JsonValue::Bool(true)), None, None)) {
        GatewayAction::Close(GatewayError::SessionInvalidated { resumable }) => assert!(resumable),
        _ => panic!("expected a close"),
    }
    match ev.handle(payload(9, None, None, None)) {
        GatewayAction::Close(GatewayError::SessionInvalidated { resumable }) => assert!(!resumable),
        _ => panic!("expected a close"),
    }
}

#[test]
fn dispatch_names() {
    assert_eq!(dispatch_kind("READY"), DispatchKind::Ready);
    assert_eq!(dispatch_kind("GUILD_DELETE"), DispatchKind::GuildDelete);
    assert_eq!(dispatch_kind("VOICE_SERVER_UPDATE"), DispatchKind::VoiceServerUpdate);
    assert_eq!(dispatch_kind("ready"), DispatchKind::Unknown);
}

#[test]
fn unknown_dispatch_is_passed_on() {
    let mut ev = EventLoop::new();
    let raw = match ev.handle(payload(0, None, None, None)) {
        GatewayAction::Dispatch(raw) => raw,
        _ => panic!("expected a dispatch"),
    };
    assert_eq!(raw.name, "");
    match finish_dispatch(raw, None) {
        Some(DispatchEvent::Unknown { name, data }) => {
            assert_eq!(name, "");
            assert!(matches!(data, JsonValue::Null));
        }
        _ => panic!("expected an untyped event"),
    }
}

#[test]
fn hello_wait() {
    assert!(hello_step(payload(11, None, None, None)).is_none());
    match hello_step(payload(10, None, None, None)) {
        Some(Err(GatewayError::Connection(m))) => assert_eq!(m, "Hello payload missing 'd' field"),
        _ => panic!("expected an error"),
    }
    assert!(matches!(hello_step(payload(10, Some(JsonValue::UInt(1)), None, None)), Some(Ok(JsonValue::UInt(1)))));
}

#[test]
fn identify_payload_text() {
    let p = identify_payload("abc", 513, "linux");
    assert_eq!(
        text(&p),
        "{\"op\":2,\"d\":{\"token\":\"Bot abc\",\"intents\":513,\"properties\":{\"os\":\"linux\",\"browser\":\"oxidian\",\"device\":\"oxidian\"}}}"
    );
}

fn session() -> SessionState {
    SessionState { session_id: "s".to_owned(), resume_gateway_url: "wss://x".to_owned(), seq: Some(3) }
}

#[test]
fn shard_backoff_values() {
    let expected = [1u64, 2, 4, 8, 16, 32, 64, 64, 64];
    for (a, e) in expected.iter().enumerate() {
        assert_eq!(backoff_secs(a as u32), *e);
    }
}

#[test]
fn shard_gives_up_after_five_reconnects() {
    let mut r = Reconnector::new();
    for n in 1..5u32 {
        match r.next(ConnectionOutcome::Failed(Error::Gateway(GatewayError::Connection("x".to_owned())))) {
            ShardStep::Reconnect { backoff_secs } => assert_eq!(backoff_secs, 1u64 << n),
            _ => panic!("expected a reconnect"),
        }
    }
    match r.next(ConnectionOutcome::Resumable(session())) {
        ShardStep::Finish(Err(Error::Gateway(GatewayError::Connection(m)))) => {
            assert_eq!(m, "gave up after 5 reconnect attempts")
        }
        _ => panic!("expected to give up"),
    }
}

#[test]
fn shard_resumes_and_stops() {
    let mut r = Reconnector::new();
    match r.next(ConnectionOutcome::Resumable(session())) {
        ShardStep::Resume { delay_ms, session } => {
            assert_eq!(delay_ms, 500);
            assert_eq!(session.session_id, "s");
        }
        _ => panic!("expected a resume"),
    }
    assert!(matches!(r.next(ConnectionOutcome::Closed), ShardStep::Finish(Ok(()))));
    assert!(matches!(
        r.next(ConnectionOutcome::Failed(Error::Gateway(GatewayError::SessionInvalidated { resumable: true }))),
        ShardStep::Reconnect { backoff_secs: 4 }
    ));
    assert!(matches!(
        r.next(ConnectionOutcome::Failed(Error::Gateway(GatewayError::SessionInvalidated { resumable: false }))),
        ShardStep::Reconnect { backoff_secs: 8 }
    ));
    assert!(matches!(
        r.next(ConnectionOutcome::Failed(Error::Gateway(GatewayError::HeartbeatTimeout))),
        ShardStep::Finish(Err(_))
    ));
}
