use aes_gcm::aead::{Aead, KeyInit, Payload};
use oxidian::error::VoiceError;
use oxidian::json::JsonValue;
use oxidian::snowflake::Snowflake;
use oxidian::voice::connection::{
    build_rtp_header, choose_mode, encrypt_audio, expected_op_data, ip_discovery_request, parse_ip_discovery,
    parse_ready, parse_secret_key, select_protocol_payload, speaking_payload, voice_heartbeat_payload,
    voice_identify_payload, voice_url, AudioCounters, VoiceEventLoop,
};
use oxidian::voice::dave::protocol::{decode_payload_bytes, decode_text_payload, pick_text_payload, transition_ready_payload, DaveEvent, DavePhase, DaveState};
use oxidian::voice::dave::session::DaveSession;
use oxidian::voice::opus::check_pcm_frame;

fn text(v: &JsonValue) -> String {
    match v {
        JsonValue::Null => "null".to_owned(),
        JsonValue::Bool(b) => b.to_string(),
        JsonValue::UInt(n) => n.to_string(),
        JsonValue::Int(n) => n.to_string(),
        JsonValue::Float(t) => t.clone(),
        JsonValue::Str(s) => format!("{s:?}"),
        JsonValue::Array(items) => format!("[{}]", items.iter().map(text).collect::<Vec<_>>().join(",")),
        JsonValue::Object(m) => format!(
            "{{{}}}",
            m.iter().map(|(k, v)| format!("{k:?}:{}", text(v))).collect::<Vec<_>>().join(",")
        ),
    }
}

fn obj(members: Vec<(&str, JsonValue)>) -> JsonValue {
    JsonValue::Object(members.into_iter().map(|(k, v)| (k.to_owned(), v)).collect())
}

#[test]
fn text_payloads_decode_base64_first() {
    assert_eq!(decode_text_payload("aGk="), b"hi".to_vec());
    assert_eq!(decode_text_payload("_-8"), vec![0xff, 0xef]);
    assert_eq!(decode_text_payload("not base64!"), b"not base64!".to_vec());
    assert_eq!(pick_text_payload(vec![1], None, Some(vec![2]), Some(vec![3])), vec![2]);
    assert_eq!(pick_text_payload(vec![1], None, None, None), vec![1]);
}

#[test]
fn payload_bytes_forms() {
    let arr = JsonValue::Array(vec![JsonValue::UInt(1), JsonValue::UInt(258)]);
    assert_eq!(decode_payload_bytes(&arr), Some(vec![1, 2]));
    let bad = JsonValue::Array(vec![JsonValue::UInt(1), JsonValue::Str("x".to_owned())]);
    assert_eq!(decode_payload_bytes(&bad), None);
    let wrapped = obj(vec![("bytes", JsonValue::Str("aGk=".to_owned())), ("data", JsonValue::Array(vec![JsonValue::UInt(9)]))]);
    assert_eq!(decode_payload_bytes(&wrapped), Some(vec![9]));
    assert_eq!(decode_payload_bytes(&obj(vec![("other", JsonValue::Null)])), None);
    assert_eq!(decode_payload_bytes(&JsonValue::Bool(true)), None);
}

#[test]
fn dave_transition_lifecycle() {
    let mut s = DaveState::new();
    assert!(!s.is_active());
    s.set_external_sender(vec![1]);
    s.add_key_package(vec![2]);
    s.add_proposals(vec![3]);
    s.set_commit_welcome(vec![4]);
    assert_eq!(s.prepare_transition(7, 2), 7);
    assert!(s.key_packages.is_empty());
    assert!(s.proposals.is_empty());
    assert!(s.commit_welcome.is_none());
    assert_eq!(s.external_sender, Some(vec![1]));
    s.execute_transition(7);
    assert_eq!(s.phase, DavePhase::Active { epoch: 7, protocol_version: 2 });
    assert!(s.is_active());
    let mut fresh = DaveState::new();
    fresh.execute_transition(9);
    assert_eq!(fresh.phase, DavePhase::Active { epoch: 9, protocol_version: 1 });
}

#[test]
fn dave_gateway_payloads() {
    let mut s = DaveState::new();
    let e = s.apply_gateway_payload(20, &obj(vec![("transition_id", JsonValue::UInt(5))]));
    assert_eq!(e, Some(DaveEvent::PrepareTransition { transition_id: 5, protocol_version: 1 }));
    assert_eq!(s.phase, DavePhase::PendingTransition { transition_id: 5, protocol_version: 1 });
    let e = s.apply_gateway_payload(22, &JsonValue::Str("aGk=".to_owned()));
    assert_eq!(e, Some(DaveEvent::MlsKeyPackage { bytes: b"hi".to_vec() }));
    assert_eq!(s.key_packages, vec![b"hi".to_vec()]);
    assert_eq!(s.apply_gateway_payload(28, &JsonValue::Null), None);
    assert_eq!(s.apply_gateway_payload(99, &JsonValue::Null), None);
    let e = s.apply_gateway_payload(28, &obj(vec![("transition_id", JsonValue::UInt(5))]));
    assert_eq!(e, Some(DaveEvent::ExecuteTransition { transition_id: 5 }));
    assert!(s.is_active());
    assert_eq!(text(&transition_ready_payload(5)), "{\"op\":25,\"d\":{\"transition_id\":5}}");
}

#[test]
fn dave_session_senders() {
    let mut s = DaveSession::new();
    s.register_sender(10);
    s.register_sender(11);
    s.register_sender(10);
    assert_eq!(s.sender_keys.len(), 2);
    assert_eq!(s.get_sender_key(11).map(|k| k.ssrc), Some(11));
    s.remove_sender(10);
    assert!(s.get_sender_key(10).is_none());
    assert_eq!(s.sender_keys.len(), 1);
    assert!(!s.has_commit_welcome());
    s.apply_gateway_payload(24, &JsonValue::Array(vec![JsonValue::UInt(7)]));
    assert_eq!(s.latest_commit_welcome(), Some(&[7u8][..]));
    assert_eq!(s.key_package_count(), 0);
    assert_eq!(s.proposal_count(), 0);
    let snap = s.snapshot();
    assert_eq!(snap.sender_keys.len(), 1);
    assert!(!s.is_active());
}

#[test]
fn voice_gateway_payloads() {
    assert_eq!(voice_url("us-east1.discord.media"), "wss://us-east1.discord.media/?v=8");
    let p = voice_identify_payload(Snowflake::new(1), Snowflake::new(2), "sess", "tok");
    assert_eq!(
        text(&p),
        "{\"op\":0,\"d\":{\"server_id\":\"1\",\"user_id\":\"2\",\"session_id\":\"sess\",\"token\":\"tok\",\"max_dave_protocol_version\":1}}"
    );
    assert_eq!(text(&voice_heartbeat_payload(99, -1)), "{\"op\":3,\"d\":{\"t\":99,\"seq_ack\":-1}}");
    assert_eq!(text(&speaking_payload(true, 5)), "{\"op\":5,\"d\":{\"speaking\":1,\"delay\":0,\"ssrc\":5}}");
    assert_eq!(
        text(&select_protocol_payload("1.2.3.4", 50000, "aead_aes256_gcm_rtpsize")),
        "{\"op\":1,\"d\":{\"protocol\":\"udp\",\"data\":{\"address\":\"1.2.3.4\",\"port\":50000,\"mode\":\"aead_aes256_gcm_rtpsize\"}}}"
    );
}

#[test]
fn ready_and_session_description() {
    let ready = obj(vec![
        ("ssrc", JsonValue::UInt(0x1_0000_0005)),
        ("ip", JsonValue::Str("10.0.0.1".to_owned())),
        ("port", JsonValue::UInt(50001)),
        ("modes", JsonValue::Array(vec![JsonValue::Str("a".to_owned()), JsonValue::UInt(3), JsonValue::Str("b".to_owned())])),
    ]);
    let r = parse_ready(&ready);
    assert_eq!(r.ssrc, 5);
    assert_eq!(r.ip, "10.0.0.1");
    assert_eq!(r.port, 50001);
    assert_eq!(r.modes, vec!["a".to_owned(), "b".to_owned()]);
    let empty = parse_ready(&JsonValue::Null);
    assert_eq!((empty.ssrc, empty.port, empty.ip.as_str(), empty.modes.len()), (0, 0, "", 0));

    let key: Vec<JsonValue> = (0..32u64).map(|i| JsonValue::UInt(i + 256)).collect();
    let k = parse_secret_key(&obj(vec![("secret_key", JsonValue::Array(key))])).unwrap();
    assert_eq!(k, (0..32u8).collect::<Vec<u8>>());
    match parse_secret_key(&obj(vec![("secret_key", JsonValue::Array(vec![JsonValue::UInt(1)]))])) {
        Err(VoiceError::Connection(m)) => assert_eq!(m, "secret_key must be 32 bytes"),
        _ => panic!("expected an error"),
    }
    match parse_secret_key(&JsonValue::Null) {
        Err(VoiceError::Connection(m)) => assert_eq!(m, "no secret_key in session description"),
        _ => panic!("expected an error"),
    }
    let hello = obj(vec![("op", JsonValue::UInt(8)), ("d", obj(vec![("heartbeat_interval", JsonValue::UInt(13750))]))]);
    assert!(expected_op_data(&hello, 2).is_none());
    assert_eq!(text(&expected_op_data(&hello, 8).unwrap()), "{\"heartbeat_interval\":13750}");
}

#[test]
fn mode_preference() {
    let offered = vec!["xsalsa20_poly1305".to_owned(), "aead_aes256_gcm_rtpsize".to_owned()];
    assert_eq!(choose_mode(&offered).unwrap(), "aead_aes256_gcm_rtpsize");
    let legacy = vec!["xsalsa20_poly1305_suffix".to_owned(), "xsalsa20_poly1305".to_owned()];
    assert_eq!(choose_mode(&legacy).unwrap(), "xsalsa20_poly1305_suffix");
    match choose_mode(&["weird".to_owned(), "x\"y".to_owned()]) {
        Err(VoiceError::Connection(m)) => assert_eq!(m, "no supported encryption mode in: [\"weird\", \"x\\\"y\"]"),
        _ => panic!("expected an error"),
    }
}

#[test]
fn udp_packets() {
    let req = ip_discovery_request(0x01020304);
    assert_eq!(req.len(), 74);
    assert_eq!(&req[..8], &[0, 1, 0, 70, 1, 2, 3, 4]);
    assert!(req[8..].iter().all(|b| *b == 0));

    let mut buf = vec![0u8; 74];
    buf[8..17].copy_from_slice(b"127.0.0.1");
    buf[72] = 0xc3;
    buf[73] = 0x50;
    let (ip, port) = parse_ip_discovery(&buf, 74).unwrap();
    assert_eq!(ip, "127.0.0.1");
    assert_eq!(port, 50000);
    match parse_ip_discovery(&buf, 10) {
        Err(VoiceError::Udp(m)) => assert_eq!(m, "IP discovery response too short: 10 bytes"),
        _ => panic!("expected an error"),
    }

    assert_eq!(
        build_rtp_header(0x0102, 0x03040506, 0x0708090a),
        vec![0x80, 0x78, 1, 2, 3, 4, 5, 6, 7, 8, 9, 10]
    );
}

#[test]
fn audio_encryption_roundtrips() {
    let key = [7u8; 32];
    let header = build_rtp_header(1, 960, 42);
    let opus = b"opus frame".to_vec();
    let packet = encrypt_audio(&header, &opus, &key, 3).unwrap();
    assert_eq!(packet.len(), 12 + opus.len() + 16 + 4);
    assert_eq!(&packet[..12], &header[..]);
    assert_eq!(&packet[packet.len() - 4..], &[0, 0, 0, 3]);
    let body = &packet[12..packet.len() - 4];
    assert_ne!(&body[..opus.len()], &opus[..]);
    let cipher = aes_gcm::Aes256Gcm::new(aes_gcm::Key::<aes_gcm::Aes256Gcm>::from_slice(&key));
    let mut nonce = [0u8; 12];
    nonce[3] = 3;
    let plain = cipher
        .decrypt(aes_gcm::Nonce::from_slice(&nonce), Payload { msg: body, aad: &header })
        .unwrap();
    assert_eq!(plain, opus);
}

#[test]
fn audio_counters_wrap() {
    let mut c = AudioCounters::new();
    assert_eq!(c.next_frame(), (0, 0, 0));
    assert_eq!(c.next_frame(), (1, 960, 1));
    let mut w = AudioCounters { sequence: 0xffff, timestamp: u32::MAX - 100, nonce: u32::MAX };
    assert_eq!(w.next_frame(), (0xffff, u32::MAX - 100, u32::MAX));
    assert_eq!((w.sequence, w.timestamp, w.nonce), (0x1_0000, 859, 0));
    assert_eq!(w.next_frame().0, 0);
}

#[test]
fn voice_event_loop_answers_prepare_transition() {
    let mut ev = VoiceEventLoop::new();
    assert_eq!(ev.seq_ack, -1);
    let p = obj(vec![("op", JsonValue::UInt(20)), ("seq", JsonValue::UInt(4)), ("d", obj(vec![("transition_id", JsonValue::UInt(8))]))]);
    let answer = ev.handle(&p).unwrap();
    assert_eq!(text(&answer), "{\"op\":25,\"d\":{\"transition_id\":8}}");
    assert_eq!(ev.seq_ack, 4);
    assert!(ev.handle(&obj(vec![("op", JsonValue::UInt(6))])).is_none());
    let no_data = ev.handle(&obj(vec![("op", JsonValue::UInt(20))])).unwrap();
    assert_eq!(text(&no_data), "{\"op\":25,\"d\":{\"transition_id\":0}}");
}

#[test]
fn pcm_frame_size() {
    assert!(check_pcm_frame(1920).is_ok());
    match check_pcm_frame(960) {
        Err(VoiceError::Connection(m)) => assert_eq!(m, "PCM frame must be 1920 samples (got 960)"),
        _ => panic!("expected an error"),
    }
}

#[test]
fn dave_key_packages_are_counted_until_a_transition() {
    let mut s = DaveSession::new();
    assert_eq!(s.key_package_count(), 0);
    s.state.add_key_package(vec![1, 2]);
    s.state.add_key_package(vec![3]);
    assert_eq!(s.key_package_count(), 2);
    s.state.prepare_transition(4, 1);
    assert_eq!(s.key_package_count(), 0);
}

#[test]
fn dave_senders_on_a_list_with_repeats() {
    let mut s = DaveSession::new();
    s.sender_keys.push(oxidian::voice::dave::keys::SenderKeySet::placeholder(5));
    s.sender_keys.push(oxidian::voice::dave::keys::SenderKeySet::placeholder(5));
    s.register_sender(6);
    assert_eq!(s.get_sender_key(6).map(|k| k.ssrc), Some(6));
    s.register_sender(5);
    assert_eq!(s.sender_keys.len(), 3);
    s.remove_sender(5);
    assert_eq!(s.sender_keys.len(), 1);
    assert!(s.get_sender_key(5).is_none());
}
