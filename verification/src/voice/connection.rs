//! The payloads, packet formats and decisions of a Discord voice connection.
//!
//! The application holds the voice WebSocket and the UDP socket.  This
//! module builds what is sent on them (gateway payloads, the IP discovery
//! request, encrypted RTP packets), reads what comes back (Ready, the IP
//! discovery answer, the session description), and decides what each
//! payload of the voice event loop leads to.

use aes_gcm::aead::{Aead, KeyInit, Payload};
use vstd::prelude::*;
use vstd::utf8::{decode_utf8, valid_utf8};
use crate::error::VoiceError;
use crate::json::{Json, JsonValue, int_json, int_value, lemma_items_model, lemma_members_model, members_model, str_value};
use crate::snowflake::Snowflake;
use crate::text::{decimal, push_decimal, str_eq};
use crate::voice::dave::protocol::{transition_ready_json, transition_ready_payload};

verus! {

/// The voice WebSocket URL of a voice server endpoint (gateway version 8).
pub fn voice_url(endpoint: &str) -> (r: String)
    ensures
        r@ == "wss://"@ + endpoint@ + "/?v=8"@,
{
    let mut s = "wss://".to_owned();
    s.append(endpoint);
    s.append("/?v=8");
    s
}

/// The voice Identify payload (op 0).
pub open spec fn voice_identify_json(
    server_id: Snowflake,
    user_id: Snowflake,
    session_id: Seq<char>,
    token: Seq<char>,
) -> Json {
    Json::Object(seq![
        ("op"@, Json::UInt(0)),
        ("d"@, Json::Object(seq![
            ("server_id"@, Json::Str(decimal(server_id@ as nat))),
            ("user_id"@, Json::Str(decimal(user_id@ as nat))),
            ("session_id"@, Json::Str(session_id)),
            ("token"@, Json::Str(token)),
            ("max_dave_protocol_version"@, Json::UInt(1)),
        ])),
    ])
}

/// Build the voice Identify payload (op 0).  It announces DAVE protocol
/// version 1 as the highest the client supports.
pub fn voice_identify_payload(server_id: Snowflake, user_id: Snowflake, session_id: &str, token: &str) -> (r: JsonValue)
    ensures
        r.model() == voice_identify_json(server_id, user_id, session_id@, token@),
{
    let mut d: Vec<(String, JsonValue)> = Vec::new();
    d.push(("server_id".to_owned(), JsonValue::Str(server_id.to_string())));
    d.push(("user_id".to_owned(), JsonValue::Str(user_id.to_string())));
    d.push(("session_id".to_owned(), str_value(session_id)));
    d.push(("token".to_owned(), str_value(token)));
    d.push(("max_dave_protocol_version".to_owned(), JsonValue::UInt(1)));
    proof {
        lemma_members_model(d@);
    }
    let ghost d_expected = seq![
        ("server_id"@, Json::Str(decimal(server_id@ as nat))),
        ("user_id"@, Json::Str(decimal(user_id@ as nat))),
        ("session_id"@, Json::Str(session_id@)),
        ("token"@, Json::Str(token@)),
        ("max_dave_protocol_version"@, Json::UInt(1)),
    ];
    assert(members_model(d@) =~= d_expected);
    let data = JsonValue::Object(d);
    assert(data.model() == Json::Object(d_expected));
    wrap_op(0, data)
}

/// The payload `{"op": op, "d": data}`.
pub open spec fn op_json(op: u64, data: Json) -> Json {
    Json::Object(seq![("op"@, Json::UInt(op)), ("d"@, data)])
}

fn wrap_op(op: u64, data: JsonValue) -> (r: JsonValue)
    ensures
        r.model() == op_json(op, data.model()),
{
    let ghost dm = data.model();
    let mut top: Vec<(String, JsonValue)> = Vec::new();
    top.push(("op".to_owned(), JsonValue::UInt(op)));
    top.push(("d".to_owned(), data));
    proof {
        lemma_members_model(top@);
    }
    let ghost expected = seq![("op"@, Json::UInt(op)), ("d"@, dm)];
    assert(members_model(top@) =~= expected);
    let r = JsonValue::Object(top);
    assert(r.model() == Json::Object(expected));
    r
}

/// The voice heartbeat payload (op 3) of gateway v8: a timestamp and the
/// last sequence number received (`-1` before any).
pub open spec fn voice_heartbeat_json(t: u64, seq_ack: i64) -> Json {
    op_json(3, Json::Object(seq![("t"@, Json::UInt(t)), ("seq_ack"@, int_json(seq_ack))]))
}

/// Build the voice heartbeat payload (op 3).
pub fn voice_heartbeat_payload(t: u64, seq_ack: i64) -> (r: JsonValue)
    ensures
        r.model() == voice_heartbeat_json(t, seq_ack),
{
    let mut d: Vec<(String, JsonValue)> = Vec::new();
    d.push(("t".to_owned(), JsonValue::UInt(t)));
    d.push(("seq_ack".to_owned(), int_value(seq_ack)));
    proof {
        lemma_members_model(d@);
    }
    let ghost expected = seq![("t"@, Json::UInt(t)), ("seq_ack"@, int_json(seq_ack))];
    assert(members_model(d@) =~= expected);
    let data = JsonValue::Object(d);
    assert(data.model() == Json::Object(expected));
    wrap_op(3, data)
}

/// The Speaking payload (op 5).
pub open spec fn speaking_json(speaking: bool, ssrc: u32) -> Json {
    op_json(5, Json::Object(seq![
        ("speaking"@, Json::UInt(if speaking { 1 } else { 0 })),
        ("delay"@, Json::UInt(0)),
        ("ssrc"@, Json::UInt(ssrc as u64)),
    ]))
}

/// Build the Speaking payload (op 5): `speaking` is `true` to start
/// speaking, `false` to stop.  It must be sent before transmitting audio.
pub fn speaking_payload(speaking: bool, ssrc: u32) -> (r: JsonValue)
    ensures
        r.model() == speaking_json(speaking, ssrc),
{
    let flag: u64 = if speaking { 1 } else { 0 };
    let mut d: Vec<(String, JsonValue)> = Vec::new();
    d.push(("speaking".to_owned(), JsonValue::UInt(flag)));
    d.push(("delay".to_owned(), JsonValue::UInt(0)));
    d.push(("ssrc".to_owned(), JsonValue::UInt(ssrc as u64)));
    proof {
        lemma_members_model(d@);
    }
    let ghost expected = seq![
        ("speaking"@, Json::UInt(if speaking { 1 } else { 0 })),
        ("delay"@, Json::UInt(0)),
        ("ssrc"@, Json::UInt(ssrc as u64)),
    ];
    assert(members_model(d@) =~= expected);
    let data = JsonValue::Object(d);
    assert(data.model() == Json::Object(expected));
    wrap_op(5, data)
}

/// The Select Protocol payload (op 1).
pub open spec fn select_protocol_json(address: Seq<char>, port: u16, mode: Seq<char>) -> Json {
    op_json(1, Json::Object(seq![
        ("protocol"@, Json::Str("udp"@)),
        ("data"@, Json::Object(seq![
            ("address"@, Json::Str(address)),
            ("port"@, Json::UInt(port as u64)),
            ("mode"@, Json::Str(mode)),
        ])),
    ]))
}

/// Build the Select Protocol payload (op 1): our external address and port
/// as IP discovery found them, and the encryption mode chosen.
pub fn select_protocol_payload(address: &str, port: u16, mode: &str) -> (r: JsonValue)
    ensures
        r.model() == select_protocol_json(address@, port, mode@),
{
    let mut inner: Vec<(String, JsonValue)> = Vec::new();
    inner.push(("address".to_owned(), str_value(address)));
    inner.push(("port".to_owned(), JsonValue::UInt(port as u64)));
    inner.push(("mode".to_owned(), str_value(mode)));
    proof {
        lemma_members_model(inner@);
    }
    let ghost inner_expected = seq![
        ("address"@, Json::Str(address@)),
        ("port"@, Json::UInt(port as u64)),
        ("mode"@, Json::Str(mode@)),
    ];
    assert(members_model(inner@) =~= inner_expected);
    let data_obj = JsonValue::Object(inner);
    assert(data_obj.model() == Json::Object(inner_expected));
    let mut d: Vec<(String, JsonValue)> = Vec::new();
    d.push(("protocol".to_owned(), str_value("udp")));
    d.push(("data".to_owned(), data_obj));
    proof {
        lemma_members_model(d@);
    }
    let ghost expected = seq![("protocol"@, Json::Str("udp"@)), ("data"@, Json::Object(inner_expected))];
    assert(members_model(d@) =~= expected);
    let data = JsonValue::Object(d);
    assert(data.model() == Json::Object(expected));
    wrap_op(1, data)
}

// ── Reading the voice gateway's answers ───────────────────────────────────

/// The data of a payload when its opcode is `expected_op`: `None` for
/// another opcode (which is skipped while waiting), else its `d` (`null`
/// when absent).
pub fn expected_op_data(payload: &JsonValue, expected_op: u64) -> (r: Option<JsonValue>)
    ensures
        match payload.get_spec("op"@) {
            Some(v) if v.as_u64_spec() == Some(expected_op) => r matches Some(d) && d.model() == match payload.get_spec("d"@) {
                Some(x) => x.model(),
                None => Json::Null,
            },
            _ => r is None,
        },
{
    let op = match payload.get("op") {
        Some(v) => v.as_u64(),
        None => None,
    };
    match op {
        Some(o) => if o == expected_op {
            match payload.get("d") {
                Some(x) => {
                    let c = x.deep_clone();
                    proof {
                        crate::json::lemma_json_same_model(c, *x);
                    }
                    Some(c)
                },
                None => Some(JsonValue::Null),
            }
        } else {
            None
        },
        None => None,
    }
}

/// What the Ready payload (op 2) tells: our SSRC, the media server's
/// address and port, and the encryption modes it offers.
#[derive(Debug, Clone)]
pub struct VoiceReady {
    pub ssrc: u32,
    pub ip: String,
    pub port: u16,
    pub modes: Vec<String>,
}

/// A field of an object read as an unsigned integer, `0` when absent or
/// not one.
pub open spec fn u64_or_zero(d: JsonValue, key: Seq<char>) -> u64 {
    match d.get_spec(key) {
        Some(JsonValue::UInt(n)) => n,
        _ => 0,
    }
}

/// The texts among the elements of an array, in order.
pub open spec fn string_items(items: Seq<JsonValue>) -> Seq<Seq<char>>
    decreases items.len(),
{
    if items.len() == 0 {
        Seq::empty()
    } else {
        let rest = string_items(items.drop_last());
        match items.last() {
            JsonValue::Str(s) => rest.push(s@),
            _ => rest,
        }
    }
}

/// The modes listed in a Ready payload: the strings of its `modes` array,
/// none when it has no such array.
pub open spec fn ready_modes(d: JsonValue) -> Seq<Seq<char>> {
    match d.get_spec("modes"@) {
        Some(JsonValue::Array(items)) => string_items(items@),
        _ => Seq::empty(),
    }
}

/// The texts of a list of strings.
pub open spec fn texts(v: Seq<String>) -> Seq<Seq<char>> {
    v.map_values(|s: String| s@)
}

/// Read the Ready payload (op 2).  A missing or malformed SSRC or port
/// reads as 0, a missing address as empty; SSRC and port keep the low
/// 32 and 16 bits of the number given.
pub fn parse_ready(d: &JsonValue) -> (r: VoiceReady)
    ensures
        r.ssrc == (u64_or_zero(*d, "ssrc"@) % 0x1_0000_0000) as u32,
        r.port == (u64_or_zero(*d, "port"@) % 0x1_0000) as u16,
        r.ip@ == match d.get_spec("ip"@) {
            Some(JsonValue::Str(s)) => s@,
            _ => ""@,
        },
        texts(r.modes@) == ready_modes(*d),
{
    let ssrc = match d.get("ssrc") {
        Some(JsonValue::UInt(n)) => *n,
        _ => 0,
    };
    let port = match d.get("port") {
        Some(JsonValue::UInt(n)) => *n,
        _ => 0,
    };
    let ip = match d.get("ip") {
        Some(JsonValue::Str(s)) => s.clone(),
        _ => "".to_owned(),
    };
    let mut modes: Vec<String> = Vec::new();
    match d.get("modes") {
        Some(JsonValue::Array(items)) => {
            let n = items.len();
            let mut i: usize = 0;
            while i < n
                invariant
                    n == items@.len(),
                    i <= n,
                    texts(modes@) == string_items(items@.subrange(0, i as int)),
                decreases n - i,
            {
                proof {
                    assert(items@.subrange(0, i + 1).drop_last() =~= items@.subrange(0, i as int));
                    assert(items@.subrange(0, i + 1).last() == items@[i as int]);
                }
                match &items[i] {
                    JsonValue::Str(s) => {
                        modes.push(s.clone());
                        assert(texts(modes@) =~= string_items(items@.subrange(0, i as int)).push(s@));
                    },
                    _ => {},
                }
                i = i + 1;
            }
            assert(items@.subrange(0, n as int) =~= items@);
        },
        _ => {
            assert(texts(modes@) =~= Seq::<Seq<char>>::empty());
        },
    }
    VoiceReady { ssrc: (ssrc % 0x1_0000_0000) as u32, port: (port % 0x1_0000) as u16, ip, modes }
}

/// The secret key of a Session Description (op 4): the non-negative
/// integers of its `secret_key` array, each kept modulo 256, in order.
pub open spec fn key_bytes(items: Seq<JsonValue>) -> Seq<u8>
    decreases items.len(),
{
    if items.len() == 0 {
        Seq::empty()
    } else {
        let rest = key_bytes(items.drop_last());
        match items.last() {
            JsonValue::UInt(n) => rest.push((n % 256) as u8),
            _ => rest,
        }
    }
}

/// Read the secret key of a Session Description (op 4).  It fails when the
/// payload has no `secret_key` array, or when that array does not give
/// exactly 32 bytes.
pub fn parse_secret_key(d: &JsonValue) -> (r: Result<Vec<u8>, VoiceError>)
    ensures
        match d.get_spec("secret_key"@) {
            Some(JsonValue::Array(items)) => if key_bytes(items@).len() == 32 {
                r matches Ok(k) && k@ == key_bytes(items@)
            } else {
                r matches Err(VoiceError::Connection(m)) && m@ == "secret_key must be 32 bytes"@
            },
            _ => r matches Err(VoiceError::Connection(m)) && m@ == "no secret_key in session description"@,
        },
{
    match d.get("secret_key") {
        Some(JsonValue::Array(items)) => {
            let mut key: Vec<u8> = Vec::new();
            let n = items.len();
            let mut i: usize = 0;
            while i < n
                invariant
                    n == items@.len(),
                    i <= n,
                    key@ == key_bytes(items@.subrange(0, i as int)),
                decreases n - i,
            {
                proof {
                    assert(items@.subrange(0, i + 1).drop_last() =~= items@.subrange(0, i as int));
                    assert(items@.subrange(0, i + 1).last() == items@[i as int]);
                }
                match &items[i] {
                    JsonValue::UInt(b) => {
                        key.push((*b % 256) as u8);
                    },
                    _ => {},
                }
                i = i + 1;
            }
            assert(items@.subrange(0, n as int) =~= items@);
            if key.len() != 32 {
                return Err(VoiceError::Connection("secret_key must be 32 bytes".to_owned()));
            }
            Ok(key)
        },
        _ => Err(VoiceError::Connection("no secret_key in session description".to_owned())),
    }
}

// ── Encryption modes ─────────────────────────────────────────────────────

/// The encryption modes the client supports, most preferred first:
/// AES-256-GCM (current) > XChaCha20 > legacy XSalsa20.
pub open spec fn preferred_modes() -> Seq<Seq<char>> {
    seq![
        "aead_aes256_gcm_rtpsize"@,
        "aead_xchacha20_poly1305_rtpsize"@,
        "xsalsa20_poly1305_lite_rtpsize"@,
        "xsalsa20_poly1305_lite"@,
        "xsalsa20_poly1305_suffix"@,
        "xsalsa20_poly1305"@,
    ]
}

fn preferred_mode(i: usize) -> (r: &'static str)
    requires
        i < 6,
    ensures
        r@ == preferred_modes()[i as int],
{
    match i {
        0 => "aead_aes256_gcm_rtpsize",
        1 => "aead_xchacha20_poly1305_rtpsize",
        2 => "xsalsa20_poly1305_lite_rtpsize",
        3 => "xsalsa20_poly1305_lite",
        4 => "xsalsa20_poly1305_suffix",
        _ => "xsalsa20_poly1305",
    }
}

/// What `{:?}` formatting renders a list of strings as.
pub uninterp spec fn debug_strings_text(items: Seq<Seq<char>>) -> Seq<char>;

/// Renders a list of strings with `{:?}` (the standard library's `Debug`
/// for slices of `String`: brackets, quoted and escaped items, `, `
/// between them).  The contract names the result, which depends on the
/// items alone.
#[verifier::external_body]
fn debug_strings(items: &[String]) -> (r: String)
    ensures
        r@ == debug_strings_text(texts(items@)),
{
    format!("{items:?}")
}

/// Choose the best supported encryption mode among those the server
/// offers: the first of [`preferred_modes`] that it offers.
pub fn choose_mode(available: &[String]) -> (r: Result<String, VoiceError>)
    ensures
        match r {
            Ok(m) => exists|i: int| 0 <= i < 6 && m@ == preferred_modes()[i]
                && texts(available@).contains(preferred_modes()[i])
                && forall|j: int| 0 <= j < i ==> !texts(available@).contains(#[trigger] preferred_modes()[j]),
            Err(e) => {
                &&& forall|j: int| 0 <= j < 6 ==> !texts(available@).contains(#[trigger] preferred_modes()[j])
                &&& e matches VoiceError::Connection(msg)
                    && msg@ == "no supported encryption mode in: "@ + debug_strings_text(texts(available@))
            },
        },
{
    let mut p: usize = 0;
    while p < 6
        invariant
            p <= 6,
            forall|j: int| 0 <= j < p ==> !texts(available@).contains(#[trigger] preferred_modes()[j]),
        decreases 6 - p,
    {
        let pref = preferred_mode(p);
        let n = available.len();
        let mut i: usize = 0;
        while i < n
            invariant
                n == available@.len(),
                i <= n,
                p < 6,
                pref@ == preferred_modes()[p as int],
                forall|j: int| 0 <= j < p ==> !texts(available@).contains(#[trigger] preferred_modes()[j]),
                forall|k: int| 0 <= k < i ==> available@[k]@ != pref@,
            decreases n - i,
        {
            if str_eq(available[i].as_str(), pref) {
                proof {
                    assert(texts(available@)[i as int] == pref@);
                    assert(texts(available@).contains(preferred_modes()[p as int]));
                }
                return Ok(pref.to_owned());
            }
            i = i + 1;
        }
        proof {
            if texts(available@).contains(pref@) {
                let k = choose|k: int| 0 <= k < texts(available@).len() && texts(available@)[k] == pref@;
                assert(available@[k]@ == pref@);
            }
        }
        p = p + 1;
    }
    let mut msg = "no supported encryption mode in: ".to_owned();
    let listed = debug_strings(available);
    msg.append(listed.as_str());
    Err(VoiceError::Connection(msg))
}

// ── UDP packets ──────────────────────────────────────────────────────────

/// The big-endian bytes of a 16-bit number.
pub open spec fn be16(x: u16) -> Seq<u8> {
    seq![((x >> 8u16) & 0xff) as u8, (x & 0xff) as u8]
}

/// The big-endian bytes of a 32-bit number.
pub open spec fn be32(x: u32) -> Seq<u8> {
    seq![((x >> 24u32) & 0xff) as u8, ((x >> 16u32) & 0xff) as u8, ((x >> 8u32) & 0xff) as u8, (x & 0xff) as u8]
}

fn push_be16(v: &mut Vec<u8>, x: u16)
    ensures
        final(v)@ == old(v)@ + be16(x),
{
    v.push(((x >> 8u16) & 0xff) as u8);
    v.push((x & 0xff) as u8);
    assert(final(v)@ =~= old(v)@ + be16(x));
}

fn push_be32(v: &mut Vec<u8>, x: u32)
    ensures
        final(v)@ == old(v)@ + be32(x),
{
    v.push(((x >> 24u32) & 0xff) as u8);
    v.push(((x >> 16u32) & 0xff) as u8);
    v.push(((x >> 8u32) & 0xff) as u8);
    v.push((x & 0xff) as u8);
    assert(final(v)@ =~= old(v)@ + be32(x));
}

/// The IP discovery request: type 1 (request), length 70, our SSRC, and 66
/// zero bytes — 74 bytes in all.
pub open spec fn ip_discovery_request_spec(ssrc: u32) -> Seq<u8> {
    seq![0u8, 1u8] + be16(70) + be32(ssrc) + Seq::new(66, |i: int| 0u8)
}

/// Build the IP discovery request packet.
pub fn ip_discovery_request(ssrc: u32) -> (r: Vec<u8>)
    ensures
        r@ == ip_discovery_request_spec(ssrc),
        r@.len() == 74,
{
    let mut v: Vec<u8> = Vec::new();
    v.push(0u8);
    v.push(1u8);
    push_be16(&mut v, 70);
    push_be32(&mut v, ssrc);
    let mut i: usize = 0;
    while i < 66
        invariant
            i <= 66,
            v@ == seq![0u8, 1u8] + be16(70) + be32(ssrc) + Seq::new(i as nat, |k: int| 0u8),
        decreases 66 - i,
    {
        v.push(0u8);
        i = i + 1;
        assert(v@ =~= seq![0u8, 1u8] + be16(70) + be32(ssrc) + Seq::new(i as nat, |k: int| 0u8));
    }
    v
}

/// The number of bytes before the first zero byte (all of them when none
/// is zero).
pub open spec fn until_zero(bytes: Seq<u8>) -> int
    decreases bytes.len(),
{
    if bytes.len() == 0 || bytes[0] == 0 {
        0
    } else {
        1 + until_zero(bytes.drop_first())
    }
}

/// What `String::from_utf8_lossy` makes of a byte string.
pub uninterp spec fn utf8_lossy_text(bytes: Seq<u8>) -> Seq<char>;

/// Converts bytes to a string with `String::from_utf8_lossy`, which
/// replaces each invalid UTF-8 sequence with U+FFFD.  As its documentation
/// says, valid UTF-8 comes out as the text it encodes; otherwise the
/// contract names the result.
#[verifier::external_body]
fn utf8_lossy(bytes: &[u8]) -> (r: String)
    ensures
        r@ == utf8_lossy_text(bytes@),
        valid_utf8(bytes@) ==> r@ == decode_utf8(bytes@),
{
    String::from_utf8_lossy(bytes).into_owned()
}

/// Read the IP discovery answer, of which the first `n` bytes of `buf`
/// were received.  Layout: type (2) | length (2) | SSRC (4) | address (64,
/// zero-terminated) | port (2, big-endian).  Fewer than 74 bytes is an
/// error.
pub fn parse_ip_discovery(buf: &[u8], n: usize) -> (r: Result<(String, u16), VoiceError>)
    requires
        n <= buf@.len(),
    ensures
        n < 74 ==> (r matches Err(VoiceError::Udp(m)) && m@ == "IP discovery response too short: "@ + decimal(n as nat) + " bytes"@),
        n >= 74 ==> (r matches Ok((ip, port)) && {
            let field = buf@.subrange(8, 72);
            &&& ip@ == utf8_lossy_text(field.subrange(0, until_zero(field)))
            &&& port == buf@[72] as u16 * 256 + buf@[73] as u16
        }),
{
    if n < 74 {
        let mut m = "IP discovery response too short: ".to_owned();
        push_decimal(&mut m, n as u64);
        m.append(" bytes");
        return Err(VoiceError::Udp(m));
    }
    let ghost field = buf@.subrange(8, 72);
    let mut end: usize = 8;
    assert(field.subrange(0, 64) =~= field);
    while end < 72 && buf[end] != 0
        invariant
            8 <= end <= 72,
            72 <= buf@.len(),
            field == buf@.subrange(8, 72),
            until_zero(field) == (end - 8) + until_zero(field.subrange(end - 8, 64)),
        decreases 72 - end,
    {
        proof {
            let rest = field.subrange(end - 8, 64);
            assert(rest.drop_first() =~= field.subrange(end - 8 + 1, 64));
        }
        end = end + 1;
    }
    proof {
        let rest = field.subrange(end - 8, 64);
        if end < 72 {
            assert(rest[0] == buf@[end as int]);
        }
        assert(until_zero(rest) == 0);
    }
    let ip_bytes = slice_range(buf, 8, end);
    assert(ip_bytes@ =~= field.subrange(0, until_zero(field)));
    let ip = utf8_lossy(ip_bytes.as_slice());
    let port: u16 = (buf[72] as u16) * 256 + (buf[73] as u16);
    Ok((ip, port))
}

fn slice_range(buf: &[u8], from: usize, to: usize) -> (r: Vec<u8>)
    requires
        from <= to <= buf@.len(),
    ensures
        r@ == buf@.subrange(from as int, to as int),
{
    let mut v: Vec<u8> = Vec::new();
    let mut i: usize = from;
    while i < to
        invariant
            from <= i <= to,
            to <= buf@.len(),
            v@ == buf@.subrange(from as int, i as int),
        decreases to - i,
    {
        v.push(buf[i]);
        i = i + 1;
        assert(v@ =~= buf@.subrange(from as int, i as int));
    }
    v
}

/// A 12-byte RTP header: version 2, no padding, extension or CSRCs, payload
/// type 120 (Opus), then the sequence number, timestamp and SSRC, each
/// big-endian.
pub open spec fn rtp_header_spec(sequence: u16, timestamp: u32, ssrc: u32) -> Seq<u8> {
    seq![0x80u8, 0x78u8] + be16(sequence) + be32(timestamp) + be32(ssrc)
}

/// Build a 12-byte RTP header.
pub fn build_rtp_header(sequence: u16, timestamp: u32, ssrc: u32) -> (r: Vec<u8>)
    ensures
        r@ == rtp_header_spec(sequence, timestamp, ssrc),
        r@.len() == 12,
{
    let mut h: Vec<u8> = Vec::new();
    h.push(0x80u8);
    h.push(0x78u8);
    push_be16(&mut h, sequence);
    push_be32(&mut h, timestamp);
    push_be32(&mut h, ssrc);
    assert(h@ =~= rtp_header_spec(sequence, timestamp, ssrc));
    h
}

/// What AES-256-GCM encryption of `msg` with additional data `aad`,
/// under `key` and `nonce`, gives: the ciphertext followed by the tag.
pub uninterp spec fn aes256gcm_sealed(key: Seq<u8>, nonce: Seq<u8>, msg: Seq<u8>, aad: Seq<u8>) -> Seq<u8>;

/// Encrypts with the `aes-gcm` crate: `Aes256Gcm::new` on the key, then
/// `Aead::encrypt` with the nonce, the message and the additional data.
/// As that crate's source shows, encryption fails exactly when the message
/// or the additional data is longer than 2^36 bytes, and otherwise returns
/// the ciphertext with its 16-byte tag appended; the contract names those
/// bytes, which depend on the four inputs alone.
#[verifier::external_body]
fn aes256gcm_encrypt(key: &[u8; 32], nonce: &[u8; 12], msg: &[u8], aad: &[u8]) -> (r: Option<Vec<u8>>)
    ensures
        r is Some <==> (msg@.len() <= 0x10_0000_0000 && aad@.len() <= 0x10_0000_0000),
        r matches Some(c) ==> c@ == aes256gcm_sealed(key@, nonce@, msg@, aad@) && c@.len() == msg@.len() + 16,
{
    let cipher = aes_gcm::Aes256Gcm::new(aes_gcm::Key::<aes_gcm::Aes256Gcm>::from_slice(key));
    match cipher.encrypt(aes_gcm::Nonce::from_slice(nonce), Payload { msg, aad }) {
        Ok(c) => Some(c),
        Err(_) => None,
    }
}

/// The 12-byte nonce of a packet: the 4-byte big-endian counter followed by
/// eight zero bytes.
pub open spec fn nonce_bytes(counter: u32) -> Seq<u8> {
    be32(counter) + Seq::new(8, |i: int| 0u8)
}

/// Encrypt an Opus frame with `aead_aes256_gcm_rtpsize`.
///
/// Packet layout: RTP header (12) || ciphertext+tag (n+16) || nonce (4).
/// The RTP header is authenticated, not encrypted.
pub fn encrypt_audio(rtp_header: &[u8], opus_data: &[u8], secret_key: &[u8; 32], nonce: u32) -> (r: Result<Vec<u8>, VoiceError>)
    requires
        rtp_header@.len() == 12,
    ensures
        opus_data@.len() <= 0x10_0000_0000 ==> (r matches Ok(p) && p@ == rtp_header@
            + aes256gcm_sealed(secret_key@, nonce_bytes(nonce), opus_data@, rtp_header@) + be32(nonce)),
        opus_data@.len() > 0x10_0000_0000 ==> (r matches Err(VoiceError::Connection(m)) && m@ == "AES-256-GCM encryption failed"@),
{
    let mut nonce_arr: [u8; 12] = [0u8; 12];
    nonce_arr.set(0, ((nonce >> 24u32) & 0xff) as u8);
    nonce_arr.set(1, ((nonce >> 16u32) & 0xff) as u8);
    nonce_arr.set(2, ((nonce >> 8u32) & 0xff) as u8);
    nonce_arr.set(3, (nonce & 0xff) as u8);
    assert(nonce_arr@ =~= nonce_bytes(nonce));
    let ciphertext = match aes256gcm_encrypt(secret_key, &nonce_arr, opus_data, rtp_header) {
        Some(c) => c,
        None => return Err(VoiceError::Connection("AES-256-GCM encryption failed".to_owned())),
    };
    let mut packet: Vec<u8> = Vec::new();
    append_bytes(&mut packet, rtp_header);
    append_bytes(&mut packet, ciphertext.as_slice());
    push_be32(&mut packet, nonce);
    Ok(packet)
}

fn append_bytes(v: &mut Vec<u8>, bytes: &[u8])
    ensures
        final(v)@ == old(v)@ + bytes@,
{
    let n = bytes.len();
    let mut i: usize = 0;
    while i < n
        invariant
            n == bytes@.len(),
            i <= n,
            v@ == old(v)@ + bytes@.subrange(0, i as int),
        decreases n - i,
    {
        v.push(bytes[i]);
        i = i + 1;
        assert(v@ =~= old(v)@ + bytes@.subrange(0, i as int));
    }
    assert(bytes@.subrange(0, n as int) =~= bytes@);
}

/// The counters of an audio sender: the RTP sequence number, the RTP
/// timestamp and the nonce counter, each wrapping around.
#[derive(Debug, Clone, Copy, PartialEq, Eq, Structural)]
pub struct AudioCounters {
    pub sequence: u32,
    pub timestamp: u32,
    pub nonce: u32,
}

/// `x + d` wrapping around at 2^32.
pub open spec fn wrap_add(x: u32, d: u32) -> u32 {
    ((x + d) % 0x1_0000_0000) as u32
}

impl AudioCounters {
    /// Counters that start at zero.
    pub fn new() -> (r: Self)
        ensures
            r == (AudioCounters { sequence: 0, timestamp: 0, nonce: 0 }),
    {
        AudioCounters { sequence: 0, timestamp: 0, nonce: 0 }
    }

    /// Take the sequence number, timestamp and nonce of the next 20 ms
    /// frame, and advance: the sequence and nonce by one, the timestamp by
    /// 960 samples (20 ms at 48 kHz).  The sequence number sent is the low
    /// 16 bits of the counter.
    pub fn next_frame(&mut self) -> (r: (u16, u32, u32))
        ensures
            r == ((old(self).sequence % 0x1_0000) as u16, old(self).timestamp, old(self).nonce),
            *final(self) == (AudioCounters {
                sequence: wrap_add(old(self).sequence, 1),
                timestamp: wrap_add(old(self).timestamp, 960),
                nonce: wrap_add(old(self).nonce, 1),
            }),
    {
        let r = ((self.sequence % 0x1_0000) as u16, self.timestamp, self.nonce);
        self.sequence = self.sequence.wrapping_add(1);
        self.timestamp = self.timestamp.wrapping_add(960);
        self.nonce = self.nonce.wrapping_add(1);
        r
    }
}

// ── The voice event loop ─────────────────────────────────────────────────

/// The `transition_id` of a payload's data, `0` when absent or malformed.
pub open spec fn transition_id_or_zero(payload: JsonValue) -> u64 {
    match payload.get_spec("d"@) {
        Some(d) => u64_or_zero(d, "transition_id"@),
        None => 0,
    }
}

/// The state of the voice event loop: the last sequence number received,
/// which heartbeats acknowledge (`-1` before any).
#[derive(Debug, Clone, Copy, PartialEq, Eq, Structural)]
pub struct VoiceEventLoop {
    pub seq_ack: i64,
}

impl VoiceEventLoop {
    /// A loop that has received nothing yet.
    pub fn new() -> (r: Self)
        ensures
            r.seq_ack == -1,
    {
        VoiceEventLoop { seq_ack: -1 }
    }

    /// Handle one payload of the voice gateway.  A `seq` field updates the
    /// sequence number to acknowledge.  A DAVE Prepare Transition (op 20)
    /// is answered with Transition Ready (op 25) for the same transition;
    /// nothing else needs an answer.
    pub fn handle(&mut self, payload: &JsonValue) -> (r: Option<JsonValue>)
        ensures
            final(self).seq_ack == match payload.get_spec("seq"@) {
                Some(s) => match s.as_i64_spec() {
                    Some(v) => v,
                    None => old(self).seq_ack,
                },
                None => old(self).seq_ack,
            },
            match payload.get_spec("op"@) {
                Some(op) if op.as_u64_spec() == Some(20u64) => r matches Some(p)
                    && p.model() == transition_ready_json(transition_id_or_zero(*payload)),
                _ => r is None,
            },
    {
        match payload.get("seq") {
            Some(s) => match s.as_i64() {
                Some(v) => {
                    self.seq_ack = v;
                },
                None => {},
            },
            None => {},
        }
        let op = match payload.get("op") {
            Some(v) => v.as_u64(),
            None => None,
        };
        match op {
            Some(20) => {
                let transition_id = match payload.get("d") {
                    Some(d) => match d.get("transition_id") {
                        Some(JsonValue::UInt(t)) => *t,
                        _ => 0,
                    },
                    None => 0,
                };
                Some(transition_ready_payload(transition_id))
            },
            _ => None,
        }
    }
}

} // verus!
