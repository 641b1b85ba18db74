use oxidian::error::{Error, GatewayError, HttpError, VoiceError};
use oxidian::intents::Intents;
use oxidian::json::JsonValue;
use oxidian::permissions::Permissions;
use oxidian::snowflake::Snowflake;
use oxidian::text::{parse_u64, u64_to_decimal, chars_of};
use oxidian::utils::mention;
use oxidian::utils::timestamp::{self, TimestampStyle};

#[test]
fn snowflake_text_roundtrip() {
    let s = Snowflake::new(175928847299117063);
    let text = s.to_string();
    assert_eq!(text, "175928847299117063");
    let back = Snowflake::from_str(&text).unwrap();
    assert_eq!(back.get(), 175928847299117063);
}

#[test]
fn snowflake_rejects_malformed_text() {
    assert!(Snowflake::from_str("12a").is_err());
    assert!(Snowflake::from_str("").is_err());
    assert!(Snowflake::from_str("-5").is_err());
}

#[test]
fn snowflake_creation_time() {
    // The ID Discord documents: created 2016-04-30 11:18:25.796 UTC.
    let s = Snowflake::new(175928847299117063);
    assert_eq!(s.created_at_ms(), 1462015105796);
    assert!(s.created_at().is_some());
    assert!(Snowflake::new(0).is_null());
    assert!(!s.is_null());
}

#[test]
fn decimal_parse_roundtrip() {
    for n in [0u64, 7, 10, 999, u64::MAX] {
        assert_eq!(parse_u64(&u64_to_decimal(n)), Some(n));
    }
    assert_eq!(parse_u64("+42"), Some(42));
    assert_eq!(parse_u64("18446744073709551616"), None);
    assert_eq!(parse_u64(" 1"), None);
}

#[test]
fn chars_of_keeps_order() {
    assert_eq!(chars_of("héllo"), vec!['h', 'é', 'l', 'l', 'o']);
}

#[test]
fn permissions_contains_after_union() {
    let perms = Permissions::from_bits_retain(Permissions::SEND_MESSAGES).union(Permissions::from_bits_retain(Permissions::VIEW_CHANNEL));
    assert!(perms.contains(Permissions::from_bits_retain(Permissions::SEND_MESSAGES)));
    assert!(perms.contains(Permissions::from_bits_retain(Permissions::VIEW_CHANNEL)));
    assert!(!perms.contains(Permissions::from_bits_retain(Permissions::ADMINISTRATOR)));
}

#[test]
fn permissions_string_roundtrip() {
    let perms = Permissions::from_bits_retain(Permissions::ADMINISTRATOR | Permissions::KICK_MEMBERS);
    let text = perms.to_string_value();
    assert_eq!(text, "10");
    assert_eq!(Permissions::from_string(&text).bits(), 10);
}

#[test]
fn permissions_truncate_drops_unknown_bits() {
    let p = Permissions::from_bits_truncate(u64::MAX);
    assert!(p.is_all());
    assert!(Permissions::from_bits(1u64 << 63).is_none());
    assert_eq!(Permissions::empty().bits(), 0);
    assert_eq!(Permissions::all().bits().count_ones(), 49);
}

#[test]
fn intents_roundtrip_and_all() {
    let i = Intents::from_bits_retain(Intents::GUILDS | Intents::GUILD_MEMBERS);
    assert_eq!(i.to_u64(), 3);
    assert!(Intents::all().contains(i));
    assert_eq!(Intents::all().bits(), 0x331ffff);
}

#[test]
fn mentions_render() {
    assert_eq!(mention::user(80351110224678912), "<@80351110224678912>");
    assert_eq!(mention::role(42), "<@&42>");
    assert_eq!(mention::channel(7), "<#7>");
    assert_eq!(mention::slash_command("ping", 5), "</ping:5>");
    assert_eq!(mention::slash_subcommand("a", "b", 5), "</a b:5>");
    assert_eq!(mention::custom_emoji("blob", 9), "<:blob:9>");
    assert_eq!(mention::animated_emoji("blob", 9), "<a:blob:9>");
}

#[test]
fn timestamp_markdown() {
    assert_eq!(timestamp::format(1618953600, TimestampStyle::Relative), "<t:1618953600:R>");
    assert_eq!(timestamp::format(0, TimestampStyle::ShortTime), "<t:0:t>");
    assert_eq!(timestamp::creation_ms(175928847299117063), 1462015105796);
    assert_eq!(timestamp::creation_secs(175928847299117063), 1462015105);
}

#[test]
fn error_texts() {
    let e = Error::Http(HttpError::UnexpectedStatus { status: 404, body: "nope".to_owned() });
    assert_eq!(e.to_string(), "HTTP layer error: Discord responded with unexpected HTTP 404: body: nope");
    let g = GatewayError::SessionInvalidated { resumable: true };
    assert_eq!(g.to_string(), "gateway session was invalidated by Discord (resumable: true)");
    assert_eq!(GatewayError::InvalidOpcode(12).to_string(), "received unrecognised or invalid gateway opcode 12");
    assert_eq!(VoiceError::SessionEnded.to_string(), "voice session was terminated by Discord or expired; re-connect required");
    let r = Error::RateLimited { retry_after_ms: 1500, bucket: None };
    assert_eq!(r.to_string(), "rate limited by Discord on bucket '<unknown>'; retry after 1500ms");
    assert!(r.is_rate_limited());
    assert!(!r.is_auth());
    assert!(Error::Auth("x".to_owned()).is_auth());
    match Error::internal("boom") {
        Error::Internal(m) => assert_eq!(m, "boom"),
        _ => panic!("expected an internal error"),
    }
    assert_eq!(Error::from(VoiceError::Udp("x".to_owned())).to_string(), "voice layer error - voice UDP media transport error: x");
}

#[test]
fn json_lookup() {
    let v = JsonValue::Object(vec![
        ("a".to_owned(), JsonValue::UInt(1)),
        ("b".to_owned(), JsonValue::Bool(true)),
        ("a".to_owned(), JsonValue::UInt(2)),
    ]);
    assert_eq!(v.get("a").and_then(|x| x.as_u64()), Some(1));
    assert_eq!(v.get("b").and_then(|x| x.as_bool()), Some(true));
    assert!(v.get("c").is_none());
    assert_eq!(JsonValue::UInt(u64::MAX).as_i64(), None);
    assert_eq!(JsonValue::Int(-3).as_i64(), Some(-3));
}

#[test]
fn snowflakes_order_by_raw_value() {
    assert!(Snowflake::new(3) < Snowflake::new(5));
    assert!(Snowflake::new(5) > Snowflake::new(3));
    assert!(Snowflake::new(5) <= Snowflake::new(5));
    assert!(!(Snowflake::new(5) < Snowflake::new(5)));
    let mut v = vec![Snowflake::new(9), Snowflake::new(1), Snowflake::new(4)];
    v.sort();
    assert_eq!(v.iter().map(|s| s.get()).collect::<Vec<_>>(), vec![1, 4, 9]);
    let early = Snowflake::new(1u64 << 22);
    let late = Snowflake::new(2u64 << 22);
    assert!(early < late);
    assert!(early.created_at_ms() < late.created_at_ms());
}
