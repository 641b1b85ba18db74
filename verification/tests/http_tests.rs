use oxidian::error::{Error, HttpError};
use oxidian::http::client::{authorization, decode_error, on_response, user_agent, ResponseStep, BASE_URL};
use oxidian::http::ratelimit::{parse_u32, Bucket, RateLimitHeaders, RateLimiter};
use oxidian::http::routes::{Method, Route};
use oxidian::json::JsonValue;
use oxidian::snowflake::Snowflake;

fn sf(n: u64) -> Snowflake {
    Snowflake::new(n)
}

#[test]
fn route_urls() {
    assert_eq!(BASE_URL, "https://discord.com/api/v10");
    let r = Route::GetMessage { channel_id: sf(1), message_id: sf(2) };
    assert_eq!(r.url(), "https://discord.com/api/v10/channels/1/messages/2");
    assert_eq!(r.method(), Method::Get);
    assert_eq!(r.bucket(), "channel:1");
    let r = Route::CreateInteractionResponse { interaction_id: sf(9), interaction_token: "tok".to_owned() };
    assert_eq!(r.url(), "https://discord.com/api/v10/interactions/9/tok/callback");
    assert_eq!(r.method(), Method::Post);
    assert_eq!(r.bucket(), "interaction");
    let r = Route::DeleteGuildCommand { application_id: sf(3), guild_id: sf(4), command_id: sf(5) };
    assert_eq!(r.url(), "https://discord.com/api/v10/applications/3/guilds/4/commands/5");
    assert_eq!(r.method(), Method::Delete);
    assert_eq!(r.bucket(), "application:3:guild:4:commands");
    assert_eq!(Route::GetCurrentUser.url(), "https://discord.com/api/v10/users/@me");
    assert_eq!(Route::GetCurrentUser.bucket(), "global");
    let r = Route::EditOriginalInteractionResponse { application_id: sf(8), interaction_token: "t".to_owned() };
    assert_eq!(r.url(), "https://discord.com/api/v10/webhooks/8/t/messages/@original");
    assert_eq!(r.method(), Method::Patch);
    assert_eq!(r.bucket(), "webhook:8");
    assert_eq!(Route::JoinThread { thread_id: sf(6) }.method(), Method::Put);
    assert_eq!(Route::ListScheduledEvents { guild_id: sf(2) }.bucket(), "guild:2:events");
}

#[test]
fn routes_on_one_channel_share_a_bucket() {
    let a = Route::CreateMessage { channel_id: sf(77) };
    let b = Route::DeleteMessage { channel_id: sf(77), message_id: sf(1) };
    let c = Route::AddThreadMember { thread_id: sf(77), user_id: sf(2) };
    assert_eq!(a.bucket(), b.bucket());
    assert_eq!(a.bucket(), c.bucket());
    assert_ne!(a.bucket(), Route::CreateMessage { channel_id: sf(78) }.bucket());
}

#[test]
fn header_values() {
    assert_eq!(authorization("abc"), "Bot abc");
    assert_eq!(user_agent("1.2.3"), "DiscordBot (https://github.com/Ferriteworks/Oxidian, 1.2.3)");
    assert_eq!(parse_u32("4294967295"), Some(u32::MAX));
    assert_eq!(parse_u32("4294967296"), None);
    let h = RateLimitHeaders::from_values(Some("b1".to_owned()), Some("5"), Some("x"), Some(250), Some("true"), None);
    assert_eq!(h.limit, Some(5));
    assert_eq!(h.remaining, None);
    assert!(h.global);
    let h = RateLimitHeaders::from_values(None, None, None, None, Some("TRUE"), None);
    assert!(!h.global);
}

#[test]
fn bucket_exhaustion() {
    let b = Bucket { limit: 5, remaining: 0, reset_at_ms: 1000 };
    assert!(b.is_exhausted(999));
    assert!(!b.is_exhausted(1000));
    assert_eq!(b.time_until_reset(400), Some(600));
    assert_eq!(b.time_until_reset(1000), None);
    let c = Bucket { limit: 5, remaining: 1, reset_at_ms: 1000 };
    assert!(!c.is_exhausted(0));
}

fn headers(bucket: &str, remaining: u32, after: u64, global: bool) -> RateLimitHeaders {
    RateLimitHeaders {
        bucket: Some(bucket.to_owned()),
        limit: Some(5),
        remaining: Some(remaining),
        reset_after_ms: Some(after),
        global,
        scope: None,
    }
}

#[test]
fn limiter_waits_what_headers_report() {
    let mut rl = RateLimiter::new();
    assert_eq!(rl.bucket_wait(Some("b"), 0), None);
    rl.update(&headers("b", 0, 2000, false), 100);
    assert_eq!(rl.bucket_wait(Some("b"), 100), Some(2000));
    assert_eq!(rl.bucket_wait(Some("b"), 2100), None);
    assert_eq!(rl.bucket_wait(Some("other"), 100), None);
    assert_eq!(rl.bucket_wait(None, 100), None);
    rl.update(&headers("b", 3, 2000, false), 200);
    assert_eq!(rl.bucket_wait(Some("b"), 200), None);
    assert_eq!(rl.bucket("b").map(|b| b.remaining), Some(3));
    assert_eq!(rl.global_wait(0), None);
    rl.update(&headers("g", 0, 500, true), 1000);
    assert_eq!(rl.global_wait(1200), Some(300));
    assert!(rl.bucket("g").is_none());
    rl.set_global_retry_after(50, 2000);
    assert_eq!(rl.global_wait(2000), Some(50));
    let mut partial = RateLimitHeaders::default();
    partial.bucket = Some("p".to_owned());
    rl.update(&partial, 0);
    assert!(rl.bucket("p").is_none());
}

#[test]
fn too_many_requests_is_retried_once() {
    let mut rl = RateLimiter::new();
    let h = RateLimitHeaders::default();
    match on_response(&mut rl, 0, "channel:1", 429, &h, Some(750), String::new(), None, 0) {
        ResponseStep::Retry { sleep_ms } => assert_eq!(sleep_ms, 750),
        _ => panic!("expected a retry"),
    }
    match on_response(&mut rl, 1, "channel:1", 429, &h, None, String::new(), None, 0) {
        ResponseStep::Fail { sleep_ms, error: Error::RateLimited { retry_after_ms, bucket } } => {
            assert_eq!(sleep_ms, 1000);
            assert_eq!(retry_after_ms, 1000);
            assert_eq!(bucket.as_deref(), Some("channel:1"));
        }
        _ => panic!("expected a failure"),
    }
    let global = headers("x", 0, 10, true);
    match on_response(&mut rl, 0, "channel:1", 429, &global, Some(300), String::new(), None, 5) {
        ResponseStep::Retry { sleep_ms } => assert_eq!(sleep_ms, 0),
        _ => panic!("expected a retry"),
    }
    assert_eq!(rl.global_wait(5), Some(300));
}

#[test]
fn error_statuses() {
    let mut rl = RateLimiter::new();
    let h = RateLimitHeaders::default();
    let body = JsonValue::Object(vec![
        ("message".to_owned(), JsonValue::Str("Unknown Channel".to_owned())),
        ("code".to_owned(), JsonValue::UInt(10003)),
    ]);
    match on_response(&mut rl, 0, "b", 404, &h, None, "{...}".to_owned(), Some(body), 0) {
        ResponseStep::Fail { error: Error::Api { code, message }, .. } => {
            assert_eq!(code, 10003);
            assert_eq!(message, "Unknown Channel");
        }
        _ => panic!("expected an API error"),
    }
    match on_response(&mut rl, 0, "b", 502, &h, None, "bad gateway".to_owned(), None, 0) {
        ResponseStep::Fail { error: Error::Http(HttpError::UnexpectedStatus { status, body }), .. } => {
            assert_eq!(status, 502);
            assert_eq!(body, "bad gateway");
        }
        _ => panic!("expected an unexpected status"),
    }
    match on_response(&mut rl, 0, "b", 204, &h, None, String::new(), None, 0) {
        ResponseStep::Decode(t) => assert_eq!(t, "null"),
        _ => panic!("expected a decode"),
    }
    match on_response(&mut rl, 0, "b", 200, &h, None, "{}".to_owned(), None, 0) {
        ResponseStep::Decode(t) => assert_eq!(t, "{}"),
        _ => panic!("expected a decode"),
    }
    match decode_error("bad", "x") {
        Error::Http(HttpError::Decode(m)) => assert_eq!(m, "bad — body: x"),
        _ => panic!("expected a decode error"),
    }
}
