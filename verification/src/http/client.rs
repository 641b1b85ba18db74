//! The decisions of the HTTP client for the Discord REST API.
//!
//! The client sends each request at most twice: a `429 Too Many Requests`
//! answer to the first attempt is retried once after the delay Discord
//! asks for.  The application performs the requests; [`on_response`] says
//! what each response leads to and keeps the rate limiter up to date.

use vstd::prelude::*;
use crate::error::{Error, HttpError};
use crate::http::ratelimit::{RateLimitHeaders, RateLimiter, sat_add};
use crate::json::JsonValue;

verus! {

/// Discord REST API base URL (v10).
pub const BASE_URL: &'static str = "https://discord.com/api/v10";

/// The `Authorization` header value for a bot token (given without the
/// `Bot ` prefix).
pub fn authorization(token: &str) -> (r: String)
    ensures
        r@ == "Bot "@ + token@,
{
    let mut s = "Bot ".to_owned();
    s.append(token);
    s
}

/// The `User-Agent` header value for a library version.  Discord requires
/// a meaningful user agent.
pub fn user_agent(version: &str) -> (r: String)
    ensures
        r@ == "DiscordBot (https://github.com/Ferriteworks/Oxidian, "@ + version@ + ")"@,
{
    let mut s = "DiscordBot (https://github.com/Ferriteworks/Oxidian, ".to_owned();
    s.append(version);
    s.append(")");
    s
}

/// What the client does after a response.
#[derive(Debug)]
pub enum ResponseStep {
    /// Wait `sleep_ms`, then send the request again.
    Retry { sleep_ms: u64 },
    /// Wait `sleep_ms`, then fail with `error`.
    Fail { sleep_ms: u64, error: Error },
    /// Decode this text as the response value.
    Decode(String),
}

/// Whether a status code is a success (2xx).
pub open spec fn is_success(status: u16) -> bool {
    200 <= status <= 299
}

/// The delay a 429 answer asks for: its `retry_after`, else one second.
pub open spec fn retry_delay(retry_after_ms: Option<u64>) -> u64 {
    match retry_after_ms {
        Some(ms) => ms,
        None => 1000,
    }
}

/// The structured error of a Discord error body: an object whose `code` is
/// an integer that fits in 32 bits and whose `message` is a string.
pub open spec fn api_error_spec(body: Option<JsonValue>) -> Option<(u32, Seq<char>)> {
    match body {
        Some(v) => match (v.get_spec("code"@), v.get_spec("message"@)) {
            (Some(JsonValue::UInt(code)), Some(JsonValue::Str(message))) => if code <= u32::MAX as u64 {
                Some((code as u32, message@))
            } else {
                None
            },
            _ => None,
        },
        None => None,
    }
}

fn api_error(body: &Option<JsonValue>) -> (r: Option<Error>)
    ensures
        match api_error_spec(*body) {
            Some((code, message)) => r matches Some(Error::Api { code: c, message: m }) && c == code && m@ == message,
            None => r is None,
        },
{
    match body {
        Some(v) => match (v.get("code"), v.get("message")) {
            (Some(JsonValue::UInt(code)), Some(JsonValue::Str(message))) => if *code <= 4_294_967_295u64 {
                Some(Error::Api { code: *code as u32, message: message.clone() })
            } else {
                None
            },
            _ => None,
        },
        None => None,
    }
}

/// Decide what a response leads to, and record its rate-limit headers.
///
/// `attempt` is 0 for the first try and 1 for the retry; `bucket` is the
/// route's bucket; `headers` are the response's rate-limit headers;
/// `retry_after_ms` is the `retry_after` of a JSON body, when it has one;
/// `body_text` is the body and `body_json` the body parsed as JSON, if it
/// parses; `now_ms` is the time on the limiter's clock.
///
/// - On `429`, a global limit pauses all requests through the limiter,
///   otherwise this request sleeps for the delay; the first attempt is then
///   retried and the second fails with [`Error::RateLimited`].
/// - On any other non-2xx status, Discord's structured error body becomes
///   [`Error::Api`], any other body [`HttpError::UnexpectedStatus`].
/// - On success the body is decoded; an empty body decodes as `null`.
pub fn on_response(
    limiter: &mut RateLimiter,
    attempt: u8,
    bucket: &str,
    status: u16,
    headers: &RateLimitHeaders,
    retry_after_ms: Option<u64>,
    body_text: String,
    body_json: Option<JsonValue>,
    now_ms: u64,
) -> (r: ResponseStep)
    requires
        old(limiter).wf(),
        attempt < 2,
    ensures
        final(limiter).wf(),
        status == 429 ==> {
            let delay = retry_delay(retry_after_ms);
            let sleep = if headers.global { 0 } else { delay };
            &&& headers.global ==> final(limiter).global_reset() == Some(sat_add(now_ms, delay))
            &&& attempt == 0 ==> r == ResponseStep::Retry { sleep_ms: sleep }
            &&& attempt == 1 ==> (r matches ResponseStep::Fail { sleep_ms, error: Error::RateLimited { retry_after_ms: ms, bucket: Some(b) } }
                && sleep_ms == sleep && ms == delay && b@ == bucket@)
        },
        status != 429 && !is_success(status) ==> match api_error_spec(body_json) {
            Some((code, message)) => r matches ResponseStep::Fail { sleep_ms, error: Error::Api { code: c, message: m } }
                && sleep_ms == 0 && c == code && m@ == message,
            None => r matches ResponseStep::Fail { sleep_ms, error: Error::Http(HttpError::UnexpectedStatus { status: s, body }) }
                && sleep_ms == 0 && s == status && body@ == body_text@,
        },
        is_success(status) ==> (r matches ResponseStep::Decode(text) && text@ == if body_text@.len() == 0 {
            "null"@
        } else {
            body_text@
        }),
        !(status == 429 && headers.global) ==> {
            &&& final(limiter).global_reset() == (if headers.global {
                match headers.reset_after_ms {
                    Some(after) => Some(sat_add(now_ms, after)),
                    None => old(limiter).global_reset(),
                }
            } else {
                old(limiter).global_reset()
            })
        },
        final(limiter).bucket_map() == if headers.global {
            old(limiter).bucket_map()
        } else {
            match (headers.bucket, headers.limit, headers.remaining, headers.reset_after_ms) {
                (Some(id), Some(limit), Some(remaining), Some(after)) => old(limiter).bucket_map().insert(
                    id@,
                    crate::http::ratelimit::Bucket { limit, remaining, reset_at_ms: sat_add(now_ms, after) },
                ),
                _ => old(limiter).bucket_map(),
            }
        },
{
    limiter.update(headers, now_ms);

    if status == 429 {
        let delay = match retry_after_ms {
            Some(ms) => ms,
            None => 1000,
        };
        let sleep_ms = if headers.global {
            limiter.set_global_retry_after(delay, now_ms);
            0
        } else {
            delay
        };
        if attempt == 0 {
            return ResponseStep::Retry { sleep_ms };
        }
        return ResponseStep::Fail {
            sleep_ms,
            error: Error::RateLimited { retry_after_ms: delay, bucket: Some(bucket.to_owned()) },
        };
    }

    if !(200 <= status && status <= 299) {
        if let Some(e) = api_error(&body_json) {
            return ResponseStep::Fail { sleep_ms: 0, error: e };
        }
        return ResponseStep::Fail {
            sleep_ms: 0,
            error: Error::Http(HttpError::UnexpectedStatus { status, body: body_text }),
        };
    }

    if body_text.as_str().unicode_len() == 0 {
        ResponseStep::Decode("null".to_owned())
    } else {
        ResponseStep::Decode(body_text)
    }
}

/// The error for a successful response whose body does not decode:
/// the decoder's message, then the body.
pub fn decode_error(reason: &str, body: &str) -> (e: Error)
    ensures
        e matches Error::Http(HttpError::Decode(m)) && m@ == reason@ + " — body: "@ + body@,
{
    let mut m = reason.to_owned();
    m.append(" — body: ");
    m.append(body);
    Error::Http(HttpError::Decode(m))
}

} // verus!
