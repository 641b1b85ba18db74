//! The library's error types: one top-level [`Error`] and the domain errors
//! of the HTTP, gateway and voice layers that convert into it.

use vstd::prelude::*;
use crate::text::{decimal, push_decimal};

verus! {

/// `"true"` or `"false"`.
pub open spec fn bool_text(b: bool) -> Seq<char> {
    if b {
        "true"@
    } else {
        "false"@
    }
}

fn push_bool(s: &mut String, b: bool)
    ensures
        final(s)@ == old(s)@ + bool_text(b),
{
    if b {
        s.append("true");
    } else {
        s.append("false");
    }
}

/// Errors specific to the HTTP / REST layer.
#[derive(Debug, Clone)]
pub enum HttpError {
    /// The underlying HTTP transport layer raised an error (e.g. DNS failure, TLS error, connection refused).
    Request(String),
    /// Discord returned a status code that was not expected for this endpoint.
    UnexpectedStatus { status: u16, body: String },
    /// The response body could not be decoded into the expected type.
    Decode(String),
    /// The HTTP request did not receive a response within the allowed time.
    Timeout,
}

impl HttpError {
    /// The human-readable description of the error.
    pub open spec fn text(self) -> Seq<char> {
        match self {
            HttpError::Request(m) => "HTTP transport error: "@ + m@,
            HttpError::UnexpectedStatus { status, body } => "Discord responded with unexpected HTTP "@
                + decimal(status as nat) + ": body: "@ + body@,
            HttpError::Decode(m) => "failed to decode response body: "@ + m@,
            HttpError::Timeout => "HTTP request timed out waiting for a response from Discord"@,
        }
    }

    /// Renders the error's description.
    pub fn to_string(&self) -> (r: String)
        ensures
            r@ == self.text(),
    {
        match self {
            HttpError::Request(m) => {
                let mut s = "HTTP transport error: ".to_owned();
                s.append(m.as_str());
                s
            },
            HttpError::UnexpectedStatus { status, body } => {
                let mut s = "Discord responded with unexpected HTTP ".to_owned();
                push_decimal(&mut s, *status as u64);
                s.append(": body: ");
                s.append(body.as_str());
                s
            },
            HttpError::Decode(m) => {
                let mut s = "failed to decode response body: ".to_owned();
                s.append(m.as_str());
                s
            },
            HttpError::Timeout => "HTTP request timed out waiting for a response from Discord".to_owned(),
        }
    }
}

/// Errors specific to the WebSocket gateway layer.
#[derive(Debug, Clone)]
pub enum GatewayError {
    /// The WebSocket connection to the Discord gateway could not be established or was unexpectedly dropped.
    Connection(String),
    /// The gateway sent an opcode that is unknown or not valid in the current state.
    InvalidOpcode(u8),
    /// The gateway did not acknowledge a heartbeat within the expected interval; the connection is considered lost.
    HeartbeatTimeout,
    /// Discord invalidated the current session.  If `resumable` is `true` a RESUME is possible; otherwise a fresh IDENTIFY is required.
    SessionInvalidated { resumable: bool },
    /// The gateway is rate-limiting identify / send operations for this shard.
    RateLimited,
    /// A DISPATCH event arrived with a `t` field that this library does not recognise.
    UnknownEvent(String),
}

impl GatewayError {
    /// The human-readable description of the error.
    pub open spec fn text(self) -> Seq<char> {
        match self {
            GatewayError::Connection(m) => "gateway WebSocket connection error: "@ + m@,
            GatewayError::InvalidOpcode(op) => "received unrecognised or invalid gateway opcode "@
                + decimal(op as nat),
            GatewayError::HeartbeatTimeout => "gateway heartbeat was not acknowledged within the expected interval: connection presumed lost"@,
            GatewayError::SessionInvalidated { resumable } => "gateway session was invalidated by Discord (resumable: "@
                + bool_text(resumable) + ")"@,
            GatewayError::RateLimited => "gateway rate-limited this shard's identify or send operation"@,
            GatewayError::UnknownEvent(name) => "received unrecognised gateway dispatch event type '"@
                + name@ + "'"@,
        }
    }

    /// Renders the error's description.
    pub fn to_string(&self) -> (r: String)
        ensures
            r@ == self.text(),
    {
        match self {
            GatewayError::Connection(m) => {
                let mut s = "gateway WebSocket connection error: ".to_owned();
                s.append(m.as_str());
                s
            },
            GatewayError::InvalidOpcode(op) => {
                let mut s = "received unrecognised or invalid gateway opcode ".to_owned();
                push_decimal(&mut s, *op as u64);
                s
            },
            GatewayError::HeartbeatTimeout => "gateway heartbeat was not acknowledged within the expected interval: connection presumed lost".to_owned(),
            GatewayError::SessionInvalidated { resumable } => {
                let mut s = "gateway session was invalidated by Discord (resumable: ".to_owned();
                push_bool(&mut s, *resumable);
                s.append(")");
                s
            },
            GatewayError::RateLimited => "gateway rate-limited this shard's identify or send operation".to_owned(),
            GatewayError::UnknownEvent(name) => {
                let mut s = "received unrecognised gateway dispatch event type '".to_owned();
                s.append(name.as_str());
                s.append("'");
                s
            },
        }
    }
}

/// Errors specific to the voice layer (including DAVE E2EE).
#[derive(Debug, Clone)]
pub enum VoiceError {
    /// The WebSocket signalling connection to Discord's voice server failed.
    Connection(String),
    /// The UDP media transport encountered an error (e.g. socket bind failure, send/recv error).
    Udp(String),
    /// An error in the DAVE end-to-end encryption protocol (key exchange, ratchet, or decryption failure).
    Dave(String),
    /// The voice session was terminated or expired; a new session must be negotiated.
    SessionEnded,
}

impl VoiceError {
    /// The human-readable description of the error.
    pub open spec fn text(self) -> Seq<char> {
        match self {
            VoiceError::Connection(m) => "voice WebSocket signalling connection error: "@ + m@,
            VoiceError::Udp(m) => "voice UDP media transport error: "@ + m@,
            VoiceError::Dave(m) => "DAVE E2EE protocol error: "@ + m@,
            VoiceError::SessionEnded => "voice session was terminated by Discord or expired; re-connect required"@,
        }
    }

    /// Renders the error's description.
    pub fn to_string(&self) -> (r: String)
        ensures
            r@ == self.text(),
    {
        match self {
            VoiceError::Connection(m) => {
                let mut s = "voice WebSocket signalling connection error: ".to_owned();
                s.append(m.as_str());
                s
            },
            VoiceError::Udp(m) => {
                let mut s = "voice UDP media transport error: ".to_owned();
                s.append(m.as_str());
                s
            },
            VoiceError::Dave(m) => {
                let mut s = "DAVE E2EE protocol error: ".to_owned();
                s.append(m.as_str());
                s
            },
            VoiceError::SessionEnded => "voice session was terminated by Discord or expired; re-connect required".to_owned(),
        }
    }
}

/// The top-level error type for the entire library.
///
/// Every layer converts its own domain error into a variant here so that
/// callers only ever need to handle one error type at the boundary.
#[derive(Debug, Clone)]
pub enum Error {
    /// An error from the HTTP client or Discord REST API layer.
    Http(HttpError),
    /// An error from the WebSocket gateway layer (connection, dispatch, heartbeat).
    Gateway(GatewayError),
    /// An error from the voice layer (WebSocket signalling, UDP media, DAVE E2EE).
    Voice(VoiceError),
    /// A JSON (de)serialisation failure while processing a Discord payload,
    /// with the decoder's description of what went wrong.
    Serialization(String),
    /// Discord returned a non-2xx response with a structured JSON error body.
    Api {
        /// Discord JSON error code.
        code: u32,
        /// Human-readable message returned by Discord.
        message: String,
    },
    /// The requested resource does not exist on Discord or could not be found locally.
    NotFound(String),
    /// The supplied snowflake or identifier was missing, malformed, or out of range.
    InvalidId(String),
    /// The bot or user lacks the Discord permissions required to perform this action.
    MissingPermissions(String),
    /// The bot token is absent, has been revoked, or failed Discord's verification.
    Auth(String),
    /// A Discord rate-limit was hit.  The request was not retried.
    RateLimited {
        /// How long the caller must wait before retrying, in milliseconds.
        retry_after_ms: u64,
        /// The rate-limit bucket that was exhausted, if reported by Discord.
        bucket: Option<String>,
    },
    /// An unexpected internal error that does not fit any other category.
    Internal(String),
    /// An unexpected error that does not fit any other category (e.g. a dependency failure).
    Unexpected(String),
}

/// The bucket name shown in a rate-limit message.
pub open spec fn bucket_text(bucket: Option<String>) -> Seq<char> {
    match bucket {
        Some(b) => b@,
        None => "<unknown>"@,
    }
}

impl Error {
    /// The human-readable description of the error.
    pub open spec fn text(self) -> Seq<char> {
        match self {
            Error::Http(e) => "HTTP layer error: "@ + e.text(),
            Error::Gateway(e) => "gateway layer error: "@ + e.text(),
            Error::Voice(e) => "voice layer error - "@ + e.text(),
            Error::Serialization(m) => "failed to (de)serialize Discord payload: "@ + m@,
            Error::Api { code, message } => "Discord API returned error "@ + decimal(code as nat)
                + ": "@ + message@,
            Error::NotFound(m) => "resource not found: "@ + m@,
            Error::InvalidId(m) => "invalid or malformed ID: "@ + m@,
            Error::MissingPermissions(m) => "missing required permissions to perform this action: "@
                + m@,
            Error::Auth(m) => "authentication failed; check that the bot token is correct and has not been revoked: "@
                + m@,
            Error::RateLimited { retry_after_ms, bucket } => "rate limited by Discord on bucket '"@
                + bucket_text(bucket) + "'; retry after "@ + decimal(retry_after_ms as nat) + "ms"@,
            Error::Internal(m) => "unexpected internal error: "@ + m@,
            Error::Unexpected(m) => "unexpected error: "@ + m@,
        }
    }

    /// Renders the error's description.
    pub fn to_string(&self) -> (r: String)
        ensures
            r@ == self.text(),
    {
        match self {
            Error::Http(e) => {
                let mut s = "HTTP layer error: ".to_owned();
                let t = e.to_string();
                s.append(t.as_str());
                s
            },
            Error::Gateway(e) => {
                let mut s = "gateway layer error: ".to_owned();
                let t = e.to_string();
                s.append(t.as_str());
                s
            },
            Error::Voice(e) => {
                let mut s = "voice layer error - ".to_owned();
                let t = e.to_string();
                s.append(t.as_str());
                s
            },
            Error::Serialization(m) => {
                let mut s = "failed to (de)serialize Discord payload: ".to_owned();
                s.append(m.as_str());
                s
            },
            Error::Api { code, message } => {
                let mut s = "Discord API returned error ".to_owned();
                push_decimal(&mut s, *code as u64);
                s.append(": ");
                s.append(message.as_str());
                s
            },
            Error::NotFound(m) => {
                let mut s = "resource not found: ".to_owned();
                s.append(m.as_str());
                s
            },
            Error::InvalidId(m) => {
                let mut s = "invalid or malformed ID: ".to_owned();
                s.append(m.as_str());
                s
            },
            Error::MissingPermissions(m) => {
                let mut s = "missing required permissions to perform this action: ".to_owned();
                s.append(m.as_str());
                s
            },
            Error::Auth(m) => {
                let mut s = "authentication failed; check that the bot token is correct and has not been revoked: ".to_owned();
                s.append(m.as_str());
                s
            },
            Error::RateLimited { retry_after_ms, bucket } => {
                let mut s = "rate limited by Discord on bucket '".to_owned();
                match bucket {
                    Some(b) => s.append(b.as_str()),
                    None => s.append("<unknown>"),
                }
                s.append("'; retry after ");
                push_decimal(&mut s, *retry_after_ms);
                s.append("ms");
                s
            },
            Error::Internal(m) => {
                let mut s = "unexpected internal error: ".to_owned();
                s.append(m.as_str());
                s
            },
            Error::Unexpected(m) => {
                let mut s = "unexpected error: ".to_owned();
                s.append(m.as_str());
                s
            },
        }
    }

    /// Convenience constructor for [`Error::Internal`].
    pub fn internal(msg: &str) -> (r: Self)
        ensures
            r matches Error::Internal(m) && m@ == msg@,
    {
        Error::Internal(msg.to_owned())
    }

    /// Returns `true` if the error is a rate-limit response.
    pub fn is_rate_limited(&self) -> (r: bool)
        ensures
            r == (*self is RateLimited),
    {
        match self {
            Error::RateLimited { .. } => true,
            _ => false,
        }
    }

    /// Returns `true` if the error is an authentication failure.
    pub fn is_auth(&self) -> (r: bool)
        ensures
            r == (*self is Auth),
    {
        match self {
            Error::Auth(_) => true,
            _ => false,
        }
    }
}

impl From<HttpError> for Error {
    fn from(e: HttpError) -> (r: Self) {
        Error::Http(e)
    }
}

impl vstd::std_specs::convert::FromSpecImpl<HttpError> for Error {
    open spec fn obeys_from_spec() -> bool {
        true
    }

    open spec fn from_spec(e: HttpError) -> Error {
        Error::Http(e)
    }
}

impl From<GatewayError> for Error {
    fn from(e: GatewayError) -> (r: Self) {
        Error::Gateway(e)
    }
}

impl vstd::std_specs::convert::FromSpecImpl<GatewayError> for Error {
    open spec fn obeys_from_spec() -> bool {
        true
    }

    open spec fn from_spec(e: GatewayError) -> Error {
        Error::Gateway(e)
    }
}

impl From<VoiceError> for Error {
    fn from(e: VoiceError) -> (r: Self) {
        Error::Voice(e)
    }
}

impl vstd::std_specs::convert::FromSpecImpl<VoiceError> for Error {
    open spec fn obeys_from_spec() -> bool {
        true
    }

    open spec fn from_spec(e: VoiceError) -> Error {
        Error::Voice(e)
    }
}

} // verus!
