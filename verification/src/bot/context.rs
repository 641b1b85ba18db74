//! The payloads a handler's context sends: the gateway Voice State Update
//! that joins, moves or leaves a voice channel, and the body of a plain
//! text message.  The context itself (HTTP client, gateway channel, cache)
//! lives with the application.

use vstd::prelude::*;
use crate::error::Error;
use crate::json::{Json, JsonValue, lemma_members_model, members_model, str_value};
use crate::snowflake::Snowflake;
use crate::text::decimal;

verus! {

/// The Voice State Update payload (gateway op 4): join `channel_id` of
/// `guild_id`, or leave voice when it is `None`.
pub open spec fn voice_state_update_json(guild_id: Snowflake, channel_id: Option<Snowflake>, self_mute: bool, self_deaf: bool) -> Json {
    Json::Object(seq![
        ("op"@, Json::UInt(4)),
        ("d"@, Json::Object(seq![
            ("guild_id"@, Json::Str(decimal(guild_id@ as nat))),
            ("channel_id"@, match channel_id {
                Some(c) => Json::Str(decimal(c@ as nat)),
                None => Json::Null,
            }),
            ("self_mute"@, Json::Bool(self_mute)),
            ("self_deaf"@, Json::Bool(self_deaf)),
        ])),
    ])
}

/// Build the Voice State Update payload (gateway op 4) that joins, moves
/// or leaves a voice channel.
pub fn voice_state_update_payload(guild_id: Snowflake, channel_id: Option<Snowflake>, self_mute: bool, self_deaf: bool) -> (r: JsonValue)
    ensures
        r.model() == voice_state_update_json(guild_id, channel_id, self_mute, self_deaf),
{
    let channel = match channel_id {
        Some(c) => JsonValue::Str(c.to_string()),
        None => JsonValue::Null,
    };
    let ghost cm = channel.model();
    assert(cm == match channel_id {
        Some(c) => Json::Str(decimal(c@ as nat)),
        None => Json::Null,
    });
    let mut d: Vec<(String, JsonValue)> = Vec::new();
    d.push(("guild_id".to_owned(), JsonValue::Str(guild_id.to_string())));
    d.push(("channel_id".to_owned(), channel));
    d.push(("self_mute".to_owned(), JsonValue::Bool(self_mute)));
    d.push(("self_deaf".to_owned(), JsonValue::Bool(self_deaf)));
    proof {
        lemma_members_model(d@);
    }
    let ghost d_expected = seq![
        ("guild_id"@, Json::Str(decimal(guild_id@ as nat))),
        ("channel_id"@, match channel_id {
            Some(c) => Json::Str(decimal(c@ as nat)),
            None => Json::Null,
        }),
        ("self_mute"@, Json::Bool(self_mute)),
        ("self_deaf"@, Json::Bool(self_deaf)),
    ];
    assert(members_model(d@) =~= d_expected);
    let data = JsonValue::Object(d);
    assert(data.model() == Json::Object(d_expected));
    let mut top: Vec<(String, JsonValue)> = Vec::new();
    top.push(("op".to_owned(), JsonValue::UInt(4)));
    top.push(("d".to_owned(), data));
    proof {
        lemma_members_model(top@);
    }
    let ghost top_expected = seq![("op"@, Json::UInt(4)), ("d"@, Json::Object(d_expected))];
    assert(members_model(top@) =~= top_expected);
    let r = JsonValue::Object(top);
    assert(r.model() == Json::Object(top_expected));
    r
}

/// The body of a plain text message: `{"content": content}`.
pub open spec fn content_json(content: Seq<char>) -> Json {
    Json::Object(seq![("content"@, Json::Str(content))])
}

/// Build the body of a plain text message.
pub fn content_body(content: &str) -> (r: JsonValue)
    ensures
        r.model() == content_json(content@),
{
    let mut m: Vec<(String, JsonValue)> = Vec::new();
    m.push(("content".to_owned(), str_value(content)));
    proof {
        lemma_members_model(m@);
    }
    let ghost expected = seq![("content"@, Json::Str(content@))];
    assert(members_model(m@) =~= expected);
    let r = JsonValue::Object(m);
    assert(r.model() == Json::Object(expected));
    r
}

/// The error for a gateway payload sent while no gateway connection is
/// listening.
pub fn gateway_not_connected() -> (e: Error)
    ensures
        e matches Error::Internal(m) && m@ == "gateway not connected"@,
{
    Error::internal("gateway not connected")
}

} // verus!
