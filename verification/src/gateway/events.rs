//! Typed Discord gateway events and raw payload types.

use vstd::prelude::*;
use crate::json::JsonValue;
use crate::models::guild::Guild;
use crate::models::interaction::Interaction;
use crate::models::message::Message;
use crate::models::user::User;
use crate::snowflake::Snowflake;
use crate::text::str_eq;

verus! {

/// A raw, untyped Discord gateway payload as received over the WebSocket.
///
/// All fields except `op` are optional because their presence depends on the
/// opcode; callers should match on `op` before inspecting the others.
#[derive(Debug)]
pub struct GatewayPayload {
    pub op: u8,
    pub d: Option<JsonValue>,
    pub s: Option<u64>,
    pub t: Option<String>,
}

/// Data payload for opcode 10 (`Hello`).
#[derive(Debug, Clone, Copy, PartialEq, Eq, Structural)]
pub struct HelloData {
    pub heartbeat_interval: u64,
}

/// Data from the READY dispatch event.
#[derive(Debug, Clone)]
pub struct ReadyData {
    pub v: u8,
    pub user: User,
    pub session_id: String,
    pub resume_gateway_url: String,
}

/// Data from a MESSAGE_DELETE event.
#[derive(Debug, Clone)]
pub struct MessageDeleteData {
    pub id: Snowflake,
    pub channel_id: Snowflake,
    pub guild_id: Option<Snowflake>,
}

/// A guild that became unavailable or that the bot left (GUILD_DELETE).
#[derive(Debug, Clone)]
pub struct UnavailableGuild {
    pub id: Snowflake,
    pub unavailable: bool,
}

/// Data from a `VOICE_STATE_UPDATE` dispatch event.
#[derive(Debug)]
pub struct VoiceStateUpdateData {
    pub guild_id: Option<Snowflake>,
    pub channel_id: Option<Snowflake>,
    pub user_id: Snowflake,
    pub session_id: String,
    pub deaf: bool,
    pub mute: bool,
    pub self_deaf: bool,
    pub self_mute: bool,
    pub self_stream: Option<bool>,
    pub self_video: bool,
    pub suppress: bool,
}

impl Clone for VoiceStateUpdateData {
    fn clone(&self) -> (r: Self)
        ensures
            r == *self,
    {
        VoiceStateUpdateData {
            guild_id: self.guild_id,
            channel_id: self.channel_id,
            user_id: self.user_id,
            session_id: self.session_id.clone(),
            deaf: self.deaf,
            mute: self.mute,
            self_deaf: self.self_deaf,
            self_mute: self.self_mute,
            self_stream: self.self_stream,
            self_video: self.self_video,
            suppress: self.suppress,
        }
    }
}

/// Data from a `VOICE_SERVER_UPDATE` dispatch event.
#[derive(Debug, Clone)]
pub struct VoiceServerUpdateData {
    pub token: String,
    pub guild_id: Snowflake,
    pub endpoint: Option<String>,
}

/// A fully parsed Discord dispatch event (opcode 0).
#[derive(Debug, Clone)]
#[non_exhaustive]
pub enum DispatchEvent {
    Ready(ReadyData),
    MessageCreate(Message),
    MessageDelete(MessageDeleteData),
    GuildCreate(Guild),
    GuildUpdate(Guild),
    GuildDelete(UnavailableGuild),
    InteractionCreate(Interaction),
    VoiceStateUpdate(VoiceStateUpdateData),
    VoiceServerUpdate(VoiceServerUpdateData),
    Unknown { name: String, data: JsonValue },
}

/// Which typed event a dispatch's name (`t`) announces.
#[derive(Debug, Clone, Copy, PartialEq, Eq, Structural)]
pub enum DispatchKind {
    Ready,
    MessageCreate,
    MessageDelete,
    GuildCreate,
    GuildUpdate,
    GuildDelete,
    InteractionCreate,
    VoiceStateUpdate,
    VoiceServerUpdate,
    /// Any other name: the event is passed on untyped.
    Unknown,
}

/// The kind of event a dispatch name announces.
pub open spec fn dispatch_kind_spec(name: Seq<char>) -> DispatchKind {
    if name == "READY"@ {
        DispatchKind::Ready
    } else if name == "MESSAGE_CREATE"@ {
        DispatchKind::MessageCreate
    } else if name == "MESSAGE_DELETE"@ {
        DispatchKind::MessageDelete
    } else if name == "GUILD_CREATE"@ {
        DispatchKind::GuildCreate
    } else if name == "GUILD_UPDATE"@ {
        DispatchKind::GuildUpdate
    } else if name == "GUILD_DELETE"@ {
        DispatchKind::GuildDelete
    } else if name == "INTERACTION_CREATE"@ {
        DispatchKind::InteractionCreate
    } else if name == "VOICE_STATE_UPDATE"@ {
        DispatchKind::VoiceStateUpdate
    } else if name == "VOICE_SERVER_UPDATE"@ {
        DispatchKind::VoiceServerUpdate
    } else {
        DispatchKind::Unknown
    }
}

/// The kind of event a dispatch name announces.
pub fn dispatch_kind(name: &str) -> (r: DispatchKind)
    ensures
        r == dispatch_kind_spec(name@),
{
    if str_eq(name, "READY") {
        DispatchKind::Ready
    } else if str_eq(name, "MESSAGE_CREATE") {
        DispatchKind::MessageCreate
    } else if str_eq(name, "MESSAGE_DELETE") {
        DispatchKind::MessageDelete
    } else if str_eq(name, "GUILD_CREATE") {
        DispatchKind::GuildCreate
    } else if str_eq(name, "GUILD_UPDATE") {
        DispatchKind::GuildUpdate
    } else if str_eq(name, "GUILD_DELETE") {
        DispatchKind::GuildDelete
    } else if str_eq(name, "INTERACTION_CREATE") {
        DispatchKind::InteractionCreate
    } else if str_eq(name, "VOICE_STATE_UPDATE") {
        DispatchKind::VoiceStateUpdate
    } else if str_eq(name, "VOICE_SERVER_UPDATE") {
        DispatchKind::VoiceServerUpdate
    } else {
        DispatchKind::Unknown
    }
}

/// The gateway's name for each kind of typed event (`Unknown` has none of
/// its own and is given the empty name).
pub open spec fn kind_name(k: DispatchKind) -> Seq<char> {
    match k {
        DispatchKind::Ready => "READY"@,
        DispatchKind::MessageCreate => "MESSAGE_CREATE"@,
        DispatchKind::MessageDelete => "MESSAGE_DELETE"@,
        DispatchKind::GuildCreate => "GUILD_CREATE"@,
        DispatchKind::GuildUpdate => "GUILD_UPDATE"@,
        DispatchKind::GuildDelete => "GUILD_DELETE"@,
        DispatchKind::InteractionCreate => "INTERACTION_CREATE"@,
        DispatchKind::VoiceStateUpdate => "VOICE_STATE_UPDATE"@,
        DispatchKind::VoiceServerUpdate => "VOICE_SERVER_UPDATE"@,
        DispatchKind::Unknown => Seq::empty(),
    }
}

/// What tells the known dispatch names apart: their lengths, and where two
/// share a length, one character.
proof fn lemma_kind_names_distinct()
    ensures
        forall|j: DispatchKind| j != DispatchKind::Unknown ==> dispatch_kind_spec(#[trigger] kind_name(j)) == j,
{
    reveal_strlit("READY");
    reveal_strlit("MESSAGE_CREATE");
    reveal_strlit("MESSAGE_DELETE");
    reveal_strlit("GUILD_CREATE");
    reveal_strlit("GUILD_UPDATE");
    reveal_strlit("GUILD_DELETE");
    reveal_strlit("INTERACTION_CREATE");
    reveal_strlit("VOICE_STATE_UPDATE");
    reveal_strlit("VOICE_SERVER_UPDATE");
    assert("READY"@.len() == 5);
    assert("MESSAGE_CREATE"@.len() == 14 && "MESSAGE_CREATE"@[8] == 'C');
    assert("MESSAGE_DELETE"@.len() == 14 && "MESSAGE_DELETE"@[8] == 'D');
    assert("GUILD_CREATE"@.len() == 12 && "GUILD_CREATE"@[6] == 'C');
    assert("GUILD_UPDATE"@.len() == 12 && "GUILD_UPDATE"@[6] == 'U');
    assert("GUILD_DELETE"@.len() == 12 && "GUILD_DELETE"@[6] == 'D');
    assert("INTERACTION_CREATE"@.len() == 18 && "INTERACTION_CREATE"@[0] == 'I');
    assert("VOICE_STATE_UPDATE"@.len() == 18 && "VOICE_STATE_UPDATE"@[0] == 'V');
    assert("VOICE_SERVER_UPDATE"@.len() == 19);
}

/// Each known dispatch name is recognised as the kind of the
/// same name, and a name is recognised as a typed kind only if it is that
/// kind's own name; every other name is `Unknown`.
pub proof fn lemma_dispatch_names_recognised(k: DispatchKind, name: Seq<char>)
    ensures
        k != DispatchKind::Unknown ==> dispatch_kind_spec(kind_name(k)) == k,
        dispatch_kind_spec(name) != DispatchKind::Unknown ==> kind_name(dispatch_kind_spec(name)) == name,
        dispatch_kind_spec(name) == DispatchKind::Unknown <==> (forall|j: DispatchKind| j != DispatchKind::Unknown ==> kind_name(j) != name),
{
    lemma_kind_names_distinct();
    if dispatch_kind_spec(name) == DispatchKind::Unknown {
        assert forall|j: DispatchKind| j != DispatchKind::Unknown implies kind_name(j) != name by {
            if kind_name(j) == name {
                assert(dispatch_kind_spec(kind_name(j)) == j);
            }
        }
    } else {
        let j = dispatch_kind_spec(name);
        assert(kind_name(j) == name);
    }
}

impl DispatchEvent {
    /// The kind of a typed event; `Unknown` for an untyped one.
    pub open spec fn kind(self) -> DispatchKind {
        match self {
            DispatchEvent::Ready(_) => DispatchKind::Ready,
            DispatchEvent::MessageCreate(_) => DispatchKind::MessageCreate,
            DispatchEvent::MessageDelete(_) => DispatchKind::MessageDelete,
            DispatchEvent::GuildCreate(_) => DispatchKind::GuildCreate,
            DispatchEvent::GuildUpdate(_) => DispatchKind::GuildUpdate,
            DispatchEvent::GuildDelete(_) => DispatchKind::GuildDelete,
            DispatchEvent::InteractionCreate(_) => DispatchKind::InteractionCreate,
            DispatchEvent::VoiceStateUpdate(_) => DispatchKind::VoiceStateUpdate,
            DispatchEvent::VoiceServerUpdate(_) => DispatchKind::VoiceServerUpdate,
            DispatchEvent::Unknown { .. } => DispatchKind::Unknown,
        }
    }
}

} // verus!
