//! Messages and the payload for sending one.

use vstd::prelude::*;
use vstd::std_specs::convert::{FromSpecImpl, TryFromSpecImpl};
use crate::json::JsonValue;
use crate::models::allowed_mentions::AllowedMentions;
use crate::models::embed::Embed;
use crate::models::emoji::Emoji;
use crate::models::user::User;
use crate::snowflake::Snowflake;
use crate::text::{code_message, decimal};

verus! {

/// A file attached to a Discord message.
#[derive(Debug, Clone)]
pub struct Attachment {
    /// The attachment's snowflake ID.
    pub id: Snowflake,
    /// The file name.
    pub filename: String,
    /// The size in bytes.
    pub size: u64,
    /// Where the file can be downloaded.
    pub url: String,
    /// The proxied download URL.
    pub proxy_url: String,
    /// Image width in pixels.
    pub width: Option<u32>,
    /// Image height in pixels.
    pub height: Option<u32>,
    /// The media type.
    pub content_type: Option<String>,
    /// Alt text.
    pub description: Option<String>,
}

/// A reaction entry on a Discord message.
#[derive(Debug, Clone)]
pub struct Reaction {
    /// How many times the emoji was used.
    pub count: u32,
    /// Whether the current user reacted with it.
    pub me: bool,
    /// The emoji.
    pub emoji: Emoji,
}

/// Controls what type of reference a [`MessageReference`] is.
#[derive(Debug, Clone, Copy, PartialEq, Eq, Structural)]
pub enum MessageReferenceType {
    /// A standard reply (default).
    Default,
    /// A forwarded message.
    Forward,
}

impl MessageReferenceType {
    /// The wire code of this reference type.
    pub open spec fn code_spec(self) -> u8 {
        match self {
            MessageReferenceType::Default => 0u8,
            MessageReferenceType::Forward => 1u8,
        }
    }

    /// The value with wire code `v`, if there is one.
    pub open spec fn from_code_spec(v: u8) -> Option<MessageReferenceType> {
        if v == 0u8 {
            Some(MessageReferenceType::Default)
        } else if v == 1u8 {
            Some(MessageReferenceType::Forward)
        } else {
            None
        }
    }
}

impl TryFrom<u8> for MessageReferenceType {
    type Error = String;

    fn try_from(v: u8) -> (r: Result<Self, String>)
        ensures
            match MessageReferenceType::from_code_spec(v) {
                Some(k) => r == Ok::<MessageReferenceType, String>(k),
                None => r is Err && r->Err_0@ == "unknown message reference type: "@ + decimal(v as nat),
            },
    {
        match v {
            0 => Ok(MessageReferenceType::Default),
            1 => Ok(MessageReferenceType::Forward),
            _ => Err(code_message("unknown message reference type: ", v)),
        }
    }
}

/// The contract of `try_from` is stated on the function itself, error text
/// included; this spec is not relied on.
impl TryFromSpecImpl<u8> for MessageReferenceType {
    open spec fn obeys_try_from_spec() -> bool {
        false
    }

    open spec fn try_from_spec(v: u8) -> Result<MessageReferenceType, String> {
        match MessageReferenceType::from_code_spec(v) {
            Some(k) => Ok(k),
            None => Err(arbitrary()),
        }
    }
}

impl From<MessageReferenceType> for u8 {
    fn from(v: MessageReferenceType) -> (r: u8)
        ensures
            r == v.code_spec(),
    {
        match v {
            MessageReferenceType::Default => 0,
            MessageReferenceType::Forward => 1,
        }
    }
}

impl FromSpecImpl<MessageReferenceType> for u8 {
    open spec fn obeys_from_spec() -> bool {
        true
    }

    open spec fn from_spec(v: MessageReferenceType) -> u8 {
        v.code_spec()
    }
}

impl Default for MessageReferenceType {
    fn default() -> (r: Self)
        ensures
            r == MessageReferenceType::Default,
    {
        MessageReferenceType::Default
    }
}

/// Every reference type has exactly one wire code: decoding a value's code gives the
/// value back, and a code that decodes names a value with that code.
pub proof fn lemma_message_reference_type_code_roundtrip(k: MessageReferenceType, v: u8)
    ensures
        MessageReferenceType::from_code_spec(k.code_spec()) == Some(k),
        MessageReferenceType::from_code_spec(v) matches Some(j) ==> j.code_spec() == v,
{
}

/// A reference to another message (for replies and forwards).
#[derive(Debug)]
pub struct MessageReference {
    /// The type of reference (reply or forward).
    pub kind: Option<MessageReferenceType>,
    /// The ID of the message being referenced.
    pub message_id: Option<Snowflake>,
    /// The channel the referenced message exists in.
    pub channel_id: Option<Snowflake>,
    /// The guild the referenced message exists in.
    pub guild_id: Option<Snowflake>,
    /// Whether to error if the referenced message doesn't exist (default `true`).
    /// Only applies to replies.
    pub fail_if_not_exists: Option<bool>,
}

impl Clone for MessageReference {
    fn clone(&self) -> (r: Self)
        ensures
            r == *self,
    {
        MessageReference {
            kind: self.kind,
            message_id: self.message_id,
            channel_id: self.channel_id,
            guild_id: self.guild_id,
            fail_if_not_exists: self.fail_if_not_exists,
        }
    }
}

/// A snapshot of a forwarded message.
#[derive(Debug, Clone)]
pub struct MessageSnapshot {
    /// Partial message object — contains content, embeds, attachments, etc.
    pub message: MessageSnapshotData,
}

/// Partial message data included in a forwarded message snapshot.
#[derive(Debug, Clone)]
pub struct MessageSnapshotData {
    /// The message content.
    pub content: String,
    /// Embeds from the original message.
    pub embeds: Vec<Embed>,
    /// Attachments from the original message.
    pub attachments: Vec<Attachment>,
    /// Timestamp of the original message.
    pub timestamp: Option<String>,
    /// Timestamp when the original message was edited.
    pub edited_timestamp: Option<String>,
    /// Message flags from the original message.
    pub flags: Option<u64>,
    /// Sticker items from the original message.
    pub sticker_items: Vec<JsonValue>,
    /// Components from the original message.
    pub components: Vec<JsonValue>,
}

/// A Discord message.
#[derive(Debug)]
pub struct Message {
    /// The message's unique snowflake ID.
    pub id: Snowflake,
    /// The channel this message was sent in.
    pub channel_id: Snowflake,
    /// The guild this message was sent in, if any.
    pub guild_id: Option<Snowflake>,
    /// The user who authored this message.
    pub author: User,
    /// The message content as a plain string.
    pub content: String,
    /// ISO 8601 timestamp of when the message was sent.
    pub timestamp: String,
    /// ISO 8601 timestamp of when the message was last edited, if ever.
    pub edited_timestamp: Option<String>,
    /// Whether this was a text-to-speech message.
    pub tts: bool,
    /// Whether this message mentioned `@everyone` or `@here`.
    pub mention_everyone: bool,
    /// Users explicitly mentioned in this message.
    pub mentions: Vec<User>,
    /// Whether this message is pinned in its channel.
    pub pinned: bool,
    /// The message type integer.
    pub kind: u8,
    /// Message flags bitfield.
    pub flags: Option<u64>,
    /// Reference data for replies / forwards.
    pub message_reference: Option<MessageReference>,
    /// The message this one is replying to (partial, only for replies).
    pub referenced_message: Option<Box<Message>>,
    /// Snapshots of forwarded messages.
    pub message_snapshots: Vec<MessageSnapshot>,
    /// Embeds attached to this message.
    pub embeds: Vec<Embed>,
    /// File attachments.
    pub attachments: Vec<Attachment>,
    /// Components attached to this message.
    pub components: Vec<JsonValue>,
    /// Sticker items sent with the message.
    pub sticker_items: Vec<JsonValue>,
    /// Reactions on the message.
    pub reactions: Vec<Reaction>,
    /// The thread that was started from this message, if any.
    pub thread: Option<JsonValue>,
}

impl Message {
    /// A copy of the message, the message it replies to included.
    pub fn deep_copy(&self) -> (r: Message)
        ensures
            r.id == self.id,
            r.channel_id == self.channel_id,
            r.guild_id == self.guild_id,
            r.author == self.author,
            r.content == self.content,
            r.timestamp == self.timestamp,
            r.edited_timestamp == self.edited_timestamp,
            r.tts == self.tts,
            r.mention_everyone == self.mention_everyone,
            r.mentions@ == self.mentions@,
            r.pinned == self.pinned,
            r.kind == self.kind,
            r.flags == self.flags,
            r.message_reference == self.message_reference,
        decreases self,
    {
        let referenced_message = match &self.referenced_message {
            Some(b) => {
                assert(decreases_to!(*self => self.referenced_message));
                Some(Box::new(b.deep_copy()))
            },
            None => None,
        };
        let mentions = self.mentions.clone();
        assert(mentions@ =~= self.mentions@);
        Message {
            id: self.id,
            channel_id: self.channel_id,
            guild_id: self.guild_id,
            author: self.author.clone(),
            content: self.content.clone(),
            timestamp: self.timestamp.clone(),
            edited_timestamp: self.edited_timestamp.clone(),
            tts: self.tts,
            mention_everyone: self.mention_everyone,
            mentions,
            pinned: self.pinned,
            kind: self.kind,
            flags: self.flags,
            message_reference: self.message_reference.clone(),
            referenced_message,
            message_snapshots: self.message_snapshots.clone(),
            embeds: self.embeds.clone(),
            attachments: self.attachments.clone(),
            components: self.components.clone(),
            sticker_items: self.sticker_items.clone(),
            reactions: self.reactions.clone(),
            thread: self.thread.clone(),
        }
    }
}

impl Clone for Message {
    fn clone(&self) -> (r: Self)
        ensures
            r.id == self.id,
            r.channel_id == self.channel_id,
            r.guild_id == self.guild_id,
            r.author == self.author,
            r.content == self.content,
            r.timestamp == self.timestamp,
            r.edited_timestamp == self.edited_timestamp,
            r.tts == self.tts,
            r.mention_everyone == self.mention_everyone,
            r.mentions@ == self.mentions@,
            r.pinned == self.pinned,
            r.kind == self.kind,
            r.flags == self.flags,
            r.message_reference == self.message_reference,
    {
        self.deep_copy()
    }
}

/// Payload for creating a new message via the Discord REST API.
#[derive(Debug, Clone)]
pub struct CreateMessage {
    /// Text content of the message.
    pub content: Option<String>,
    /// Up to 10 embeds.
    pub embeds: Vec<Embed>,
    /// Top-level components (action rows for v1, or v2 layout primitives).
    pub components: Vec<JsonValue>,
    /// Message flags (e.g. `64` for ephemeral, `32768` for components v2).
    pub flags: Option<u64>,
    /// Reference to another message (for replies and forwards).
    pub message_reference: Option<MessageReference>,
    /// Sticker IDs to include (max 3).
    pub sticker_ids: Vec<Snowflake>,
    /// Allowed mentions configuration.
    pub allowed_mentions: Option<AllowedMentions>,
    /// Whether this is a TTS message.
    pub tts: Option<bool>,
    /// A poll attached to this message.
    pub poll: Option<JsonValue>,
}

/// The message flag that turns on the components v2 layout.
pub const IS_COMPONENTS_V2: u64 = 32768;

impl CreateMessage {
    /// Whether the payload sets nothing.
    pub open spec fn is_blank(self) -> bool {
        &&& self.content is None
        &&& self.embeds@.len() == 0
        &&& self.components@.len() == 0
        &&& self.flags is None
        &&& self.message_reference is None
        &&& self.sticker_ids@.len() == 0
        &&& self.allowed_mentions is None
        &&& self.tts is None
        &&& self.poll is None
    }

    /// Start building a new message payload.
    pub fn new() -> (r: Self)
        ensures
            r.is_blank(),
    {
        Self::default()
    }

    /// Set the text content.
    pub fn content(self, content: String) -> (r: Self)
        ensures
            r == (CreateMessage { content: Some(content), ..self }),
    {
        Self { content: Some(content), ..self }
    }

    /// Append an embed.
    pub fn embed(self, embed: Embed) -> (r: Self)
        ensures
            r.embeds@ == self.embeds@.push(embed),
            r == (CreateMessage { embeds: r.embeds, ..self }),
    {
        let mut s = self;
        s.embeds.push(embed);
        s
    }

    /// Append a component, given as its JSON value.
    pub fn component(self, component: JsonValue) -> (r: Self)
        ensures
            r.components@ == self.components@.push(component),
            r == (CreateMessage { components: r.components, ..self }),
    {
        let mut s = self;
        s.components.push(component);
        s
    }

    /// Set raw message flags.
    pub fn flags(self, flags: u64) -> (r: Self)
        ensures
            r == (CreateMessage { flags: Some(flags), ..self }),
    {
        Self { flags: Some(flags), ..self }
    }

    /// Enable components v2 layout mode (sets the `IS_COMPONENTS_V2` flag,
    /// bit 15, keeping any flag already set).
    pub fn components_v2(self) -> (r: Self)
        ensures
            r == (CreateMessage {
                flags: Some(
                    match self.flags {
                        Some(f) => f,
                        None => 0u64,
                    } | IS_COMPONENTS_V2,
                ),
                ..self
            }),
    {
        let f = match self.flags {
            Some(f) => f,
            None => 0,
        };
        Self { flags: Some(f | IS_COMPONENTS_V2), ..self }
    }

    /// Reply to a message. Sets a DEFAULT message reference.
    pub fn reply(self, message_id: Snowflake, fail_if_not_exists: bool) -> (r: Self)
        ensures
            r == (CreateMessage {
                message_reference: Some(
                    MessageReference {
                        kind: Some(MessageReferenceType::Default),
                        message_id: Some(message_id),
                        channel_id: None,
                        guild_id: None,
                        fail_if_not_exists: Some(fail_if_not_exists),
                    },
                ),
                ..self
            }),
    {
        Self {
            message_reference: Some(
                MessageReference {
                    kind: Some(MessageReferenceType::Default),
                    message_id: Some(message_id),
                    channel_id: None,
                    guild_id: None,
                    fail_if_not_exists: Some(fail_if_not_exists),
                },
            ),
            ..self
        }
    }

    /// Forward a message. Sets a FORWARD message reference.
    pub fn forward(self, message_id: Snowflake, channel_id: Snowflake) -> (r: Self)
        ensures
            r == (CreateMessage {
                message_reference: Some(
                    MessageReference {
                        kind: Some(MessageReferenceType::Forward),
                        message_id: Some(message_id),
                        channel_id: Some(channel_id),
                        guild_id: None,
                        fail_if_not_exists: None,
                    },
                ),
                ..self
            }),
    {
        Self {
            message_reference: Some(
                MessageReference {
                    kind: Some(MessageReferenceType::Forward),
                    message_id: Some(message_id),
                    channel_id: Some(channel_id),
                    guild_id: None,
                    fail_if_not_exists: None,
                },
            ),
            ..self
        }
    }

    /// Set a raw message reference.
    pub fn message_reference(self, reference: MessageReference) -> (r: Self)
        ensures
            r == (CreateMessage { message_reference: Some(reference), ..self }),
    {
        Self { message_reference: Some(reference), ..self }
    }

    /// Set allowed mentions.
    pub fn allowed_mentions(self, mentions: AllowedMentions) -> (r: Self)
        ensures
            r == (CreateMessage { allowed_mentions: Some(mentions), ..self }),
    {
        Self { allowed_mentions: Some(mentions), ..self }
    }
}

impl Default for CreateMessage {
    fn default() -> (r: Self)
        ensures
            r.is_blank(),
    {
        CreateMessage {
            content: None,
            embeds: Vec::new(),
            components: Vec::new(),
            flags: None,
            message_reference: None,
            sticker_ids: Vec::new(),
            allowed_mentions: None,
            tts: None,
            poll: None,
        }
    }
}

} // verus!
