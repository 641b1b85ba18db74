//! Channels.

use vstd::prelude::*;
use vstd::std_specs::convert::{FromSpecImpl, TryFromSpecImpl};
use crate::text::{code_message, decimal};
use crate::json::{JsonValue, json_same, lemma_json_same_refl};
use crate::snowflake::Snowflake;

verus! {

/// The type of a Discord channel.
#[derive(Debug, Clone, Copy, PartialEq, Eq, Structural)]
pub enum ChannelType {
    /// A text channel in a guild.
    GuildText,
    /// A direct message.
    Dm,
    /// A voice channel in a guild.
    GuildVoice,
    /// A direct message between several users.
    GroupDm,
    /// A category that holds channels.
    GuildCategory,
    /// An announcement channel.
    GuildAnnouncement,
    /// A thread in an announcement channel.
    AnnouncementThread,
    /// A public thread.
    PublicThread,
    /// A private thread.
    PrivateThread,
    /// A stage channel.
    GuildStageVoice,
    /// A hub directory channel.
    GuildDirectory,
    /// A forum channel.
    GuildForum,
    /// A media channel.
    GuildMedia,
}

impl ChannelType {
    /// The wire code of this channel type.
    pub open spec fn code_spec(self) -> u8 {
        match self {
            ChannelType::GuildText => 0u8,
            ChannelType::Dm => 1u8,
            ChannelType::GuildVoice => 2u8,
            ChannelType::GroupDm => 3u8,
            ChannelType::GuildCategory => 4u8,
            ChannelType::GuildAnnouncement => 5u8,
            ChannelType::AnnouncementThread => 10u8,
            ChannelType::PublicThread => 11u8,
            ChannelType::PrivateThread => 12u8,
            ChannelType::GuildStageVoice => 13u8,
            ChannelType::GuildDirectory => 14u8,
            ChannelType::GuildForum => 15u8,
            ChannelType::GuildMedia => 16u8,
        }
    }

    /// The value with wire code `v`, if there is one.
    pub open spec fn from_code_spec(v: u8) -> Option<ChannelType> {
        if v == 0u8 {
            Some(ChannelType::GuildText)
        } else if v == 1u8 {
            Some(ChannelType::Dm)
        } else if v == 2u8 {
            Some(ChannelType::GuildVoice)
        } else if v == 3u8 {
            Some(ChannelType::GroupDm)
        } else if v == 4u8 {
            Some(ChannelType::GuildCategory)
        } else if v == 5u8 {
            Some(ChannelType::GuildAnnouncement)
        } else if v == 10u8 {
            Some(ChannelType::AnnouncementThread)
        } else if v == 11u8 {
            Some(ChannelType::PublicThread)
        } else if v == 12u8 {
            Some(ChannelType::PrivateThread)
        } else if v == 13u8 {
            Some(ChannelType::GuildStageVoice)
        } else if v == 14u8 {
            Some(ChannelType::GuildDirectory)
        } else if v == 15u8 {
            Some(ChannelType::GuildForum)
        } else if v == 16u8 {
            Some(ChannelType::GuildMedia)
        } else {
            None
        }
    }
}

impl TryFrom<u8> for ChannelType {
    type Error = String;

    fn try_from(v: u8) -> (r: Result<Self, String>)
        ensures
            match ChannelType::from_code_spec(v) {
                Some(k) => r == Ok::<ChannelType, String>(k),
                None => r is Err && r->Err_0@ == "unknown channel type: "@ + decimal(v as nat),
            },
    {
        match v {
            0 => Ok(ChannelType::GuildText),
            1 => Ok(ChannelType::Dm),
            2 => Ok(ChannelType::GuildVoice),
            3 => Ok(ChannelType::GroupDm),
            4 => Ok(ChannelType::GuildCategory),
            5 => Ok(ChannelType::GuildAnnouncement),
            10 => Ok(ChannelType::AnnouncementThread),
            11 => Ok(ChannelType::PublicThread),
            12 => Ok(ChannelType::PrivateThread),
            13 => Ok(ChannelType::GuildStageVoice),
            14 => Ok(ChannelType::GuildDirectory),
            15 => Ok(ChannelType::GuildForum),
            16 => Ok(ChannelType::GuildMedia),
            _ => Err(code_message("unknown channel type: ", v)),
        }
    }
}

/// The contract of `try_from` is stated on the function itself, error text
/// included; this spec is not relied on.
impl TryFromSpecImpl<u8> for ChannelType {
    open spec fn obeys_try_from_spec() -> bool {
        false
    }

    open spec fn try_from_spec(v: u8) -> Result<ChannelType, String> {
        match ChannelType::from_code_spec(v) {
            Some(k) => Ok(k),
            None => Err(arbitrary()),
        }
    }
}

impl From<ChannelType> for u8 {
    fn from(v: ChannelType) -> (r: u8)
        ensures
            r == v.code_spec(),
    {
        match v {
            ChannelType::GuildText => 0,
            ChannelType::Dm => 1,
            ChannelType::GuildVoice => 2,
            ChannelType::GroupDm => 3,
            ChannelType::GuildCategory => 4,
            ChannelType::GuildAnnouncement => 5,
            ChannelType::AnnouncementThread => 10,
            ChannelType::PublicThread => 11,
            ChannelType::PrivateThread => 12,
            ChannelType::GuildStageVoice => 13,
            ChannelType::GuildDirectory => 14,
            ChannelType::GuildForum => 15,
            ChannelType::GuildMedia => 16,
        }
    }
}

impl FromSpecImpl<ChannelType> for u8 {
    open spec fn obeys_from_spec() -> bool {
        true
    }

    open spec fn from_spec(v: ChannelType) -> u8 {
        v.code_spec()
    }
}

/// Every channel type has exactly one wire code: decoding a value's code gives the
/// value back, and a code that decodes names a value with that code.
pub proof fn lemma_channel_type_code_roundtrip(k: ChannelType, v: u8)
    ensures
        ChannelType::from_code_spec(k.code_spec()) == Some(k),
        ChannelType::from_code_spec(v) matches Some(j) ==> j.code_spec() == v,
{
}

/// A tag available in a forum or media channel.
#[derive(Debug)]
pub struct ForumTag {
    /// The tag's snowflake ID.
    pub id: Snowflake,
    /// The tag name (0–20 characters).
    pub name: String,
    /// Whether this tag can only be added/removed by moderators.
    pub moderated: bool,
    /// The ID of the custom emoji for this tag.
    pub emoji_id: Option<Snowflake>,
    /// The Unicode emoji for this tag (if not using a custom emoji).
    pub emoji_name: Option<String>,
}

impl Clone for ForumTag {
    fn clone(&self) -> (r: Self)
        ensures
            r == *self,
    {
        ForumTag {
            id: self.id,
            name: self.name.clone(),
            moderated: self.moderated,
            emoji_id: self.emoji_id,
            emoji_name: self.emoji_name.clone(),
        }
    }
}

/// The default reaction emoji shown on forum posts.
#[derive(Debug)]
pub struct DefaultReaction {
    /// The custom emoji ID, if using a custom emoji.
    pub emoji_id: Option<Snowflake>,
    /// The Unicode emoji, if using a standard emoji.
    pub emoji_name: Option<String>,
}

impl Clone for DefaultReaction {
    fn clone(&self) -> (r: Self)
        ensures
            r == *self,
    {
        DefaultReaction { emoji_id: self.emoji_id, emoji_name: self.emoji_name.clone() }
    }
}

/// A Discord channel.
#[derive(Debug)]
pub struct Channel {
    /// The channel's unique snowflake ID.
    pub id: Snowflake,
    /// The channel type.
    pub kind: ChannelType,
    /// The guild this channel belongs to, if any.
    pub guild_id: Option<Snowflake>,
    /// The channel's display position.
    pub position: Option<u32>,
    /// The channel's name.
    pub name: Option<String>,
    /// The channel's topic, if set.
    pub topic: Option<String>,
    /// Whether the channel is age-restricted (NSFW).
    pub nsfw: bool,
    /// The ID of the last message sent in this channel, if any.
    pub last_message_id: Option<Snowflake>,
    /// The ID of the parent category or, for threads, the parent channel.
    pub parent_id: Option<Snowflake>,
    /// Slowmode: seconds a user must wait between messages (0–21600).
    pub rate_limit_per_user: Option<u32>,
    /// Channel flags bitfield.
    pub flags: Option<u64>,
    /// Permission overwrites for this channel.
    pub permission_overwrites: Vec<JsonValue>,
    /// Tags available in a forum or media channel.
    pub available_tags: Vec<ForumTag>,
    /// The default reaction emoji shown on new forum posts.
    pub default_reaction_emoji: Option<DefaultReaction>,
    /// Default thread auto-archive duration (minutes) for newly created threads.
    pub default_auto_archive_duration: Option<u32>,
    /// Default slowmode for newly created threads.
    pub default_thread_rate_limit_per_user: Option<u32>,
    /// The default sort order for a forum channel: `0` = latest activity,
    /// `1` = creation date.
    pub default_sort_order: Option<u8>,
    /// The default forum layout view: `0` = not set, `1` = list, `2` = gallery.
    pub default_forum_layout: Option<u8>,
}

impl Channel {
    /// Whether channel `a` holds the same data as channel `b`: every field
    /// equal, the permission overwrites as the same JSON, the tags as a
    /// sequence.
    pub open spec fn same(a: Channel, b: Channel) -> bool {
        &&& a.id == b.id
        &&& a.kind == b.kind
        &&& a.guild_id == b.guild_id
        &&& a.position == b.position
        &&& a.name == b.name
        &&& a.topic == b.topic
        &&& a.nsfw == b.nsfw
        &&& a.last_message_id == b.last_message_id
        &&& a.parent_id == b.parent_id
        &&& a.rate_limit_per_user == b.rate_limit_per_user
        &&& a.flags == b.flags
        &&& a.permission_overwrites@.len() == b.permission_overwrites@.len()
        &&& forall|k: int| 0 <= k < a.permission_overwrites@.len()
            ==> json_same(#[trigger] a.permission_overwrites@[k], b.permission_overwrites@[k])
        &&& a.available_tags@ == b.available_tags@
        &&& a.default_reaction_emoji == b.default_reaction_emoji
        &&& a.default_auto_archive_duration == b.default_auto_archive_duration
        &&& a.default_thread_rate_limit_per_user == b.default_thread_rate_limit_per_user
        &&& a.default_sort_order == b.default_sort_order
        &&& a.default_forum_layout == b.default_forum_layout
    }
}

/// Every channel holds the same data as itself.
pub proof fn lemma_channel_same_refl(c: Channel)
    ensures
        Channel::same(c, c),
{
    assert forall|k: int| 0 <= k < c.permission_overwrites@.len()
        implies json_same(#[trigger] c.permission_overwrites@[k], c.permission_overwrites@[k]) by {
        lemma_json_same_refl(c.permission_overwrites@[k]);
    }
}

impl Clone for Channel {
    fn clone(&self) -> (r: Self)
        ensures
            Channel::same(r, *self),
    {
        let mut overwrites: Vec<JsonValue> = Vec::new();
        let n = self.permission_overwrites.len();
        let mut i: usize = 0;
        while i < n
            invariant
                n == self.permission_overwrites@.len(),
                i <= n,
                overwrites@.len() == i,
                forall|k: int| 0 <= k < i ==> json_same(#[trigger] overwrites@[k], self.permission_overwrites@[k]),
            decreases n - i,
        {
            overwrites.push(self.permission_overwrites[i].deep_clone());
            i = i + 1;
        }
        let tags = self.available_tags.clone();
        assert(tags@ =~= self.available_tags@);
        Channel {
            id: self.id,
            kind: self.kind,
            guild_id: self.guild_id,
            position: self.position,
            name: self.name.clone(),
            topic: self.topic.clone(),
            nsfw: self.nsfw,
            last_message_id: self.last_message_id,
            parent_id: self.parent_id,
            rate_limit_per_user: self.rate_limit_per_user,
            flags: self.flags,
            permission_overwrites: overwrites,
            available_tags: tags,
            default_reaction_emoji: self.default_reaction_emoji.clone(),
            default_auto_archive_duration: self.default_auto_archive_duration,
            default_thread_rate_limit_per_user: self.default_thread_rate_limit_per_user,
            default_sort_order: self.default_sort_order,
            default_forum_layout: self.default_forum_layout,
        }
    }
}

} // verus!
