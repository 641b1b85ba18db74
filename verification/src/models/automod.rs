//! Request bodies for the Auto-Moderation REST endpoints.

use vstd::prelude::*;
use vstd::std_specs::convert::FromSpecImpl;
use crate::snowflake::Snowflake;

verus! {

/// Event type a rule triggers on.
#[derive(Debug, Clone, Copy, PartialEq, Eq, Structural)]
pub enum AutoModEventType {
    /// A member sent a message.
    MessageSend,
    /// A member updated their profile.
    MemberUpdate,
}

impl AutoModEventType {
    /// The wire code of this event type.
    pub open spec fn code_spec(self) -> u8 {
        match self {
            AutoModEventType::MessageSend => 1u8,
            AutoModEventType::MemberUpdate => 2u8,
        }
    }

    /// The value with wire code `v`, if there is one.
    pub open spec fn from_code_spec(v: u8) -> Option<AutoModEventType> {
        if v == 1u8 {
            Some(AutoModEventType::MessageSend)
        } else if v == 2u8 {
            Some(AutoModEventType::MemberUpdate)
        } else {
            None
        }
    }
}

impl From<AutoModEventType> for u8 {
    fn from(v: AutoModEventType) -> (r: u8)
        ensures
            r == v.code_spec(),
    {
        match v {
            AutoModEventType::MessageSend => 1,
            AutoModEventType::MemberUpdate => 2,
        }
    }
}

impl FromSpecImpl<AutoModEventType> for u8 {
    open spec fn obeys_from_spec() -> bool {
        true
    }

    open spec fn from_spec(v: AutoModEventType) -> u8 {
        v.code_spec()
    }
}

/// Every event type has exactly one wire code: decoding a value's code gives the
/// value back, and a code that decodes names a value with that code.
pub proof fn lemma_auto_mod_event_type_code_roundtrip(k: AutoModEventType, v: u8)
    ensures
        AutoModEventType::from_code_spec(k.code_spec()) == Some(k),
        AutoModEventType::from_code_spec(v) matches Some(j) ==> j.code_spec() == v,
{
}

/// What the rule matches on.
#[derive(Debug, Clone, Copy, PartialEq, Eq, Structural)]
pub enum AutoModTriggerType {
    /// Check message content against custom keywords.
    Keyword,
    /// Generic spam detection.
    Spam,
    /// Match against one of Discord's preset keyword lists.
    KeywordPreset,
    /// Limit the number of unique mentions per message.
    MentionSpam,
    /// Check member profile content.
    MemberProfile,
}

impl AutoModTriggerType {
    /// The wire code of this trigger type.
    pub open spec fn code_spec(self) -> u8 {
        match self {
            AutoModTriggerType::Keyword => 1u8,
            AutoModTriggerType::Spam => 3u8,
            AutoModTriggerType::KeywordPreset => 4u8,
            AutoModTriggerType::MentionSpam => 5u8,
            AutoModTriggerType::MemberProfile => 6u8,
        }
    }

    /// The value with wire code `v`, if there is one.
    pub open spec fn from_code_spec(v: u8) -> Option<AutoModTriggerType> {
        if v == 1u8 {
            Some(AutoModTriggerType::Keyword)
        } else if v == 3u8 {
            Some(AutoModTriggerType::Spam)
        } else if v == 4u8 {
            Some(AutoModTriggerType::KeywordPreset)
        } else if v == 5u8 {
            Some(AutoModTriggerType::MentionSpam)
        } else if v == 6u8 {
            Some(AutoModTriggerType::MemberProfile)
        } else {
            None
        }
    }
}

impl From<AutoModTriggerType> for u8 {
    fn from(v: AutoModTriggerType) -> (r: u8)
        ensures
            r == v.code_spec(),
    {
        match v {
            AutoModTriggerType::Keyword => 1,
            AutoModTriggerType::Spam => 3,
            AutoModTriggerType::KeywordPreset => 4,
            AutoModTriggerType::MentionSpam => 5,
            AutoModTriggerType::MemberProfile => 6,
        }
    }
}

impl FromSpecImpl<AutoModTriggerType> for u8 {
    open spec fn obeys_from_spec() -> bool {
        true
    }

    open spec fn from_spec(v: AutoModTriggerType) -> u8 {
        v.code_spec()
    }
}

/// Every trigger type has exactly one wire code: decoding a value's code gives the
/// value back, and a code that decodes names a value with that code.
pub proof fn lemma_auto_mod_trigger_type_code_roundtrip(k: AutoModTriggerType, v: u8)
    ensures
        AutoModTriggerType::from_code_spec(k.code_spec()) == Some(k),
        AutoModTriggerType::from_code_spec(v) matches Some(j) ==> j.code_spec() == v,
{
}

/// Action taken when the rule triggers.
#[derive(Debug, Clone, Copy, PartialEq, Eq, Structural)]
pub enum AutoModActionType {
    /// Block the message.
    BlockMessage,
    /// Post an alert to a moderator channel.
    SendAlertMessage,
    /// Time the user out (keyword triggers only).
    Timeout,
    /// Block the member from interacting in the guild.
    BlockMemberInteraction,
}

impl AutoModActionType {
    /// The wire code of this action type.
    pub open spec fn code_spec(self) -> u8 {
        match self {
            AutoModActionType::BlockMessage => 1u8,
            AutoModActionType::SendAlertMessage => 2u8,
            AutoModActionType::Timeout => 3u8,
            AutoModActionType::BlockMemberInteraction => 4u8,
        }
    }

    /// The value with wire code `v`, if there is one.
    pub open spec fn from_code_spec(v: u8) -> Option<AutoModActionType> {
        if v == 1u8 {
            Some(AutoModActionType::BlockMessage)
        } else if v == 2u8 {
            Some(AutoModActionType::SendAlertMessage)
        } else if v == 3u8 {
            Some(AutoModActionType::Timeout)
        } else if v == 4u8 {
            Some(AutoModActionType::BlockMemberInteraction)
        } else {
            None
        }
    }
}

impl From<AutoModActionType> for u8 {
    fn from(v: AutoModActionType) -> (r: u8)
        ensures
            r == v.code_spec(),
    {
        match v {
            AutoModActionType::BlockMessage => 1,
            AutoModActionType::SendAlertMessage => 2,
            AutoModActionType::Timeout => 3,
            AutoModActionType::BlockMemberInteraction => 4,
        }
    }
}

impl FromSpecImpl<AutoModActionType> for u8 {
    open spec fn obeys_from_spec() -> bool {
        true
    }

    open spec fn from_spec(v: AutoModActionType) -> u8 {
        v.code_spec()
    }
}

/// Every action type has exactly one wire code: decoding a value's code gives the
/// value back, and a code that decodes names a value with that code.
pub proof fn lemma_auto_mod_action_type_code_roundtrip(k: AutoModActionType, v: u8)
    ensures
        AutoModActionType::from_code_spec(k.code_spec()) == Some(k),
        AutoModActionType::from_code_spec(v) matches Some(j) ==> j.code_spec() == v,
{
}

/// Extra fields required by certain action types.
#[derive(Debug, Clone)]
pub struct AutoModActionMetadata {
    /// Channel to post alerts to (required for `SendAlertMessage`).
    pub channel_id: Option<Snowflake>,
    /// Timeout length in seconds, max 2_419_200 (4 weeks). For `Timeout` only.
    pub duration_seconds: Option<u32>,
    /// Optional custom rejection message shown to the user.
    pub custom_message: Option<String>,
}

impl Default for AutoModActionMetadata {
    fn default() -> (r: Self)
        ensures
            r == (AutoModActionMetadata { channel_id: None, duration_seconds: None, custom_message: None }),
    {
        AutoModActionMetadata { channel_id: None, duration_seconds: None, custom_message: None }
    }
}

/// A single action entry.
#[derive(Debug, Clone)]
pub struct AutoModAction {
    /// What the action does.
    pub kind: AutoModActionType,
    /// Extra fields of the action, if it needs any.
    pub metadata: Option<AutoModActionMetadata>,
}

impl AutoModAction {
    /// Build a plain action with no metadata (e.g. `BlockMessage`).
    pub fn new(kind: AutoModActionType) -> (r: Self)
        ensures
            r == (AutoModAction { kind, metadata: None }),
    {
        Self { kind, metadata: None }
    }

    /// Build an action with metadata.
    pub fn with_metadata(kind: AutoModActionType, metadata: AutoModActionMetadata) -> (r: Self)
        ensures
            r == (AutoModAction { kind, metadata: Some(metadata) }),
    {
        Self { kind, metadata: Some(metadata) }
    }
}

/// Trigger configuration for keyword / preset / mention-spam rules.
#[derive(Debug, Clone)]
pub struct AutoModTriggerMetadata {
    /// Words that trigger the rule.
    pub keyword_filter: Vec<String>,
    /// Regular expressions that trigger the rule.
    pub regex_patterns: Vec<String>,
    /// Preset keyword list IDs: 1=PROFANITY, 2=SEXUAL_CONTENT, 3=SLURS.
    pub presets: Vec<u8>,
    /// Words exempt from the rule.
    pub allow_list: Vec<String>,
    /// Most unique mentions allowed per message.
    pub mention_total_limit: Option<u32>,
    /// Whether raids of mentions are detected automatically.
    pub mention_raid_protection_enabled: Option<bool>,
}

impl AutoModTriggerMetadata {
    /// Whether the configuration sets nothing at all.
    pub open spec fn is_empty_spec(self) -> bool {
        &&& self.keyword_filter@.len() == 0
        &&& self.regex_patterns@.len() == 0
        &&& self.presets@.len() == 0
        &&& self.allow_list@.len() == 0
        &&& self.mention_total_limit is None
        &&& self.mention_raid_protection_enabled is None
    }
}

impl Default for AutoModTriggerMetadata {
    fn default() -> (r: Self)
        ensures
            r.is_empty_spec(),
    {
        AutoModTriggerMetadata {
            keyword_filter: Vec::new(),
            regex_patterns: Vec::new(),
            presets: Vec::new(),
            allow_list: Vec::new(),
            mention_total_limit: None,
            mention_raid_protection_enabled: None,
        }
    }
}

/// Whether a trigger configuration sets nothing; such a configuration is
/// left out of the request body.
pub fn trigger_metadata_is_empty(m: &AutoModTriggerMetadata) -> (r: bool)
    ensures
        r == m.is_empty_spec(),
{
    m.keyword_filter.len() == 0 && m.regex_patterns.len() == 0 && m.presets.len() == 0
        && m.allow_list.len() == 0 && m.mention_total_limit.is_none()
        && m.mention_raid_protection_enabled.is_none()
}

/// Request body for `POST /guilds/{guild.id}/auto-moderation/rules`.
///
/// Use [`AutoModRuleOptions::new`] and chain setters to fill in optional
/// fields. The trigger metadata is only sent when non-empty.
#[derive(Debug, Clone)]
pub struct AutoModRuleOptions {
    /// The rule name.
    pub name: String,
    /// The event the rule checks.
    pub event_type: AutoModEventType,
    /// What the rule matches on.
    pub trigger_type: AutoModTriggerType,
    /// How the trigger is configured.
    pub trigger_metadata: AutoModTriggerMetadata,
    /// What happens when the rule triggers.
    pub actions: Vec<AutoModAction>,
    /// Whether the rule is enabled.
    pub enabled: Option<bool>,
    /// Roles the rule does not apply to.
    pub exempt_roles: Vec<Snowflake>,
    /// Channels the rule does not apply to.
    pub exempt_channels: Vec<Snowflake>,
}

impl AutoModRuleOptions {
    /// Start a new rule with the required fields.
    pub fn new(name: String, event_type: AutoModEventType, trigger_type: AutoModTriggerType) -> (r: Self)
        ensures
            r.name == name,
            r.event_type == event_type,
            r.trigger_type == trigger_type,
            r.trigger_metadata.is_empty_spec(),
            r.actions@.len() == 0,
            r.enabled is None,
            r.exempt_roles@.len() == 0,
            r.exempt_channels@.len() == 0,
    {
        Self {
            name,
            event_type,
            trigger_type,
            trigger_metadata: AutoModTriggerMetadata::default(),
            actions: Vec::new(),
            enabled: None,
            exempt_roles: Vec::new(),
            exempt_channels: Vec::new(),
        }
    }

    /// Replace trigger metadata.
    pub fn trigger_metadata(self, meta: AutoModTriggerMetadata) -> (r: Self)
        ensures
            r == (AutoModRuleOptions { trigger_metadata: meta, ..self }),
    {
        Self { trigger_metadata: meta, ..self }
    }

    /// Add an action.
    pub fn action(self, action: AutoModAction) -> (r: Self)
        ensures
            r.actions@ == self.actions@.push(action),
            r == (AutoModRuleOptions { actions: r.actions, ..self }),
    {
        let mut s = self;
        s.actions.push(action);
        s
    }

    /// Replace all actions at once.
    pub fn actions(self, actions: Vec<AutoModAction>) -> (r: Self)
        ensures
            r == (AutoModRuleOptions { actions, ..self }),
    {
        Self { actions, ..self }
    }

    /// Enable or disable the rule.
    pub fn enabled(self, enabled: bool) -> (r: Self)
        ensures
            r == (AutoModRuleOptions { enabled: Some(enabled), ..self }),
    {
        Self { enabled: Some(enabled), ..self }
    }

    /// Set the roles the rule does not apply to.
    pub fn exempt_roles(self, roles: Vec<Snowflake>) -> (r: Self)
        ensures
            r == (AutoModRuleOptions { exempt_roles: roles, ..self }),
    {
        Self { exempt_roles: roles, ..self }
    }

    /// Set the channels the rule does not apply to.
    pub fn exempt_channels(self, channels: Vec<Snowflake>) -> (r: Self)
        ensures
            r == (AutoModRuleOptions { exempt_channels: channels, ..self }),
    {
        Self { exempt_channels: channels, ..self }
    }
}

} // verus!
