//! Guilds (servers).

use vstd::prelude::*;
use vstd::std_specs::convert::{FromSpecImpl, TryFromSpecImpl};
use crate::json::{JsonValue, json_same, lemma_json_same_refl};
use crate::models::channel::{Channel, lemma_channel_same_refl};
use crate::models::emoji::Emoji;
use crate::models::member::Member;
use crate::models::role::Role;
use crate::models::sticker::Sticker;
use crate::models::thread::Thread;
use crate::snowflake::Snowflake;
use crate::text::{code_message, decimal};

verus! {

/// Guild verification level: controls who can send messages.
#[derive(Debug, Clone, Copy, PartialEq, Eq, Structural)]
pub enum VerificationLevel {
    /// No requirements.
    Unrestricted,
    /// Must have a verified email.
    Low,
    /// Must be registered on Discord for longer than 5 minutes.
    Medium,
    /// Must be a member of the guild for longer than 10 minutes.
    High,
    /// Must have a verified phone number.
    VeryHigh,
}

impl VerificationLevel {
    /// The wire code of this verification level.
    pub open spec fn code_spec(self) -> u8 {
        match self {
            VerificationLevel::Unrestricted => 0u8,
            VerificationLevel::Low => 1u8,
            VerificationLevel::Medium => 2u8,
            VerificationLevel::High => 3u8,
            VerificationLevel::VeryHigh => 4u8,
        }
    }

    /// The value with wire code `v`, if there is one.
    pub open spec fn from_code_spec(v: u8) -> Option<VerificationLevel> {
        if v == 0u8 {
            Some(VerificationLevel::Unrestricted)
        } else if v == 1u8 {
            Some(VerificationLevel::Low)
        } else if v == 2u8 {
            Some(VerificationLevel::Medium)
        } else if v == 3u8 {
            Some(VerificationLevel::High)
        } else if v == 4u8 {
            Some(VerificationLevel::VeryHigh)
        } else {
            None
        }
    }
}

impl TryFrom<u8> for VerificationLevel {
    type Error = String;

    fn try_from(v: u8) -> (r: Result<Self, String>)
        ensures
            match VerificationLevel::from_code_spec(v) {
                Some(k) => r == Ok::<VerificationLevel, String>(k),
                None => r is Err && r->Err_0@ == "unknown verification level: "@ + decimal(v as nat),
            },
    {
        match v {
            0 => Ok(VerificationLevel::Unrestricted),
            1 => Ok(VerificationLevel::Low),
            2 => Ok(VerificationLevel::Medium),
            3 => Ok(VerificationLevel::High),
            4 => Ok(VerificationLevel::VeryHigh),
            _ => Err(code_message("unknown verification level: ", v)),
        }
    }
}

/// The contract of `try_from` is stated on the function itself, error text
/// included; this spec is not relied on.
impl TryFromSpecImpl<u8> for VerificationLevel {
    open spec fn obeys_try_from_spec() -> bool {
        false
    }

    open spec fn try_from_spec(v: u8) -> Result<VerificationLevel, String> {
        match VerificationLevel::from_code_spec(v) {
            Some(k) => Ok(k),
            None => Err(arbitrary()),
        }
    }
}

impl From<VerificationLevel> for u8 {
    fn from(v: VerificationLevel) -> (r: u8)
        ensures
            r == v.code_spec(),
    {
        match v {
            VerificationLevel::Unrestricted => 0,
            VerificationLevel::Low => 1,
            VerificationLevel::Medium => 2,
            VerificationLevel::High => 3,
            VerificationLevel::VeryHigh => 4,
        }
    }
}

impl FromSpecImpl<VerificationLevel> for u8 {
    open spec fn obeys_from_spec() -> bool {
        true
    }

    open spec fn from_spec(v: VerificationLevel) -> u8 {
        v.code_spec()
    }
}

/// Every verification level has exactly one wire code: decoding a value's code gives the
/// value back, and a code that decodes names a value with that code.
pub proof fn lemma_verification_level_code_roundtrip(k: VerificationLevel, v: u8)
    ensures
        VerificationLevel::from_code_spec(k.code_spec()) == Some(k),
        VerificationLevel::from_code_spec(v) matches Some(j) ==> j.code_spec() == v,
{
}

/// Default message notification level.
#[derive(Debug, Clone, Copy, PartialEq, Eq, Structural)]
pub enum DefaultMessageNotifications {
    /// Members receive notifications for all messages.
    AllMessages,
    /// Members only receive notifications for direct mentions.
    OnlyMentions,
}

impl DefaultMessageNotifications {
    /// The wire code of this notification level.
    pub open spec fn code_spec(self) -> u8 {
        match self {
            DefaultMessageNotifications::AllMessages => 0u8,
            DefaultMessageNotifications::OnlyMentions => 1u8,
        }
    }

    /// The value with wire code `v`, if there is one.
    pub open spec fn from_code_spec(v: u8) -> Option<DefaultMessageNotifications> {
        if v == 0u8 {
            Some(DefaultMessageNotifications::AllMessages)
        } else if v == 1u8 {
            Some(DefaultMessageNotifications::OnlyMentions)
        } else {
            None
        }
    }
}

impl TryFrom<u8> for DefaultMessageNotifications {
    type Error = String;

    fn try_from(v: u8) -> (r: Result<Self, String>)
        ensures
            match DefaultMessageNotifications::from_code_spec(v) {
                Some(k) => r == Ok::<DefaultMessageNotifications, String>(k),
                None => r is Err && r->Err_0@ == "unknown default message notifications level: "@ + decimal(v as nat),
            },
    {
        match v {
            0 => Ok(DefaultMessageNotifications::AllMessages),
            1 => Ok(DefaultMessageNotifications::OnlyMentions),
            _ => Err(code_message("unknown default message notifications level: ", v)),
        }
    }
}

/// The contract of `try_from` is stated on the function itself, error text
/// included; this spec is not relied on.
impl TryFromSpecImpl<u8> for DefaultMessageNotifications {
    open spec fn obeys_try_from_spec() -> bool {
        false
    }

    open spec fn try_from_spec(v: u8) -> Result<DefaultMessageNotifications, String> {
        match DefaultMessageNotifications::from_code_spec(v) {
            Some(k) => Ok(k),
            None => Err(arbitrary()),
        }
    }
}

impl From<DefaultMessageNotifications> for u8 {
    fn from(v: DefaultMessageNotifications) -> (r: u8)
        ensures
            r == v.code_spec(),
    {
        match v {
            DefaultMessageNotifications::AllMessages => 0,
            DefaultMessageNotifications::OnlyMentions => 1,
        }
    }
}

impl FromSpecImpl<DefaultMessageNotifications> for u8 {
    open spec fn obeys_from_spec() -> bool {
        true
    }

    open spec fn from_spec(v: DefaultMessageNotifications) -> u8 {
        v.code_spec()
    }
}

/// Every notification level has exactly one wire code: decoding a value's code gives the
/// value back, and a code that decodes names a value with that code.
pub proof fn lemma_default_message_notifications_code_roundtrip(k: DefaultMessageNotifications, v: u8)
    ensures
        DefaultMessageNotifications::from_code_spec(k.code_spec()) == Some(k),
        DefaultMessageNotifications::from_code_spec(v) matches Some(j) ==> j.code_spec() == v,
{
}

/// Explicit content filter level for media / links.
#[derive(Debug, Clone, Copy, PartialEq, Eq, Structural)]
pub enum ExplicitContentFilter {
    /// No scanning.
    Disabled,
    /// Scan media from members without a role.
    MembersWithoutRoles,
    /// Scan media from all members.
    AllMembers,
}

impl ExplicitContentFilter {
    /// The wire code of this filter level.
    pub open spec fn code_spec(self) -> u8 {
        match self {
            ExplicitContentFilter::Disabled => 0u8,
            ExplicitContentFilter::MembersWithoutRoles => 1u8,
            ExplicitContentFilter::AllMembers => 2u8,
        }
    }

    /// The value with wire code `v`, if there is one.
    pub open spec fn from_code_spec(v: u8) -> Option<ExplicitContentFilter> {
        if v == 0u8 {
            Some(ExplicitContentFilter::Disabled)
        } else if v == 1u8 {
            Some(ExplicitContentFilter::MembersWithoutRoles)
        } else if v == 2u8 {
            Some(ExplicitContentFilter::AllMembers)
        } else {
            None
        }
    }
}

impl TryFrom<u8> for ExplicitContentFilter {
    type Error = String;

    fn try_from(v: u8) -> (r: Result<Self, String>)
        ensures
            match ExplicitContentFilter::from_code_spec(v) {
                Some(k) => r == Ok::<ExplicitContentFilter, String>(k),
                None => r is Err && r->Err_0@ == "unknown explicit content filter: "@ + decimal(v as nat),
            },
    {
        match v {
            0 => Ok(ExplicitContentFilter::Disabled),
            1 => Ok(ExplicitContentFilter::MembersWithoutRoles),
            2 => Ok(ExplicitContentFilter::AllMembers),
            _ => Err(code_message("unknown explicit content filter: ", v)),
        }
    }
}

/// The contract of `try_from` is stated on the function itself, error text
/// included; this spec is not relied on.
impl TryFromSpecImpl<u8> for ExplicitContentFilter {
    open spec fn obeys_try_from_spec() -> bool {
        false
    }

    open spec fn try_from_spec(v: u8) -> Result<ExplicitContentFilter, String> {
        match ExplicitContentFilter::from_code_spec(v) {
            Some(k) => Ok(k),
            None => Err(arbitrary()),
        }
    }
}

impl From<ExplicitContentFilter> for u8 {
    fn from(v: ExplicitContentFilter) -> (r: u8)
        ensures
            r == v.code_spec(),
    {
        match v {
            ExplicitContentFilter::Disabled => 0,
            ExplicitContentFilter::MembersWithoutRoles => 1,
            ExplicitContentFilter::AllMembers => 2,
        }
    }
}

impl FromSpecImpl<ExplicitContentFilter> for u8 {
    open spec fn obeys_from_spec() -> bool {
        true
    }

    open spec fn from_spec(v: ExplicitContentFilter) -> u8 {
        v.code_spec()
    }
}

/// Every filter level has exactly one wire code: decoding a value's code gives the
/// value back, and a code that decodes names a value with that code.
pub proof fn lemma_explicit_content_filter_code_roundtrip(k: ExplicitContentFilter, v: u8)
    ensures
        ExplicitContentFilter::from_code_spec(k.code_spec()) == Some(k),
        ExplicitContentFilter::from_code_spec(v) matches Some(j) ==> j.code_spec() == v,
{
}

/// MFA (2FA) requirement for admin actions.
#[derive(Debug, Clone, Copy, PartialEq, Eq, Structural)]
pub enum MfaLevel {
    /// No MFA requirement.
    NotRequired,
    /// MFA required for admin operations.
    Elevated,
}

impl MfaLevel {
    /// The wire code of this MFA level.
    pub open spec fn code_spec(self) -> u8 {
        match self {
            MfaLevel::NotRequired => 0u8,
            MfaLevel::Elevated => 1u8,
        }
    }

    /// The value with wire code `v`, if there is one.
    pub open spec fn from_code_spec(v: u8) -> Option<MfaLevel> {
        if v == 0u8 {
            Some(MfaLevel::NotRequired)
        } else if v == 1u8 {
            Some(MfaLevel::Elevated)
        } else {
            None
        }
    }
}

impl TryFrom<u8> for MfaLevel {
    type Error = String;

    fn try_from(v: u8) -> (r: Result<Self, String>)
        ensures
            match MfaLevel::from_code_spec(v) {
                Some(k) => r == Ok::<MfaLevel, String>(k),
                None => r is Err && r->Err_0@ == "unknown MFA level: "@ + decimal(v as nat),
            },
    {
        match v {
            0 => Ok(MfaLevel::NotRequired),
            1 => Ok(MfaLevel::Elevated),
            _ => Err(code_message("unknown MFA level: ", v)),
        }
    }
}

/// The contract of `try_from` is stated on the function itself, error text
/// included; this spec is not relied on.
impl TryFromSpecImpl<u8> for MfaLevel {
    open spec fn obeys_try_from_spec() -> bool {
        false
    }

    open spec fn try_from_spec(v: u8) -> Result<MfaLevel, String> {
        match MfaLevel::from_code_spec(v) {
            Some(k) => Ok(k),
            None => Err(arbitrary()),
        }
    }
}

impl From<MfaLevel> for u8 {
    fn from(v: MfaLevel) -> (r: u8)
        ensures
            r == v.code_spec(),
    {
        match v {
            MfaLevel::NotRequired => 0,
            MfaLevel::Elevated => 1,
        }
    }
}

impl FromSpecImpl<MfaLevel> for u8 {
    open spec fn obeys_from_spec() -> bool {
        true
    }

    open spec fn from_spec(v: MfaLevel) -> u8 {
        v.code_spec()
    }
}

/// Every MFA level has exactly one wire code: decoding a value's code gives the
/// value back, and a code that decodes names a value with that code.
pub proof fn lemma_mfa_level_code_roundtrip(k: MfaLevel, v: u8)
    ensures
        MfaLevel::from_code_spec(k.code_spec()) == Some(k),
        MfaLevel::from_code_spec(v) matches Some(j) ==> j.code_spec() == v,
{
}

/// Server Boost tier.
#[derive(Debug, Clone, Copy, PartialEq, Eq, Structural)]
pub enum PremiumTier {
    /// No Server Boost tier.
    NoTier,
    /// Tier 1 boosts.
    Tier1,
    /// Tier 2 boosts.
    Tier2,
    /// Tier 3 boosts.
    Tier3,
}

impl PremiumTier {
    /// The wire code of this boost tier.
    pub open spec fn code_spec(self) -> u8 {
        match self {
            PremiumTier::NoTier => 0u8,
            PremiumTier::Tier1 => 1u8,
            PremiumTier::Tier2 => 2u8,
            PremiumTier::Tier3 => 3u8,
        }
    }

    /// The value with wire code `v`, if there is one.
    pub open spec fn from_code_spec(v: u8) -> Option<PremiumTier> {
        if v == 0u8 {
            Some(PremiumTier::NoTier)
        } else if v == 1u8 {
            Some(PremiumTier::Tier1)
        } else if v == 2u8 {
            Some(PremiumTier::Tier2)
        } else if v == 3u8 {
            Some(PremiumTier::Tier3)
        } else {
            None
        }
    }
}

impl TryFrom<u8> for PremiumTier {
    type Error = String;

    fn try_from(v: u8) -> (r: Result<Self, String>)
        ensures
            match PremiumTier::from_code_spec(v) {
                Some(k) => r == Ok::<PremiumTier, String>(k),
                None => r is Err && r->Err_0@ == "unknown premium tier: "@ + decimal(v as nat),
            },
    {
        match v {
            0 => Ok(PremiumTier::NoTier),
            1 => Ok(PremiumTier::Tier1),
            2 => Ok(PremiumTier::Tier2),
            3 => Ok(PremiumTier::Tier3),
            _ => Err(code_message("unknown premium tier: ", v)),
        }
    }
}

/// The contract of `try_from` is stated on the function itself, error text
/// included; this spec is not relied on.
impl TryFromSpecImpl<u8> for PremiumTier {
    open spec fn obeys_try_from_spec() -> bool {
        false
    }

    open spec fn try_from_spec(v: u8) -> Result<PremiumTier, String> {
        match PremiumTier::from_code_spec(v) {
            Some(k) => Ok(k),
            None => Err(arbitrary()),
        }
    }
}

impl From<PremiumTier> for u8 {
    fn from(v: PremiumTier) -> (r: u8)
        ensures
            r == v.code_spec(),
    {
        match v {
            PremiumTier::NoTier => 0,
            PremiumTier::Tier1 => 1,
            PremiumTier::Tier2 => 2,
            PremiumTier::Tier3 => 3,
        }
    }
}

impl FromSpecImpl<PremiumTier> for u8 {
    open spec fn obeys_from_spec() -> bool {
        true
    }

    open spec fn from_spec(v: PremiumTier) -> u8 {
        v.code_spec()
    }
}

/// Every boost tier has exactly one wire code: decoding a value's code gives the
/// value back, and a code that decodes names a value with that code.
pub proof fn lemma_premium_tier_code_roundtrip(k: PremiumTier, v: u8)
    ensures
        PremiumTier::from_code_spec(k.code_spec()) == Some(k),
        PremiumTier::from_code_spec(v) matches Some(j) ==> j.code_spec() == v,
{
}

/// Guild NSFW content level.
#[derive(Debug, Clone, Copy, PartialEq, Eq, Structural)]
pub enum NsfwLevel {
    /// Default level: not explicitly classified.
    Default,
    /// Explicitly NSFW content allowed.
    Explicit,
    /// Safe for all audiences.
    Safe,
    /// Age-restricted (18+).
    AgeRestricted,
}

impl NsfwLevel {
    /// The wire code of this NSFW level.
    pub open spec fn code_spec(self) -> u8 {
        match self {
            NsfwLevel::Default => 0u8,
            NsfwLevel::Explicit => 1u8,
            NsfwLevel::Safe => 2u8,
            NsfwLevel::AgeRestricted => 3u8,
        }
    }

    /// The value with wire code `v`, if there is one.
    pub open spec fn from_code_spec(v: u8) -> Option<NsfwLevel> {
        if v == 0u8 {
            Some(NsfwLevel::Default)
        } else if v == 1u8 {
            Some(NsfwLevel::Explicit)
        } else if v == 2u8 {
            Some(NsfwLevel::Safe)
        } else if v == 3u8 {
            Some(NsfwLevel::AgeRestricted)
        } else {
            None
        }
    }
}

impl TryFrom<u8> for NsfwLevel {
    type Error = String;

    fn try_from(v: u8) -> (r: Result<Self, String>)
        ensures
            match NsfwLevel::from_code_spec(v) {
                Some(k) => r == Ok::<NsfwLevel, String>(k),
                None => r is Err && r->Err_0@ == "unknown NSFW level: "@ + decimal(v as nat),
            },
    {
        match v {
            0 => Ok(NsfwLevel::Default),
            1 => Ok(NsfwLevel::Explicit),
            2 => Ok(NsfwLevel::Safe),
            3 => Ok(NsfwLevel::AgeRestricted),
            _ => Err(code_message("unknown NSFW level: ", v)),
        }
    }
}

/// The contract of `try_from` is stated on the function itself, error text
/// included; this spec is not relied on.
impl TryFromSpecImpl<u8> for NsfwLevel {
    open spec fn obeys_try_from_spec() -> bool {
        false
    }

    open spec fn try_from_spec(v: u8) -> Result<NsfwLevel, String> {
        match NsfwLevel::from_code_spec(v) {
            Some(k) => Ok(k),
            None => Err(arbitrary()),
        }
    }
}

impl From<NsfwLevel> for u8 {
    fn from(v: NsfwLevel) -> (r: u8)
        ensures
            r == v.code_spec(),
    {
        match v {
            NsfwLevel::Default => 0,
            NsfwLevel::Explicit => 1,
            NsfwLevel::Safe => 2,
            NsfwLevel::AgeRestricted => 3,
        }
    }
}

impl FromSpecImpl<NsfwLevel> for u8 {
    open spec fn obeys_from_spec() -> bool {
        true
    }

    open spec fn from_spec(v: NsfwLevel) -> u8 {
        v.code_spec()
    }
}

/// Every NSFW level has exactly one wire code: decoding a value's code gives the
/// value back, and a code that decodes names a value with that code.
pub proof fn lemma_nsfw_level_code_roundtrip(k: NsfwLevel, v: u8)
    ensures
        NsfwLevel::from_code_spec(k.code_spec()) == Some(k),
        NsfwLevel::from_code_spec(v) matches Some(j) ==> j.code_spec() == v,
{
}

/// A channel shown in the guild's Welcome Screen.
#[derive(Debug)]
pub struct WelcomeScreenChannel {
    /// The channel's snowflake ID.
    pub channel_id: Snowflake,
    /// Description of the channel shown on the welcome screen.
    pub description: String,
    /// Custom emoji ID for the channel, if any.
    pub emoji_id: Option<Snowflake>,
    /// Custom emoji name or Unicode emoji for the channel, if any.
    pub emoji_name: Option<String>,
}

/// The guild's Welcome Screen configuration (shown to new members).
#[derive(Debug)]
pub struct WelcomeScreen {
    /// Description shown at the top of the welcome screen.
    pub description: Option<String>,
    /// Up to 5 channels shown on the welcome screen.
    pub welcome_channels: Vec<WelcomeScreenChannel>,
}

/// A Discord guild (server), as returned by GUILD_CREATE, GUILD_UPDATE and
/// `GET /guilds/:id`.
///
/// Many fields are only present in GUILD_CREATE (e.g. `channels`,
/// `members`, `presences`).
#[derive(Debug)]
pub struct Guild {
    /// The guild's unique snowflake ID.
    pub id: Snowflake,
    /// The guild's display name.
    pub name: String,
    /// Icon image hash.
    pub icon: Option<String>,
    /// Icon hash (returned when in the template object).
    pub icon_hash: Option<String>,
    /// Splash image hash (shown on invite pages).
    pub splash: Option<String>,
    /// Discovery splash image hash (shown on the discovery page).
    pub discovery_splash: Option<String>,
    /// Whether the current user is the guild owner.
    pub owner: bool,
    /// Snowflake ID of the guild owner.
    pub owner_id: Snowflake,
    /// Total permissions for the current user in the guild (excluding overwrites).
    pub permissions: Option<String>,
    /// The channel to move members to after `afk_timeout` seconds of inactivity.
    pub afk_channel_id: Option<Snowflake>,
    /// AFK timeout in seconds (60 / 300 / 900 / 1800 / 3600).
    pub afk_timeout: u32,
    /// Whether the widget is enabled.
    pub widget_enabled: bool,
    /// The channel to show in the widget.
    pub widget_channel_id: Option<Snowflake>,
    /// Verification level required to send messages.
    pub verification_level: VerificationLevel,
    /// Default message notification level.
    pub default_message_notifications: DefaultMessageNotifications,
    /// Explicit content filter level.
    pub explicit_content_filter: ExplicitContentFilter,
    /// MFA (2FA) requirement for admin actions.
    pub mfa_level: MfaLevel,
    /// All roles in the guild, ordered by position.
    pub roles: Vec<Role>,
    /// Custom emoji available in the guild.
    pub emojis: Vec<Emoji>,
    /// Guild feature flags (strings like `"COMMUNITY"`, `"DISCOVERABLE"`, …).
    pub features: Vec<String>,
    /// Custom stickers available in the guild.
    pub stickers: Vec<Sticker>,
    /// The application ID of the bot that created the guild, if bot-created.
    pub application_id: Option<Snowflake>,
    /// The channel for system messages (joins, boosts, etc.).
    pub system_channel_id: Option<Snowflake>,
    /// System channel feature flags bitfield.
    pub system_channel_flags: u32,
    /// The channel where Community guilds post rules and guidelines.
    pub rules_channel_id: Option<Snowflake>,
    /// The channel where admins and moderators receive Discord safety alerts.
    pub safety_alerts_channel_id: Option<Snowflake>,
    /// The channel for public updates from Discord to Community guild admins.
    pub public_updates_channel_id: Option<Snowflake>,
    /// Max number of presences (online members). `null` for large guilds.
    pub max_presences: Option<u32>,
    /// Maximum number of members (hard limit).
    pub max_members: Option<u32>,
    /// Vanity URL code (e.g. `"discord"` for `discord.gg/discord`).
    pub vanity_url_code: Option<String>,
    /// Short description of the guild (Community guilds only).
    pub description: Option<String>,
    /// Banner image hash.
    pub banner: Option<String>,
    /// Current Server Boost tier.
    pub premium_tier: PremiumTier,
    /// Number of boost subscriptions the guild currently has.
    pub premium_subscription_count: u32,
    /// Whether the Server Boost progress bar is shown in the guild.
    pub premium_progress_bar_enabled: bool,
    /// The guild's preferred locale (used in discovery and system messages).
    pub preferred_locale: String,
    /// Welcome screen shown to new members (Community guilds only).
    pub welcome_screen: Option<WelcomeScreen>,
    /// Guild NSFW content level.
    pub nsfw_level: NsfwLevel,
    /// Maximum number of users in a video channel.
    pub max_video_channel_users: Option<u32>,
    /// Maximum number of users in a stage video channel.
    pub max_stage_video_channel_users: Option<u32>,
    /// Total number of members in the guild.
    pub member_count: Option<u32>,
    /// Approximate member count (populated with the `with_counts` query param).
    pub approximate_member_count: Option<u32>,
    /// Approximate presence (online) count.
    pub approximate_presence_count: Option<u32>,
    /// Whether this guild is currently unavailable due to a Discord outage.
    pub unavailable: bool,
    /// Text, voice, and category channels in the guild (GUILD_CREATE only).
    pub channels: Vec<Channel>,
    /// Active threads the current user has permission to view (GUILD_CREATE only).
    pub threads: Vec<Thread>,
    /// Guild members (only included for small guilds in GUILD_CREATE).
    pub members: Vec<Member>,
    /// Partial presences of members in the guild (GUILD_CREATE only).
    pub presences: Vec<JsonValue>,
    /// Voice states of members in voice channels (GUILD_CREATE only).
    pub voice_states: Vec<JsonValue>,
    /// Stage instances active in the guild's stage channels.
    pub stage_instances: Vec<JsonValue>,
    /// Scheduled events in the guild.
    pub guild_scheduled_events: Vec<JsonValue>,
}

impl Clone for WelcomeScreenChannel {
    fn clone(&self) -> (r: Self)
        ensures
            r == *self,
    {
        WelcomeScreenChannel {
            channel_id: self.channel_id,
            description: self.description.clone(),
            emoji_id: self.emoji_id,
            emoji_name: self.emoji_name.clone(),
        }
    }
}

impl WelcomeScreen {
    /// Whether welcome screen `a` holds the same data as welcome screen
    /// `b`: the same description and channels.
    pub open spec fn same(a: WelcomeScreen, b: WelcomeScreen) -> bool {
        a.description == b.description && a.welcome_channels@ == b.welcome_channels@
    }
}

impl Clone for WelcomeScreen {
    fn clone(&self) -> (r: Self)
        ensures
            WelcomeScreen::same(r, *self),
    {
        let welcome_channels = self.welcome_channels.clone();
        assert(welcome_channels@ =~= self.welcome_channels@);
        WelcomeScreen { description: self.description.clone(), welcome_channels }
    }
}

/// Whether two emoji lists hold the same emojis, in order.
pub open spec fn same_emojis(a: Seq<Emoji>, b: Seq<Emoji>) -> bool {
    a.len() == b.len() && forall|k: int| 0 <= k < a.len() ==> Emoji::same(#[trigger] a[k], b[k])
}

/// Whether two channel lists hold the same channels, in order.
pub open spec fn same_channels(a: Seq<Channel>, b: Seq<Channel>) -> bool {
    a.len() == b.len() && forall|k: int| 0 <= k < a.len() ==> Channel::same(#[trigger] a[k], b[k])
}

/// Whether two thread lists hold the same threads, in order.
pub open spec fn same_threads(a: Seq<Thread>, b: Seq<Thread>) -> bool {
    a.len() == b.len() && forall|k: int| 0 <= k < a.len() ==> Thread::same(#[trigger] a[k], b[k])
}

/// Whether two member lists hold the same members, in order.
pub open spec fn same_members(a: Seq<Member>, b: Seq<Member>) -> bool {
    a.len() == b.len() && forall|k: int| 0 <= k < a.len() ==> Member::same(#[trigger] a[k], b[k])
}

/// Whether two lists of JSON values hold the same data, in order.
pub open spec fn same_json_values(a: Seq<JsonValue>, b: Seq<JsonValue>) -> bool {
    a.len() == b.len() && forall|k: int| 0 <= k < a.len() ==> json_same(#[trigger] a[k], b[k])
}

impl Guild {
    /// Whether guild `a` holds the same data as guild `b`: every field
    /// equal, and the lists element by element the same.
    pub open spec fn same(a: Guild, b: Guild) -> bool {
        &&& a.id == b.id
        &&& a.name == b.name
        &&& a.icon == b.icon
        &&& a.icon_hash == b.icon_hash
        &&& a.splash == b.splash
        &&& a.discovery_splash == b.discovery_splash
        &&& a.owner == b.owner
        &&& a.owner_id == b.owner_id
        &&& a.permissions == b.permissions
        &&& a.afk_channel_id == b.afk_channel_id
        &&& a.afk_timeout == b.afk_timeout
        &&& a.widget_enabled == b.widget_enabled
        &&& a.widget_channel_id == b.widget_channel_id
        &&& a.verification_level == b.verification_level
        &&& a.default_message_notifications == b.default_message_notifications
        &&& a.explicit_content_filter == b.explicit_content_filter
        &&& a.mfa_level == b.mfa_level
        &&& a.roles@ == b.roles@
        &&& same_emojis(a.emojis@, b.emojis@)
        &&& a.features@ == b.features@
        &&& a.stickers@ == b.stickers@
        &&& a.application_id == b.application_id
        &&& a.system_channel_id == b.system_channel_id
        &&& a.system_channel_flags == b.system_channel_flags
        &&& a.rules_channel_id == b.rules_channel_id
        &&& a.safety_alerts_channel_id == b.safety_alerts_channel_id
        &&& a.public_updates_channel_id == b.public_updates_channel_id
        &&& a.max_presences == b.max_presences
        &&& a.max_members == b.max_members
        &&& a.vanity_url_code == b.vanity_url_code
        &&& a.description == b.description
        &&& a.banner == b.banner
        &&& a.premium_tier == b.premium_tier
        &&& a.premium_subscription_count == b.premium_subscription_count
        &&& a.premium_progress_bar_enabled == b.premium_progress_bar_enabled
        &&& a.preferred_locale == b.preferred_locale
        &&& match (a.welcome_screen, b.welcome_screen) {
            (Some(x), Some(y)) => WelcomeScreen::same(x, y),
            (None, None) => true,
            _ => false,
        }
        &&& a.nsfw_level == b.nsfw_level
        &&& a.max_video_channel_users == b.max_video_channel_users
        &&& a.max_stage_video_channel_users == b.max_stage_video_channel_users
        &&& a.member_count == b.member_count
        &&& a.approximate_member_count == b.approximate_member_count
        &&& a.approximate_presence_count == b.approximate_presence_count
        &&& a.unavailable == b.unavailable
        &&& same_channels(a.channels@, b.channels@)
        &&& same_threads(a.threads@, b.threads@)
        &&& same_members(a.members@, b.members@)
        &&& same_json_values(a.presences@, b.presences@)
        &&& same_json_values(a.voice_states@, b.voice_states@)
        &&& same_json_values(a.stage_instances@, b.stage_instances@)
        &&& same_json_values(a.guild_scheduled_events@, b.guild_scheduled_events@)
    }
}

/// Every guild holds the same data as itself.
pub proof fn lemma_guild_same_refl(g: Guild)
    ensures
        Guild::same(g, g),
{
    assert forall|k: int| 0 <= k < g.channels@.len() implies Channel::same(#[trigger] g.channels@[k], g.channels@[k]) by {
        lemma_channel_same_refl(g.channels@[k]);
    }
    assert forall|k: int| 0 <= k < g.presences@.len() implies json_same(#[trigger] g.presences@[k], g.presences@[k]) by {
        lemma_json_same_refl(g.presences@[k]);
    }
    assert forall|k: int| 0 <= k < g.voice_states@.len() implies json_same(#[trigger] g.voice_states@[k], g.voice_states@[k]) by {
        lemma_json_same_refl(g.voice_states@[k]);
    }
    assert forall|k: int| 0 <= k < g.stage_instances@.len() implies json_same(#[trigger] g.stage_instances@[k], g.stage_instances@[k]) by {
        lemma_json_same_refl(g.stage_instances@[k]);
    }
    assert forall|k: int| 0 <= k < g.guild_scheduled_events@.len()
        implies json_same(#[trigger] g.guild_scheduled_events@[k], g.guild_scheduled_events@[k]) by {
        lemma_json_same_refl(g.guild_scheduled_events@[k]);
    }
}

impl Clone for Guild {
    fn clone(&self) -> (r: Self)
        ensures
            Guild::same(r, *self),
    {
        let roles = self.roles.clone();
        assert(roles@ =~= self.roles@);
        let emojis = self.emojis.clone();
        proof {
            assert forall|k: int| 0 <= k < emojis@.len() implies Emoji::same(#[trigger] emojis@[k], self.emojis@[k]) by {
            }
        }
        let features = self.features.clone();
        assert(features@ =~= self.features@);
        let stickers = self.stickers.clone();
        assert(stickers@ =~= self.stickers@);
        let channels = self.channels.clone();
        proof {
            assert forall|k: int| 0 <= k < channels@.len() implies Channel::same(#[trigger] channels@[k], self.channels@[k]) by {
                    if channels@[k] == self.channels@[k] {
                        lemma_channel_same_refl(self.channels@[k]);
                    }
            }
        }
        let threads = self.threads.clone();
        proof {
            assert forall|k: int| 0 <= k < threads@.len() implies Thread::same(#[trigger] threads@[k], self.threads@[k]) by {
            }
        }
        let members = self.members.clone();
        proof {
            assert forall|k: int| 0 <= k < members@.len() implies Member::same(#[trigger] members@[k], self.members@[k]) by {
            }
        }
        let presences = self.presences.clone();
        proof {
            assert forall|k: int| 0 <= k < presences@.len() implies json_same(#[trigger] presences@[k], self.presences@[k]) by {
                    if presences@[k] == self.presences@[k] {
                        lemma_json_same_refl(self.presences@[k]);
                    }
            }
        }
        let voice_states = self.voice_states.clone();
        proof {
            assert forall|k: int| 0 <= k < voice_states@.len() implies json_same(#[trigger] voice_states@[k], self.voice_states@[k]) by {
                    if voice_states@[k] == self.voice_states@[k] {
                        lemma_json_same_refl(self.voice_states@[k]);
                    }
            }
        }
        let stage_instances = self.stage_instances.clone();
        proof {
            assert forall|k: int| 0 <= k < stage_instances@.len() implies json_same(#[trigger] stage_instances@[k], self.stage_instances@[k]) by {
                    if stage_instances@[k] == self.stage_instances@[k] {
                        lemma_json_same_refl(self.stage_instances@[k]);
                    }
            }
        }
        let guild_scheduled_events = self.guild_scheduled_events.clone();
        proof {
            assert forall|k: int| 0 <= k < guild_scheduled_events@.len() implies json_same(#[trigger] guild_scheduled_events@[k], self.guild_scheduled_events@[k]) by {
                    if guild_scheduled_events@[k] == self.guild_scheduled_events@[k] {
                        lemma_json_same_refl(self.guild_scheduled_events@[k]);
                    }
            }
        }
        Guild {
            id: self.id,
            name: self.name.clone(),
            icon: self.icon.clone(),
            icon_hash: self.icon_hash.clone(),
            splash: self.splash.clone(),
            discovery_splash: self.discovery_splash.clone(),
            owner: self.owner,
            owner_id: self.owner_id,
            permissions: self.permissions.clone(),
            afk_channel_id: self.afk_channel_id,
            afk_timeout: self.afk_timeout,
            widget_enabled: self.widget_enabled,
            widget_channel_id: self.widget_channel_id,
            verification_level: self.verification_level,
            default_message_notifications: self.default_message_notifications,
            explicit_content_filter: self.explicit_content_filter,
            mfa_level: self.mfa_level,
            roles,
            emojis,
            features,
            stickers,
            application_id: self.application_id,
            system_channel_id: self.system_channel_id,
            system_channel_flags: self.system_channel_flags,
            rules_channel_id: self.rules_channel_id,
            safety_alerts_channel_id: self.safety_alerts_channel_id,
            public_updates_channel_id: self.public_updates_channel_id,
            max_presences: self.max_presences,
            max_members: self.max_members,
            vanity_url_code: self.vanity_url_code.clone(),
            description: self.description.clone(),
            banner: self.banner.clone(),
            premium_tier: self.premium_tier,
            premium_subscription_count: self.premium_subscription_count,
            premium_progress_bar_enabled: self.premium_progress_bar_enabled,
            preferred_locale: self.preferred_locale.clone(),
            welcome_screen: match &self.welcome_screen {
                Some(w) => Some(w.clone()),
                None => None,
            },
            nsfw_level: self.nsfw_level,
            max_video_channel_users: self.max_video_channel_users,
            max_stage_video_channel_users: self.max_stage_video_channel_users,
            member_count: self.member_count,
            approximate_member_count: self.approximate_member_count,
            approximate_presence_count: self.approximate_presence_count,
            unavailable: self.unavailable,
            channels,
            threads,
            members,
            presences,
            voice_states,
            stage_instances,
            guild_scheduled_events,
        }
    }
}

} // verus!
