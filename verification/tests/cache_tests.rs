use oxidian::cache::Cache;
use oxidian::gateway::events::{DispatchEvent, ReadyData, UnavailableGuild, VoiceStateUpdateData};
use oxidian::json::JsonValue;
use oxidian::models::guild::{DefaultMessageNotifications, ExplicitContentFilter, Guild, MfaLevel, NsfwLevel, PremiumTier, VerificationLevel};
use oxidian::models::message::Message;
use oxidian::models::user::User;
use oxidian::snowflake::Snowflake;

fn sf(n: u64) -> Snowflake {
    Snowflake::new(n)
}

fn user(id: u64, name: &str) -> User {
    User {
        id: sf(id),
        username: name.to_owned(),
        discriminator: "0".to_owned(),
        global_name: None,
        avatar: None,
        bot: false,
        system: false,
    }
}

fn guild(id: u64) -> Guild {
    Guild {
        id: sf(id),
        name: "g".to_owned(),
        icon: None,
        icon_hash: None,
        splash: None,
        discovery_splash: None,
        owner: false,
        owner_id: sf(1),
        permissions: None,
        afk_channel_id: None,
        afk_timeout: 0,
        widget_enabled: false,
        widget_channel_id: None,
        verification_level: VerificationLevel::Low,
        default_message_notifications: DefaultMessageNotifications::AllMessages,
        explicit_content_filter: ExplicitContentFilter::Disabled,
        mfa_level: MfaLevel::NotRequired,
        roles: Vec::new(),
        emojis: Vec::new(),
        features: Vec::new(),
        stickers: Vec::new(),
        application_id: None,
        system_channel_id: None,
        system_channel_flags: 0,
        rules_channel_id: None,
        safety_alerts_channel_id: None,
        public_updates_channel_id: None,
        max_presences: None,
        max_members: None,
        vanity_url_code: None,
        description: None,
        banner: None,
        premium_tier: PremiumTier::NoTier,
        premium_subscription_count: 0,
        premium_progress_bar_enabled: false,
        preferred_locale: "en-US".to_owned(),
        welcome_screen: None,
        nsfw_level: NsfwLevel::Default,
        max_video_channel_users: None,
        max_stage_video_channel_users: None,
        member_count: None,
        approximate_member_count: None,
        approximate_presence_count: None,
        unavailable: false,
        channels: Vec::new(),
        threads: Vec::new(),
        members: Vec::new(),
        presences: Vec::<JsonValue>::new(),
        voice_states: Vec::<JsonValue>::new(),
        stage_instances: Vec::<JsonValue>::new(),
        guild_scheduled_events: Vec::<JsonValue>::new(),
    }
}

fn message(author: User) -> Message {
    Message {
        id: sf(50),
        channel_id: sf(60),
        guild_id: None,
        author,
        content: "hi".to_owned(),
        timestamp: "2024-01-01T00:00:00Z".to_owned(),
        edited_timestamp: None,
        tts: false,
        mention_everyone: false,
        mentions: Vec::new(),
        pinned: false,
        kind: 0,
        flags: None,
        message_reference: None,
        referenced_message: None,
        message_snapshots: Vec::new(),
        embeds: Vec::new(),
        attachments: Vec::new(),
        components: Vec::new(),
        sticker_items: Vec::new(),
        reactions: Vec::new(),
        thread: None,
    }
}

fn voice(guild: Option<u64>, channel: Option<u64>, user_id: u64) -> VoiceStateUpdateData {
    VoiceStateUpdateData {
        guild_id: guild.map(sf),
        channel_id: channel.map(sf),
        user_id: sf(user_id),
        session_id: "s".to_owned(),
        deaf: false,
        mute: false,
        self_deaf: false,
        self_mute: false,
        self_stream: None,
        self_video: false,
        suppress: false,
    }
}

#[test]
fn cache_starts_empty() {
    let c = Cache::new();
    assert!(c.current_user().is_none());
    assert_eq!(c.guild_count(), 0);
    assert!(c.guild(sf(1)).is_none());
    assert!(c.channel(sf(1)).is_none());
    assert!(c.member(sf(1), sf(2)).is_none());
    assert!(c.role(sf(1), sf(2)).is_none());
    assert!(c.guild_roles(sf(1)).is_empty());
    assert!(c.guild_emojis(sf(1)).is_empty());
    assert!(c.guild_members(sf(1)).is_empty());
    assert!(c.guild_channels(sf(1)).is_empty());
    assert_eq!(
        c.debug_text(),
        "Cache { guilds: 0, channels: 0, users: 0, members: 0, roles: 0, voice_states: 0, emojis: 0, stickers: 0 }"
    );
}

#[test]
fn cache_follows_events() {
    let mut c = Cache::new();
    c.update(DispatchEvent::Ready(ReadyData {
        v: 10,
        user: user(9, "bot"),
        session_id: "s".to_owned(),
        resume_gateway_url: "wss://r".to_owned(),
    }));
    assert_eq!(c.current_user().map(|u| u.username), Some("bot".to_owned()));

    c.update(DispatchEvent::GuildCreate(guild(100)));
    c.update(DispatchEvent::GuildUpdate(guild(200)));
    assert_eq!(c.guild_count(), 2);
    assert_eq!(c.guild(sf(100)).map(|g| g.id.get()), Some(100));

    c.update(DispatchEvent::MessageCreate(message(user(7, "alice"))));
    assert_eq!(c.user(sf(7)).map(|u| u.username), Some("alice".to_owned()));

    c.update(DispatchEvent::VoiceStateUpdate(voice(Some(100), Some(5), 7)));
    assert!(c.voice_state(sf(100), sf(7)).is_some());
    c.update(DispatchEvent::VoiceStateUpdate(voice(None, Some(5), 8)));
    assert!(c.voice_state(sf(100), sf(8)).is_none());
    c.update(DispatchEvent::VoiceStateUpdate(voice(Some(100), None, 7)));
    assert!(c.voice_state(sf(100), sf(7)).is_none());

    c.update(DispatchEvent::VoiceStateUpdate(voice(Some(100), Some(5), 7)));
    c.update(DispatchEvent::VoiceStateUpdate(voice(Some(200), Some(6), 7)));
    c.update(DispatchEvent::GuildDelete(UnavailableGuild { id: sf(100), unavailable: true }));
    assert!(c.guild(sf(100)).is_some());
    assert!(c.voice_state(sf(100), sf(7)).is_some());
    c.update(DispatchEvent::GuildDelete(UnavailableGuild { id: sf(100), unavailable: false }));
    assert!(c.guild(sf(100)).is_none());
    assert!(c.voice_state(sf(100), sf(7)).is_none());
    assert!(c.voice_state(sf(200), sf(7)).is_some());
    assert!(c.user(sf(7)).is_some());
    assert_eq!(c.guild_count(), 1);

    c.update(DispatchEvent::Unknown { name: "TYPING_START".to_owned(), data: JsonValue::Null });
    assert_eq!(c.guild_count(), 1);
    assert_eq!(c.voice_state(sf(200), sf(7)).map(|v| v.session_id), Some("s".to_owned()));
    assert_eq!(
        c.debug_text(),
        "Cache { guilds: 1, channels: 0, users: 1, members: 0, roles: 0, voice_states: 1, emojis: 0, stickers: 0 }"
    );
}
