use oxidian::utils::cdn::{
    application_asset, application_icon, emoji, event_cover, guild_banner, guild_discovery_splash, guild_icon,
    guild_splash, member_avatar, role_icon, sticker, user_avatar, user_banner, ImageFormat,
};

#[test]
fn avatar_urls() {
    assert_eq!(
        user_avatar(80351110224678912, Some("abc"), ImageFormat::Png, None),
        "https://cdn.discordapp.com/avatars/80351110224678912/abc.png"
    );
    assert_eq!(
        user_avatar(1, Some("a_anim"), ImageFormat::Gif, Some(128)),
        "https://cdn.discordapp.com/avatars/1/a_anim.gif?size=128"
    );
    assert_eq!(
        user_avatar(1, Some("a_anim"), ImageFormat::WebP, None),
        "https://cdn.discordapp.com/avatars/1/a_anim.webp"
    );
    assert_eq!(ImageFormat::default(), ImageFormat::Png);
    // Default avatar: (id >> 22) % 6.
    assert_eq!(user_avatar(0, None, ImageFormat::Jpg, Some(64)), "https://cdn.discordapp.com/embed/avatars/0.png");
    assert_eq!(
        user_avatar(5u64 << 22, None, ImageFormat::Png, None),
        "https://cdn.discordapp.com/embed/avatars/5.png"
    );
    assert_eq!(
        user_avatar(7u64 << 22, None, ImageFormat::Png, None),
        "https://cdn.discordapp.com/embed/avatars/1.png"
    );
    assert_eq!(
        member_avatar(2, 3, "h", ImageFormat::Jpg, Some(256)),
        "https://cdn.discordapp.com/guilds/2/users/3/avatars/h.jpg?size=256"
    );
}

#[test]
fn guild_asset_urls() {
    assert_eq!(guild_icon(9, "i", ImageFormat::Png, None), "https://cdn.discordapp.com/icons/9/i.png");
    assert_eq!(guild_banner(9, "a_b", ImageFormat::Gif, Some(16)), "https://cdn.discordapp.com/banners/9/a_b.gif?size=16");
    assert_eq!(guild_splash(9, "s", None), "https://cdn.discordapp.com/splashes/9/s.png");
    assert_eq!(
        guild_discovery_splash(9, "s", Some(4096)),
        "https://cdn.discordapp.com/discovery-splashes/9/s.png?size=4096"
    );
    assert_eq!(user_banner(4, "u", ImageFormat::WebP, None), "https://cdn.discordapp.com/banners/4/u.webp");
    assert_eq!(role_icon(5, "r", ImageFormat::Png, Some(32)), "https://cdn.discordapp.com/role-icons/5/r.png?size=32");
    assert_eq!(event_cover(6, "c", ImageFormat::Jpg, None), "https://cdn.discordapp.com/guild-events/6/c.jpg");
}

#[test]
fn other_asset_urls() {
    assert_eq!(emoji(41771983429993937, false), "https://cdn.discordapp.com/emojis/41771983429993937.png");
    assert_eq!(emoji(1, true), "https://cdn.discordapp.com/emojis/1.gif");
    assert_eq!(sticker(7), "https://cdn.discordapp.com/stickers/7.png");
    assert_eq!(application_icon(8, "x", ImageFormat::Png, None), "https://cdn.discordapp.com/app-icons/8/x.png");
    assert_eq!(
        application_asset(8, "asset", ImageFormat::WebP, Some(512)),
        "https://cdn.discordapp.com/app-assets/8/asset.webp?size=512"
    );
}
