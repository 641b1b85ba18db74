//! Discord CDN URL builders.
//!
//! All functions return fully-formed `https://cdn.discordapp.com/…` URLs.
//! Pass `size` as a power of two between 16 and 4096 to append `?size=N`.

use vstd::prelude::*;
use crate::text::{decimal, push_decimal, starts_with};

verus! {

/// The CDN's base URL.
pub const CDN: &'static str = "https://cdn.discordapp.com";

/// Image format for CDN assets.
#[derive(Debug, Clone, Copy, PartialEq, Eq, Structural)]
pub enum ImageFormat {
    /// PNG (lossless, supports transparency).
    Png,
    /// JPEG (lossy, no transparency).
    Jpg,
    /// WebP (modern, smaller file size).
    WebP,
    /// GIF (animated). Only valid for animated assets (hashes starting with `a_`).
    Gif,
}

impl Default for ImageFormat {
    fn default() -> (r: Self)
        ensures
            r == ImageFormat::Png,
    {
        ImageFormat::Png
    }
}

impl ImageFormat {
    /// The file extension of the format.
    pub open spec fn ext_spec(self) -> Seq<char> {
        match self {
            ImageFormat::Png => "png"@,
            ImageFormat::Jpg => "jpg"@,
            ImageFormat::WebP => "webp"@,
            ImageFormat::Gif => "gif"@,
        }
    }

    fn ext(self) -> (r: &'static str)
        ensures
            r@ == self.ext_spec(),
    {
        match self {
            ImageFormat::Png => "png",
            ImageFormat::Jpg => "jpg",
            ImageFormat::WebP => "webp",
            ImageFormat::Gif => "gif",
        }
    }
}

/// `url` followed by `?size=N` when a size is given.
pub open spec fn sized(url: Seq<char>, size: Option<u16>) -> Seq<char> {
    match size {
        Some(s) => url + "?size="@ + decimal(s as nat),
        None => url,
    }
}

/// The extension for an asset hash: `gif` for an animated hash (one that
/// starts with `a_`) asked for as GIF, the format's own extension otherwise.
pub open spec fn animated_ext(hash: Seq<char>, format: ImageFormat) -> Seq<char> {
    if hash.len() >= 2 && hash.subrange(0, 2) == "a_"@ && format == ImageFormat::Gif {
        "gif"@
    } else {
        format.ext_spec()
    }
}

/// The URL of an asset: the CDN base, the path prefix, the owner's ID, the
/// hash, and the extension.
pub open spec fn asset_url(path: Seq<char>, id: u64, hash: Seq<char>, ext: Seq<char>) -> Seq<char> {
    CDN@ + path + decimal(id as nat) + "/"@ + hash + "."@ + ext
}

fn append_size(url: String, size: Option<u16>) -> (r: String)
    ensures
        r@ == sized(url@, size),
{
    match size {
        Some(s) => {
            let mut u = url;
            u.append("?size=");
            push_decimal(&mut u, s as u64);
            u
        },
        None => url,
    }
}

fn choose_ext(hash: &str, format: ImageFormat) -> (r: &'static str)
    ensures
        r@ == animated_ext(hash@, format),
{
    proof {
        reveal_strlit("a_");
    }
    if starts_with(hash, "a_") && format == ImageFormat::Gif {
        "gif"
    } else {
        format.ext()
    }
}

fn asset(path: &str, id: u64, hash: &str, ext: &str) -> (r: String)
    ensures
        r@ == asset_url(path@, id, hash@, ext@),
{
    let mut s = CDN.to_owned();
    s.append(path);
    push_decimal(&mut s, id);
    s.append("/");
    s.append(hash);
    s.append(".");
    s.append(ext);
    s
}

/// The index of the default avatar of a user: `(user_id >> 22) % 6`.
pub open spec fn default_avatar_index(user_id: u64) -> u64 {
    ((user_id >> 22u64) % 6) as u64
}

/// User avatar URL.
///
/// If `hash` is `None` the default avatar is returned (no format or size
/// applies).  Animated hashes start with `a_`: pass [`ImageFormat::Gif`] to
/// get the animated image.
pub fn user_avatar(user_id: u64, hash: Option<&str>, format: ImageFormat, size: Option<u16>) -> (r: String)
    ensures
        r@ == match hash {
            Some(h) => sized(asset_url("/avatars/"@, user_id, h@, animated_ext(h@, format)), size),
            None => CDN@ + "/embed/avatars/"@ + decimal(default_avatar_index(user_id) as nat) + ".png"@,
        },
{
    match hash {
        Some(h) => {
            let ext = choose_ext(h, format);
            append_size(asset("/avatars/", user_id, h, ext), size)
        },
        None => {
            let index = (user_id >> 22u64) % 6;
            let mut s = CDN.to_owned();
            s.append("/embed/avatars/");
            push_decimal(&mut s, index);
            s.append(".png");
            s
        },
    }
}

/// Guild member avatar URL (server-specific avatar).
pub fn member_avatar(guild_id: u64, user_id: u64, hash: &str, format: ImageFormat, size: Option<u16>) -> (r: String)
    ensures
        r@ == sized(
            CDN@ + "/guilds/"@ + decimal(guild_id as nat) + "/users/"@ + decimal(user_id as nat)
                + "/avatars/"@ + hash@ + "."@ + animated_ext(hash@, format),
            size,
        ),
{
    let ext = choose_ext(hash, format);
    let mut s = CDN.to_owned();
    s.append("/guilds/");
    push_decimal(&mut s, guild_id);
    s.append("/users/");
    push_decimal(&mut s, user_id);
    s.append("/avatars/");
    s.append(hash);
    s.append(".");
    s.append(ext);
    append_size(s, size)
}

/// Guild icon URL.
pub fn guild_icon(guild_id: u64, hash: &str, format: ImageFormat, size: Option<u16>) -> (r: String)
    ensures
        r@ == sized(asset_url("/icons/"@, guild_id, hash@, animated_ext(hash@, format)), size),
{
    let ext = choose_ext(hash, format);
    append_size(asset("/icons/", guild_id, hash, ext), size)
}

/// Guild banner URL.
pub fn guild_banner(guild_id: u64, hash: &str, format: ImageFormat, size: Option<u16>) -> (r: String)
    ensures
        r@ == sized(asset_url("/banners/"@, guild_id, hash@, animated_ext(hash@, format)), size),
{
    let ext = choose_ext(hash, format);
    append_size(asset("/banners/", guild_id, hash, ext), size)
}

/// Guild splash (invite background) URL.
pub fn guild_splash(guild_id: u64, hash: &str, size: Option<u16>) -> (r: String)
    ensures
        r@ == sized(asset_url("/splashes/"@, guild_id, hash@, "png"@), size),
{
    append_size(asset("/splashes/", guild_id, hash, "png"), size)
}

/// Guild discovery splash URL.
pub fn guild_discovery_splash(guild_id: u64, hash: &str, size: Option<u16>) -> (r: String)
    ensures
        r@ == sized(asset_url("/discovery-splashes/"@, guild_id, hash@, "png"@), size),
{
    append_size(asset("/discovery-splashes/", guild_id, hash, "png"), size)
}

/// Custom emoji URL.
pub fn emoji(emoji_id: u64, animated: bool) -> (r: String)
    ensures
        r@ == CDN@ + "/emojis/"@ + decimal(emoji_id as nat) + "."@ + (if animated {
            "gif"@
        } else {
            "png"@
        }),
{
    let ext = if animated {
        "gif"
    } else {
        "png"
    };
    let mut s = CDN.to_owned();
    s.append("/emojis/");
    push_decimal(&mut s, emoji_id);
    s.append(".");
    s.append(ext);
    s
}

/// Application (bot) icon URL.
pub fn application_icon(application_id: u64, hash: &str, format: ImageFormat, size: Option<u16>) -> (r: String)
    ensures
        r@ == sized(asset_url("/app-icons/"@, application_id, hash@, format.ext_spec()), size),
{
    append_size(asset("/app-icons/", application_id, hash, format.ext()), size)
}

/// Application asset URL.
pub fn application_asset(application_id: u64, asset_id: &str, format: ImageFormat, size: Option<u16>) -> (r: String)
    ensures
        r@ == sized(asset_url("/app-assets/"@, application_id, asset_id@, format.ext_spec()), size),
{
    append_size(asset("/app-assets/", application_id, asset_id, format.ext()), size)
}

/// Guild sticker URL.  Stickers are served as PNG (static) or JSON
/// (Lottie); PNG is the safe default.
pub fn sticker(sticker_id: u64) -> (r: String)
    ensures
        r@ == CDN@ + "/stickers/"@ + decimal(sticker_id as nat) + ".png"@,
{
    let mut s = CDN.to_owned();
    s.append("/stickers/");
    push_decimal(&mut s, sticker_id);
    s.append(".png");
    s
}

/// User banner URL.
pub fn user_banner(user_id: u64, hash: &str, format: ImageFormat, size: Option<u16>) -> (r: String)
    ensures
        r@ == sized(asset_url("/banners/"@, user_id, hash@, animated_ext(hash@, format)), size),
{
    let ext = choose_ext(hash, format);
    append_size(asset("/banners/", user_id, hash, ext), size)
}

/// Role icon URL.
pub fn role_icon(role_id: u64, hash: &str, format: ImageFormat, size: Option<u16>) -> (r: String)
    ensures
        r@ == sized(asset_url("/role-icons/"@, role_id, hash@, format.ext_spec()), size),
{
    append_size(asset("/role-icons/", role_id, hash, format.ext()), size)
}

/// Scheduled event cover image URL.
pub fn event_cover(event_id: u64, hash: &str, format: ImageFormat, size: Option<u16>) -> (r: String)
    ensures
        r@ == sized(asset_url("/guild-events/"@, event_id, hash@, format.ext_spec()), size),
{
    append_size(asset("/guild-events/", event_id, hash, format.ext()), size)
}

} // verus!
