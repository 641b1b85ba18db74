//! Discord embed model and builder.
//!
//! Embeds can be attached to messages and interaction responses to display
//! rich formatted content with titles, descriptions, images, and fields.

use vstd::prelude::*;

verus! {

/// A rich embed object attached to a message.
///
/// Use [`EmbedBuilder`] for fluent construction.
#[derive(Debug, Clone)]
pub struct Embed {
    /// The embed title (max 256 characters).
    pub title: Option<String>,
    /// The embed description (max 4096 characters).
    pub description: Option<String>,
    /// URL that the title hyperlinks to.
    pub url: Option<String>,
    /// ISO 8601 timestamp shown in the footer.
    pub timestamp: Option<String>,
    /// Color code as an RGB integer (e.g. `0xFF0000` for red).
    pub color: Option<u32>,
    /// Footer text and optional icon.
    pub footer: Option<EmbedFooter>,
    /// Large image displayed below the description.
    pub image: Option<EmbedMedia>,
    /// Small image displayed in the top-right corner.
    pub thumbnail: Option<EmbedMedia>,
    /// Video data (receive-only; set by Discord for link-preview embeds).
    pub video: Option<EmbedMedia>,
    /// Provider information (receive-only; set by Discord for link-preview embeds).
    pub provider: Option<EmbedProvider>,
    /// Author name, URL, and icon.
    pub author: Option<EmbedAuthor>,
    /// Up to 25 name/value field pairs.
    pub fields: Vec<EmbedField>,
}

impl Embed {
    /// Whether `self` holds no content at all.
    pub open spec fn is_blank(self) -> bool {
        &&& self.title is None
        &&& self.description is None
        &&& self.url is None
        &&& self.timestamp is None
        &&& self.color is None
        &&& self.footer is None
        &&& self.image is None
        &&& self.thumbnail is None
        &&& self.video is None
        &&& self.provider is None
        &&& self.author is None
        &&& self.fields@.len() == 0
    }

    /// Whether `a` and `b` agree on every part but the field list.
    pub open spec fn same_but_fields(a: Embed, b: Embed) -> bool {
        a == (Embed { fields: a.fields, ..b })
    }
}

impl Default for Embed {
    fn default() -> (r: Self)
        ensures
            r.is_blank(),
    {
        Embed {
            title: None,
            description: None,
            url: None,
            timestamp: None,
            color: None,
            footer: None,
            image: None,
            thumbnail: None,
            video: None,
            provider: None,
            author: None,
            fields: Vec::new(),
        }
    }
}

/// Footer section of an embed.
#[derive(Debug, Clone)]
pub struct EmbedFooter {
    /// Footer text (max 2048 characters).
    pub text: String,
    /// URL of the footer icon.
    pub icon_url: Option<String>,
}

/// Media reference used for embed image, thumbnail, and video fields.
#[derive(Debug, Clone)]
pub struct EmbedMedia {
    /// Source URL of the media.
    pub url: String,
    /// Height in pixels (receive-only for video/image previews).
    pub height: Option<u32>,
    /// Width in pixels (receive-only for video/image previews).
    pub width: Option<u32>,
}

/// Provider information on a link-preview embed (receive-only).
#[derive(Debug, Clone)]
pub struct EmbedProvider {
    /// Provider name.
    pub name: Option<String>,
    /// Provider URL.
    pub url: Option<String>,
}

/// Author section displayed at the top of an embed.
#[derive(Debug, Clone)]
pub struct EmbedAuthor {
    /// Author name (max 256 characters).
    pub name: String,
    /// URL that the author name hyperlinks to.
    pub url: Option<String>,
    /// URL of the author icon.
    pub icon_url: Option<String>,
}

/// A name/value field pair displayed inside an embed.
#[derive(Debug, Clone)]
pub struct EmbedField {
    /// Field name (max 256 characters).
    pub name: String,
    /// Field value (max 1024 characters).
    pub value: String,
    /// Whether this field should be displayed inline with adjacent fields.
    pub inline: bool,
}

/// Fluent builder for [`Embed`].
///
/// All methods consume and return `self` for chaining.
pub struct EmbedBuilder(Embed);

impl View for EmbedBuilder {
    type V = Embed;

    /// The embed built so far.
    closed spec fn view(&self) -> Embed {
        self.0
    }
}

impl EmbedBuilder {
    /// Create an empty embed builder.
    pub fn new() -> (r: Self)
        ensures
            r@.is_blank(),
    {
        EmbedBuilder(Embed::default())
    }

    /// Set the embed title.
    pub fn title(self, title: String) -> (r: Self)
        ensures
            r@ == (Embed { title: Some(title), ..self@ }),
    {
        EmbedBuilder(Embed { title: Some(title), ..self.0 })
    }

    /// Set the embed description.
    pub fn description(self, description: String) -> (r: Self)
        ensures
            r@ == (Embed { description: Some(description), ..self@ }),
    {
        EmbedBuilder(Embed { description: Some(description), ..self.0 })
    }

    /// Set the title hyperlink URL.
    pub fn url(self, url: String) -> (r: Self)
        ensures
            r@ == (Embed { url: Some(url), ..self@ }),
    {
        EmbedBuilder(Embed { url: Some(url), ..self.0 })
    }

    /// Set an ISO 8601 timestamp shown in the footer area.
    pub fn timestamp(self, timestamp: String) -> (r: Self)
        ensures
            r@ == (Embed { timestamp: Some(timestamp), ..self@ }),
    {
        EmbedBuilder(Embed { timestamp: Some(timestamp), ..self.0 })
    }

    /// Set the sidebar color as an RGB integer.
    pub fn color(self, color: u32) -> (r: Self)
        ensures
            r@ == (Embed { color: Some(color), ..self@ }),
    {
        EmbedBuilder(Embed { color: Some(color), ..self.0 })
    }

    /// Set the footer text.
    pub fn footer(self, text: String) -> (r: Self)
        ensures
            r@ == (Embed { footer: Some(EmbedFooter { text, icon_url: None }), ..self@ }),
    {
        EmbedBuilder(Embed { footer: Some(EmbedFooter { text, icon_url: None }), ..self.0 })
    }

    /// Set the footer text and icon URL.
    pub fn footer_with_icon(self, text: String, icon_url: String) -> (r: Self)
        ensures
            r@ == (Embed {
                footer: Some(EmbedFooter { text, icon_url: Some(icon_url) }),
                ..self@
            }),
    {
        EmbedBuilder(
            Embed { footer: Some(EmbedFooter { text, icon_url: Some(icon_url) }), ..self.0 },
        )
    }

    /// Set the large image URL.
    pub fn image(self, url: String) -> (r: Self)
        ensures
            r@ == (Embed { image: Some(EmbedMedia { url, height: None, width: None }), ..self@ }),
    {
        EmbedBuilder(Embed { image: Some(EmbedMedia { url, height: None, width: None }), ..self.0 })
    }

    /// Set the thumbnail image URL (displayed top-right).
    pub fn thumbnail(self, url: String) -> (r: Self)
        ensures
            r@ == (Embed {
                thumbnail: Some(EmbedMedia { url, height: None, width: None }),
                ..self@
            }),
    {
        EmbedBuilder(
            Embed { thumbnail: Some(EmbedMedia { url, height: None, width: None }), ..self.0 },
        )
    }

    /// Set the author name.
    pub fn author(self, name: String) -> (r: Self)
        ensures
            r@ == (Embed {
                author: Some(EmbedAuthor { name, url: None, icon_url: None }),
                ..self@
            }),
    {
        EmbedBuilder(
            Embed { author: Some(EmbedAuthor { name, url: None, icon_url: None }), ..self.0 },
        )
    }

    /// Set the author name and hyperlink URL.
    pub fn author_with_url(self, name: String, url: String) -> (r: Self)
        ensures
            r@ == (Embed {
                author: Some(EmbedAuthor { name, url: Some(url), icon_url: None }),
                ..self@
            }),
    {
        EmbedBuilder(
            Embed { author: Some(EmbedAuthor { name, url: Some(url), icon_url: None }), ..self.0 },
        )
    }

    /// Append a field to the embed.
    pub fn field(self, name: String, value: String, inline: bool) -> (r: Self)
        ensures
            r@.fields@ == self@.fields@.push(EmbedField { name, value, inline }),
            Embed::same_but_fields(r@, self@),
    {
        let mut e = self.0;
        e.fields.push(EmbedField { name, value, inline });
        EmbedBuilder(e)
    }

    /// Consume the builder and return the finished [`Embed`].
    pub fn build(self) -> (r: Embed)
        ensures
            r == self@,
    {
        self.0
    }
}

impl Default for EmbedBuilder {
    fn default() -> (r: Self)
        ensures
            r@.is_blank(),
    {
        Self::new()
    }
}

} // verus!
