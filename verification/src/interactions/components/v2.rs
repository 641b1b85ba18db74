//! Discord message components v2.
//!
//! Components v2 adds layout primitives such as [`TextDisplay`],
//! [`MediaGallery`], [`Separator`], and [`Container`] that give bots rich
//! formatting capabilities beyond the original button / select menu system.
//!
//! Enable v2 by setting message flag `IS_COMPONENTS_V2` (bit 15, value
//! `32768`) in the response flags.

use vstd::prelude::*;
use vstd::std_specs::convert::{FromSpecImpl, TryFromSpecImpl};
use crate::json::{Json, JsonValue, items_model, lemma_items_model_push, members_model, opt_member, push_member, push_opt_member};
use crate::text::{code_message, decimal};

verus! {

/// Type discriminant for a v2 component.
#[derive(Debug, Clone, Copy, PartialEq, Eq, Structural)]
pub enum ComponentV2Type {
    Section,
    TextDisplay,
    Thumbnail,
    MediaGallery,
    File,
    Separator,
    Container,
}

impl ComponentV2Type {
    /// The wire code of this v2 component type.
    pub open spec fn code_spec(self) -> u8 {
        match self {
            ComponentV2Type::Section => 9u8,
            ComponentV2Type::TextDisplay => 10u8,
            ComponentV2Type::Thumbnail => 11u8,
            ComponentV2Type::MediaGallery => 12u8,
            ComponentV2Type::File => 13u8,
            ComponentV2Type::Separator => 14u8,
            ComponentV2Type::Container => 17u8,
        }
    }

    /// The value with wire code `v`, if there is one.
    pub open spec fn from_code_spec(v: u8) -> Option<ComponentV2Type> {
        if v == 9u8 {
            Some(ComponentV2Type::Section)
        } else if v == 10u8 {
            Some(ComponentV2Type::TextDisplay)
        } else if v == 11u8 {
            Some(ComponentV2Type::Thumbnail)
        } else if v == 12u8 {
            Some(ComponentV2Type::MediaGallery)
        } else if v == 13u8 {
            Some(ComponentV2Type::File)
        } else if v == 14u8 {
            Some(ComponentV2Type::Separator)
        } else if v == 17u8 {
            Some(ComponentV2Type::Container)
        } else {
            None
        }
    }
}

impl TryFrom<u8> for ComponentV2Type {
    type Error = String;

    fn try_from(v: u8) -> (r: Result<Self, String>)
        ensures
            match ComponentV2Type::from_code_spec(v) {
                Some(k) => r == Ok::<ComponentV2Type, String>(k),
                None => r is Err && r->Err_0@ == "unknown v2 component type: "@ + decimal(v as nat),
            },
    {
        match v {
            9 => Ok(ComponentV2Type::Section),
            10 => Ok(ComponentV2Type::TextDisplay),
            11 => Ok(ComponentV2Type::Thumbnail),
            12 => Ok(ComponentV2Type::MediaGallery),
            13 => Ok(ComponentV2Type::File),
            14 => Ok(ComponentV2Type::Separator),
            17 => Ok(ComponentV2Type::Container),
            _ => Err(code_message("unknown v2 component type: ", v)),
        }
    }
}

/// The contract of `try_from` is stated on the function itself, error text
/// included; this spec is not relied on.
impl TryFromSpecImpl<u8> for ComponentV2Type {
    open spec fn obeys_try_from_spec() -> bool {
        false
    }

    open spec fn try_from_spec(v: u8) -> Result<ComponentV2Type, String> {
        match ComponentV2Type::from_code_spec(v) {
            Some(k) => Ok(k),
            None => Err(arbitrary()),
        }
    }
}

impl From<ComponentV2Type> for u8 {
    fn from(v: ComponentV2Type) -> (r: u8)
        ensures
            r == v.code_spec(),
    {
        match v {
            ComponentV2Type::Section => 9,
            ComponentV2Type::TextDisplay => 10,
            ComponentV2Type::Thumbnail => 11,
            ComponentV2Type::MediaGallery => 12,
            ComponentV2Type::File => 13,
            ComponentV2Type::Separator => 14,
            ComponentV2Type::Container => 17,
        }
    }
}

impl FromSpecImpl<ComponentV2Type> for u8 {
    open spec fn obeys_from_spec() -> bool {
        true
    }

    open spec fn from_spec(v: ComponentV2Type) -> u8 {
        v.code_spec()
    }
}

/// Every v2 component type has exactly one wire code: decoding a value's code gives the
/// value back, and a code that decodes names a value with that code.
pub proof fn lemma_component_v2_type_code_roundtrip(k: ComponentV2Type, v: u8)
    ensures
        ComponentV2Type::from_code_spec(k.code_spec()) == Some(k),
        ComponentV2Type::from_code_spec(v) matches Some(j) ==> j.code_spec() == v,
{
}

/// An optional 32-bit number as JSON.
pub open spec fn opt_u32_json(o: Option<u32>) -> Option<Json> {
    match o {
        Some(n) => Some(Json::UInt(n as u64)),
        None => None,
    }
}

fn opt_u32_value(o: Option<u32>) -> (r: Option<JsonValue>)
    ensures
        crate::json::opt_model(r) == opt_u32_json(o),
{
    match o {
        Some(n) => Some(JsonValue::UInt(n as u64)),
        None => None,
    }
}

/// A media reference (image, gif, or video URL).
#[derive(Debug, Clone)]
pub struct UnfurlMedia {
    pub url: String,
}

/// A text block displaying formatted markdown content.
#[derive(Debug, Clone)]
pub struct TextDisplay {
    pub kind: ComponentV2Type,
    pub content: String,
    pub id: Option<u32>,
}

impl TextDisplay {
    /// The block as JSON.
    pub open spec fn json(self) -> Json {
        Json::Object(
            seq![("type"@, Json::UInt(self.kind.code_spec() as u64)), ("content"@, Json::Str(self.content@))]
                + opt_member("id"@, opt_u32_json(self.id)),
        )
    }

    /// A block showing `content`.
    pub fn new(content: String) -> (r: Self)
        ensures
            r == (TextDisplay { kind: ComponentV2Type::TextDisplay, content, id: None }),
    {
        TextDisplay { kind: ComponentV2Type::TextDisplay, content, id: None }
    }

    /// Serialize to a JSON value.
    pub fn into_value(self) -> (r: JsonValue)
        ensures
            r.model() == self.json(),
    {
        let ghost me = self;
        let mut m: Vec<(String, JsonValue)> = Vec::new();
        push_member(&mut m, "type", JsonValue::UInt(u8::from(self.kind) as u64));
        push_member(&mut m, "content", JsonValue::Str(self.content));
        push_opt_member(&mut m, "id", opt_u32_value(self.id));
        proof {
            let expected = match me.json() {
                Json::Object(ms) => ms,
                _ => Seq::empty(),
            };
            assert(members_model(m@) =~= expected);
        }
        JsonValue::Object(m)
    }
}

/// A horizontal separator / divider line between components.
#[derive(Debug, Clone, Copy, PartialEq, Eq, Structural)]
pub struct Separator {
    pub kind: ComponentV2Type,
    /// Show a visible divider line.
    pub divider: bool,
    /// Spacing: `1` = small, `2` = large.
    pub spacing: Option<u8>,
    pub id: Option<u32>,
}

impl Default for Separator {
    fn default() -> (r: Self)
        ensures
            r == (Separator { kind: ComponentV2Type::Separator, divider: true, spacing: None, id: None }),
    {
        Separator::new()
    }
}

impl Separator {
    /// The separator as JSON.
    pub open spec fn json(self) -> Json {
        Json::Object(
            seq![("type"@, Json::UInt(self.kind.code_spec() as u64)), ("divider"@, Json::Bool(self.divider))]
                + opt_member("spacing"@, match self.spacing {
                    Some(n) => Some(Json::UInt(n as u64)),
                    None => None,
                })
                + opt_member("id"@, opt_u32_json(self.id)),
        )
    }

    /// A visible divider with the default spacing.
    pub fn new() -> (r: Self)
        ensures
            r == (Separator { kind: ComponentV2Type::Separator, divider: true, spacing: None, id: None }),
    {
        Separator { kind: ComponentV2Type::Separator, divider: true, spacing: None, id: None }
    }

    /// Serialize to a JSON value.
    pub fn into_value(self) -> (r: JsonValue)
        ensures
            r.model() == self.json(),
    {
        let mut m: Vec<(String, JsonValue)> = Vec::new();
        push_member(&mut m, "type", JsonValue::UInt(u8::from(self.kind) as u64));
        push_member(&mut m, "divider", JsonValue::Bool(self.divider));
        let spacing = match self.spacing {
            Some(n) => Some(JsonValue::UInt(n as u64)),
            None => None,
        };
        push_opt_member(&mut m, "spacing", spacing);
        push_opt_member(&mut m, "id", opt_u32_value(self.id));
        proof {
            let expected = match self.json() {
                Json::Object(ms) => ms,
                _ => Seq::empty(),
            };
            assert(members_model(m@) =~= expected);
        }
        JsonValue::Object(m)
    }
}

/// A single item inside a [`MediaGallery`].
#[derive(Debug, Clone)]
pub struct MediaGalleryItem {
    pub media: UnfurlMedia,
    pub description: Option<String>,
    pub spoiler: bool,
}

impl MediaGalleryItem {
    /// The item as JSON.
    pub open spec fn json(self) -> Json {
        Json::Object(
            seq![("media"@, Json::Object(seq![("url"@, Json::Str(self.media.url@))]))]
                + opt_member("description"@, match self.description {
                    Some(d) => Some(Json::Str(d@)),
                    None => None,
                })
                + seq![("spoiler"@, Json::Bool(self.spoiler))],
        )
    }

    /// An item showing the media at `url`.
    pub fn new(url: String) -> (r: Self)
        ensures
            r == (MediaGalleryItem { media: UnfurlMedia { url }, description: None, spoiler: false }),
    {
        MediaGalleryItem { media: UnfurlMedia { url }, description: None, spoiler: false }
    }

    /// Set the item's description.
    pub fn description(self, desc: String) -> (r: Self)
        ensures
            r == (MediaGalleryItem { description: Some(desc), ..self }),
    {
        MediaGalleryItem { description: Some(desc), ..self }
    }

    /// Serialize to a JSON value.
    pub fn into_value(self) -> (r: JsonValue)
        ensures
            r.model() == self.json(),
    {
        let ghost me = self;
        let mut media: Vec<(String, JsonValue)> = Vec::new();
        push_member(&mut media, "url", JsonValue::Str(self.media.url));
        assert(members_model(media@) =~= seq![("url"@, Json::Str(me.media.url@))]);
        let mut m: Vec<(String, JsonValue)> = Vec::new();
        push_member(&mut m, "media", JsonValue::Object(media));
        let desc = match self.description {
            Some(d) => Some(JsonValue::Str(d)),
            None => None,
        };
        push_opt_member(&mut m, "description", desc);
        push_member(&mut m, "spoiler", JsonValue::Bool(self.spoiler));
        proof {
            let expected = match me.json() {
                Json::Object(ms) => ms,
                _ => Seq::empty(),
            };
            assert(members_model(m@) =~= expected);
        }
        JsonValue::Object(m)
    }
}

/// The JSON of each item of a gallery.
pub open spec fn gallery_items_json(items: Seq<MediaGalleryItem>) -> Seq<Json> {
    items.map_values(|i: MediaGalleryItem| i.json())
}

fn gallery_items_value(items: Vec<MediaGalleryItem>) -> (r: Vec<JsonValue>)
    ensures
        items_model(r@) == gallery_items_json(items@),
{
    let ghost all = items@;
    let n = items.len();
    let mut rest = items;
    let mut src: Vec<MediaGalleryItem> = Vec::new();
    let mut k: usize = n;
    while k > 0
        invariant
            k <= n,
            n == all.len(),
            rest@ == all.subrange(0, k as int),
            src@ == all.subrange(k as int, n as int).reverse(),
        decreases k,
    {
        let d = rest.pop().unwrap();
        src.push(d);
        k = k - 1;
        assert(rest@ =~= all.subrange(0, k as int));
        assert(src@ =~= all.subrange(k as int, n as int).reverse());
    }
    let mut out: Vec<JsonValue> = Vec::new();
    proof {
        crate::json::lemma_items_model(out@);
    }
    let mut i: usize = 0;
    while i < n
        invariant
            i <= n,
            n == all.len(),
            src@ == all.subrange(i as int, n as int).reverse(),
            items_model(out@) == gallery_items_json(all.subrange(0, i as int)),
        decreases n - i,
    {
        let d = src.pop().unwrap();
        assert(d == all[i as int]);
        let v = d.into_value();
        proof {
            lemma_items_model_push(out@, v);
        }
        out.push(v);
        i = i + 1;
        assert(src@ =~= all.subrange(i as int, n as int).reverse());
        assert(gallery_items_json(all.subrange(0, i as int)) =~= gallery_items_json(all.subrange(0, i - 1)).push(
            all[i - 1].json(),
        ));
    }
    assert(all.subrange(0, n as int) =~= all);
    out
}

/// A gallery of up to 10 media items.
#[derive(Debug, Clone)]
pub struct MediaGallery {
    pub kind: ComponentV2Type,
    pub items: Vec<MediaGalleryItem>,
    pub id: Option<u32>,
}

impl Default for MediaGallery {
    fn default() -> (r: Self)
        ensures
            r.kind == ComponentV2Type::MediaGallery,
            r.items@.len() == 0,
            r.id is None,
    {
        MediaGallery::new()
    }
}

impl MediaGallery {
    /// The gallery as JSON.
    pub open spec fn json(self) -> Json {
        Json::Object(
            seq![
                ("type"@, Json::UInt(self.kind.code_spec() as u64)),
                ("items"@, Json::Array(gallery_items_json(self.items@))),
            ] + opt_member("id"@, opt_u32_json(self.id)),
        )
    }

    /// An empty gallery.
    pub fn new() -> (r: Self)
        ensures
            r.kind == ComponentV2Type::MediaGallery,
            r.items@.len() == 0,
            r.id is None,
    {
        MediaGallery { kind: ComponentV2Type::MediaGallery, items: Vec::new(), id: None }
    }

    /// Add an item at the end of the gallery.
    pub fn item(self, item: MediaGalleryItem) -> (r: Self)
        ensures
            r.kind == self.kind,
            r.id == self.id,
            r.items@ == self.items@.push(item),
    {
        let mut g = self;
        g.items.push(item);
        g
    }

    /// Serialize to a JSON value.
    pub fn into_value(self) -> (r: JsonValue)
        ensures
            r.model() == self.json(),
    {
        let ghost me = self;
        let mut m: Vec<(String, JsonValue)> = Vec::new();
        push_member(&mut m, "type", JsonValue::UInt(u8::from(self.kind) as u64));
        let items = gallery_items_value(self.items);
        push_member(&mut m, "items", JsonValue::Array(items));
        push_opt_member(&mut m, "id", opt_u32_value(self.id));
        proof {
            let expected = match me.json() {
                Json::Object(ms) => ms,
                _ => Seq::empty(),
            };
            assert(members_model(m@) =~= expected);
        }
        JsonValue::Object(m)
    }
}

/// A full-width top-level container holding other v2 components.
#[derive(Debug, Clone)]
pub struct Container {
    pub kind: ComponentV2Type,
    pub components: Vec<JsonValue>,
    /// Accent color as an RGB integer.
    pub accent_color: Option<u32>,
    pub spoiler: bool,
    pub id: Option<u32>,
}

impl Default for Container {
    fn default() -> (r: Self)
        ensures
            r.kind == ComponentV2Type::Container,
            r.components@.len() == 0,
            r.accent_color is None,
            !r.spoiler,
            r.id is None,
    {
        Container::new()
    }
}

impl Container {
    /// The container as JSON.
    pub open spec fn json(self) -> Json {
        Json::Object(
            seq![
                ("type"@, Json::UInt(self.kind.code_spec() as u64)),
                ("components"@, Json::Array(items_model(self.components@))),
            ] + opt_member("accent_color"@, opt_u32_json(self.accent_color))
                + seq![("spoiler"@, Json::Bool(self.spoiler))]
                + opt_member("id"@, opt_u32_json(self.id)),
        )
    }

    /// An empty container.
    pub fn new() -> (r: Self)
        ensures
            r.kind == ComponentV2Type::Container,
            r.components@.len() == 0,
            r.accent_color is None,
            !r.spoiler,
            r.id is None,
    {
        Container { kind: ComponentV2Type::Container, components: Vec::new(), accent_color: None, spoiler: false, id: None }
    }

    /// Add any component, as JSON, at the end.
    pub fn component(self, c: JsonValue) -> (r: Self)
        ensures
            r.kind == self.kind,
            r.accent_color == self.accent_color,
            r.spoiler == self.spoiler,
            r.id == self.id,
            items_model(r.components@) == items_model(self.components@).push(c.model()),
    {
        let mut k = self;
        proof {
            lemma_items_model_push(k.components@, c);
        }
        k.components.push(c);
        k
    }

    /// Set the accent color (an RGB integer).
    pub fn accent_color(self, color: u32) -> (r: Self)
        ensures
            r == (Container { accent_color: Some(color), ..self }),
    {
        Container { accent_color: Some(color), ..self }
    }

    /// Serialize to a JSON value.
    pub fn into_value(self) -> (r: JsonValue)
        ensures
            r.model() == self.json(),
    {
        let ghost me = self;
        let mut m: Vec<(String, JsonValue)> = Vec::new();
        push_member(&mut m, "type", JsonValue::UInt(u8::from(self.kind) as u64));
        push_member(&mut m, "components", JsonValue::Array(self.components));
        push_opt_member(&mut m, "accent_color", opt_u32_value(self.accent_color));
        push_member(&mut m, "spoiler", JsonValue::Bool(self.spoiler));
        push_opt_member(&mut m, "id", opt_u32_value(self.id));
        proof {
            let expected = match me.json() {
                Json::Object(ms) => ms,
                _ => Seq::empty(),
            };
            assert(members_model(m@) =~= expected);
        }
        JsonValue::Object(m)
    }
}

} // verus!
