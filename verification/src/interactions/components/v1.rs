//! Discord message components (v1: buttons, select menus, text inputs).
//!
//! Wrap components inside an [`ActionRow`] before including them in a
//! message.  Each component turns into the JSON object Discord expects with
//! `into_value`; optional fields that are not set are left out.

use vstd::prelude::*;
use vstd::std_specs::convert::{FromSpecImpl, TryFromSpecImpl};
use crate::json::{Json, JsonValue, items_model, lemma_items_model_push, members_model, opt_member, push_member, push_opt_member};
use crate::snowflake::Snowflake;
use crate::text::{code_message, decimal};

verus! {

/// Type discriminant for a message component.
#[derive(Debug, Clone, Copy, PartialEq, Eq, Structural)]
pub enum ComponentType {
    ActionRow,
    Button,
    StringSelect,
    TextInput,
    UserSelect,
    RoleSelect,
    MentionableSelect,
    ChannelSelect,
}

impl ComponentType {
    /// The wire code of this component type.
    pub open spec fn code_spec(self) -> u8 {
        match self {
            ComponentType::ActionRow => 1u8,
            ComponentType::Button => 2u8,
            ComponentType::StringSelect => 3u8,
            ComponentType::TextInput => 4u8,
            ComponentType::UserSelect => 5u8,
            ComponentType::RoleSelect => 6u8,
            ComponentType::MentionableSelect => 7u8,
            ComponentType::ChannelSelect => 8u8,
        }
    }

    /// The value with wire code `v`, if there is one.
    pub open spec fn from_code_spec(v: u8) -> Option<ComponentType> {
        if v == 1u8 {
            Some(ComponentType::ActionRow)
        } else if v == 2u8 {
            Some(ComponentType::Button)
        } else if v == 3u8 {
            Some(ComponentType::StringSelect)
        } else if v == 4u8 {
            Some(ComponentType::TextInput)
        } else if v == 5u8 {
            Some(ComponentType::UserSelect)
        } else if v == 6u8 {
            Some(ComponentType::RoleSelect)
        } else if v == 7u8 {
            Some(ComponentType::MentionableSelect)
        } else if v == 8u8 {
            Some(ComponentType::ChannelSelect)
        } else {
            None
        }
    }
}

impl TryFrom<u8> for ComponentType {
    type Error = String;

    fn try_from(v: u8) -> (r: Result<Self, String>)
        ensures
            match ComponentType::from_code_spec(v) {
                Some(k) => r == Ok::<ComponentType, String>(k),
                None => r is Err && r->Err_0@ == "unknown component type: "@ + decimal(v as nat),
            },
    {
        match v {
            1 => Ok(ComponentType::ActionRow),
            2 => Ok(ComponentType::Button),
            3 => Ok(ComponentType::StringSelect),
            4 => Ok(ComponentType::TextInput),
            5 => Ok(ComponentType::UserSelect),
            6 => Ok(ComponentType::RoleSelect),
            7 => Ok(ComponentType::MentionableSelect),
            8 => Ok(ComponentType::ChannelSelect),
            _ => Err(code_message("unknown component type: ", v)),
        }
    }
}

/// The contract of `try_from` is stated on the function itself, error text
/// included; this spec is not relied on.
impl TryFromSpecImpl<u8> for ComponentType {
    open spec fn obeys_try_from_spec() -> bool {
        false
    }

    open spec fn try_from_spec(v: u8) -> Result<ComponentType, String> {
        match ComponentType::from_code_spec(v) {
            Some(k) => Ok(k),
            None => Err(arbitrary()),
        }
    }
}

impl From<ComponentType> for u8 {
    fn from(v: ComponentType) -> (r: u8)
        ensures
            r == v.code_spec(),
    {
        match v {
            ComponentType::ActionRow => 1,
            ComponentType::Button => 2,
            ComponentType::StringSelect => 3,
            ComponentType::TextInput => 4,
            ComponentType::UserSelect => 5,
            ComponentType::RoleSelect => 6,
            ComponentType::MentionableSelect => 7,
            ComponentType::ChannelSelect => 8,
        }
    }
}

impl FromSpecImpl<ComponentType> for u8 {
    open spec fn obeys_from_spec() -> bool {
        true
    }

    open spec fn from_spec(v: ComponentType) -> u8 {
        v.code_spec()
    }
}

/// Every component type has exactly one wire code: decoding a value's code gives the
/// value back, and a code that decodes names a value with that code.
pub proof fn lemma_component_type_code_roundtrip(k: ComponentType, v: u8)
    ensures
        ComponentType::from_code_spec(k.code_spec()) == Some(k),
        ComponentType::from_code_spec(v) matches Some(j) ==> j.code_spec() == v,
{
}

/// Button visual style.
#[derive(Debug, Clone, Copy, PartialEq, Eq, Structural)]
pub enum ButtonStyle {
    /// Blurple.
    Primary,
    /// Grey.
    Secondary,
    /// Green.
    Success,
    /// Red.
    Danger,
    /// Opens a URL (no `custom_id`, must have `url`).
    Link,
    /// Opens an SKU purchase flow (requires `sku_id`, no `custom_id`/`url`).
    Premium,
}

impl ButtonStyle {
    /// The wire code of this button style.
    pub open spec fn code_spec(self) -> u8 {
        match self {
            ButtonStyle::Primary => 1u8,
            ButtonStyle::Secondary => 2u8,
            ButtonStyle::Success => 3u8,
            ButtonStyle::Danger => 4u8,
            ButtonStyle::Link => 5u8,
            ButtonStyle::Premium => 6u8,
        }
    }

    /// The value with wire code `v`, if there is one.
    pub open spec fn from_code_spec(v: u8) -> Option<ButtonStyle> {
        if v == 1u8 {
            Some(ButtonStyle::Primary)
        } else if v == 2u8 {
            Some(ButtonStyle::Secondary)
        } else if v == 3u8 {
            Some(ButtonStyle::Success)
        } else if v == 4u8 {
            Some(ButtonStyle::Danger)
        } else if v == 5u8 {
            Some(ButtonStyle::Link)
        } else if v == 6u8 {
            Some(ButtonStyle::Premium)
        } else {
            None
        }
    }
}

impl TryFrom<u8> for ButtonStyle {
    type Error = String;

    fn try_from(v: u8) -> (r: Result<Self, String>)
        ensures
            match ButtonStyle::from_code_spec(v) {
                Some(k) => r == Ok::<ButtonStyle, String>(k),
                None => r is Err && r->Err_0@ == "unknown button style: "@ + decimal(v as nat),
            },
    {
        match v {
            1 => Ok(ButtonStyle::Primary),
            2 => Ok(ButtonStyle::Secondary),
            3 => Ok(ButtonStyle::Success),
            4 => Ok(ButtonStyle::Danger),
            5 => Ok(ButtonStyle::Link),
            6 => Ok(ButtonStyle::Premium),
            _ => Err(code_message("unknown button style: ", v)),
        }
    }
}

/// The contract of `try_from` is stated on the function itself, error text
/// included; this spec is not relied on.
impl TryFromSpecImpl<u8> for ButtonStyle {
    open spec fn obeys_try_from_spec() -> bool {
        false
    }

    open spec fn try_from_spec(v: u8) -> Result<ButtonStyle, String> {
        match ButtonStyle::from_code_spec(v) {
            Some(k) => Ok(k),
            None => Err(arbitrary()),
        }
    }
}

impl From<ButtonStyle> for u8 {
    fn from(v: ButtonStyle) -> (r: u8)
        ensures
            r == v.code_spec(),
    {
        match v {
            ButtonStyle::Primary => 1,
            ButtonStyle::Secondary => 2,
            ButtonStyle::Success => 3,
            ButtonStyle::Danger => 4,
            ButtonStyle::Link => 5,
            ButtonStyle::Premium => 6,
        }
    }
}

impl FromSpecImpl<ButtonStyle> for u8 {
    open spec fn obeys_from_spec() -> bool {
        true
    }

    open spec fn from_spec(v: ButtonStyle) -> u8 {
        v.code_spec()
    }
}

/// Every button style has exactly one wire code: decoding a value's code gives the
/// value back, and a code that decodes names a value with that code.
pub proof fn lemma_button_style_code_roundtrip(k: ButtonStyle, v: u8)
    ensures
        ButtonStyle::from_code_spec(k.code_spec()) == Some(k),
        ButtonStyle::from_code_spec(v) matches Some(j) ==> j.code_spec() == v,
{
}

/// Visual style for a [`TextInput`].
#[derive(Debug, Clone, Copy, PartialEq, Eq, Structural)]
pub enum TextInputStyle {
    /// Single-line input.
    Short,
    /// Multi-line input.
    Paragraph,
}

impl TextInputStyle {
    /// The wire code of this text input style.
    pub open spec fn code_spec(self) -> u8 {
        match self {
            TextInputStyle::Short => 1u8,
            TextInputStyle::Paragraph => 2u8,
        }
    }

    /// The value with wire code `v`, if there is one.
    pub open spec fn from_code_spec(v: u8) -> Option<TextInputStyle> {
        if v == 1u8 {
            Some(TextInputStyle::Short)
        } else if v == 2u8 {
            Some(TextInputStyle::Paragraph)
        } else {
            None
        }
    }
}

impl TryFrom<u8> for TextInputStyle {
    type Error = String;

    fn try_from(v: u8) -> (r: Result<Self, String>)
        ensures
            match TextInputStyle::from_code_spec(v) {
                Some(k) => r == Ok::<TextInputStyle, String>(k),
                None => r is Err && r->Err_0@ == "unknown text input style: "@ + decimal(v as nat),
            },
    {
        match v {
            1 => Ok(TextInputStyle::Short),
            2 => Ok(TextInputStyle::Paragraph),
            _ => Err(code_message("unknown text input style: ", v)),
        }
    }
}

/// The contract of `try_from` is stated on the function itself, error text
/// included; this spec is not relied on.
impl TryFromSpecImpl<u8> for TextInputStyle {
    open spec fn obeys_try_from_spec() -> bool {
        false
    }

    open spec fn try_from_spec(v: u8) -> Result<TextInputStyle, String> {
        match TextInputStyle::from_code_spec(v) {
            Some(k) => Ok(k),
            None => Err(arbitrary()),
        }
    }
}

impl From<TextInputStyle> for u8 {
    fn from(v: TextInputStyle) -> (r: u8)
        ensures
            r == v.code_spec(),
    {
        match v {
            TextInputStyle::Short => 1,
            TextInputStyle::Paragraph => 2,
        }
    }
}

impl FromSpecImpl<TextInputStyle> for u8 {
    open spec fn obeys_from_spec() -> bool {
        true
    }

    open spec fn from_spec(v: TextInputStyle) -> u8 {
        v.code_spec()
    }
}

/// Every text input style has exactly one wire code: decoding a value's code gives the
/// value back, and a code that decodes names a value with that code.
pub proof fn lemma_text_input_style_code_roundtrip(k: TextInputStyle, v: u8)
    ensures
        TextInputStyle::from_code_spec(k.code_spec()) == Some(k),
        TextInputStyle::from_code_spec(v) matches Some(j) ==> j.code_spec() == v,
{
}

// ── JSON of component fields ─────────────────────────────────────────────

/// A snowflake as JSON: its decimal text.
pub open spec fn snowflake_json(s: Snowflake) -> Json {
    Json::Str(decimal(s@ as nat))
}

/// An optional text as JSON.
pub open spec fn opt_text_json(o: Option<String>) -> Option<Json> {
    match o {
        Some(t) => Some(Json::Str(t@)),
        None => None,
    }
}

/// An optional number as JSON.
pub open spec fn opt_u64_json(o: Option<u64>) -> Option<Json> {
    match o {
        Some(n) => Some(Json::UInt(n)),
        None => None,
    }
}

/// An optional byte-sized number as JSON.
pub open spec fn opt_u8_json(o: Option<u8>) -> Option<Json> {
    match o {
        Some(n) => Some(Json::UInt(n as u64)),
        None => None,
    }
}

/// An optional 16-bit number as JSON.
pub open spec fn opt_u16_json(o: Option<u16>) -> Option<Json> {
    match o {
        Some(n) => Some(Json::UInt(n as u64)),
        None => None,
    }
}

pub(crate) fn snowflake_value(s: Snowflake) -> (r: JsonValue)
    ensures
        r.model() == snowflake_json(s),
{
    JsonValue::Str(s.to_string())
}

pub(crate) fn opt_text_value(o: Option<String>) -> (r: Option<JsonValue>)
    ensures
        crate::json::opt_model(r) == opt_text_json(o),
{
    match o {
        Some(t) => Some(JsonValue::Str(t)),
        None => None,
    }
}

pub(crate) fn opt_u8_value(o: Option<u8>) -> (r: Option<JsonValue>)
    ensures
        crate::json::opt_model(r) == opt_u8_json(o),
{
    match o {
        Some(n) => Some(JsonValue::UInt(n as u64)),
        None => None,
    }
}

pub(crate) fn opt_u16_value(o: Option<u16>) -> (r: Option<JsonValue>)
    ensures
        crate::json::opt_model(r) == opt_u16_json(o),
{
    match o {
        Some(n) => Some(JsonValue::UInt(n as u64)),
        None => None,
    }
}

// ── Emoji ────────────────────────────────────────────────────────────────

/// A partial emoji used inside components.
#[derive(Debug, Clone)]
pub struct PartialEmoji {
    pub id: Option<Snowflake>,
    pub name: Option<String>,
    pub animated: bool,
}

impl PartialEmoji {
    /// The emoji as JSON.
    pub open spec fn json(self) -> Json {
        Json::Object(
            opt_member("id"@, match self.id {
                Some(i) => Some(snowflake_json(i)),
                None => None,
            }) + opt_member("name"@, opt_text_json(self.name)) + seq![("animated"@, Json::Bool(self.animated))],
        )
    }

    /// Serialize to a JSON value.
    pub fn into_value(self) -> (r: JsonValue)
        ensures
            r.model() == self.json(),
    {
        let mut m: Vec<(String, JsonValue)> = Vec::new();
        let id = match self.id {
            Some(i) => Some(snowflake_value(i)),
            None => None,
        };
        push_opt_member(&mut m, "id", id);
        push_opt_member(&mut m, "name", opt_text_value(self.name));
        push_member(&mut m, "animated", JsonValue::Bool(self.animated));
        let r = JsonValue::Object(m);
        proof {
            let expected = opt_member("id"@, match self.id {
                Some(i) => Some(snowflake_json(i)),
                None => None,
            }) + opt_member("name"@, opt_text_json(self.name)) + seq![("animated"@, Json::Bool(self.animated))];
            assert(members_model(m@) =~= expected);
        }
        r
    }
}

fn opt_emoji_value(o: Option<PartialEmoji>) -> (r: Option<JsonValue>)
    ensures
        crate::json::opt_model(r) == match o {
            Some(e) => Some(e.json()),
            None => None::<Json>,
        },
{
    match o {
        Some(e) => Some(e.into_value()),
        None => None,
    }
}

// ── Buttons ──────────────────────────────────────────────────────────────

/// A clickable button component.
#[derive(Debug, Clone)]
pub struct Button {
    /// Always [`ComponentType::Button`].
    pub kind: ComponentType,
    pub style: ButtonStyle,
    pub label: Option<String>,
    pub emoji: Option<PartialEmoji>,
    /// Developer-defined identifier (not used for Link/Premium buttons).
    pub custom_id: Option<String>,
    /// URL to open (Link buttons only).
    pub url: Option<String>,
    /// SKU ID for Premium buttons.
    pub sku_id: Option<Snowflake>,
    pub disabled: bool,
}

impl Button {
    /// The button as JSON.
    pub open spec fn json(self) -> Json {
        Json::Object(
            seq![("type"@, Json::UInt(self.kind.code_spec() as u64)), ("style"@, Json::UInt(self.style.code_spec() as u64))]
                + opt_member("label"@, opt_text_json(self.label))
                + opt_member("emoji"@, match self.emoji {
                    Some(e) => Some(e.json()),
                    None => None,
                })
                + opt_member("custom_id"@, opt_text_json(self.custom_id))
                + opt_member("url"@, opt_text_json(self.url))
                + opt_member("sku_id"@, match self.sku_id {
                    Some(i) => Some(snowflake_json(i)),
                    None => None,
                })
                + seq![("disabled"@, Json::Bool(self.disabled))],
        )
    }

    /// Create a button with a click interaction style.
    pub fn new(style: ButtonStyle, custom_id: String) -> (r: Self)
        ensures
            r == (Button {
                kind: ComponentType::Button,
                style,
                label: None,
                emoji: None,
                custom_id: Some(custom_id),
                url: None,
                sku_id: None,
                disabled: false,
            }),
    {
        Button {
            kind: ComponentType::Button,
            style,
            label: None,
            emoji: None,
            custom_id: Some(custom_id),
            url: None,
            sku_id: None,
            disabled: false,
        }
    }

    /// Create a Link button that opens a URL.
    pub fn link(url: String) -> (r: Self)
        ensures
            r == (Button {
                kind: ComponentType::Button,
                style: ButtonStyle::Link,
                label: None,
                emoji: None,
                custom_id: None,
                url: Some(url),
                sku_id: None,
                disabled: false,
            }),
    {
        Button {
            kind: ComponentType::Button,
            style: ButtonStyle::Link,
            label: None,
            emoji: None,
            custom_id: None,
            url: Some(url),
            sku_id: None,
            disabled: false,
        }
    }

    /// Create a Premium button that opens an SKU purchase flow.
    pub fn premium(sku_id: Snowflake) -> (r: Self)
        ensures
            r == (Button {
                kind: ComponentType::Button,
                style: ButtonStyle::Premium,
                label: None,
                emoji: None,
                custom_id: None,
                url: None,
                sku_id: Some(sku_id),
                disabled: false,
            }),
    {
        Button {
            kind: ComponentType::Button,
            style: ButtonStyle::Premium,
            label: None,
            emoji: None,
            custom_id: None,
            url: None,
            sku_id: Some(sku_id),
            disabled: false,
        }
    }

    /// Set the button's label.
    pub fn label(self, label: String) -> (r: Self)
        ensures
            r == (Button { label: Some(label), ..self }),
    {
        Button { label: Some(label), ..self }
    }

    /// Set the button's emoji.
    pub fn emoji(self, emoji: PartialEmoji) -> (r: Self)
        ensures
            r == (Button { emoji: Some(emoji), ..self }),
    {
        Button { emoji: Some(emoji), ..self }
    }

    /// Disable the button.
    pub fn disabled(self) -> (r: Self)
        ensures
            r == (Button { disabled: true, ..self }),
    {
        Button { disabled: true, ..self }
    }

    /// Serialize to a JSON value suitable for a message component payload.
    pub fn into_value(self) -> (r: JsonValue)
        ensures
            r.model() == self.json(),
    {
        let ghost me = self;
        let mut m: Vec<(String, JsonValue)> = Vec::new();
        push_member(&mut m, "type", JsonValue::UInt(u8::from(self.kind) as u64));
        push_member(&mut m, "style", JsonValue::UInt(u8::from(self.style) as u64));
        push_opt_member(&mut m, "label", opt_text_value(self.label));
        push_opt_member(&mut m, "emoji", opt_emoji_value(self.emoji));
        push_opt_member(&mut m, "custom_id", opt_text_value(self.custom_id));
        push_opt_member(&mut m, "url", opt_text_value(self.url));
        let sku = match self.sku_id {
            Some(i) => Some(snowflake_value(i)),
            None => None,
        };
        push_opt_member(&mut m, "sku_id", sku);
        push_member(&mut m, "disabled", JsonValue::Bool(self.disabled));
        proof {
            let expected = match me.json() {
                Json::Object(ms) => ms,
                _ => Seq::empty(),
            };
            assert(members_model(m@) =~= expected);
        }
        JsonValue::Object(m)
    }
}

// ── Select menus ─────────────────────────────────────────────────────────

/// One option in a string select menu.
#[derive(Debug, Clone)]
pub struct SelectOption {
    pub label: String,
    pub value: String,
    pub description: Option<String>,
    pub emoji: Option<PartialEmoji>,
    /// Whether this option is pre-selected.
    pub default: bool,
}

impl SelectOption {
    /// The option as JSON.
    pub open spec fn json(self) -> Json {
        Json::Object(
            seq![("label"@, Json::Str(self.label@)), ("value"@, Json::Str(self.value@))]
                + opt_member("description"@, opt_text_json(self.description))
                + opt_member("emoji"@, match self.emoji {
                    Some(e) => Some(e.json()),
                    None => None,
                })
                + seq![("default"@, Json::Bool(self.default))],
        )
    }

    /// An option shown as `label` that selects `value`.
    pub fn new(label: String, value: String) -> (r: Self)
        ensures
            r == (SelectOption { label, value, description: None, emoji: None, default: false }),
    {
        SelectOption { label, value, description: None, emoji: None, default: false }
    }

    /// Set the option's description.
    pub fn description(self, desc: String) -> (r: Self)
        ensures
            r == (SelectOption { description: Some(desc), ..self }),
    {
        SelectOption { description: Some(desc), ..self }
    }

    /// Pre-select the option.
    pub fn default_selected(self) -> (r: Self)
        ensures
            r == (SelectOption { default: true, ..self }),
    {
        SelectOption { default: true, ..self }
    }

    /// Serialize to a JSON value.
    pub fn into_value(self) -> (r: JsonValue)
        ensures
            r.model() == self.json(),
    {
        let ghost me = self;
        let mut m: Vec<(String, JsonValue)> = Vec::new();
        push_member(&mut m, "label", JsonValue::Str(self.label));
        push_member(&mut m, "value", JsonValue::Str(self.value));
        push_opt_member(&mut m, "description", opt_text_value(self.description));
        push_opt_member(&mut m, "emoji", opt_emoji_value(self.emoji));
        push_member(&mut m, "default", JsonValue::Bool(self.default));
        proof {
            let expected = match me.json() {
                Json::Object(ms) => ms,
                _ => Seq::empty(),
            };
            assert(members_model(m@) =~= expected);
        }
        JsonValue::Object(m)
    }
}

/// The JSON of each option of a list.
pub open spec fn options_json(options: Seq<SelectOption>) -> Seq<Json> {
    options.map_values(|o: SelectOption| o.json())
}

fn options_value(options: Vec<SelectOption>) -> (r: JsonValue)
    ensures
        r.model() == Json::Array(options_json(options@)),
{
    let ghost all = options@;
    let mut items: Vec<JsonValue> = Vec::new();
    let mut rest = options;
    let n = rest.len();
    proof {
        crate::json::lemma_items_model(items@);
    }
    let mut i: usize = 0;
    let mut src: Vec<SelectOption> = Vec::new();
    let mut k: usize = n;
    // Take the options out in order.
    while k > 0
        invariant
            k <= n,
            rest@ == all.subrange(0, k as int),
            src@ == all.subrange(k as int, n as int).reverse(),
            n == all.len(),
        decreases k,
    {
        let o = rest.pop().unwrap();
        src.push(o);
        k = k - 1;
        assert(rest@ =~= all.subrange(0, k as int));
        assert(src@ =~= all.subrange(k as int, n as int).reverse());
    }
    assert(src@ =~= all.reverse());
    while i < n
        invariant
            i <= n,
            n == all.len(),
            src@ == all.subrange(i as int, n as int).reverse(),
            items_model(items@) == options_json(all.subrange(0, i as int)),
        decreases n - i,
    {
        let o = src.pop().unwrap();
        assert(o == all[i as int]);
        let v = o.into_value();
        proof {
            lemma_items_model_push(items@, v);
        }
        items.push(v);
        i = i + 1;
        assert(src@ =~= all.subrange(i as int, n as int).reverse());
        assert(options_json(all.subrange(0, i as int)) =~= options_json(all.subrange(0, i - 1)).push(all[i - 1].json()));
    }
    assert(all.subrange(0, n as int) =~= all);
    JsonValue::Array(items)
}

/// A string select menu component.
#[derive(Debug, Clone)]
pub struct StringSelect {
    /// Always [`ComponentType::StringSelect`].
    pub kind: ComponentType,
    pub custom_id: String,
    pub options: Vec<SelectOption>,
    pub placeholder: Option<String>,
    pub min_values: Option<u8>,
    pub max_values: Option<u8>,
    pub disabled: bool,
}

impl StringSelect {
    /// The menu as JSON.
    pub open spec fn json(self) -> Json {
        Json::Object(
            seq![
                ("type"@, Json::UInt(self.kind.code_spec() as u64)),
                ("custom_id"@, Json::Str(self.custom_id@)),
                ("options"@, Json::Array(options_json(self.options@))),
            ] + opt_member("placeholder"@, opt_text_json(self.placeholder))
                + opt_member("min_values"@, opt_u8_json(self.min_values))
                + opt_member("max_values"@, opt_u8_json(self.max_values))
                + seq![("disabled"@, Json::Bool(self.disabled))],
        )
    }

    /// An empty menu identified by `custom_id`.
    pub fn new(custom_id: String) -> (r: Self)
        ensures
            r.kind == ComponentType::StringSelect,
            r.custom_id == custom_id,
            r.options@.len() == 0,
            r.placeholder is None,
            r.min_values is None,
            r.max_values is None,
            !r.disabled,
    {
        StringSelect {
            kind: ComponentType::StringSelect,
            custom_id,
            options: Vec::new(),
            placeholder: None,
            min_values: None,
            max_values: None,
            disabled: false,
        }
    }

    /// Add an option at the end of the menu.
    pub fn option(self, opt: SelectOption) -> (r: Self)
        ensures
            r.options@ == self.options@.push(opt),
            r == (StringSelect { options: r.options, ..self }),
    {
        let mut s = self;
        s.options.push(opt);
        s
    }

    /// Set the text shown when nothing is selected.
    pub fn placeholder(self, text: String) -> (r: Self)
        ensures
            r == (StringSelect { placeholder: Some(text), ..self }),
    {
        StringSelect { placeholder: Some(text), ..self }
    }

    /// Set the least number of options to pick.
    pub fn min_values(self, n: u8) -> (r: Self)
        ensures
            r == (StringSelect { min_values: Some(n), ..self }),
    {
        StringSelect { min_values: Some(n), ..self }
    }

    /// Set the most options to pick.
    pub fn max_values(self, n: u8) -> (r: Self)
        ensures
            r == (StringSelect { max_values: Some(n), ..self }),
    {
        StringSelect { max_values: Some(n), ..self }
    }

    /// Serialize to a JSON value.
    pub fn into_value(self) -> (r: JsonValue)
        ensures
            r.model() == self.json(),
    {
        let ghost me = self;
        let mut m: Vec<(String, JsonValue)> = Vec::new();
        push_member(&mut m, "type", JsonValue::UInt(u8::from(self.kind) as u64));
        push_member(&mut m, "custom_id", JsonValue::Str(self.custom_id));
        push_member(&mut m, "options", options_value(self.options));
        push_opt_member(&mut m, "placeholder", opt_text_value(self.placeholder));
        push_opt_member(&mut m, "min_values", opt_u8_value(self.min_values));
        push_opt_member(&mut m, "max_values", opt_u8_value(self.max_values));
        push_member(&mut m, "disabled", JsonValue::Bool(self.disabled));
        proof {
            let expected = match me.json() {
                Json::Object(ms) => ms,
                _ => Seq::empty(),
            };
            assert(members_model(m@) =~= expected);
        }
        JsonValue::Object(m)
    }
}

/// A default value for auto-populated select menus.
#[derive(Debug, Clone)]
pub struct SelectDefaultValue {
    /// The entity snowflake ID.
    pub id: Snowflake,
    /// The type of entity: `"user"`, `"role"`, or `"channel"`.
    pub kind: String,
}

impl SelectDefaultValue {
    /// The default value as JSON.
    pub open spec fn json(self) -> Json {
        Json::Object(seq![("id"@, snowflake_json(self.id)), ("type"@, Json::Str(self.kind@))])
    }

    /// A user pre-selected in a menu.
    pub fn user(id: Snowflake) -> (r: Self)
        ensures
            r.id == id,
            r.kind@ == "user"@,
    {
        SelectDefaultValue { id, kind: "user".to_owned() }
    }

    /// A role pre-selected in a menu.
    pub fn role(id: Snowflake) -> (r: Self)
        ensures
            r.id == id,
            r.kind@ == "role"@,
    {
        SelectDefaultValue { id, kind: "role".to_owned() }
    }

    /// A channel pre-selected in a menu.
    pub fn channel(id: Snowflake) -> (r: Self)
        ensures
            r.id == id,
            r.kind@ == "channel"@,
    {
        SelectDefaultValue { id, kind: "channel".to_owned() }
    }

    /// Serialize to a JSON value.
    pub fn into_value(self) -> (r: JsonValue)
        ensures
            r.model() == self.json(),
    {
        let ghost me = self;
        let mut m: Vec<(String, JsonValue)> = Vec::new();
        push_member(&mut m, "id", snowflake_value(self.id));
        push_member(&mut m, "type", JsonValue::Str(self.kind));
        assert(members_model(m@) =~= seq![("id"@, snowflake_json(me.id)), ("type"@, Json::Str(me.kind@))]);
        JsonValue::Object(m)
    }
}

/// The JSON of each default value of a list.
pub open spec fn defaults_json(values: Seq<SelectDefaultValue>) -> Seq<Json> {
    values.map_values(|d: SelectDefaultValue| d.json())
}

/// A list that is skipped when empty, as a member.
pub open spec fn nonempty_member(key: Seq<char>, items: Seq<Json>) -> Seq<(Seq<char>, Json)> {
    if items.len() == 0 {
        Seq::empty()
    } else {
        seq![(key, Json::Array(items))]
    }
}

/// The JSON of an auto-populated select menu (users, roles, mentionables
/// or channels): `channel_types` and `default_values` are left out when
/// empty.
pub open spec fn auto_select_json(
    kind: ComponentType,
    custom_id: Seq<char>,
    channel_types: Seq<u8>,
    placeholder: Option<String>,
    min_values: Option<u8>,
    max_values: Option<u8>,
    default_values: Seq<SelectDefaultValue>,
    disabled: bool,
) -> Json {
    Json::Object(
        seq![("type"@, Json::UInt(kind.code_spec() as u64)), ("custom_id"@, Json::Str(custom_id))]
            + nonempty_member("channel_types"@, channel_types.map_values(|t: u8| Json::UInt(t as u64)))
            + opt_member("placeholder"@, opt_text_json(placeholder))
            + opt_member("min_values"@, opt_u8_json(min_values))
            + opt_member("max_values"@, opt_u8_json(max_values))
            + nonempty_member("default_values"@, defaults_json(default_values))
            + seq![("disabled"@, Json::Bool(disabled))],
    )
}

fn defaults_value(values: Vec<SelectDefaultValue>) -> (r: Vec<JsonValue>)
    ensures
        items_model(r@) == defaults_json(values@),
{
    let ghost all = values@;
    let n = values.len();
    let mut rest = values;
    let mut src: Vec<SelectDefaultValue> = Vec::new();
    let mut k: usize = n;
    while k > 0
        invariant
            k <= n,
            n == all.len(),
            rest@ == all.subrange(0, k as int),
            src@ == all.subrange(k as int, n as int).reverse(),
        decreases k,
    {
        let d = rest.pop().unwrap();
        src.push(d);
        k = k - 1;
        assert(rest@ =~= all.subrange(0, k as int));
        assert(src@ =~= all.subrange(k as int, n as int).reverse());
    }
    let mut items: Vec<JsonValue> = Vec::new();
    proof {
        crate::json::lemma_items_model(items@);
    }
    let mut i: usize = 0;
    while i < n
        invariant
            i <= n,
            n == all.len(),
            src@ == all.subrange(i as int, n as int).reverse(),
            items_model(items@) == defaults_json(all.subrange(0, i as int)),
        decreases n - i,
    {
        let d = src.pop().unwrap();
        assert(d == all[i as int]);
        let v = d.into_value();
        proof {
            lemma_items_model_push(items@, v);
        }
        items.push(v);
        i = i + 1;
        assert(src@ =~= all.subrange(i as int, n as int).reverse());
        assert(defaults_json(all.subrange(0, i as int)) =~= defaults_json(all.subrange(0, i - 1)).push(all[i - 1].json()));
    }
    assert(all.subrange(0, n as int) =~= all);
    items
}

fn channel_types_value(types: &Vec<u8>) -> (r: Vec<JsonValue>)
    ensures
        items_model(r@) == types@.map_values(|t: u8| Json::UInt(t as u64)),
{
    let mut items: Vec<JsonValue> = Vec::new();
    let n = types.len();
    let mut i: usize = 0;
    proof {
        crate::json::lemma_items_model(items@);
    }
    while i < n
        invariant
            i <= n,
            n == types@.len(),
            items_model(items@) == types@.subrange(0, i as int).map_values(|t: u8| Json::UInt(t as u64)),
        decreases n - i,
    {
        let v = JsonValue::UInt(types[i] as u64);
        proof {
            lemma_items_model_push(items@, v);
        }
        items.push(v);
        i = i + 1;
        assert(types@.subrange(0, i as int).map_values(|t: u8| Json::UInt(t as u64)) =~= types@.subrange(0, i - 1).map_values(
            |t: u8| Json::UInt(t as u64),
        ).push(Json::UInt(types@[i - 1] as u64)));
    }
    assert(types@.subrange(0, n as int) =~= types@);
    items
}

fn push_nonempty_member(m: &mut Vec<(String, JsonValue)>, key: &str, items: Vec<JsonValue>)
    ensures
        members_model(final(m)@) == members_model(old(m)@) + nonempty_member(key@, items_model(items@)),
{
    proof {
        crate::json::lemma_items_model(items@);
    }
    if items.len() == 0 {
        assert(members_model(old(m)@) + Seq::<(Seq<char>, Json)>::empty() =~= members_model(old(m)@));
    } else {
        let ghost im = items_model(items@);
        push_member(m, key, JsonValue::Array(items));
        assert(members_model(old(m)@).push((key@, Json::Array(im))) =~= members_model(old(m)@) + seq![
            (key@, Json::Array(im)),
        ]);
    }
}

fn auto_select_value(
    kind: ComponentType,
    custom_id: String,
    channel_types: Vec<u8>,
    placeholder: Option<String>,
    min_values: Option<u8>,
    max_values: Option<u8>,
    default_values: Vec<SelectDefaultValue>,
    disabled: bool,
) -> (r: JsonValue)
    ensures
        r.model() == auto_select_json(
            kind,
            custom_id@,
            channel_types@,
            placeholder,
            min_values,
            max_values,
            default_values@,
            disabled,
        ),
{
    let ghost expected = match auto_select_json(
        kind,
        custom_id@,
        channel_types@,
        placeholder,
        min_values,
        max_values,
        default_values@,
        disabled,
    ) {
        Json::Object(ms) => ms,
        _ => Seq::empty(),
    };
    let mut m: Vec<(String, JsonValue)> = Vec::new();
    push_member(&mut m, "type", JsonValue::UInt(u8::from(kind) as u64));
    push_member(&mut m, "custom_id", JsonValue::Str(custom_id));
    push_nonempty_member(&mut m, "channel_types", channel_types_value(&channel_types));
    push_opt_member(&mut m, "placeholder", opt_text_value(placeholder));
    push_opt_member(&mut m, "min_values", opt_u8_value(min_values));
    push_opt_member(&mut m, "max_values", opt_u8_value(max_values));
    push_nonempty_member(&mut m, "default_values", defaults_value(default_values));
    push_member(&mut m, "disabled", JsonValue::Bool(disabled));
    assert(members_model(m@) =~= expected);
    JsonValue::Object(m)
}

/// A user select menu: Discord auto-populates it with guild members.
#[derive(Debug, Clone)]
pub struct UserSelect {
    /// Always [`ComponentType::UserSelect`].
    pub kind: ComponentType,
    pub custom_id: String,
    pub placeholder: Option<String>,
    pub min_values: Option<u8>,
    pub max_values: Option<u8>,
    /// Pre-selected default values.
    pub default_values: Vec<SelectDefaultValue>,
    pub disabled: bool,
}

impl UserSelect {
    /// The menu as JSON.
    pub open spec fn json(self) -> Json {
        auto_select_json(
            self.kind,
            self.custom_id@,
            Seq::empty(),
            self.placeholder,
            self.min_values,
            self.max_values,
            self.default_values@,
            self.disabled,
        )
    }

    /// An empty menu identified by `custom_id`.
    pub fn new(custom_id: String) -> (r: Self)
        ensures
            r == (UserSelect {
                kind: ComponentType::UserSelect,
                custom_id,
                placeholder: None,
                min_values: None,
                max_values: None,
                default_values: r.default_values,
                disabled: false,
            }),
            r.default_values@.len() == 0,
    {
        UserSelect {
            kind: ComponentType::UserSelect,
            custom_id,
            placeholder: None,
            min_values: None,
            max_values: None,
            default_values: Vec::new(),
            disabled: false,
        }
    }

    /// Set the text shown when nothing is selected.
    pub fn placeholder(self, text: String) -> (r: Self)
        ensures
            r == (UserSelect { placeholder: Some(text), ..self }),
    {
        UserSelect { placeholder: Some(text), ..self }
    }

    /// Set the least number of values to pick.
    pub fn min_values(self, n: u8) -> (r: Self)
        ensures
            r == (UserSelect { min_values: Some(n), ..self }),
    {
        UserSelect { min_values: Some(n), ..self }
    }

    /// Set the most values to pick.
    pub fn max_values(self, n: u8) -> (r: Self)
        ensures
            r == (UserSelect { max_values: Some(n), ..self }),
    {
        UserSelect { max_values: Some(n), ..self }
    }

    /// Serialize to a JSON value.
    pub fn into_value(self) -> (r: JsonValue)
        ensures
            r.model() == self.json(),
    {
        auto_select_value(
            self.kind,
            self.custom_id,
            Vec::new(),
            self.placeholder,
            self.min_values,
            self.max_values,
            self.default_values,
            self.disabled,
        )
    }
}

/// A role select menu: Discord auto-populates it with guild roles.
#[derive(Debug, Clone)]
pub struct RoleSelect {
    /// Always [`ComponentType::RoleSelect`].
    pub kind: ComponentType,
    pub custom_id: String,
    pub placeholder: Option<String>,
    pub min_values: Option<u8>,
    pub max_values: Option<u8>,
    /// Pre-selected default values.
    pub default_values: Vec<SelectDefaultValue>,
    pub disabled: bool,
}

impl RoleSelect {
    /// The menu as JSON.
    pub open spec fn json(self) -> Json {
        auto_select_json(
            self.kind,
            self.custom_id@,
            Seq::empty(),
            self.placeholder,
            self.min_values,
            self.max_values,
            self.default_values@,
            self.disabled,
        )
    }

    /// An empty menu identified by `custom_id`.
    pub fn new(custom_id: String) -> (r: Self)
        ensures
            r == (RoleSelect {
                kind: ComponentType::RoleSelect,
                custom_id,
                placeholder: None,
                min_values: None,
                max_values: None,
                default_values: r.default_values,
                disabled: false,
            }),
            r.default_values@.len() == 0,
    {
        RoleSelect {
            kind: ComponentType::RoleSelect,
            custom_id,
            placeholder: None,
            min_values: None,
            max_values: None,
            default_values: Vec::new(),
            disabled: false,
        }
    }

    /// Set the text shown when nothing is selected.
    pub fn placeholder(self, text: String) -> (r: Self)
        ensures
            r == (RoleSelect { placeholder: Some(text), ..self }),
    {
        RoleSelect { placeholder: Some(text), ..self }
    }

    /// Set the least number of values to pick.
    pub fn min_values(self, n: u8) -> (r: Self)
        ensures
            r == (RoleSelect { min_values: Some(n), ..self }),
    {
        RoleSelect { min_values: Some(n), ..self }
    }

    /// Set the most values to pick.
    pub fn max_values(self, n: u8) -> (r: Self)
        ensures
            r == (RoleSelect { max_values: Some(n), ..self }),
    {
        RoleSelect { max_values: Some(n), ..self }
    }

    /// Serialize to a JSON value.
    pub fn into_value(self) -> (r: JsonValue)
        ensures
            r.model() == self.json(),
    {
        auto_select_value(
            self.kind,
            self.custom_id,
            Vec::new(),
            self.placeholder,
            self.min_values,
            self.max_values,
            self.default_values,
            self.disabled,
        )
    }
}

/// A mentionable select menu: shows both users and roles.
#[derive(Debug, Clone)]
pub struct MentionableSelect {
    /// Always [`ComponentType::MentionableSelect`].
    pub kind: ComponentType,
    pub custom_id: String,
    pub placeholder: Option<String>,
    pub min_values: Option<u8>,
    pub max_values: Option<u8>,
    /// Pre-selected default values.
    pub default_values: Vec<SelectDefaultValue>,
    pub disabled: bool,
}

impl MentionableSelect {
    /// The menu as JSON.
    pub open spec fn json(self) -> Json {
        auto_select_json(
            self.kind,
            self.custom_id@,
            Seq::empty(),
            self.placeholder,
            self.min_values,
            self.max_values,
            self.default_values@,
            self.disabled,
        )
    }

    /// An empty menu identified by `custom_id`.
    pub fn new(custom_id: String) -> (r: Self)
        ensures
            r == (MentionableSelect {
                kind: ComponentType::MentionableSelect,
                custom_id,
                placeholder: None,
                min_values: None,
                max_values: None,
                default_values: r.default_values,
                disabled: false,
            }),
            r.default_values@.len() == 0,
    {
        MentionableSelect {
            kind: ComponentType::MentionableSelect,
            custom_id,
            placeholder: None,
            min_values: None,
            max_values: None,
            default_values: Vec::new(),
            disabled: false,
        }
    }

    /// Set the text shown when nothing is selected.
    pub fn placeholder(self, text: String) -> (r: Self)
        ensures
            r == (MentionableSelect { placeholder: Some(text), ..self }),
    {
        MentionableSelect { placeholder: Some(text), ..self }
    }

    /// Set the least number of values to pick.
    pub fn min_values(self, n: u8) -> (r: Self)
        ensures
            r == (MentionableSelect { min_values: Some(n), ..self }),
    {
        MentionableSelect { min_values: Some(n), ..self }
    }

    /// Set the most values to pick.
    pub fn max_values(self, n: u8) -> (r: Self)
        ensures
            r == (MentionableSelect { max_values: Some(n), ..self }),
    {
        MentionableSelect { max_values: Some(n), ..self }
    }

    /// Serialize to a JSON value.
    pub fn into_value(self) -> (r: JsonValue)
        ensures
            r.model() == self.json(),
    {
        auto_select_value(
            self.kind,
            self.custom_id,
            Vec::new(),
            self.placeholder,
            self.min_values,
            self.max_values,
            self.default_values,
            self.disabled,
        )
    }
}

/// A channel select menu: Discord auto-populates it with guild channels.
#[derive(Debug, Clone)]
pub struct ChannelSelect {
    /// Always [`ComponentType::ChannelSelect`].
    pub kind: ComponentType,
    pub custom_id: String,
    /// Restrict to specific channel types (e.g. `[0]` for text channels only).
    pub channel_types: Vec<u8>,
    pub placeholder: Option<String>,
    pub min_values: Option<u8>,
    pub max_values: Option<u8>,
    /// Pre-selected default values.
    pub default_values: Vec<SelectDefaultValue>,
    pub disabled: bool,
}

impl ChannelSelect {
    /// The menu as JSON.
    pub open spec fn json(self) -> Json {
        auto_select_json(
            self.kind,
            self.custom_id@,
            self.channel_types@,
            self.placeholder,
            self.min_values,
            self.max_values,
            self.default_values@,
            self.disabled,
        )
    }

    /// An empty menu identified by `custom_id`.
    pub fn new(custom_id: String) -> (r: Self)
        ensures
            r == (ChannelSelect {
                kind: ComponentType::ChannelSelect,
                custom_id,
                channel_types: r.channel_types,
                placeholder: None,
                min_values: None,
                max_values: None,
                default_values: r.default_values,
                disabled: false,
            }),
            r.channel_types@.len() == 0,
            r.default_values@.len() == 0,
    {
        ChannelSelect {
            kind: ComponentType::ChannelSelect,
            custom_id,
            channel_types: Vec::new(),
            placeholder: None,
            min_values: None,
            max_values: None,
            default_values: Vec::new(),
            disabled: false,
        }
    }

    /// Restrict the menu to specific channel types.
    pub fn channel_types(self, types: Vec<u8>) -> (r: Self)
        ensures
            r == (ChannelSelect { channel_types: types, ..self }),
    {
        ChannelSelect { channel_types: types, ..self }
    }

    /// Set the text shown when nothing is selected.
    pub fn placeholder(self, text: String) -> (r: Self)
        ensures
            r == (ChannelSelect { placeholder: Some(text), ..self }),
    {
        ChannelSelect { placeholder: Some(text), ..self }
    }

    /// Set the least number of channels to pick.
    pub fn min_values(self, n: u8) -> (r: Self)
        ensures
            r == (ChannelSelect { min_values: Some(n), ..self }),
    {
        ChannelSelect { min_values: Some(n), ..self }
    }

    /// Set the most channels to pick.
    pub fn max_values(self, n: u8) -> (r: Self)
        ensures
            r == (ChannelSelect { max_values: Some(n), ..self }),
    {
        ChannelSelect { max_values: Some(n), ..self }
    }

    /// Serialize to a JSON value.
    pub fn into_value(self) -> (r: JsonValue)
        ensures
            r.model() == self.json(),
    {
        auto_select_value(
            self.kind,
            self.custom_id,
            self.channel_types,
            self.placeholder,
            self.min_values,
            self.max_values,
            self.default_values,
            self.disabled,
        )
    }
}

// ── Text inputs ──────────────────────────────────────────────────────────

/// A text input component for use inside modal dialogs.
///
/// Text inputs must be placed inside an [`ActionRow`].
#[derive(Debug, Clone)]
pub struct TextInput {
    /// Always [`ComponentType::TextInput`].
    pub kind: ComponentType,
    pub custom_id: String,
    pub style: TextInputStyle,
    pub label: String,
    pub min_length: Option<u16>,
    pub max_length: Option<u16>,
    pub required: bool,
    /// Pre-filled value.
    pub value: Option<String>,
    pub placeholder: Option<String>,
}

impl TextInput {
    /// The input as JSON.
    pub open spec fn json(self) -> Json {
        Json::Object(
            seq![
                ("type"@, Json::UInt(self.kind.code_spec() as u64)),
                ("custom_id"@, Json::Str(self.custom_id@)),
                ("style"@, Json::UInt(self.style.code_spec() as u64)),
                ("label"@, Json::Str(self.label@)),
            ] + opt_member("min_length"@, opt_u16_json(self.min_length))
                + opt_member("max_length"@, opt_u16_json(self.max_length))
                + seq![("required"@, Json::Bool(self.required))]
                + opt_member("value"@, opt_text_json(self.value))
                + opt_member("placeholder"@, opt_text_json(self.placeholder)),
        )
    }

    /// Create a single-line text input.
    pub fn short(custom_id: String, label: String) -> (r: Self)
        ensures
            r == Self::plain(TextInputStyle::Short, custom_id, label),
    {
        Self::new(TextInputStyle::Short, custom_id, label)
    }

    /// Create a multi-line text input.
    pub fn paragraph(custom_id: String, label: String) -> (r: Self)
        ensures
            r == Self::plain(TextInputStyle::Paragraph, custom_id, label),
    {
        Self::new(TextInputStyle::Paragraph, custom_id, label)
    }

    /// An optional, unbounded input with no pre-filled value or placeholder.
    pub open spec fn plain(style: TextInputStyle, custom_id: String, label: String) -> TextInput {
        TextInput {
            kind: ComponentType::TextInput,
            custom_id,
            style,
            label,
            min_length: None,
            max_length: None,
            required: false,
            value: None,
            placeholder: None,
        }
    }

    fn new(style: TextInputStyle, custom_id: String, label: String) -> (r: Self)
        ensures
            r == Self::plain(style, custom_id, label),
    {
        TextInput {
            kind: ComponentType::TextInput,
            custom_id,
            style,
            label,
            min_length: None,
            max_length: None,
            required: false,
            value: None,
            placeholder: None,
        }
    }

    /// Set the least number of characters to enter.
    pub fn min_length(self, n: u16) -> (r: Self)
        ensures
            r == (TextInput { min_length: Some(n), ..self }),
    {
        TextInput { min_length: Some(n), ..self }
    }

    /// Set the most characters to enter.
    pub fn max_length(self, n: u16) -> (r: Self)
        ensures
            r == (TextInput { max_length: Some(n), ..self }),
    {
        TextInput { max_length: Some(n), ..self }
    }

    /// Make the input required.
    pub fn required(self) -> (r: Self)
        ensures
            r == (TextInput { required: true, ..self }),
    {
        TextInput { required: true, ..self }
    }

    /// Pre-fill the input.
    pub fn value(self, value: String) -> (r: Self)
        ensures
            r == (TextInput { value: Some(value), ..self }),
    {
        TextInput { value: Some(value), ..self }
    }

    /// Set the text shown while the input is empty.
    pub fn placeholder(self, text: String) -> (r: Self)
        ensures
            r == (TextInput { placeholder: Some(text), ..self }),
    {
        TextInput { placeholder: Some(text), ..self }
    }

    /// Serialize to a JSON value.
    pub fn into_value(self) -> (r: JsonValue)
        ensures
            r.model() == self.json(),
    {
        let ghost me = self;
        let mut m: Vec<(String, JsonValue)> = Vec::new();
        push_member(&mut m, "type", JsonValue::UInt(u8::from(self.kind) as u64));
        push_member(&mut m, "custom_id", JsonValue::Str(self.custom_id));
        push_member(&mut m, "style", JsonValue::UInt(u8::from(self.style) as u64));
        push_member(&mut m, "label", JsonValue::Str(self.label));
        push_opt_member(&mut m, "min_length", opt_u16_value(self.min_length));
        push_opt_member(&mut m, "max_length", opt_u16_value(self.max_length));
        push_member(&mut m, "required", JsonValue::Bool(self.required));
        push_opt_member(&mut m, "value", opt_text_value(self.value));
        push_opt_member(&mut m, "placeholder", opt_text_value(self.placeholder));
        proof {
            let expected = match me.json() {
                Json::Object(ms) => ms,
                _ => Seq::empty(),
            };
            assert(members_model(m@) =~= expected);
        }
        JsonValue::Object(m)
    }
}

// ── Action rows ──────────────────────────────────────────────────────────

/// A container that holds up to 5 interactive components in a single row.
///
/// Messages support up to 5 action rows.
#[derive(Debug, Clone)]
pub struct ActionRow {
    /// Always [`ComponentType::ActionRow`].
    pub kind: ComponentType,
    pub components: Vec<JsonValue>,
}

impl Default for ActionRow {
    fn default() -> (r: Self)
        ensures
            r.kind == ComponentType::ActionRow,
            r.components@.len() == 0,
    {
        ActionRow::new()
    }
}

impl ActionRow {
    /// The row as JSON.
    pub open spec fn json(self) -> Json {
        Json::Object(seq![
            ("type"@, Json::UInt(self.kind.code_spec() as u64)),
            ("components"@, Json::Array(items_model(self.components@))),
        ])
    }

    /// An empty row.
    pub fn new() -> (r: Self)
        ensures
            r.kind == ComponentType::ActionRow,
            r.components@.len() == 0,
    {
        ActionRow { kind: ComponentType::ActionRow, components: Vec::new() }
    }

    fn push(self, v: JsonValue) -> (r: Self)
        ensures
            r.kind == self.kind,
            items_model(r.components@) == items_model(self.components@).push(v.model()),
    {
        let mut row = self;
        proof {
            lemma_items_model_push(row.components@, v);
        }
        row.components.push(v);
        row
    }

    /// Add a button to this row.
    pub fn button(self, btn: Button) -> (r: Self)
        ensures
            r.kind == self.kind,
            items_model(r.components@) == items_model(self.components@).push(btn.json()),
    {
        self.push(btn.into_value())
    }

    /// Add a string select menu to this row.
    pub fn select(self, menu: StringSelect) -> (r: Self)
        ensures
            r.kind == self.kind,
            items_model(r.components@) == items_model(self.components@).push(menu.json()),
    {
        self.push(menu.into_value())
    }

    /// Add a text input to this row (for modals).
    pub fn text_input(self, input: TextInput) -> (r: Self)
        ensures
            r.kind == self.kind,
            items_model(r.components@) == items_model(self.components@).push(input.json()),
    {
        self.push(input.into_value())
    }

    /// Add a user select menu to this row.
    pub fn user_select(self, menu: UserSelect) -> (r: Self)
        ensures
            r.kind == self.kind,
            items_model(r.components@) == items_model(self.components@).push(menu.json()),
    {
        self.push(menu.into_value())
    }

    /// Add a role select menu to this row.
    pub fn role_select(self, menu: RoleSelect) -> (r: Self)
        ensures
            r.kind == self.kind,
            items_model(r.components@) == items_model(self.components@).push(menu.json()),
    {
        self.push(menu.into_value())
    }

    /// Add a mentionable select menu to this row.
    pub fn mentionable_select(self, menu: MentionableSelect) -> (r: Self)
        ensures
            r.kind == self.kind,
            items_model(r.components@) == items_model(self.components@).push(menu.json()),
    {
        self.push(menu.into_value())
    }

    /// Add a channel select menu to this row.
    pub fn channel_select(self, menu: ChannelSelect) -> (r: Self)
        ensures
            r.kind == self.kind,
            items_model(r.components@) == items_model(self.components@).push(menu.json()),
    {
        self.push(menu.into_value())
    }

    /// Serialize to a JSON value.
    pub fn into_value(self) -> (r: JsonValue)
        ensures
            r.model() == self.json(),
    {
        let ghost me = self;
        let mut m: Vec<(String, JsonValue)> = Vec::new();
        push_member(&mut m, "type", JsonValue::UInt(u8::from(self.kind) as u64));
        push_member(&mut m, "components", JsonValue::Array(self.components));
        assert(members_model(m@) =~= seq![
            ("type"@, Json::UInt(me.kind.code_spec() as u64)),
            ("components"@, Json::Array(items_model(me.components@))),
        ]);
        JsonValue::Object(m)
    }
}

} // verus!
