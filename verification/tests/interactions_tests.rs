use std::collections::HashMap;
use std::convert::TryFrom;
use oxidian::interactions::autocomplete::AutocompleteResponse;
use oxidian::interactions::command::{CommandChoice, CommandOptionBuilder, SlashCommandBuilder};
use oxidian::interactions::components::v1::{
    ActionRow, Button, ButtonStyle, ChannelSelect, ComponentType, PartialEmoji, SelectDefaultValue, SelectOption,
    StringSelect, TextInput, TextInputStyle, UserSelect,
};
use oxidian::interactions::components::v2::{ComponentV2Type, Container, MediaGallery, MediaGalleryItem, Separator, TextDisplay};
use oxidian::interactions::context_menu::{MessageCommand, UserCommand};
use oxidian::json::JsonValue;
use oxidian::models::interaction::{ApplicationCommandType, CommandOptionType};
use oxidian::snowflake::Snowflake;

fn text(v: &JsonValue) -> String {
    match v {
        JsonValue::Null => "null".to_owned(),
        JsonValue::Bool(b) => b.to_string(),
        JsonValue::UInt(n) => n.to_string(),
        JsonValue::Int(n) => n.to_string(),
        JsonValue::Float(t) => t.clone(),
        JsonValue::Str(s) => format!("{s:?}"),
        JsonValue::Array(items) => format!("[{}]", items.iter().map(text).collect::<Vec<_>>().join(",")),
        JsonValue::Object(m) => format!(
            "{{{}}}",
            m.iter().map(|(k, v)| format!("{k:?}:{}", text(v))).collect::<Vec<_>>().join(",")
        ),
    }
}

#[test]
fn component_codes() {
    assert_eq!(u8::from(ComponentType::ChannelSelect), 8);
    assert_eq!(ComponentType::try_from(2u8).unwrap(), ComponentType::Button);
    assert_eq!(ComponentType::try_from(9u8).unwrap_err(), "unknown component type: 9");
    assert_eq!(ButtonStyle::try_from(0u8).unwrap_err(), "unknown button style: 0");
    assert_eq!(TextInputStyle::try_from(2u8).unwrap(), TextInputStyle::Paragraph);
    assert_eq!(u8::from(ComponentV2Type::Container), 17);
    assert_eq!(ComponentV2Type::try_from(15u8).unwrap_err(), "unknown v2 component type: 15");
}

#[test]
fn button_json() {
    let b = Button::new(ButtonStyle::Primary, "my_button".to_owned()).label("Click me!".to_owned());
    assert_eq!(text(&b.into_value()), "{\"type\":2,\"style\":1,\"label\":\"Click me!\",\"custom_id\":\"my_button\",\"disabled\":false}");
    let l = Button::link("https://x".to_owned()).disabled();
    assert_eq!(text(&l.into_value()), "{\"type\":2,\"style\":5,\"url\":\"https://x\",\"disabled\":true}");
    let p = Button::premium(Snowflake::new(12)).emoji(PartialEmoji { id: None, name: Some("🔥".to_owned()), animated: false });
    assert_eq!(text(&p.into_value()), "{\"type\":2,\"style\":6,\"emoji\":{\"name\":\"🔥\",\"animated\":false},\"sku_id\":\"12\",\"disabled\":false}");
}

#[test]
fn select_json() {
    let s = StringSelect::new("pick".to_owned())
        .option(SelectOption::new("A".to_owned(), "a".to_owned()).default_selected())
        .option(SelectOption::new("B".to_owned(), "b".to_owned()).description("second".to_owned()))
        .placeholder("choose".to_owned())
        .min_values(1)
        .max_values(2);
    assert_eq!(
        text(&s.into_value()),
        "{\"type\":3,\"custom_id\":\"pick\",\"options\":[{\"label\":\"A\",\"value\":\"a\",\"default\":true},{\"label\":\"B\",\"value\":\"b\",\"description\":\"second\",\"default\":false}],\"placeholder\":\"choose\",\"min_values\":1,\"max_values\":2,\"disabled\":false}"
    );
    let mut u = UserSelect::new("u".to_owned());
    u.default_values.push(SelectDefaultValue::user(Snowflake::new(3)));
    assert_eq!(
        text(&u.into_value()),
        "{\"type\":5,\"custom_id\":\"u\",\"default_values\":[{\"id\":\"3\",\"type\":\"user\"}],\"disabled\":false}"
    );
    let c = ChannelSelect::new("c".to_owned()).channel_types(vec![0, 2]);
    assert_eq!(text(&c.into_value()), "{\"type\":8,\"custom_id\":\"c\",\"channel_types\":[0,2],\"disabled\":false}");
    assert_eq!(SelectDefaultValue::role(Snowflake::new(1)).kind, "role");
    assert_eq!(SelectDefaultValue::channel(Snowflake::new(1)).kind, "channel");
}

#[test]
fn text_input_and_rows() {
    let t = TextInput::short("name".to_owned(), "Your name".to_owned())
        .placeholder("John Doe".to_owned())
        .required()
        .max_length(40);
    assert_eq!(
        text(&t.clone().into_value()),
        "{\"type\":4,\"custom_id\":\"name\",\"style\":1,\"label\":\"Your name\",\"max_length\":40,\"required\":true,\"placeholder\":\"John Doe\"}"
    );
    let p = TextInput::paragraph("bio".to_owned(), "Bio".to_owned()).min_length(2).value("hi".to_owned());
    assert_eq!(
        text(&p.into_value()),
        "{\"type\":4,\"custom_id\":\"bio\",\"style\":2,\"label\":\"Bio\",\"min_length\":2,\"required\":false,\"value\":\"hi\"}"
    );
    let row = ActionRow::new().text_input(t).button(Button::link("u".to_owned()));
    assert_eq!(row.components.len(), 2);
    assert_eq!(text(&ActionRow::default().into_value()), "{\"type\":1,\"components\":[]}");
}

#[test]
fn v2_components() {
    assert_eq!(text(&TextDisplay::new("**hi**".to_owned()).into_value()), "{\"type\":10,\"content\":\"**hi**\"}");
    assert_eq!(text(&Separator::new().into_value()), "{\"type\":14,\"divider\":true}");
    let g = MediaGallery::new().item(MediaGalleryItem::new("https://i".to_owned()).description("pic".to_owned()));
    assert_eq!(
        text(&g.into_value()),
        "{\"type\":12,\"items\":[{\"media\":{\"url\":\"https://i\"},\"description\":\"pic\",\"spoiler\":false}]}"
    );
    let k = Container::new().component(JsonValue::Null).accent_color(0xff0000);
    assert_eq!(text(&k.into_value()), "{\"type\":17,\"components\":[null],\"accent_color\":16711680,\"spoiler\":false}");
}

#[test]
fn command_builders() {
    let opt = CommandOptionBuilder::new(CommandOptionType::String, "message".to_owned(), "Optional message".to_owned())
        .choice(CommandChoice::string("Hello".to_owned(), "hello".to_owned()))
        .choice(CommandChoice::integer("One".to_owned(), 1))
        .autocomplete()
        .max_length(100)
        .build();
    assert_eq!(opt.choices.len(), 2);
    assert!(opt.autocomplete);
    assert!(!opt.required);
    assert_eq!(opt.max_length, Some(100));
    assert!(matches!(opt.choices[1].value, JsonValue::UInt(1)));
    assert!(matches!(CommandChoice::integer("n".to_owned(), -4).value, JsonValue::Int(-4)));
    let mut loc = HashMap::new();
    loc.insert("fr".to_owned(), "bonjour".to_owned());
    let cmd = SlashCommandBuilder::new("ping".to_owned(), "Reply with pong!".to_owned())
        .option(opt)
        .name_localizations(loc)
        .dm_permission(false)
        .default_member_permissions("8".to_owned())
        .build();
    assert_eq!(cmd.kind, ApplicationCommandType::ChatInput);
    assert_eq!(cmd.name, "ping");
    assert_eq!(cmd.options.len(), 1);
    assert_eq!(cmd.name_localizations.get("fr").map(|s| s.as_str()), Some("bonjour"));
    assert_eq!(cmd.dm_permission, Some(false));
    assert!(cmd.id.is_none());
    let u = UserCommand::new("Inspect".to_owned()).default_member_permissions("0".to_owned());
    assert_eq!(u.kind, ApplicationCommandType::User);
    assert_eq!(MessageCommand::new("Quote".to_owned()).kind, ApplicationCommandType::Message);
    let mut a = AutocompleteResponse::new(Vec::new());
    a.push(oxidian::models::interaction::AutocompleteChoice::string("a".to_owned(), "a".to_owned()));
    assert_eq!(a.choices.len(), 1);
}
