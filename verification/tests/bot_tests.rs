use oxidian::bot::bot::{identify_delay_secs, parse_prefix_command, prefix_command_handler, recommended_shards, route_interaction, InteractionRoute, ModuleCommands, ShardCount, is_whitespace};
use oxidian::bot::command::{Command, CommandRegistry};
use oxidian::bot::context::{content_body, gateway_not_connected, voice_state_update_payload};
use oxidian::error::Error;
use oxidian::json::JsonValue;
use oxidian::models::interaction::{ApplicationCommandData, ApplicationCommandType, Interaction, InteractionData, InteractionType};
use oxidian::snowflake::Snowflake;

fn text(v: &JsonValue) -> String {
    match v {
        JsonValue::Null => "null".to_owned(),
        JsonValue::Bool(b) => b.to_string(),
        JsonValue::UInt(n) => n.to_string(),
        JsonValue::Int(n) => n.to_string(),
        JsonValue::Float(t) => t.clone(),
        JsonValue::Str(s) => format!("{s:?}"),
        JsonValue::Array(items) => format!("[{}]", items.iter().map(text).collect::<Vec<_>>().join(",")),
        JsonValue::Object(m) => format!(
            "{{{}}}",
            m.iter().map(|(k, v)| format!("{k:?}:{}", text(v))).collect::<Vec<_>>().join(",")
        ),
    }
}

#[test]
fn prefix_commands_split_name_and_words() {
    let c = parse_prefix_command("!ban  @user   spamming\tlinks ", "!").unwrap();
    assert_eq!(c.name, "ban");
    assert_eq!(c.args, vec!["@user".to_owned(), "spamming".to_owned(), "links".to_owned()]);
    let c = parse_prefix_command("!   ping", "!").unwrap();
    assert_eq!(c.name, "ping");
    assert!(c.args.is_empty());
    let c = parse_prefix_command("!", "!").unwrap();
    assert_eq!(c.name, "");
    assert!(c.args.is_empty());
    let c = parse_prefix_command("??echo\u{3000}a\u{85}b", "??").unwrap();
    assert_eq!(c.name, "echo");
    assert_eq!(c.args, vec!["a".to_owned(), "b".to_owned()]);
    assert!(parse_prefix_command("ping", "!").is_none());
    assert!(parse_prefix_command(" !ping", "!").is_none());
}

#[test]
fn whitespace_matches_std() {
    for c in ['\t', '\n', ' ', '\u{85}', '\u{a0}', '\u{1680}', '\u{2000}', '\u{200a}', '\u{2028}', '\u{3000}', 'a', '\u{200b}', '0', '\u{180e}'] {
        assert_eq!(is_whitespace(c), c.is_whitespace(), "{c:?}");
    }
}

#[test]
fn shard_counts() {
    assert_eq!(ShardCount::from_count(0), ShardCount::Single);
    assert_eq!(ShardCount::from_count(1), ShardCount::Single);
    assert_eq!(ShardCount::from_count(4), ShardCount::Fixed(4));
    assert_eq!(ShardCount::default(), ShardCount::Single);
    assert_eq!(ShardCount::Single.total(None), 1);
    assert_eq!(ShardCount::Fixed(3).total(None), 3);
    let resp = JsonValue::Object(vec![("shards".to_owned(), JsonValue::UInt(6))]);
    assert_eq!(ShardCount::Auto.total(Some(&resp)), 6);
    assert_eq!(recommended_shards(&JsonValue::Null), 1);
    assert_eq!(recommended_shards(&JsonValue::Object(vec![("shards".to_owned(), JsonValue::UInt(0))])), 1);
    assert_eq!(identify_delay_secs(0, 3), 5);
    assert_eq!(identify_delay_secs(2, 3), 0);
    assert_eq!(identify_delay_secs(0, 1), 0);
}

#[test]
fn registry_replaces_by_name() {
    let mut reg: CommandRegistry<u32> = CommandRegistry::new();
    reg.register("ping".to_owned(), 1);
    reg.add(Command::new("echo".to_owned(), 2));
    reg.register("ping".to_owned(), 3);
    assert_eq!(reg.get("ping"), Some(&3));
    assert_eq!(reg.get("echo"), Some(&2));
    assert_eq!(reg.get("pong"), None);
}

#[test]
fn prefix_messages_find_their_handler() {
    let mut reg: CommandRegistry<u32> = CommandRegistry::new();
    reg.register("ping".to_owned(), 7);
    assert_eq!(
        prefix_command_handler(&reg, "!ping  a b", "!"),
        Some((&7, vec!["a".to_owned(), "b".to_owned()]))
    );
    assert_eq!(prefix_command_handler(&reg, "! ping", "!"), Some((&7, Vec::new())));
    assert_eq!(prefix_command_handler(&reg, "!pong", "!"), None);
    assert_eq!(prefix_command_handler(&reg, "ping", "!"), None);
}

fn interaction(kind: InteractionType, command: Option<(ApplicationCommandType, &str)>) -> Interaction {
    Interaction {
        id: Snowflake::new(1),
        application_id: Snowflake::new(2),
        kind,
        data: command.map(|(k, name)| {
            InteractionData::ApplicationCommand(ApplicationCommandData {
                id: Snowflake::new(3),
                name: name.to_owned(),
                kind: k,
                options: Vec::new(),
                resolved: None,
                target_id: None,
            })
        }),
        guild_id: None,
        channel_id: None,
        member: None,
        user: None,
        token: "t".to_owned(),
        version: 1,
        message: None,
        app_permissions: None,
        locale: None,
        guild_locale: None,
        entitlements: Vec::new(),
        authorizing_integration_owners: None,
        context: None,
        channel: None,
    }
}

fn names(lists: &[&[&str]]) -> Vec<Vec<String>> {
    lists.iter().map(|l| l.iter().map(|s| s.to_string()).collect()).collect()
}

#[test]
fn interactions_reach_the_first_matching_module() {
    let modules = ModuleCommands {
        slash: names(&[&["fun"], &["ping", "ban"], &["ping"]]),
        user: names(&[&[], &["inspect"], &[]]),
        message: names(&[&["quote"], &[], &[]]),
    };
    let r = |k, c| route_interaction(&interaction(k, c), &modules);
    assert_eq!(r(InteractionType::ApplicationCommand, Some((ApplicationCommandType::ChatInput, "ping"))), InteractionRoute::SlashCommand(1));
    assert_eq!(r(InteractionType::ApplicationCommand, Some((ApplicationCommandType::ChatInput, "nope"))), InteractionRoute::Handler);
    assert_eq!(r(InteractionType::ApplicationCommand, Some((ApplicationCommandType::User, "inspect"))), InteractionRoute::ContextMenu(1));
    assert_eq!(r(InteractionType::ApplicationCommand, Some((ApplicationCommandType::Message, "quote"))), InteractionRoute::ContextMenu(0));
    assert_eq!(r(InteractionType::ApplicationCommand, Some((ApplicationCommandType::User, "ping"))), InteractionRoute::Handler);
    assert_eq!(r(InteractionType::ApplicationCommand, None), InteractionRoute::Handler);
    assert_eq!(r(InteractionType::ApplicationCommandAutocomplete, Some((ApplicationCommandType::ChatInput, "ban"))), InteractionRoute::Autocomplete(1));
    assert_eq!(r(InteractionType::ApplicationCommandAutocomplete, None), InteractionRoute::Handler);
    assert_eq!(r(InteractionType::MessageComponent, None), InteractionRoute::Components);
    assert_eq!(r(InteractionType::ModalSubmit, None), InteractionRoute::Components);
    assert_eq!(r(InteractionType::Ping, None), InteractionRoute::Handler);
}

#[test]
fn context_payloads() {
    assert_eq!(
        text(&voice_state_update_payload(Snowflake::new(1), Some(Snowflake::new(2)), false, true)),
        "{\"op\":4,\"d\":{\"guild_id\":\"1\",\"channel_id\":\"2\",\"self_mute\":false,\"self_deaf\":true}}"
    );
    assert_eq!(
        text(&voice_state_update_payload(Snowflake::new(1), None, true, false)),
        "{\"op\":4,\"d\":{\"guild_id\":\"1\",\"channel_id\":null,\"self_mute\":true,\"self_deaf\":false}}"
    );
    assert_eq!(text(&content_body("hi")), "{\"content\":\"hi\"}");
    match gateway_not_connected() {
        Error::Internal(m) => assert_eq!(m, "gateway not connected"),
        _ => panic!("expected an internal error"),
    }
}
