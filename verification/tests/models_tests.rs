use oxidian::json::JsonValue;
use oxidian::models::allowed_mentions::AllowedMentionsBuilder;
use oxidian::models::channel::ChannelType;
use oxidian::models::embed::EmbedBuilder;
use oxidian::models::guild::{NsfwLevel, PremiumTier, VerificationLevel};
use oxidian::models::interaction::{
    AutocompleteChoice, InteractionResponse, InteractionResponseType, InteractionType, EPHEMERAL,
};
use oxidian::models::message::{CreateMessage, MessageReferenceType, IS_COMPONENTS_V2};
use oxidian::models::thread::{ThreadCreateOptions, ThreadKind};
use oxidian::snowflake::Snowflake;

#[test]
fn embed_builder_sets_each_field() {
    let e = EmbedBuilder::new()
        .title("Hi".to_owned())
        .description("d".to_owned())
        .color(0x00FF00)
        .footer("f".to_owned())
        .field("a".to_owned(), "1".to_owned(), true)
        .field("b".to_owned(), "2".to_owned(), false)
        .build();
    assert_eq!(e.title.as_deref(), Some("Hi"));
    assert_eq!(e.description.as_deref(), Some("d"));
    assert_eq!(e.color, Some(0x00FF00));
    assert_eq!(e.footer.as_ref().map(|f| f.text.as_str()), Some("f"));
    assert!(e.footer.as_ref().unwrap().icon_url.is_none());
    assert_eq!(e.fields.len(), 2);
    assert_eq!(e.fields[0].name, "a");
    assert!(e.fields[0].inline);
    assert_eq!(e.fields[1].value, "2");
    assert!(e.url.is_none());
    assert!(e.image.is_none());

    let blank = EmbedBuilder::new().build();
    assert!(blank.title.is_none());
    assert!(blank.fields.is_empty());
}

#[test]
fn create_message_builders() {
    let m = CreateMessage::new().content("hello".to_owned()).flags(4).components_v2();
    assert_eq!(m.content.as_deref(), Some("hello"));
    assert_eq!(IS_COMPONENTS_V2, 32768);
    assert_eq!(m.flags, Some(4 | 32768));
    assert_eq!(CreateMessage::new().components_v2().flags, Some(32768));

    let reply = CreateMessage::new().reply(Snowflake::new(5), false);
    let r = reply.message_reference.unwrap();
    assert!(matches!(r.kind, Some(MessageReferenceType::Default)));
    assert_eq!(r.message_id.map(|s| s.get()), Some(5));
    assert!(r.channel_id.is_none());
    assert_eq!(r.fail_if_not_exists, Some(false));

    let fwd = CreateMessage::new().forward(Snowflake::new(5), Snowflake::new(6));
    let f = fwd.message_reference.unwrap();
    assert!(matches!(f.kind, Some(MessageReferenceType::Forward)));
    assert_eq!(f.channel_id.map(|s| s.get()), Some(6));
    assert!(f.fail_if_not_exists.is_none());

    let with_embed = CreateMessage::new().embed(EmbedBuilder::new().title("t".to_owned()).build());
    assert_eq!(with_embed.embeds.len(), 1);
    assert!(with_embed.content.is_none());
}

#[test]
fn allowed_mentions_builder() {
    let a = AllowedMentionsBuilder::new()
        .everyone()
        .users()
        .allow_user(Snowflake::new(1))
        .allow_role(Snowflake::new(2))
        .replied_user(true)
        .build();
    assert_eq!(a.parse, vec!["everyone".to_owned(), "users".to_owned()]);
    assert_eq!(a.users.iter().map(|s| s.get()).collect::<Vec<_>>(), vec![1]);
    assert_eq!(a.roles.iter().map(|s| s.get()).collect::<Vec<_>>(), vec![2]);
    assert_eq!(a.replied_user, Some(true));

    let none = AllowedMentionsBuilder::new().build();
    assert!(none.parse.is_empty());
    assert!(none.replied_user.is_none());
}

#[test]
fn interaction_responses() {
    let m = InteractionResponse::message("Pong!".to_owned());
    assert_eq!(u8::from(m.kind), 4);
    let d = m.data.unwrap();
    assert_eq!(d.content.as_deref(), Some("Pong!"));
    assert!(d.flags.is_none());
    assert!(d.embeds.is_empty());

    let e = InteractionResponse::ephemeral("secret".to_owned());
    assert_eq!(EPHEMERAL, 64);
    assert_eq!(e.data.unwrap().flags, Some(64));

    assert_eq!(u8::from(InteractionResponse::defer().kind), 5);
    assert!(InteractionResponse::defer().data.is_none());
    assert_eq!(u8::from(InteractionResponse::ack_component().kind), 6);
    assert_eq!(u8::from(InteractionResponse::update_message("u".to_owned()).kind), 7);

    let ac = InteractionResponse::autocomplete(vec![
        AutocompleteChoice::string("a".to_owned(), "x".to_owned()),
        AutocompleteChoice::integer("b".to_owned(), -3),
    ]);
    assert_eq!(u8::from(ac.kind), 8);
    let choices = ac.data.unwrap().choices;
    assert!(matches!(&choices[0].value, JsonValue::Str(s) if s == "x"));
    assert!(matches!(choices[1].value, JsonValue::Int(-3)));
    assert!(matches!(AutocompleteChoice::integer("c".to_owned(), 7).value, JsonValue::UInt(7)));

    let modal = InteractionResponse::modal("id".to_owned(), "Title".to_owned(), Vec::new());
    assert_eq!(u8::from(modal.kind), 9);
    let md = modal.data.unwrap();
    assert_eq!(md.custom_id.as_deref(), Some("id"));
    assert_eq!(md.title.as_deref(), Some("Title"));

    let with_embed = InteractionResponse::defer().embed(EmbedBuilder::new().build());
    assert_eq!(with_embed.data.unwrap().embeds.len(), 1);
}

#[test]
fn wire_codes_roundtrip_and_reject_unknown() {
    for code in 0u8..=4 {
        assert_eq!(u8::from(VerificationLevel::try_from(code).unwrap()), code);
    }
    assert!(matches!(VerificationLevel::try_from(0), Ok(VerificationLevel::Unrestricted)));
    assert_eq!(VerificationLevel::try_from(5).err().as_deref(), Some("unknown verification level: 5"));
    assert!(matches!(PremiumTier::try_from(0), Ok(PremiumTier::NoTier)));
    assert_eq!(PremiumTier::try_from(9).err().as_deref(), Some("unknown premium tier: 9"));
    assert!(matches!(NsfwLevel::try_from(3), Ok(NsfwLevel::AgeRestricted)));
    assert_eq!(u8::from(ChannelType::try_from(15).unwrap()), 15);
    assert_eq!(ChannelType::try_from(6).err().as_deref(), Some("unknown channel type: 6"));
    assert!(matches!(InteractionType::try_from(2), Ok(InteractionType::ApplicationCommand)));
    assert_eq!(
        InteractionResponseType::try_from(2).err().as_deref(),
        Some("unknown interaction response type: 2")
    );
    assert_eq!(u8::from(ThreadKind::Public), 11);
    assert_eq!(u8::from(ThreadKind::News), 10);
}

#[test]
fn thread_options_builder() {
    let t = ThreadCreateOptions::new("t".to_owned(), ThreadKind::Private)
        .auto_archive_duration(60)
        .rate_limit_per_user(5)
        .invitable(false);
    assert_eq!(t.name, "t");
    assert!(matches!(t.kind, ThreadKind::Private));
    assert_eq!(t.auto_archive_duration, Some(60));
    assert_eq!(t.rate_limit_per_user, Some(5));
    assert_eq!(t.invitable, Some(false));
    let plain = ThreadCreateOptions::new("p".to_owned(), ThreadKind::Public);
    assert!(plain.auto_archive_duration.is_none());
    assert!(plain.invitable.is_none());
}
