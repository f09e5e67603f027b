use actor_discord::decode::{read, read_list, read_optional, Decode};
use actor_discord::json::Json;
use actor_discord::types::events::{
    classify, ChannelEvent, ChannelType, DomainEvent, Event, Guild, GuildChannel,
    GuildChannelCreate, GuildCreate, GuildHashes, MessageEvent, MessageObject,
    MessageObjectType, MessageReference, SnowflakeID, UserObject,
};

const USER: &str = "{\"id\":\"7\",\"username\":\"ann\",\"discriminator\":\"0001\",\"bot\":true,\"flags\":64}";

fn message_text(extra: &str) -> String {
    format!(
        "{{\"id\":\"100\",\"type\":0,\"content\":\"hello\",\"tts\":false,\"author\":{},\"mention_everyone\":false,\"mentions\":[{}],\"mention_roles\":[\"5\",\"6\"]{}}}",
        USER, USER, extra
    )
}

fn ann() -> UserObject {
    UserObject {
        id: SnowflakeID { id: 7 },
        username: "ann".to_string(),
        discriminator: "0001".to_string(),
        email: None,
        bot: Some(true),
        system: None,
        flags: Some(64),
        public_flags: None,
    }
}

fn hello_message() -> MessageObject {
    MessageObject {
        id: SnowflakeID { id: 100 },
        u_type: MessageObjectType::Default,
        content: "hello".to_string(),
        tts: false,
        referenced_message: Box::new(None),
        nonce: None,
        channel_id: None,
        author: ann(),
        mention_everyone: false,
        mentions: vec![ann()],
        mention_roles: vec![SnowflakeID { id: 5 }, SnowflakeID { id: 6 }],
        message_reference: None,
    }
}

#[test]
fn snowflakes_are_strings_of_digits() {
    assert_eq!(SnowflakeID::from(12u64), SnowflakeID { id: 12 });
    assert_eq!(SnowflakeID::from("839604684573638696"), SnowflakeID { id: 839604684573638696 });
    assert_eq!(SnowflakeID::from("no number"), SnowflakeID { id: 0 });
    assert_eq!(SnowflakeID { id: 42 }.to_string(), "42");
    assert_eq!(SnowflakeID { id: 42 }.to_json().print().unwrap(), "\"42\"");
    assert_eq!(SnowflakeID::from_json(&Json::Text("42".to_string())), Some(SnowflakeID { id: 42 }));
    assert_eq!(SnowflakeID::from_json(&Json::Text("4x".to_string())), None);
    assert_eq!(SnowflakeID::from_json(&Json::unsigned(42)), None);
    let id = SnowflakeID { id: u64::MAX };
    assert_eq!(SnowflakeID::from_json(&id.to_json()), Some(id));
}

#[test]
fn kinds_go_by_their_numbers() {
    let channel_kinds = vec![
        (ChannelType::GuildText, 0u8),
        (ChannelType::DM, 1),
        (ChannelType::GuildVoice, 2),
        (ChannelType::GroupDm, 3),
        (ChannelType::GuildCategory, 4),
        (ChannelType::GuildNews, 5),
        (ChannelType::GuildStore, 6),
        (ChannelType::GuildNewsThread, 10),
        (ChannelType::GuildPublicThread, 11),
        (ChannelType::GuildPrivateThread, 12),
        (ChannelType::GuildStageVoice, 13),
    ];
    for (kind, code) in channel_kinds {
        assert_eq!(kind.code(), code);
        assert_eq!(ChannelType::from_code(code as u64), Some(kind));
    }
    for code in [7u64, 8, 9, 14, 255, 256, u64::MAX] {
        assert_eq!(ChannelType::from_code(code), None);
    }
    assert_eq!(MessageObjectType::from_code(0), Some(MessageObjectType::Default));
    assert_eq!(MessageObjectType::from_code(19), Some(MessageObjectType::Reply));
    assert_eq!(MessageObjectType::from_code(23), Some(MessageObjectType::ContextMenuCommand));
    assert_eq!(MessageObjectType::from_code(13), None);
    assert_eq!(MessageObjectType::from_code(24), None);
    assert_eq!(MessageObjectType::ThreadCreated.code(), 18);
    for code in 0u64..=30 {
        if let Some(kind) = MessageObjectType::from_code(code) {
            assert_eq!(kind.code() as u64, code);
        }
    }
}

#[test]
fn users_are_read_with_their_optional_fields() {
    let doc = Json::parse(USER).unwrap();
    assert_eq!(UserObject::from_json(&doc), Some(ann()));
    let missing = Json::parse("{\"id\":\"7\",\"username\":\"ann\"}").unwrap();
    assert_eq!(UserObject::from_json(&missing), None);
    let wrong = Json::parse("{\"id\":7,\"username\":\"ann\",\"discriminator\":\"1\"}").unwrap();
    assert_eq!(UserObject::from_json(&wrong), None);
    let bad_flag =
        Json::parse("{\"id\":\"7\",\"username\":\"a\",\"discriminator\":\"1\",\"bot\":1}").unwrap();
    assert_eq!(UserObject::from_json(&bad_flag), None);
    assert_eq!(UserObject::from_json(&Json::Array(vec![])), None);
}

#[test]
fn references_need_an_object() {
    let empty = Json::parse("{}").unwrap();
    assert_eq!(
        MessageReference::from_json(&empty),
        Some(MessageReference {
            message_id: None,
            channel_id: None,
            guild_id: None,
            fail_if_not_exists: None
        })
    );
    assert_eq!(MessageReference::from_json(&Json::Null), None);
    assert_eq!(MessageReference::from_json(&Json::unsigned(5)), None);
    let full = Json::parse(
        "{\"message_id\":\"1\",\"channel_id\":\"2\",\"guild_id\":null,\"fail_if_not_exists\":true}",
    )
    .unwrap();
    assert_eq!(
        MessageReference::from_json(&full),
        Some(MessageReference {
            message_id: Some(SnowflakeID { id: 1 }),
            channel_id: Some(SnowflakeID { id: 2 }),
            guild_id: None,
            fail_if_not_exists: Some(true)
        })
    );
}

#[test]
fn messages_are_read_with_the_message_they_refer_to() {
    let plain = Json::parse(&message_text("")).unwrap();
    assert_eq!(MessageObject::from_json(&plain), Some(hello_message()));
    let inner = message_text("");
    let outer = message_text(&format!(
        ",\"referenced_message\":{},\"channel_id\":\"9\",\"message_reference\":{{\"message_id\":\"100\"}}",
        inner
    ));
    let mut expected = hello_message();
    expected.referenced_message = Box::new(Some(hello_message()));
    expected.channel_id = Some(SnowflakeID { id: 9 });
    expected.message_reference = Some(MessageReference {
        message_id: Some(SnowflakeID { id: 100 }),
        channel_id: None,
        guild_id: None,
        fail_if_not_exists: None,
    });
    assert_eq!(MessageObject::from_json(&Json::parse(&outer).unwrap()), Some(expected));
    let broken_inner = message_text(",\"referenced_message\":{\"id\":\"1\"}");
    assert_eq!(MessageObject::from_json(&Json::parse(&broken_inner).unwrap()), None);
    let unknown_kind = message_text("").replace("\"type\":0", "\"type\":13");
    assert_eq!(MessageObject::from_json(&Json::parse(&unknown_kind).unwrap()), None);
    let bad_role = message_text("").replace("[\"5\",\"6\"]", "[\"5\",6]");
    assert_eq!(MessageObject::from_json(&Json::parse(&bad_role).unwrap()), None);
}

#[test]
fn channels_and_guilds_are_read() {
    let channel_text = "{\"id\":\"3\",\"type\":0,\"name\":\"general\",\"position\":2,\"topic\":null,\"parent_id\":\"1\",\"guild_hashes\":{\"channels\":{\"hash\":\"a\"},\"metadata\":{\"hash\":\"b\"},\"roles\":{\"hash\":\"c\"},\"version\":1}}";
    let channel = GuildChannel {
        id: SnowflakeID { id: 3 },
        u_type: ChannelType::GuildText,
        name: "general".to_string(),
        position: 2,
        topic: None,
        parent_id: Some(SnowflakeID { id: 1 }),
        last_message_id: None,
        guild_id: None,
        guild_hashes: Some(GuildHashes {
            channels: actor_discord::types::events::Hash { hash: "a".to_string() },
            metadata: actor_discord::types::events::Hash { hash: "b".to_string() },
            roles: actor_discord::types::events::Hash { hash: "c".to_string() },
            version: 1,
        }),
    };
    assert_eq!(GuildChannel::from_json(&Json::parse(channel_text).unwrap()), Some(channel.clone()));
    let guild_text =
        format!("{{\"id\":\"1\",\"name\":\"home\",\"owner_id\":\"2\",\"channels\":[{}]}}", channel_text);
    let doc = Json::parse(&guild_text).unwrap();
    assert_eq!(
        GuildCreate::from_json(&doc),
        Some(GuildCreate {
            id: SnowflakeID { id: 1 },
            name: Some("home".to_string()),
            owner_id: SnowflakeID { id: 2 },
            channels: vec![channel],
        })
    );
    assert_eq!(
        Guild::from_json(&doc),
        Some(Guild {
            id: SnowflakeID { id: 1 },
            name: Some("home".to_string()),
            owner_id: SnowflakeID { id: 2 }
        })
    );
    let no_channels = Json::parse("{\"id\":\"1\",\"owner_id\":\"2\"}").unwrap();
    assert_eq!(GuildCreate::from_json(&no_channels), None);
    assert_eq!(
        Guild::from_json(&no_channels),
        Some(Guild { id: SnowflakeID { id: 1 }, name: None, owner_id: SnowflakeID { id: 2 } })
    );
    let not_a_list = Json::parse("{\"id\":\"1\",\"owner_id\":\"2\",\"channels\":{}}").unwrap();
    assert_eq!(GuildCreate::from_json(&not_a_list), None);
}

#[test]
fn readers_tell_missing_from_malformed() {
    let doc = Json::parse("{\"a\":\"x\",\"n\":null,\"k\":3,\"l\":[1,2],\"m\":[1,\"2\"]}").unwrap();
    assert_eq!(read::<String>(&doc, "a"), Some("x".to_string()));
    assert_eq!(read::<String>(&doc, "k"), None);
    assert_eq!(read::<String>(&doc, "zz"), None);
    assert_eq!(read_optional::<String>(&doc, "a"), Some(Some("x".to_string())));
    assert_eq!(read_optional::<String>(&doc, "n"), Some(None));
    assert_eq!(read_optional::<String>(&doc, "zz"), Some(None));
    assert_eq!(read_optional::<String>(&doc, "k"), None);
    assert_eq!(read_list::<u64>(&doc, "l"), Some(vec![1, 2]));
    assert_eq!(read_list::<u64>(&doc, "m"), None);
    assert_eq!(read_list::<u64>(&doc, "k"), None);
    assert_eq!(read_list::<u64>(&doc, "zz"), None);
    assert_eq!(read::<bool>(&Json::parse("{\"b\":true}").unwrap(), "b"), Some(true));
    assert_eq!(read::<usize>(&doc, "k"), Some(3));
    assert_eq!(Vec::<u64>::from_json(&Json::parse("[3,4]").unwrap()), Some(vec![3, 4]));
    assert_eq!(Vec::<u64>::from_json(&Json::parse("[]").unwrap()), Some(vec![]));
    assert_eq!(Vec::<u64>::from_json(&Json::parse("[3,null]").unwrap()), None);
    assert_eq!(Vec::<u64>::from_json(&Json::parse("{}").unwrap()), None);
}

#[test]
fn a_simple_channel_request_has_defaults() {
    let request = GuildChannelCreate::simple(
        ChannelType::GuildText,
        "hello",
        Some("hello there".to_string()),
        Some(SnowflakeID { id: 12 }),
    );
    assert_eq!(
        request,
        GuildChannelCreate {
            u_type: ChannelType::GuildText,
            name: "hello".to_string(),
            topic: Some("hello there".to_string()),
            bitrate: None,
            user_limit: None,
            rate_limit_per_user: 0,
            position: 0,
            parent_id: Some(SnowflakeID { id: 12 }),
            nsfw: false,
        }
    );
    assert_eq!(
        request.to_json().print().unwrap(),
        "{\"bitrate\":null,\"name\":\"hello\",\"nsfw\":false,\"parent_id\":\"12\",\"position\":0,\"rate_limit_per_user\":0,\"topic\":\"hello there\",\"type\":0,\"user_limit\":null}"
    );
    let voice = GuildChannelCreate {
        u_type: ChannelType::GuildVoice,
        bitrate: Some(64000),
        user_limit: Some(5),
        topic: None,
        parent_id: None,
        nsfw: true,
        ..request
    };
    assert_eq!(
        voice.to_json().print().unwrap(),
        "{\"bitrate\":64000,\"name\":\"hello\",\"nsfw\":true,\"parent_id\":null,\"position\":0,\"rate_limit_per_user\":0,\"topic\":null,\"type\":2,\"user_limit\":5}"
    );
}

#[test]
fn a_message_create_dispatch_is_a_message_created_event() {
    let payload = Json::parse(&message_text("")).unwrap();
    assert_eq!(
        classify("MESSAGE_CREATE", &payload),
        Some(Some(DomainEvent::Message(MessageEvent::MessageCreate(hello_message()))))
    );
    assert_eq!(
        classify("MESSAGE_UPDATE", &payload),
        Some(Some(DomainEvent::Message(MessageEvent::MessageUpdate(hello_message()))))
    );
    assert_eq!(
        classify("MESSAGE_DELETE", &payload),
        Some(Some(DomainEvent::Message(MessageEvent::MessageDelete(hello_message()))))
    );
    assert_eq!(classify("MESSAGE_CREATE", &Json::Null), None);
}

#[test]
fn an_unrecognized_dispatch_is_no_event_and_no_error() {
    let payload = Json::parse(&message_text("")).unwrap();
    assert_eq!(classify("TYPING_START", &payload), Some(None));
    assert_eq!(classify("", &Json::Null), Some(None));
    assert_eq!(classify("READY", &Json::Null), Some(None));
    assert_eq!(classify("message_create", &Json::Null), Some(None));
}

#[test]
fn channel_and_guild_dispatches_are_classified() {
    let text = "{\"id\":\"3\",\"type\":4,\"name\":\"rooms\",\"position\":0}";
    let channel = GuildChannel {
        id: SnowflakeID { id: 3 },
        u_type: ChannelType::GuildCategory,
        name: "rooms".to_string(),
        position: 0,
        topic: None,
        parent_id: None,
        last_message_id: None,
        guild_id: None,
        guild_hashes: None,
    };
    let payload = Json::parse(text).unwrap();
    assert_eq!(
        classify("CHANNEL_CREATE", &payload),
        Some(Some(DomainEvent::Channel(ChannelEvent::ChannelCreate(channel.clone()))))
    );
    assert_eq!(
        classify("CHANNEL_UPDATE", &payload),
        Some(Some(DomainEvent::Channel(ChannelEvent::ChannelUpdate(channel.clone()))))
    );
    assert_eq!(
        classify("CHANNEL_DELETE", &payload),
        Some(Some(DomainEvent::Channel(ChannelEvent::ChannelDelete(channel.clone()))))
    );
    assert_eq!(classify("CHANNEL_CREATE", &Json::parse("{\"id\":\"3\"}").unwrap()), None);
    let guild = Json::parse("{\"id\":\"1\",\"owner_id\":\"2\",\"channels\":[]}").unwrap();
    assert_eq!(
        classify("GUILD_CREATE", &guild),
        Some(Some(DomainEvent::Gateway(Event::GuildCreate(GuildCreate {
            id: SnowflakeID { id: 1 },
            name: None,
            owner_id: SnowflakeID { id: 2 },
            channels: vec![],
        }))))
    );
    assert_eq!(classify("GUILD_CREATE", &payload), None);
}
