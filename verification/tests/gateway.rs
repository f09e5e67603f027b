use actor_discord::decode::Decode;
use actor_discord::errors::ActorDiscordError;
use actor_discord::json::{Json, Number};
use actor_discord::types::gateway::{
    EventGuildCreate, GatewayHello, GatewayIdentify, GatewayMessage, GatewayReply, ACK, GATEWAY,
    HEARTBEAT, HELLO, IDENTIFY, INVALID_SESSION, RECONNECT,
};

fn round_trip(message: &GatewayMessage) -> GatewayMessage {
    let text = message.encode().unwrap();
    GatewayMessage::decode(&text).unwrap()
}

#[test]
fn operation_codes_have_their_numbers() {
    assert_eq!(GATEWAY, 0);
    assert_eq!(HEARTBEAT, 1);
    assert_eq!(IDENTIFY, 2);
    assert_eq!(RECONNECT, 7);
    assert_eq!(INVALID_SESSION, 9);
    assert_eq!(HELLO, 10);
    assert_eq!(ACK, 11);
}

#[test]
fn codec_round_trips_with_every_field_present() {
    let message = GatewayMessage {
        t: Some("MESSAGE_CREATE".to_string()),
        s: Some(42),
        op: 0,
        d: Json::Object(vec![
            ("content".to_string(), Json::Text("hi \"there\"".to_string())),
            ("n".to_string(), Json::Number(Number::Signed(-3))),
            ("list".to_string(), Json::Array(vec![Json::Bool(true), Json::Null])),
        ]),
    };
    let back = round_trip(&message);
    assert_eq!(back.t, message.t);
    assert_eq!(back.s, message.s);
    assert_eq!(back.op, message.op);
    assert_eq!(back.d.print(), message.d.print());
    assert_eq!(back.d.get("content").and_then(|v| v.as_str()), Some("hi \"there\""));
}

#[test]
fn codec_round_trips_with_every_optional_field_absent() {
    let message = GatewayMessage { t: None, s: None, op: 11, d: Json::Null };
    let back = round_trip(&message);
    assert_eq!(back, message);
    assert_eq!(message.encode().unwrap(), "{\"d\":null,\"op\":11,\"s\":null,\"t\":null}");
}

#[test]
fn codec_round_trips_with_mixed_fields() {
    let with_sequence = GatewayMessage { t: None, s: Some(7), op: 0, d: Json::Bool(false) };
    assert_eq!(round_trip(&with_sequence), with_sequence);
    let with_name =
        GatewayMessage { t: Some("READY".to_string()), s: None, op: 0, d: Json::Array(vec![]) };
    assert_eq!(round_trip(&with_name), with_name);
}

#[test]
fn decode_takes_missing_and_null_fields_as_absent() {
    let missing = GatewayMessage::decode("{\"op\": 1, \"d\": 5}").unwrap();
    assert_eq!(missing.t, None);
    assert_eq!(missing.s, None);
    assert_eq!(missing.op, 1);
    assert_eq!(missing.d.as_u64(), Some(5));
    let null = GatewayMessage::decode("{\"op\":1,\"d\":null,\"s\":null,\"t\":null,\"x\":1}").unwrap();
    assert_eq!(null, GatewayMessage { t: None, s: None, op: 1, d: Json::Null });
}

#[test]
fn decode_rejects_what_has_not_the_shape_of_a_message() {
    let bad = vec![
        "",
        "not json",
        "[]",
        "5",
        "{}",
        "{\"d\":null}",
        "{\"op\":1}",
        "{\"op\":\"1\",\"d\":null}",
        "{\"op\":-1,\"d\":null}",
        "{\"op\":1.5,\"d\":null}",
        "{\"op\":1,\"d\":null,\"s\":\"3\"}",
        "{\"op\":1,\"d\":null,\"s\":-3}",
        "{\"op\":1,\"d\":null,\"t\":3}",
        "{\"op\":1,\"d\":null,\"t\":[\"A\"]}",
    ];
    for text in bad {
        assert_eq!(GatewayMessage::decode(text), Err(ActorDiscordError::ProtocolError), "{:?}", text);
    }
}

#[test]
fn identify_names_the_client() {
    let identify = GatewayIdentify::create("secret", 513);
    assert_eq!(identify.token, "secret");
    assert_eq!(identify.intents, 513);
    assert_eq!(identify.v, 9);
    assert_eq!(
        identify.properties,
        vec![
            ("$os".to_string(), "linux".to_string()),
            ("$browser".to_string(), "actor_discord".to_string()),
            ("$device".to_string(), "0.1.0".to_string()),
        ]
    );
    assert_eq!(
        identify.to_json().print().unwrap(),
        "{\"intents\":513,\"properties\":{\"$browser\":\"actor_discord\",\"$device\":\"0.1.0\",\"$os\":\"linux\"},\"token\":\"secret\",\"v\":9}"
    );
}

#[test]
fn hello_and_reply_are_read_from_documents() {
    let hello = Json::parse("{\"heartbeat_interval\":41250,\"_trace\":[\"x\"]}").unwrap();
    assert_eq!(GatewayHello::from_json(&hello), Some(GatewayHello { heartbeat_interval: 41250 }));
    assert_eq!(GatewayHello::from_json(&Json::parse("{}").unwrap()), None);
    assert_eq!(GatewayHello::from_json(&Json::parse("{\"heartbeat_interval\":\"1\"}").unwrap()), None);
    assert_eq!(
        GatewayHello { heartbeat_interval: 5 }.to_json().print().unwrap(),
        "{\"heartbeat_interval\":5}"
    );
    let reply = Json::parse("{\"url\":\"wss://gateway.discord.gg\"}").unwrap();
    assert_eq!(
        GatewayReply::from_json(&reply),
        Some(GatewayReply { url: "wss://gateway.discord.gg".to_string() })
    );
    assert_eq!(GatewayReply::from_json(&Json::parse("{\"url\":null}").unwrap()), None);
    let guild = Json::parse("{\"id\":12}").unwrap();
    assert_eq!(EventGuildCreate::from_json(&guild), Some(EventGuildCreate { id: 12 }));
    assert_eq!(EventGuildCreate { id: 12 }.to_json().print().unwrap(), "{\"id\":12}");
}

fn nested_payload(depth: usize) -> Json {
    let mut doc = Json::Null;
    for _ in 0..depth {
        doc = Json::Array(vec![doc]);
    }
    doc
}

#[test]
fn a_message_is_written_unless_its_payload_is_nested_too_deep() {
    let fits = GatewayMessage { t: None, s: None, op: 0, d: nested_payload(127) };
    assert!(fits.encode().is_some());
    let too_deep = GatewayMessage { t: None, s: None, op: 0, d: nested_payload(128) };
    assert_eq!(too_deep.encode(), None);
    assert!(fits.to_json().is_sound(128));
    assert!(!too_deep.to_json().is_sound(128));
    assert!(GatewayIdentify::create("tok", 1).to_json().is_sound(2));
    assert!(!GatewayIdentify::create("tok", 1).to_json().is_sound(1));
}
