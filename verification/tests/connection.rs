use actor_discord::decode::Decode;
use actor_discord::api::{DiscordAPI, Method};
use actor_discord::connection::{
    CloseReason, DiscordBot, Frame, Message, Notice, Outcome, Reaction, SocketState,
};
use actor_discord::errors::ActorDiscordError;
use actor_discord::intents::{GatewayIntents, GUILDS, GUILD_MESSAGES};
use actor_discord::json::Json;
use actor_discord::types::events::{DomainEvent, Event, MessageEvent};
use actor_discord::types::gateway::{GatewayMessage, GatewayReply};

const HELLO: &str = "{\"t\":null,\"s\":null,\"op\":10,\"d\":{\"heartbeat_interval\":41250}}";

const IDENTIFY: &str = "{\"d\":{\"intents\":513,\"properties\":{\"$browser\":\"actor_discord\",\"$device\":\"0.1.0\",\"$os\":\"linux\"},\"token\":\"tok\",\"v\":9},\"op\":2,\"s\":null,\"t\":null}";

const MESSAGE: &str = "{\"id\":\"100\",\"type\":0,\"content\":\"hello\",\"tts\":false,\"author\":{\"id\":\"7\",\"username\":\"ann\",\"discriminator\":\"0001\"},\"mention_everyone\":false,\"mentions\":[],\"mention_roles\":[]}";

fn session() -> DiscordBot {
    let api = DiscordAPI::create("tok", "https://discord.com", 3).unwrap();
    let reply = GatewayReply { url: "wss://gateway.discord.gg".to_string() };
    DiscordBot::create(&api, &reply, GatewayIntents::from_bits(GUILDS | GUILD_MESSAGES)).unwrap()
}

fn open_session() -> DiscordBot {
    let mut bot = session();
    bot.start_websocket().unwrap();
    bot.opened().unwrap();
    bot
}

fn greeted_session() -> DiscordBot {
    let mut bot = open_session();
    bot.handle_ws(text(HELLO)).unwrap();
    bot
}

fn text(payload: &str) -> Frame {
    Frame::Text(payload.as_bytes().to_vec())
}

fn dispatch(name: &str, sequence: usize, payload: &str) -> Frame {
    text(&format!("{{\"t\":\"{}\",\"s\":{},\"op\":0,\"d\":{}}}", name, sequence, payload))
}

fn heartbeat_with(d: &str) -> Option<Message> {
    Some(Message::Text(format!("{{\"d\":{},\"op\":1,\"s\":null,\"t\":null}}", d)))
}

fn idle() -> Outcome {
    noted(Notice::Quiet)
}

fn noted(notice: Notice) -> Outcome {
    Outcome { proceed: true, send: None, publish: None, timer: None, notice }
}

fn stop() -> Outcome {
    Outcome { proceed: false, send: None, publish: None, timer: None, notice: Notice::Quiet }
}

#[test]
fn a_new_session_has_no_socket() {
    let bot = session();
    assert_eq!(bot.state, SocketState::Disconnected);
    assert_eq!(bot.token, "tok");
    assert_eq!(bot.web_socket, "wss://gateway.discord.gg/");
    assert_eq!(bot.intents, 513);
    assert_eq!(bot.duration, 1000);
    assert_eq!(bot.sequence_number, None);
    assert_eq!(bot.acknowledged, 0);
    let api = DiscordAPI::create("tok", "https://discord.com", 3).unwrap();
    let bad = GatewayReply { url: "gateway".to_string() };
    assert_eq!(
        DiscordBot::create(&api, &bad, GatewayIntents::empty()),
        Err(ActorDiscordError::UrlError)
    );
    let request = DiscordBot::gateway_request(&api).unwrap();
    assert_eq!(request.method, Method::Get);
    assert_eq!(request.url, "https://discord.com/api/v9/gateway");
    assert_eq!(request.attempts_remaining, 3);
}

#[test]
fn the_socket_is_opened_with_the_protocol_query() {
    let mut bot = session();
    assert_eq!(
        bot.start_websocket(),
        Ok("wss://gateway.discord.gg/?v=9&encoding=json&compress=false".to_string())
    );
    assert_eq!(bot.state, SocketState::Connecting);
    assert_eq!(bot.start_websocket(), Err(ActorDiscordError::ProtocolError));
    assert_eq!(bot.state, SocketState::Connecting);
    assert_eq!(bot.opened(), Some(Event::INIT));
    assert_eq!(bot.state, SocketState::AwaitingHello);
    assert_eq!(bot.opened(), None);
    assert_eq!(bot.state, SocketState::AwaitingHello);
    let mut broken = session();
    broken.web_socket = "nowhere".to_string();
    assert_eq!(broken.start_websocket(), Err(ActorDiscordError::UrlError));
    assert_eq!(broken.state, SocketState::Disconnected);
}

#[test]
fn handshake_scenario() {
    let mut bot = open_session();
    assert_eq!(bot.heartbeat(), None);
    let outcome = bot.handle_ws(text(HELLO)).unwrap();
    assert_eq!(
        outcome,
        Outcome {
            proceed: true,
            send: Some(Message::Text(IDENTIFY.to_string())),
            publish: None,
            timer: Some(41250),
            notice: Notice::Quiet,
        }
    );
    assert_eq!(bot.state, SocketState::Identifying);
    assert_eq!(bot.duration, 41250);
    for _ in 0..3 {
        assert_eq!(bot.heartbeat(), heartbeat_with("null"));
    }
    assert_eq!(bot.handle_ws(text("{\"op\":11,\"d\":null}")), Ok(noted(Notice::Acknowledged)));
    assert_eq!(bot.acknowledged, 1);
    assert_eq!(
        bot.handle_ws(dispatch("READY", 1, "{\"session_id\":\"x\"}")),
        Ok(noted(Notice::Ready))
    );
    assert_eq!(bot.state, SocketState::Connected);
    assert_eq!(bot.heartbeat(), heartbeat_with("1"));
    let close = Frame::Close(Some(CloseReason { code: 1000, description: Some("bye".to_string()) }));
    assert_eq!(bot.handle_ws(close), Ok(stop()));
    assert_eq!(bot.state, SocketState::Closing);
    assert_eq!(bot.heartbeat(), None);
    assert_eq!(bot.handle_ws(text(HELLO)), Ok(stop()));
    assert_eq!(bot.handle_ws(Frame::Ping(vec![1])), Ok(stop()));
    bot.closed();
    assert_eq!(bot.state, SocketState::Closed);
    assert_eq!(bot.heartbeat(), None);
    assert_eq!(bot.handle_ws(text(HELLO)), Ok(stop()));
    assert_eq!(bot.start_websocket(), Err(ActorDiscordError::ProtocolError));
}

#[test]
fn ping_pong_scenario() {
    for mut bot in [open_session(), greeted_session()] {
        let before = bot.clone();
        let outcome = bot.handle_ws(Frame::Ping(vec![1, 2, 3])).unwrap();
        assert_eq!(
            outcome,
            Outcome {
                proceed: true,
                send: Some(Message::Pong(vec![1, 2, 3])),
                publish: None,
                timer: None,
                notice: Notice::Quiet,
            }
        );
        assert_eq!(bot, before);
    }
}

#[test]
fn sequence_numbers_are_tracked_and_sent_with_the_heartbeat() {
    let mut bot = greeted_session();
    for n in [3usize, 4, 9, 120] {
        assert_eq!(
            bot.handle_ws(dispatch("TYPING_START", n, "{}")),
            Ok(noted(Notice::UnknownEvent))
        );
        assert_eq!(bot.sequence_number, Some(n));
        assert_eq!(bot.heartbeat(), heartbeat_with(&n.to_string()));
    }
    assert_eq!(
        bot.handle_ws(dispatch("TYPING_START", 7, "{}")),
        Ok(noted(Notice::UnknownEvent))
    );
    assert_eq!(bot.sequence_number, Some(120));
    assert_eq!(
        bot.handle_ws(text("{\"op\":11,\"d\":null,\"s\":null}")),
        Ok(noted(Notice::Acknowledged))
    );
    assert_eq!(bot.sequence_number, Some(120));
    assert_eq!(bot.heartbeat(), heartbeat_with("120"));
}

#[test]
fn a_message_create_dispatch_is_published() {
    let mut bot = greeted_session();
    let outcome = bot.handle_ws(dispatch("MESSAGE_CREATE", 2, MESSAGE)).unwrap();
    assert!(outcome.proceed);
    assert_eq!(outcome.send, None);
    assert_eq!(outcome.timer, None);
    assert_eq!(outcome.notice, Notice::Quiet);
    match outcome.publish {
        Some(DomainEvent::Message(MessageEvent::MessageCreate(message))) => {
            assert_eq!(message.id.id, 100);
            assert_eq!(message.content, "hello");
            assert_eq!(message.author.username, "ann");
        }
        other => panic!("not a message-created event: {:?}", other),
    }
    assert_eq!(bot.sequence_number, Some(2));
    assert_eq!(bot.state, SocketState::Identifying);
}

#[test]
fn an_unknown_dispatch_is_dropped() {
    let mut bot = greeted_session();
    assert_eq!(
        bot.handle_ws(dispatch("PRESENCE_UPDATE", 5, MESSAGE)),
        Ok(noted(Notice::UnknownEvent))
    );
    assert_eq!(bot.state, SocketState::Identifying);
    assert_eq!(bot.handle_ws(text("{\"op\":0,\"s\":6,\"d\":{}}")), Ok(noted(Notice::Unnamed)));
    assert_eq!(bot.sequence_number, Some(6));
}

#[test]
fn a_dispatch_with_a_broken_payload_ends_the_session() {
    let mut bot = greeted_session();
    assert_eq!(
        bot.handle_ws(dispatch("MESSAGE_CREATE", 8, "{\"id\":\"100\"}")),
        Err(ActorDiscordError::ProtocolError)
    );
    assert_eq!(bot.state, SocketState::Closing);
    assert_eq!(bot.sequence_number, Some(8));
}

#[test]
fn messages_before_the_hello_are_passed_over() {
    let mut bot = open_session();
    let before = bot.clone();
    assert_eq!(bot.handle_ws(dispatch("MESSAGE_CREATE", 5, MESSAGE)), Ok(noted(Notice::Early)));
    assert_eq!(bot.handle_ws(text("{\"op\":11,\"d\":null,\"s\":4}")), Ok(noted(Notice::Early)));
    assert_eq!(bot.handle_ws(text("{\"op\":9,\"d\":false}")), Ok(noted(Notice::Early)));
    assert_eq!(bot, before);
}

#[test]
fn notices_are_passed_over() {
    let mut bot = greeted_session();
    let before = bot.clone();
    let notices = vec![
        ("{\"op\":9,\"d\":false}", Notice::InvalidSession),
        ("{\"op\":7,\"d\":null}", Notice::Reconnect),
        ("{\"op\":1,\"d\":null}", Notice::UnknownOpCode),
        ("{\"op\":2,\"d\":{}}", Notice::UnknownOpCode),
        ("{\"op\":99,\"d\":1}", Notice::UnknownOpCode),
    ];
    for (payload, notice) in notices {
        assert_eq!(bot.handle_ws(text(payload)), Ok(noted(notice)));
    }
    assert_eq!(bot.handle_ws(Frame::Binary(vec![1, 2])), Ok(idle()));
    assert_eq!(bot.handle_ws(Frame::Continuation), Ok(idle()));
    assert_eq!(bot.handle_ws(Frame::Pong(vec![1, 2])), Ok(idle()));
    assert_eq!(bot, before);
}

#[test]
fn a_malformed_frame_ends_the_session() {
    for payload in ["", "{\"op\":", "[]", "{\"op\":10}", "{\"d\":{}}"] {
        let mut bot = greeted_session();
        assert_eq!(bot.handle_ws(text(payload)), Err(ActorDiscordError::ProtocolError));
        assert_eq!(bot.state, SocketState::Closing);
    }
    let mut bot = open_session();
    assert_eq!(
        bot.handle_ws(text("{\"op\":10,\"d\":{\"heartbeat_interval\":\"soon\"}}")),
        Err(ActorDiscordError::ProtocolError)
    );
    assert_eq!(bot.state, SocketState::Closing);
}

#[test]
fn bytes_that_are_no_text_are_read_with_replacements() {
    let mut bot = greeted_session();
    let mut bytes = b"{\"op\":0,\"s\":3,\"t\":\"X".to_vec();
    bytes.push(0xff);
    bytes.extend_from_slice(b"\",\"d\":null}");
    assert_eq!(bot.handle_ws(Frame::Text(bytes)), Ok(noted(Notice::UnknownEvent)));
    assert_eq!(bot.sequence_number, Some(3));
    assert_eq!(bot.handle_ws(Frame::Text(vec![0xff, 0xfe])), Err(ActorDiscordError::ProtocolError));
}

#[test]
fn a_later_hello_sets_the_interval_again() {
    let mut bot = greeted_session();
    bot.handle_ws(dispatch("READY", 1, "{}")).unwrap();
    assert_eq!(bot.state, SocketState::Connected);
    let outcome = bot
        .handle_ws(text("{\"op\":10,\"d\":{\"heartbeat_interval\":30000}}"))
        .unwrap();
    assert_eq!(outcome.timer, Some(30000));
    assert_eq!(outcome.send, Some(Message::Text(IDENTIFY.to_string())));
    assert_eq!(bot.duration, 30000);
    assert_eq!(bot.state, SocketState::Connected);
}

#[test]
fn a_handled_message_says_what_to_do() {
    let mut bot = open_session();
    let hello = GatewayMessage::decode(HELLO).unwrap();
    let reaction = bot.handle_envelope(hello).unwrap();
    assert!(reaction.proceed);
    assert_eq!(reaction.timer, Some(41250));
    assert_eq!(reaction.publish, None);
    assert_eq!(reaction.send.unwrap().encode().unwrap(), IDENTIFY);
    assert_eq!(bot.heartbeat_message().unwrap().encode().unwrap(), "{\"d\":null,\"op\":1,\"s\":null,\"t\":null}");
    let ready = bot.handle_ws_gateway_event("READY", &Json::Null);
    assert_eq!(
        ready,
        Ok(Reaction { proceed: true, send: None, publish: None, timer: None, notice: Notice::Ready })
    );
    assert_eq!(bot.state, SocketState::Connected);
    let mut fresh = session();
    let ack = GatewayMessage { t: None, s: Some(4), op: 11, d: Json::Null };
    assert_eq!(
        fresh.handle_envelope(ack),
        Ok(Reaction {
            proceed: false,
            send: None,
            publish: None,
            timer: None,
            notice: Notice::Quiet
        })
    );
    assert_eq!(fresh.acknowledged, 0);
    assert_eq!(fresh.sequence_number, None);
    assert_eq!(fresh.heartbeat_message(), None);
}

#[test]
fn a_failed_socket_is_given_up() {
    let mut bot = greeted_session();
    bot.fail();
    assert_eq!(bot.state, SocketState::Closing);
    bot.fail();
    assert_eq!(bot.state, SocketState::Closing);
    bot.closed();
    assert_eq!(bot.state, SocketState::Closed);
    bot.closed();
    bot.fail();
    assert_eq!(bot.state, SocketState::Closed);
    let mut idle_bot = session();
    idle_bot.fail();
    idle_bot.closed();
    assert_eq!(idle_bot.state, SocketState::Disconnected);
    let mut connecting = session();
    connecting.start_websocket().unwrap();
    connecting.fail();
    assert_eq!(connecting.state, SocketState::Closing);
    connecting.closed();
    assert_eq!(connecting.state, SocketState::Closed);
    assert!(SocketState::Connected.open());
    assert!(!SocketState::Closing.open());
    assert!(SocketState::Identifying.beating());
    assert!(!SocketState::AwaitingHello.beating());
}
