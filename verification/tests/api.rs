use actor_discord::decode::Decode;
use actor_discord::address::{join, normalize, set_query};
use actor_discord::api::{
    judge, Attempt, DiscordAPI, Exchange, Method, Reply, RetryMessage, RetryableRequest, Verdict,
};
use actor_discord::errors::ActorDiscordError;
use actor_discord::json::{Json, Number};
use actor_discord::types::events::{ChannelType, Guild, GuildChannelCreate, SnowflakeID};
use actor_discord::types::gateway::GatewayReply;

fn client(retries: usize) -> DiscordAPI {
    DiscordAPI::create("tok", "https://discord.com", retries).unwrap()
}

fn throttled(retry_after: &str) -> Reply {
    Reply::Response {
        status: 429,
        body: format!("{{\"retry_after\":{},\"message\":\"slow down\",\"global\":false}}", retry_after),
    }
}

fn signal(retry_after: Number) -> RetryMessage {
    RetryMessage { retry_after, message: "slow down".to_string() }
}

fn gateway_reply() -> Reply {
    Reply::Response { status: 200, body: "{\"url\":\"wss://gateway.discord.gg\"}".to_string() }
}

#[test]
fn sanitize() {
    let match_tests: Vec<(&str, &str)> = vec![
        ("a", "a"),
        ("b b", "b-b"),
        ("-c", "c"),
        ("--d--", "d"),
        ("@#$a", "a"),
        ("TB 🚀 🌕 b 🔥 L", "tb-🚀-🌕-b-🔥-l"),
    ];
    for t in match_tests {
        let result = DiscordAPI::sanitize(t.0).unwrap();
        assert_eq!(t.1, result)
    }
}

#[test]
fn sanitize_keeps_digits_and_lowers_letters() {
    assert_eq!(DiscordAPI::sanitize("Room 101!").unwrap(), "room-101");
    assert_eq!(DiscordAPI::sanitize("").unwrap(), "");
    assert_eq!(DiscordAPI::sanitize("###").unwrap(), "");
    assert_eq!(DiscordAPI::sanitize("A--B").unwrap(), "a-b");
}

#[test]
fn addresses_are_joined_as_links_are() {
    assert_eq!(normalize("https://discord.com"), Some("https://discord.com/".to_string()));
    assert_eq!(normalize("not an address"), None);
    assert_eq!(
        join("https://discord.com", "/api/v9/"),
        Some("https://discord.com/api/v9/".to_string())
    );
    assert_eq!(
        join("https://discord.com/api/v9/", "gateway"),
        Some("https://discord.com/api/v9/gateway".to_string())
    );
    assert_eq!(
        join("https://discord.com/api/v9/", "https://example.org/x"),
        Some("https://example.org/x".to_string())
    );
    assert_eq!(join("relative/base", "gateway"), None);
    assert_eq!(
        set_query("wss://gateway.discord.gg/?old=1#frag", "v=9"),
        Some("wss://gateway.discord.gg/?v=9#frag".to_string())
    );
    assert_eq!(set_query("nothing", "v=9"), None);
}

#[test]
fn create_puts_the_interface_under_the_address() {
    let api = client(4);
    assert_eq!(api.base_url, "https://discord.com/api/v9/");
    assert_eq!(api.token, "tok");
    assert_eq!(api.max_retries, 4);
    assert_eq!(DiscordAPI::create("tok", "discord", 4), Err(ActorDiscordError::UrlError));
}

#[test]
fn every_request_carries_the_three_headers() {
    assert_eq!(
        client(1).headers(),
        vec![
            ("Content-Type".to_string(), "application/json".to_string()),
            ("User-Agent".to_string(), "PFC-Discord".to_string()),
            ("Authorization".to_string(), "Bot tok".to_string()),
        ]
    );
}

#[test]
fn requests_name_their_verb_address_and_budget() {
    let api = client(3);
    assert_eq!(
        api.get("gateway"),
        Ok(RetryableRequest {
            method: Method::Get,
            url: "https://discord.com/api/v9/gateway".to_string(),
            body: None,
            attempts_remaining: 3,
        })
    );
    let post = api.post("channels/1/messages", Json::Bool(true)).unwrap();
    assert_eq!(post.method, Method::Post);
    assert_eq!(post.body, Some(Json::Bool(true)));
    assert_eq!(api.delete("channels/1").unwrap().method, Method::Delete);
    assert_eq!(api.patch("channels/1", Json::Null).unwrap().method, Method::Patch);
    assert_eq!(api.get("https://[bad"), Err(ActorDiscordError::UrlError));
    assert_eq!(Method::Get.as_str(), "GET");
    assert_eq!(Method::Post.as_str(), "POST");
    assert_eq!(Method::Patch.as_str(), "PATCH");
    assert_eq!(Method::Delete.as_str(), "DELETE");
}

#[test]
fn endpoints_build_their_addresses() {
    let api = client(2);
    let id = SnowflakeID { id: 839604684573638696 };
    assert_eq!(api.guild(id).unwrap().url, "https://discord.com/api/v9/guilds/839604684573638696");
    assert_eq!(
        api.channels(id).unwrap().url,
        "https://discord.com/api/v9/guilds/839604684573638696/channels"
    );
    let details = GuildChannelCreate::simple(ChannelType::GuildText, "hello", None, None);
    let create = api.create_channel(id, details.clone()).unwrap();
    assert_eq!(create.method, Method::Post);
    assert_eq!(create.url, "https://discord.com/api/v9/guilds/839604684573638696/channels");
    assert_eq!(create.body.unwrap().print(), details.to_json().print());
    let delete = api.delete_channel(SnowflakeID { id: 5 }).unwrap();
    assert_eq!((delete.method, delete.url.as_str()), (Method::Delete, "https://discord.com/api/v9/channels/5"));
    let patch = api.patch_channel(SnowflakeID { id: 5 }, Json::object().with("position", Json::unsigned(3))).unwrap();
    assert_eq!((patch.method, patch.url.as_str()), (Method::Patch, "https://discord.com/api/v9/channels/5"));
    assert_eq!(patch.body.unwrap().print().unwrap(), "{\"position\":3}");
    let message = api.create_message(SnowflakeID { id: 5 }, Json::object().with("content", Json::text("hi"))).unwrap();
    assert_eq!(message.url, "https://discord.com/api/v9/channels/5/messages");
    assert_eq!(message.attempts_remaining, 2);
}

#[test]
fn an_attempt_is_what_goes_on_the_wire() {
    let api = client(2);
    let request = api.post("channels/5", Json::object().with("name", Json::text("x"))).unwrap();
    assert_eq!(
        api.attempt(&request),
        Ok(Attempt {
            method: Method::Post,
            url: "https://discord.com/api/v9/channels/5".to_string(),
            headers: api.headers(),
            body: Some("{\"name\":\"x\"}".to_string()),
        })
    );
    let read = api.get("gateway").unwrap();
    assert_eq!(api.attempt(&read).unwrap().body, None);
    let spent = RetryableRequest { attempts_remaining: 0, ..request };
    assert_eq!(api.attempt(&spent), Err(ActorDiscordError::RetryError));
}

#[test]
fn a_response_is_judged_by_status_and_body() {
    let ok: Verdict<GatewayReply> =
        DiscordAPI::handle_response(200, "{\"url\":\"wss://gateway.discord.gg\"}");
    assert_eq!(ok, Verdict::Done(GatewayReply { url: "wss://gateway.discord.gg".to_string() }));
    let created: Verdict<Json> = DiscordAPI::handle_response(201, "[1]");
    assert_eq!(created, Verdict::Done(Json::Array(vec![Json::unsigned(1)])));
    let wrong_shape: Verdict<GatewayReply> = DiscordAPI::handle_response(200, "{\"uri\":\"x\"}");
    assert_eq!(wrong_shape, Verdict::Failed(ActorDiscordError::ResponseError));
    let no_json: Verdict<Json> = DiscordAPI::handle_response(200, "<html>");
    assert_eq!(no_json, Verdict::Failed(ActorDiscordError::ResponseError));
    let wait: Verdict<Json> =
        DiscordAPI::handle_response(429, "{\"retry_after\":0.25,\"message\":\"slow down\"}");
    assert_eq!(wait, Verdict::Retry(signal(Number::Real("0.25".to_string()))));
    let whole: Verdict<Json> =
        DiscordAPI::handle_response(429, "{\"retry_after\":3,\"message\":\"slow down\"}");
    assert_eq!(whole, Verdict::Retry(signal(Number::Unsigned(3))));
    let bad_wait: Verdict<Json> = DiscordAPI::handle_response(429, "{\"retry_after\":\"1\"}");
    assert_eq!(bad_wait, Verdict::Failed(ActorDiscordError::ResponseError));
    for status in [100u16, 202, 204, 301, 400, 401, 403, 404, 500, 503] {
        let other: Verdict<Json> = DiscordAPI::handle_response(status, "{}");
        assert_eq!(other, Verdict::Failed(ActorDiscordError::ResponseError));
    }
    let unread: Verdict<Json> = judge(200, None);
    assert_eq!(unread, Verdict::Failed(ActorDiscordError::ResponseError));
}

fn wire(api: &DiscordAPI, method: Method, url: &str, body: Option<&str>) -> Attempt {
    Attempt {
        method,
        url: url.to_string(),
        headers: api.headers(),
        body: body.map(|text| text.to_string()),
    }
}

fn gateway_wire(api: &DiscordAPI) -> Attempt {
    wire(api, Method::Get, "https://discord.com/api/v9/gateway", None)
}

#[test]
fn a_throttled_request_waits_and_then_succeeds() {
    let api = client(3);
    let request = api.get("gateway").unwrap();
    let replies = vec![throttled("0.5"), throttled("2"), gateway_reply()];
    let exchange: Exchange<GatewayReply> = request.replay(&api, &replies);
    assert_eq!(
        exchange,
        Exchange {
            result: Ok(GatewayReply { url: "wss://gateway.discord.gg".to_string() }),
            waits: vec![signal(Number::Real("0.5".to_string())), signal(Number::Unsigned(2))],
            sent: vec![gateway_wire(&api), gateway_wire(&api), gateway_wire(&api)],
        }
    );
}

#[test]
fn a_throttled_post_sends_the_same_body_each_time() {
    let api = client(3);
    let args = Json::object().with("content", Json::text("hi"));
    let request = api.post("channels/5/messages", args).unwrap();
    let replies = vec![
        throttled("1"),
        throttled("0.25"),
        Reply::Response { status: 201, body: "{\"id\":\"9\"}".to_string() },
    ];
    let exchange: Exchange<Json> = request.replay(&api, &replies);
    let posted = wire(
        &api,
        Method::Post,
        "https://discord.com/api/v9/channels/5/messages",
        Some("{\"content\":\"hi\"}"),
    );
    assert_eq!(exchange.result.unwrap().print().unwrap(), "{\"id\":\"9\"}");
    assert_eq!(
        exchange.waits,
        vec![signal(Number::Unsigned(1)), signal(Number::Real("0.25".to_string()))]
    );
    assert_eq!(exchange.sent, vec![posted.clone(), posted.clone(), posted]);
}

#[test]
fn a_rejected_patch_is_sent_once() {
    let api = client(4);
    let args = Json::object().with("position", Json::unsigned(3));
    let request = api.patch_channel(SnowflakeID { id: 5 }, args).unwrap();
    let replies = vec![Reply::Response { status: 404, body: "{}".to_string() }, gateway_reply()];
    let exchange: Exchange<Json> = request.replay(&api, &replies);
    assert_eq!(
        exchange,
        Exchange {
            result: Err(ActorDiscordError::ResponseError),
            waits: vec![],
            sent: vec![wire(
                &api,
                Method::Patch,
                "https://discord.com/api/v9/channels/5",
                Some("{\"position\":3}")
            )],
        }
    );
}

#[test]
fn a_request_that_is_always_throttled_runs_out_of_retries() {
    let api = client(3);
    let request = api.get("gateway").unwrap();
    let replies = vec![throttled("1"), throttled("2"), throttled("3"), gateway_reply()];
    let exchange: Exchange<GatewayReply> = request.replay(&api, &replies);
    assert_eq!(exchange.result, Err(ActorDiscordError::RetryError));
    assert_ne!(exchange.result, Err(ActorDiscordError::ResponseError));
    assert_eq!(
        exchange.waits,
        vec![signal(Number::Unsigned(1)), signal(Number::Unsigned(2)), signal(Number::Unsigned(3))]
    );
    assert_eq!(exchange.sent, vec![gateway_wire(&api), gateway_wire(&api), gateway_wire(&api)]);
}

#[test]
fn a_rejected_request_fails_at_once() {
    for status in [400u16, 404, 500, 204] {
        let api = client(5);
        let request = api.get("gateway").unwrap();
        let replies =
            vec![Reply::Response { status, body: "{\"message\":\"no\"}".to_string() }, gateway_reply()];
        let exchange: Exchange<GatewayReply> = request.replay(&api, &replies);
        assert_eq!(
            exchange,
            Exchange {
                result: Err(ActorDiscordError::ResponseError),
                waits: vec![],
                sent: vec![gateway_wire(&api)]
            }
        );
    }
}

#[test]
fn a_transport_failure_is_not_retried() {
    let api = client(5);
    let request = api.get("gateway").unwrap();
    let replies = vec![throttled("1"), Reply::Unreachable, gateway_reply()];
    let exchange: Exchange<GatewayReply> = request.replay(&api, &replies);
    assert_eq!(exchange.result, Err(ActorDiscordError::TransportError));
    assert_eq!(exchange.waits, vec![signal(Number::Unsigned(1))]);
    assert_eq!(exchange.sent, vec![gateway_wire(&api), gateway_wire(&api)]);
}

#[test]
fn a_body_that_cannot_be_read_is_a_hard_error() {
    let api = client(5);
    let request = api.get("gateway").unwrap();
    let replies = vec![Reply::Response { status: 429, body: "wait".to_string() }, gateway_reply()];
    let exchange: Exchange<GatewayReply> = request.replay(&api, &replies);
    assert_eq!(
        exchange,
        Exchange {
            result: Err(ActorDiscordError::ResponseError),
            waits: vec![],
            sent: vec![gateway_wire(&api)]
        }
    );
    let request = api.get("gateway").unwrap();
    let replies = vec![Reply::Response { status: 200, body: "[]".to_string() }, gateway_reply()];
    let exchange: Exchange<GatewayReply> = request.replay(&api, &replies);
    assert_eq!(
        exchange,
        Exchange {
            result: Err(ActorDiscordError::ResponseError),
            waits: vec![],
            sent: vec![gateway_wire(&api)]
        }
    );
}

#[test]
fn without_attempts_nothing_is_sent() {
    let api = client(0);
    let request = api.get("gateway").unwrap();
    let exchange: Exchange<GatewayReply> = request.replay(&api, &vec![gateway_reply()]);
    assert_eq!(
        exchange,
        Exchange { result: Err(ActorDiscordError::RetryError), waits: vec![], sent: vec![] }
    );
}

#[test]
fn an_attempt_without_an_answer_is_a_transport_failure() {
    let api = client(2);
    let request = api.get("gateway").unwrap();
    let exchange: Exchange<GatewayReply> = request.replay(&api, &vec![]);
    assert_eq!(
        exchange,
        Exchange {
            result: Err(ActorDiscordError::TransportError),
            waits: vec![],
            sent: vec![gateway_wire(&api)]
        }
    );
}

#[test]
fn a_request_whose_body_cannot_be_written_is_never_sent() {
    let api = client(3);
    let broken = Json::object().with("n", Json::Number(Number::Real("x".to_string())));
    let request = api.post("channels/5", broken).unwrap();
    let exchange: Exchange<Json> = request.replay(&api, &vec![gateway_reply()]);
    assert_eq!(
        exchange,
        Exchange { result: Err(ActorDiscordError::EncodeError), waits: vec![], sent: vec![] }
    );
}

#[test]
fn each_throttling_reply_uses_up_one_attempt() {
    let mut request = client(2).get("guilds/1").unwrap();
    let first: Verdict<Guild> = request.on_reply(&throttled("1.5"));
    assert_eq!(first, Verdict::Retry(signal(Number::Real("1.5".to_string()))));
    assert_eq!(request.attempts_remaining, 1);
    let second: Verdict<Guild> = request.on_reply(&Reply::Response {
        status: 200,
        body: "{\"id\":\"1\",\"name\":\"home\",\"owner_id\":\"2\"}".to_string(),
    });
    assert_eq!(
        second,
        Verdict::Done(Guild {
            id: SnowflakeID { id: 1 },
            name: Some("home".to_string()),
            owner_id: SnowflakeID { id: 2 }
        })
    );
    assert_eq!(request.attempts_remaining, 1);
    let third: Verdict<Guild> = request.on_reply(&throttled("1"));
    assert_eq!(third, Verdict::Retry(signal(Number::Unsigned(1))));
    assert_eq!(request.attempts_remaining, 0);
    let fourth: Verdict<Guild> = request.on_reply(&gateway_reply());
    assert_eq!(fourth, Verdict::Failed(ActorDiscordError::RetryError));
    let unreachable: Verdict<Guild> = client(1).get("x").unwrap().on_reply(&Reply::Unreachable);
    assert_eq!(unreachable, Verdict::Failed(ActorDiscordError::TransportError));
}

#[test]
fn a_body_that_is_nested_too_deep_is_not_sent() {
    let api = client(2);
    let mut deep = Json::Null;
    for _ in 0..129 {
        deep = Json::Array(vec![deep]);
    }
    let request = api.post("channels/5", deep).unwrap();
    assert_eq!(api.attempt(&request), Err(ActorDiscordError::EncodeError));
    let spent = RetryableRequest { attempts_remaining: 0, ..request };
    assert_eq!(api.attempt(&spent), Err(ActorDiscordError::RetryError));
}
