use crate::decode::{optional, read, read_optional, required, Decode};
use crate::errors::ActorDiscordError;
use crate::json::{parsed, sound, text_of, Json, JsonModel, NumberModel, MAX_DEPTH};
use vstd::prelude::*;

verus! {

/// Operation code of an event dispatch.
pub const GATEWAY: usize = 0;

/// Operation code of a heartbeat.
pub const HEARTBEAT: usize = 1;

/// Operation code of the identify message that answers a hello.
pub const IDENTIFY: usize = 2;

/// Operation code by which the server asks the client to reconnect.
pub const RECONNECT: usize = 7;

/// Operation code that reports an invalid session.
pub const INVALID_SESSION: usize = 9;

/// Operation code of the hello message that opens a session.
pub const HELLO: usize = 10;

/// Operation code that acknowledges a heartbeat.
pub const ACK: usize = 11;

/// The name under which the client identifies itself: that of this package.
pub const NAME: &'static str = "actor_discord";

/// The version under which the client identifies itself: that of this
/// package.
pub const VERSION: &'static str = "0.1.0";

/// The version of the gateway protocol that the client speaks.
pub const PROTOCOL_VERSION: usize = 9;

/// The keys of a gateway message differ from each other.
pub proof fn lemma_message_keys_differ()
    ensures
        "t"@ != "s"@,
        "t"@ != "op"@,
        "t"@ != "d"@,
        "s"@ != "op"@,
        "s"@ != "d"@,
        "op"@ != "d"@,
{
    reveal_strlit("t");
    reveal_strlit("s");
    reveal_strlit("op");
    reveal_strlit("d");
    assert("t"@[0] == 't');
    assert("s"@[0] == 's');
    assert("d"@[0] == 'd');
    assert("op"@.len() == 2);
}

/// The answer to the question where the gateway is.
#[derive(Debug, Clone, PartialEq)]
pub struct GatewayReply {
    pub url: String,
}

/// The mathematical value of a [`GatewayReply`].
pub struct GatewayReplyModel {
    pub url: Seq<char>,
}

impl DeepView for GatewayReply {
    type V = GatewayReplyModel;

    open spec fn deep_view(&self) -> GatewayReplyModel {
        GatewayReplyModel { url: self.url@ }
    }
}

impl Decode for GatewayReply {
    /// The reply that a document stands for: an object with a string under
    /// `url`.
    open spec fn decoded(doc: JsonModel) -> Option<GatewayReplyModel> {
        match required::<String>(doc, "url"@) {
            Some(url) => Some(GatewayReplyModel { url }),
            None => None,
        }
    }

    fn from_json(doc: &Json) -> (r: Option<GatewayReply>) {
        match read::<String>(doc, "url") {
            Some(url) => Some(GatewayReply { url }),
            None => None,
        }
    }
}

/// The payload that announces a guild.
#[derive(Debug, Clone, PartialEq)]
pub struct EventGuildCreate {
    pub id: u64,
}

impl DeepView for EventGuildCreate {
    type V = EventGuildCreate;

    open spec fn deep_view(&self) -> EventGuildCreate {
        *self
    }
}

impl Decode for EventGuildCreate {
    /// The payload that a document stands for: an object with an integer
    /// under `id`.
    open spec fn decoded(doc: JsonModel) -> Option<EventGuildCreate> {
        match required::<u64>(doc, "id"@) {
            Some(id) => Some(EventGuildCreate { id }),
            None => None,
        }
    }

    fn from_json(doc: &Json) -> (r: Option<EventGuildCreate>) {
        match read::<u64>(doc, "id") {
            Some(id) => Some(EventGuildCreate { id }),
            None => None,
        }
    }
}

impl EventGuildCreate {
    /// The document that stands for the payload.
    pub open spec fn encoded(self) -> JsonModel {
        JsonModel::Object(
            Map::empty().insert("id"@, JsonModel::Number(NumberModel::Int(self.id as int))),
        )
    }

    /// Writes the payload as a document: an object with one integer.
    pub fn to_json(&self) -> (r: Json)
        ensures
            r@ == self.encoded(),
            sound(r, 1),
    {
        Json::object().with("id", Json::unsigned(self.id))
    }
}

/// The payload of the hello message.
#[derive(Debug, Clone, PartialEq)]
pub struct GatewayHello {
    /// Milliseconds between two heartbeats.
    pub heartbeat_interval: u64,
}

impl DeepView for GatewayHello {
    type V = GatewayHello;

    open spec fn deep_view(&self) -> GatewayHello {
        *self
    }
}

impl Decode for GatewayHello {
    /// The payload that a document stands for: an object with an integer
    /// under `heartbeat_interval`.
    open spec fn decoded(doc: JsonModel) -> Option<GatewayHello> {
        match required::<u64>(doc, "heartbeat_interval"@) {
            Some(heartbeat_interval) => Some(GatewayHello { heartbeat_interval }),
            None => None,
        }
    }

    fn from_json(doc: &Json) -> (r: Option<GatewayHello>) {
        match read::<u64>(doc, "heartbeat_interval") {
            Some(heartbeat_interval) => Some(GatewayHello { heartbeat_interval }),
            None => None,
        }
    }
}

impl GatewayHello {
    /// The document that stands for the payload.
    pub open spec fn encoded(self) -> JsonModel {
        JsonModel::Object(
            Map::empty().insert(
                "heartbeat_interval"@,
                JsonModel::Number(NumberModel::Int(self.heartbeat_interval as int)),
            ),
        )
    }

    /// Writes the payload as a document: an object with one integer.
    pub fn to_json(&self) -> (r: Json)
        ensures
            r@ == self.encoded(),
            sound(r, 1),
    {
        Json::object().with("heartbeat_interval", Json::unsigned(self.heartbeat_interval))
    }
}

/// A payload written as a document and read back is the same payload.
pub proof fn lemma_hello_round_trip(hello: GatewayHello)
    ensures
        GatewayHello::decoded(hello.encoded()) == Some(hello),
{
}

/// What the client tells the gateway about itself after the hello.
#[derive(Debug, Clone, PartialEq)]
pub struct GatewayIdentify {
    pub token: String,
    /// The bitmask of the kinds of event that the client asks for.
    pub intents: u64,
    /// Pairs of a name and a value that describe the client.
    pub properties: Vec<(String, String)>,
    pub v: usize,
}

/// The mathematical value of a [`GatewayIdentify`].
pub struct GatewayIdentifyModel {
    pub token: Seq<char>,
    pub intents: u64,
    pub properties: Seq<(Seq<char>, Seq<char>)>,
    pub v: usize,
}

impl DeepView for GatewayIdentify {
    type V = GatewayIdentifyModel;

    open spec fn deep_view(&self) -> GatewayIdentifyModel {
        GatewayIdentifyModel {
            token: self.token@,
            intents: self.intents,
            properties: self.properties.deep_view(),
            v: self.v,
        }
    }
}

/// The properties by which this client describes itself.
pub open spec fn client_properties() -> Seq<(Seq<char>, Seq<char>)> {
    seq![("$os"@, "linux"@), ("$browser"@, NAME@), ("$device"@, VERSION@)]
}

/// The members of the object that a list of properties stands for: each
/// name with its value as a string, a later pair replacing an earlier one of
/// the same name.
pub open spec fn properties_members(properties: Seq<(Seq<char>, Seq<char>)>) -> Map<
    Seq<char>,
    JsonModel,
>
    decreases properties.len(),
{
    if properties.len() == 0 {
        Map::empty()
    } else {
        properties_members(properties.drop_last()).insert(
            properties.last().0,
            JsonModel::Text(properties.last().1),
        )
    }
}

impl GatewayIdentifyModel {
    /// The document that stands for the identification: an object with the
    /// members `token`, `intents`, `properties` and `v`.
    pub open spec fn encoded(self) -> JsonModel {
        JsonModel::Object(
            Map::empty().insert("token"@, JsonModel::Text(self.token)).insert(
                "intents"@,
                JsonModel::Number(NumberModel::Int(self.intents as int)),
            ).insert("properties"@, JsonModel::Object(properties_members(self.properties))).insert(
                "v"@,
                JsonModel::Number(NumberModel::Int(self.v as int)),
            ),
        )
    }
}

impl GatewayIdentify {
    /// The identification of this client with the given token and intents.
    pub fn create(token: &str, intents: u64) -> (r: Self)
        ensures
            r.deep_view() == (GatewayIdentifyModel {
                token: token@,
                intents,
                properties: client_properties(),
                v: PROTOCOL_VERSION,
            }),
    {
        let mut properties: Vec<(String, String)> = Vec::new();
        properties.push(("$os".to_owned(), "linux".to_owned()));
        properties.push(("$browser".to_owned(), NAME.to_owned()));
        properties.push(("$device".to_owned(), VERSION.to_owned()));
        assert(properties.deep_view() =~= client_properties());
        GatewayIdentify { token: token.to_owned(), intents, properties, v: PROTOCOL_VERSION }
    }

    /// Writes the identification as a document, which is nested two deep
    /// and holds no real number.
    pub fn to_json(&self) -> (r: Json)
        ensures
            r@ == self.deep_view().encoded(),
            sound(r, 2),
    {
        let ghost model = self.properties.deep_view();
        let mut properties = Json::object();
        let mut i: usize = 0;
        while i < self.properties.len()
            invariant
                i <= self.properties.len(),
                model == self.properties.deep_view(),
                properties@ == JsonModel::Object(properties_members(model.take(i as int))),
                properties is Object,
                sound(properties, 1),
            decreases self.properties.len() - i,
        {
            let name = self.properties[i].0.as_str();
            let value = Json::text(self.properties[i].1.as_str());
            proof {
                assert(model.take(i + 1).drop_last() == model.take(i as int));
                assert(model.take(i + 1).last() == (name@, self.properties[i as int].1@));
            }
            properties = properties.with(name, value);
            i = i + 1;
        }
        assert(model.take(i as int) == model);
        Json::object().with("token", Json::text(self.token.as_str())).with(
            "intents",
            Json::unsigned(self.intents),
        ).with("properties", properties).with("v", Json::unsigned(self.v as u64))
    }
}

/// One message on the gateway: an operation code, an optional sequence
/// number, an optional event name and a payload.
#[derive(Debug, Clone, PartialEq)]
pub struct GatewayMessage {
    pub t: Option<String>,
    pub s: Option<usize>,
    pub op: usize,
    pub d: Json,
}

/// The mathematical value of a [`GatewayMessage`].
pub struct GatewayMessageModel {
    pub t: Option<Seq<char>>,
    pub s: Option<usize>,
    pub op: usize,
    pub d: JsonModel,
}

impl View for GatewayMessage {
    type V = GatewayMessageModel;

    open spec fn view(&self) -> GatewayMessageModel {
        GatewayMessageModel {
            t: match self.t {
                Some(name) => Some(name@),
                None => None,
            },
            s: self.s,
            op: self.op,
            d: self.d@,
        }
    }
}

impl DeepView for GatewayMessage {
    type V = GatewayMessageModel;

    open spec fn deep_view(&self) -> GatewayMessageModel {
        self@
    }
}

impl GatewayMessageModel {
    /// The document that stands for the message: an object with the four
    /// members `t`, `s`, `op` and `d`, where a missing name or sequence
    /// number is written as `null`.
    pub open spec fn encoded(self) -> JsonModel {
        JsonModel::Object(
            Map::empty().insert(
                "t"@,
                match self.t {
                    Some(name) => JsonModel::Text(name),
                    None => JsonModel::Null,
                },
            ).insert(
                "s"@,
                match self.s {
                    Some(n) => JsonModel::Number(NumberModel::Int(n as int)),
                    None => JsonModel::Null,
                },
            ).insert("op"@, JsonModel::Number(NumberModel::Int(self.op as int))).insert(
                "d"@,
                self.d,
            ),
        )
    }

    /// The message that a document stands for.
    ///
    /// The document must be an object with an index under `op` and some
    /// member under `d`. Under `s` it may hold an index and under `t` a
    /// string; either may be missing or `null`. Other members are ignored.
    pub open spec fn decoded(doc: JsonModel) -> Option<GatewayMessageModel> {
        match (
            required::<usize>(doc, "op"@),
            doc.member("d"@),
            optional::<usize>(doc, "s"@),
            optional::<String>(doc, "t"@),
        ) {
            (Some(op), Some(d), Some(s), Some(t)) => Some(GatewayMessageModel { t, s, op, d }),
            _ => None,
        }
    }

    /// The message that a text stands for, if it is JSON of the right shape.
    pub open spec fn decoded_text(text: Seq<char>) -> Option<GatewayMessageModel> {
        match parsed(text) {
            Some(doc) => Self::decoded(doc),
            None => None,
        }
    }
}

/// Decoding the document that a message encodes to gives the message back,
/// whichever of its optional fields are present.
pub proof fn lemma_decode_encode(message: GatewayMessageModel)
    ensures
        GatewayMessageModel::decoded(message.encoded()) == Some(message),
{
    lemma_message_keys_differ();
}

impl GatewayMessage {
    /// Reads a message from a document.
    ///
    /// Returns `None` exactly where the document does not have the shape of
    /// a message. The message of a document that can be written can be
    /// written too.
    pub fn from_json(doc: &Json) -> (r: Option<GatewayMessage>)
        ensures
            match r {
                Some(message) => GatewayMessageModel::decoded(doc@) == Some(message@) && (sound(
                    *doc,
                    MAX_DEPTH as nat,
                ) ==> message.writable()),
                None => GatewayMessageModel::decoded(doc@) is None,
            },
    {
        let op = match read::<usize>(doc, "op") {
            Some(op) => op,
            None => {
                return None;
            },
        };
        let d = match doc.get("d") {
            Some(d) => d.copy(),
            None => {
                return None;
            },
        };
        let s = match read_optional::<usize>(doc, "s") {
            Some(s) => s,
            None => {
                return None;
            },
        };
        let t = match read_optional::<String>(doc, "t") {
            Some(t) => t,
            None => {
                return None;
            },
        };
        Some(GatewayMessage { t, s, op, d })
    }

    /// Writes the message as a document, which is sound within a limit
    /// exactly where the payload is sound within one less.
    pub fn to_json(&self) -> (r: Json)
        ensures
            r@ == self@.encoded(),
            forall|limit: nat| #[trigger]
                sound(r, limit) == (limit > 0 && sound(self.d, (limit - 1) as nat)),
    {
        let t = match &self.t {
            Some(name) => Json::text(name.as_str()),
            None => Json::Null,
        };
        let s = match self.s {
            Some(n) => Json::unsigned(n as u64),
            None => Json::Null,
        };
        Json::object().with("t", t).with("s", s).with("op", Json::unsigned(self.op as u64)).with(
            "d",
            self.d.copy(),
        )
    }

    /// Reads a message from the text of a frame.
    ///
    /// Fails with `ProtocolError` exactly where the text is not JSON, or is
    /// JSON that does not have the shape of a message. A message that was
    /// read can be written again.
    pub fn decode(text: &str) -> (r: Result<GatewayMessage, ActorDiscordError>)
        ensures
            match r {
                Ok(message) => GatewayMessageModel::decoded_text(text@) == Some(message@)
                    && message.writable(),
                Err(e) => e is ProtocolError && GatewayMessageModel::decoded_text(text@) is None,
            },
    {
        match Json::parse(text) {
            Some(doc) => match GatewayMessage::from_json(&doc) {
                Some(message) => Ok(message),
                None => Err(ActorDiscordError::ProtocolError),
            },
            None => Err(ActorDiscordError::ProtocolError),
        }
    }

    /// Whether the message can be written as text: its payload is sound
    /// within one less than `MAX_DEPTH`, so that its document, which is
    /// nested one deeper, is sound within `MAX_DEPTH`.
    pub open spec fn writable(&self) -> bool {
        sound(self.d, (MAX_DEPTH - 1) as nat)
    }

    /// Writes the message as the text of a frame: the text of the document
    /// that stands for the message.
    ///
    /// Returns `None` exactly where the message cannot be written: arrays
    /// and objects are nested too deep in its payload, or a real number in it
    /// has a literal that does not read as a number.
    pub fn encode(&self) -> (r: Option<String>)
        ensures
            r.deep_view() == if self.writable() {
                Some(text_of(self@.encoded()))
            } else {
                None
            },
    {
        self.to_json().print()
    }
}

/// Every property stands in the document as a string.
pub proof fn lemma_properties_are_text(properties: Seq<(Seq<char>, Seq<char>)>)
    ensures
        forall|key: Seq<char>|
            properties_members(properties).contains_key(key) ==> (#[trigger] properties_members(
                properties,
            )[key]) is Text,
    decreases properties.len(),
{
    if properties.len() > 0 {
        lemma_properties_are_text(properties.drop_last());
    }
}

/// The document of an identification holds no real number.
pub proof fn lemma_identify_real_free(identify: GatewayIdentifyModel)
    ensures
        identify.encoded().real_free(),
{
    lemma_properties_are_text(identify.properties);
    let inner = properties_members(identify.properties);
    assert(JsonModel::Object(inner).real_free()) by {
        assert forall|key: Seq<char>| inner.contains_key(key) implies (#[trigger] inner[key]).real_free() by {
            assert(inner[key] is Text);
        }
    }
    let members = identify.encoded()->Object_0;
    assert forall|key: Seq<char>| members.contains_key(key) implies (#[trigger] members[key]).real_free() by {
        assert(key == "token"@ || key == "intents"@ || key == "properties"@ || key == "v"@);
    }
}

/// The document of a message holds a real number exactly where its payload
/// holds one.
pub proof fn lemma_message_real_free(message: GatewayMessageModel)
    ensures
        message.encoded().real_free() == message.d.real_free(),
{
    lemma_message_keys_differ();
    let members = message.encoded()->Object_0;
    assert(members.contains_key("d"@) && members["d"@] == message.d);
    if message.d.real_free() {
        assert forall|key: Seq<char>| members.contains_key(key) implies (#[trigger] members[key]).real_free() by {
            assert(key == "t"@ || key == "s"@ || key == "op"@ || key == "d"@);
        }
    }
}

} // verus!
