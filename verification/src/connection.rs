use crate::address::{normalize, normalized, set_query, with_query, MAX_ADDRESS};
use crate::api::{carries, outcome, DiscordAPI, Method, RetryableRequest};
use crate::decode::Decode;
use crate::errors::ActorDiscordError;
use crate::intents::GatewayIntents;
use crate::json::{
    lemma_sound_grows, same_text, sound, text_of, written, Json, JsonModel, NumberModel, MAX_DEPTH,
};
use crate::types::events::{classified, classify, DomainEvent, DomainEventModel, Event};
use crate::types::gateway::{
    client_properties, lemma_identify_real_free, lemma_message_real_free, GatewayHello, GatewayIdentify, GatewayIdentifyModel, GatewayMessage,
    GatewayMessageModel, GatewayReply, ACK, GATEWAY, HEARTBEAT, HELLO, IDENTIFY, INVALID_SESSION,
    PROTOCOL_VERSION, RECONNECT,
};
use vstd::prelude::*;

verus! {

/// The path under which the REST interface tells where the gateway is.
pub const GATEWAY_PATH: &'static str = "gateway";

/// The query that selects the version of the protocol, JSON as the encoding,
/// and no compression.
pub const GATEWAY_QUERY: &'static str = "v=9&encoding=json&compress=false";

/// Milliseconds between two heartbeats before the gateway has said how many
/// it wants.
pub const INITIAL_INTERVAL: u64 = 1000;

/// Where a session stands in the life of its socket.
#[derive(Debug, Copy, Clone, PartialEq, Eq, Structural)]
pub enum SocketState {
    /// No socket yet.
    Disconnected,
    /// The socket is being opened.
    Connecting,
    /// The socket is open and the gateway has not said hello.
    AwaitingHello,
    /// The client has identified itself and the gateway has not yet
    /// answered that it is ready.
    Identifying,
    /// The gateway is ready.
    Connected,
    /// The session is over and the socket is being given up.
    Closing,
    /// The socket is gone.
    Closed,
}

impl SocketState {
    /// Whether frames can arrive in this state.
    pub open spec fn is_open(self) -> bool {
        self is AwaitingHello || self is Identifying || self is Connected
    }

    /// Whether the handshake is over in this state, so that heartbeats flow.
    pub open spec fn is_beating(self) -> bool {
        self is Identifying || self is Connected
    }

    /// Whether the state machine has a step from `self` to `next`.
    pub open spec fn follows(self, next: SocketState) -> bool {
        match self {
            SocketState::Disconnected => next is Connecting,
            SocketState::Connecting => next is AwaitingHello || next is Closing,
            SocketState::AwaitingHello => next is Identifying || next is Closing,
            SocketState::Identifying => next is Connected || next is Closing,
            SocketState::Connected => next is Closing,
            SocketState::Closing => next is Closed,
            SocketState::Closed => false,
        }
    }

    /// How far along the life of the socket this state lies.
    pub open spec fn rank(self) -> nat {
        match self {
            SocketState::Disconnected => 0,
            SocketState::Connecting => 1,
            SocketState::AwaitingHello => 2,
            SocketState::Identifying => 3,
            SocketState::Connected => 4,
            SocketState::Closing => 5,
            SocketState::Closed => 6,
        }
    }

    /// Whether frames can arrive in this state.
    pub fn open(self) -> (r: bool)
        ensures
            r == self.is_open(),
    {
        match self {
            SocketState::AwaitingHello | SocketState::Identifying | SocketState::Connected => true,
            _ => false,
        }
    }

    /// Whether the handshake is over in this state.
    pub fn beating(self) -> (r: bool)
        ensures
            r == self.is_beating(),
    {
        match self {
            SocketState::Identifying | SocketState::Connected => true,
            _ => false,
        }
    }
}

/// Why the other side closed the socket.
#[derive(Debug, Clone, PartialEq)]
pub struct CloseReason {
    pub code: u16,
    pub description: Option<String>,
}

/// One frame that came in on the socket.
#[derive(Debug, Clone, PartialEq)]
pub enum Frame {
    Text(Vec<u8>),
    Binary(Vec<u8>),
    Continuation,
    Ping(Vec<u8>),
    Pong(Vec<u8>),
    Close(Option<CloseReason>),
}

/// One frame that goes out on the socket.
#[derive(Debug, Clone, PartialEq)]
pub enum Message {
    Text(String),
    Pong(Vec<u8>),
}

/// The mathematical value of a [`Message`].
pub enum MessageModel {
    Text(Seq<char>),
    Pong(Seq<u8>),
}

impl DeepView for Message {
    type V = MessageModel;

    open spec fn deep_view(&self) -> MessageModel {
        match self {
            Message::Text(text) => MessageModel::Text(text@),
            Message::Pong(payload) => MessageModel::Pong(payload@),
        }
    }
}

/// What a gateway message was, where that is worth telling.
#[derive(Debug, Copy, Clone, PartialEq, Eq, Structural)]
pub enum Notice {
    /// Nothing to tell.
    Quiet,
    /// A message other than the hello came before the hello.
    Early,
    /// The gateway is ready.
    Ready,
    /// A dispatch without a name.
    Unnamed,
    /// A dispatch whose name stands for no event.
    UnknownEvent,
    /// The gateway acknowledged a heartbeat.
    Acknowledged,
    /// The gateway says that the session is not valid.
    InvalidSession,
    /// The gateway asks the client to connect again.
    Reconnect,
    /// A message with an operation code that the session has no use for.
    UnknownOpCode,
}

/// What the session does about one gateway message.
#[derive(Debug, PartialEq)]
pub struct Reaction {
    /// Whether the session goes on.
    pub proceed: bool,
    /// The message to send in answer.
    pub send: Option<GatewayMessage>,
    /// The event to hand to the subscribers.
    pub publish: Option<DomainEvent>,
    /// The milliseconds between heartbeats with which the timer starts
    /// again.
    pub timer: Option<u64>,
    /// What the message was, for the log.
    pub notice: Notice,
}

/// The mathematical value of a [`Reaction`].
pub struct ReactionModel {
    pub proceed: bool,
    pub send: Option<GatewayMessageModel>,
    pub publish: Option<DomainEventModel>,
    pub timer: Option<u64>,
    pub notice: Notice,
}

impl DeepView for Reaction {
    type V = ReactionModel;

    open spec fn deep_view(&self) -> ReactionModel {
        ReactionModel {
            proceed: self.proceed,
            send: self.send.deep_view(),
            publish: self.publish.deep_view(),
            timer: self.timer,
            notice: self.notice,
        }
    }
}

impl ReactionModel {
    /// Go on, and do nothing else.
    pub open spec fn idle() -> ReactionModel {
        ReactionModel {
            proceed: true,
            send: None,
            publish: None,
            timer: None,
            notice: Notice::Quiet,
        }
    }

    /// Go on, and tell what the message was.
    pub open spec fn note(notice: Notice) -> ReactionModel {
        ReactionModel { notice, ..Self::idle() }
    }

    /// Stop, and do nothing else.
    pub open spec fn stop() -> ReactionModel {
        ReactionModel { proceed: false, ..Self::idle() }
    }
}

/// What the session does about one frame: as a [`Reaction`], with the answer
/// as the frame that goes out.
#[derive(Debug, PartialEq)]
pub struct Outcome {
    pub proceed: bool,
    pub send: Option<Message>,
    pub publish: Option<DomainEvent>,
    pub timer: Option<u64>,
    pub notice: Notice,
}

/// The mathematical value of an [`Outcome`].
pub struct OutcomeModel {
    pub proceed: bool,
    pub send: Option<MessageModel>,
    pub publish: Option<DomainEventModel>,
    pub timer: Option<u64>,
    pub notice: Notice,
}

impl DeepView for Outcome {
    type V = OutcomeModel;

    open spec fn deep_view(&self) -> OutcomeModel {
        OutcomeModel {
            proceed: self.proceed,
            send: self.send.deep_view(),
            publish: self.publish.deep_view(),
            timer: self.timer,
            notice: self.notice,
        }
    }
}

impl OutcomeModel {
    /// Go on, and do nothing else.
    pub open spec fn idle() -> OutcomeModel {
        OutcomeModel {
            proceed: true,
            send: None,
            publish: None,
            timer: None,
            notice: Notice::Quiet,
        }
    }

    /// Stop, and do nothing else.
    pub open spec fn stop() -> OutcomeModel {
        OutcomeModel { proceed: false, ..Self::idle() }
    }
}

/// The text that `String::from_utf8_lossy` makes of a string of bytes.
pub uninterp spec fn lossy(bytes: Seq<u8>) -> Seq<char>;

/// Calls `String::from_utf8_lossy`.
///
/// Claims that the text is a function of the bytes.
#[verifier::external_body]
fn text_of_bytes(bytes: &Vec<u8>) -> (r: String)
    ensures
        r@ == lossy(bytes@),
{
    String::from_utf8_lossy(bytes).into_owned()
}

/// One session on the gateway.
#[derive(Debug, Clone, PartialEq)]
pub struct DiscordBot {
    pub token: String,
    /// The address of the gateway.
    pub web_socket: String,
    /// The bitmask of the kinds of event that the session asks for.
    pub intents: u64,
    /// Milliseconds between two heartbeats.
    pub duration: u64,
    /// The last sequence number that the gateway sent.
    pub sequence_number: Option<usize>,
    /// How many heartbeats the gateway has acknowledged.
    pub acknowledged: usize,
    pub state: SocketState,
}

/// The mathematical value of a [`DiscordBot`].
pub struct DiscordBotModel {
    pub token: Seq<char>,
    pub web_socket: Seq<char>,
    pub intents: u64,
    pub duration: u64,
    pub sequence_number: Option<usize>,
    pub acknowledged: usize,
    pub state: SocketState,
}

impl DeepView for DiscordBot {
    type V = DiscordBotModel;

    open spec fn deep_view(&self) -> DiscordBotModel {
        DiscordBotModel {
            token: self.token@,
            web_socket: self.web_socket@,
            intents: self.intents,
            duration: self.duration,
            sequence_number: self.sequence_number,
            acknowledged: self.acknowledged,
            state: self.state,
        }
    }
}

/// Whether one sequence number is at most another, where none is below
/// every number.
pub open spec fn at_most(a: Option<usize>, b: Option<usize>) -> bool {
    match (a, b) {
        (None, _) => true,
        (Some(_), None) => false,
        (Some(x), Some(y)) => x <= y,
    }
}

impl DiscordBotModel {
    /// The sequence number after a message with the sequence number `seen`
    /// came in: the larger of the two, so that it never goes down.
    pub open spec fn advanced(self, seen: Option<usize>) -> Option<usize> {
        if at_most(self.sequence_number, seen) {
            seen
        } else {
            self.sequence_number
        }
    }

    /// The session after the gateway acknowledged one more heartbeat. The
    /// count stops at the largest number it can hold.
    pub open spec fn acked(self) -> DiscordBotModel {
        DiscordBotModel {
            acknowledged: if self.acknowledged < usize::MAX {
                (self.acknowledged + 1) as usize
            } else {
                self.acknowledged
            },
            ..self
        }
    }

    /// The session as it gives up its socket.
    pub open spec fn failed(self) -> DiscordBotModel {
        DiscordBotModel { state: SocketState::Closing, ..self }
    }

    /// The message by which the session identifies itself.
    pub open spec fn identify(self) -> GatewayMessageModel {
        GatewayMessageModel {
            t: None,
            s: None,
            op: IDENTIFY,
            d: (GatewayIdentifyModel {
                token: self.token,
                intents: self.intents,
                properties: client_properties(),
                v: PROTOCOL_VERSION,
            }).encoded(),
        }
    }

    /// The heartbeat that the session sends when its timer fires: it carries
    /// the last sequence number, or `null` where none has come yet. Before
    /// the handshake and after the end there is none.
    pub open spec fn heartbeat(self) -> Option<GatewayMessageModel> {
        if self.state.is_beating() {
            Some(
                GatewayMessageModel {
                    t: None,
                    s: None,
                    op: HEARTBEAT,
                    d: match self.sequence_number {
                        Some(n) => JsonModel::Number(NumberModel::Int(n as int)),
                        None => JsonModel::Null,
                    },
                },
            )
        } else {
            None
        }
    }

    /// The session after the sequence number `seen` came in.
    pub open spec fn saw(self, seen: Option<usize>) -> DiscordBotModel {
        DiscordBotModel { sequence_number: self.advanced(seen), ..self }
    }

    /// The session after a dispatch with the given name and payload, and
    /// what it does about it.
    ///
    /// The dispatch is turned into its event, which is handed on. `READY`
    /// ends the handshake, and is told; a name that stands for no event is
    /// told too. A payload that does not have the shape that goes with the
    /// name is a protocol error and ends the session.
    pub open spec fn dispatched(self, name: Seq<char>, payload: JsonModel) -> (
        DiscordBotModel,
        Result<ReactionModel, ActorDiscordError>,
    ) {
        match classified(name, payload) {
            None => (self.failed(), Err(ActorDiscordError::ProtocolError)),
            Some(event) => (
                if name == "READY"@ && self.state is Identifying {
                    DiscordBotModel { state: SocketState::Connected, ..self }
                } else {
                    self
                },
                Ok(
                    ReactionModel {
                        publish: event,
                        ..ReactionModel::note(
                            if name == "READY"@ {
                                Notice::Ready
                            } else if event is None {
                                Notice::UnknownEvent
                            } else {
                                Notice::Quiet
                            },
                        )
                    },
                ),
            ),
        }
    }

    /// The session after a hello with the given payload, and what it does
    /// about it.
    ///
    /// The payload sets the time between heartbeats, with which the timer
    /// starts again, and is answered by the identification. A session that
    /// waited for the hello is from then on identifying itself. A payload
    /// that cannot be read is a protocol error and ends the session.
    pub open spec fn greeted(self, payload: JsonModel) -> (
        DiscordBotModel,
        Result<ReactionModel, ActorDiscordError>,
    ) {
        match GatewayHello::decoded(payload) {
            None => (self.failed(), Err(ActorDiscordError::ProtocolError)),
            Some(hello) => (
                DiscordBotModel {
                    duration: hello.heartbeat_interval,
                    state: if self.state is AwaitingHello {
                        SocketState::Identifying
                    } else {
                        self.state
                    },
                    ..self
                },
                Ok(
                    ReactionModel {
                        send: Some(self.identify()),
                        timer: Some(hello.heartbeat_interval),
                        ..ReactionModel::idle()
                    },
                ),
            ),
        }
    }

    /// The session after a gateway message, and what it does about it.
    ///
    /// Without an open socket the session stops and nothing changes. Before
    /// the hello every other message is passed over. Else the sequence
    /// number moves up to that of the message; a hello is handled as
    /// [`Self::greeted`] says and a dispatch with a name as
    /// [`Self::dispatched`] says. An acknowledgement is counted. Every
    /// other message is passed over, and what it was is told.
    pub open spec fn handled(self, message: GatewayMessageModel) -> (
        DiscordBotModel,
        Result<ReactionModel, ActorDiscordError>,
    ) {
        if !self.state.is_open() {
            (self, Ok(ReactionModel::stop()))
        } else if self.state is AwaitingHello && message.op != HELLO {
            (self, Ok(ReactionModel::note(Notice::Early)))
        } else if message.op == GATEWAY {
            match message.t {
                Some(name) => self.saw(message.s).dispatched(name, message.d),
                None => (self.saw(message.s), Ok(ReactionModel::note(Notice::Unnamed))),
            }
        } else if message.op == HELLO {
            self.saw(message.s).greeted(message.d)
        } else if message.op == ACK {
            (self.saw(message.s).acked(), Ok(ReactionModel::note(Notice::Acknowledged)))
        } else {
            (
                self.saw(message.s),
                Ok(
                    ReactionModel::note(
                        if message.op == INVALID_SESSION {
                            Notice::InvalidSession
                        } else if message.op == RECONNECT {
                            Notice::Reconnect
                        } else {
                            Notice::UnknownOpCode
                        },
                    ),
                ),
            )
        }
    }

    /// The session after a series of gateway messages, whatever came of each.
    pub open spec fn fed(self, messages: Seq<GatewayMessageModel>) -> DiscordBotModel
        decreases messages.len(),
    {
        if messages.len() == 0 {
            self
        } else {
            self.fed(messages.drop_last()).handled(messages.last()).0
        }
    }
}

/// Whether `r` is the reaction, or the error, that was expected.
pub open spec fn reaction_is(
    r: Result<Reaction, ActorDiscordError>,
    expected: Result<ReactionModel, ActorDiscordError>,
) -> bool {
    match r {
        Ok(reaction) => expected == Ok::<ReactionModel, ActorDiscordError>(reaction.deep_view()),
        Err(e) => expected == Err::<ReactionModel, ActorDiscordError>(e),
    }
}

/// The frame that carries a gateway message out: its text.
pub open spec fn framed(message: GatewayMessageModel) -> MessageModel {
    MessageModel::Text(text_of(message.encoded()))
}

/// The outcome that carries a reaction out: the same, with the answer as
/// the text of a frame.
pub open spec fn carried(reaction: ReactionModel) -> OutcomeModel {
    OutcomeModel {
        proceed: reaction.proceed,
        send: match reaction.send {
            Some(message) => Some(framed(message)),
            None => None,
        },
        publish: reaction.publish,
        timer: reaction.timer,
        notice: reaction.notice,
    }
}

/// Whether the answer of a reaction, if there is one, has a payload that is
/// sound within two, as that of the identification is.
pub open spec fn answer_fits(r: Result<Reaction, ActorDiscordError>) -> bool {
    match r {
        Ok(reaction) => match reaction.send {
            Some(message) => sound(message.d, 2),
            None => true,
        },
        Err(_) => true,
    }
}

/// Whether `r` is the outcome that was expected.
pub open spec fn gives(r: Result<Outcome, ActorDiscordError>, expected: OutcomeModel) -> bool {
    match r {
        Ok(outcome) => outcome.deep_view() == expected,
        Err(_) => false,
    }
}

/// Whether `r` is the error that was expected.
pub open spec fn fails(r: Result<Outcome, ActorDiscordError>, expected: ActorDiscordError) -> bool {
    match r {
        Ok(_) => false,
        Err(e) => e == expected,
    }
}

/// Whether a session that was `before` may stand at `after` and answer `r`
/// to a text frame that holds `bytes`.
///
/// The text is read as a gateway message. Text that is none is a protocol
/// error and ends the session. Else the session does what
/// [`DiscordBotModel::handled`] says, and its answer goes out as text.
pub open spec fn text_handled(
    before: DiscordBotModel,
    bytes: Seq<u8>,
    after: DiscordBotModel,
    r: Result<Outcome, ActorDiscordError>,
) -> bool {
    if !before.state.is_open() {
        after == before && gives(r, OutcomeModel::stop())
    } else {
        match GatewayMessageModel::decoded_text(lossy(bytes)) {
            None => after == before.failed() && fails(r, ActorDiscordError::ProtocolError),
            Some(message) => {
                let (next, reaction) = before.handled(message);
                match reaction {
                    Err(error) => after == next && fails(r, error),
                    Ok(reaction) => after == next && gives(r, carried(reaction)),
                }
            },
        }
    }
}

/// Whether a session that was `before` may stand at `after` and answer `r`
/// to `frame`.
///
/// Without an open socket the session stops and nothing changes. A text
/// frame is handled as [`text_handled`] says. A ping is answered by a pong
/// with the same payload, and nothing changes. A close frame ends the
/// session. Every other frame is passed over.
pub open spec fn frame_handled(
    before: DiscordBotModel,
    frame: Frame,
    after: DiscordBotModel,
    r: Result<Outcome, ActorDiscordError>,
) -> bool {
    match frame {
        Frame::Text(bytes) => text_handled(before, bytes@, after, r),
        _ => if !before.state.is_open() {
            after == before && gives(r, OutcomeModel::stop())
        } else {
            match frame {
                Frame::Ping(payload) => after == before && gives(
                    r,
                    OutcomeModel { send: Some(MessageModel::Pong(payload@)), ..OutcomeModel::idle() },
                ),
                Frame::Close(_) => after == before.failed() && gives(r, OutcomeModel::stop()),
                _ => after == before && gives(r, OutcomeModel::idle()),
            }
        },
    }
}

/// The query of the gateway is short enough to be added to an address.
proof fn lemma_query_fits()
    ensures
        GATEWAY_QUERY@.len() <= MAX_ADDRESS,
{
    reveal_strlit("v=9&encoding=json&compress=false");
}

impl Reaction {
    fn note(notice: Notice) -> (r: Reaction)
        ensures
            r.deep_view() == ReactionModel::note(notice),
    {
        Reaction { proceed: true, send: None, publish: None, timer: None, notice }
    }

    fn stop() -> (r: Reaction)
        ensures
            r.deep_view() == ReactionModel::stop(),
    {
        Reaction { proceed: false, send: None, publish: None, timer: None, notice: Notice::Quiet }
    }
}

impl Outcome {
    fn idle() -> (r: Outcome)
        ensures
            r.deep_view() == OutcomeModel::idle(),
    {
        Outcome { proceed: true, send: None, publish: None, timer: None, notice: Notice::Quiet }
    }

    fn stop() -> (r: Outcome)
        ensures
            r.deep_view() == OutcomeModel::stop(),
    {
        Outcome { proceed: false, send: None, publish: None, timer: None, notice: Notice::Quiet }
    }
}

impl DiscordBot {
    /// The request that asks the REST interface where the gateway is.
    pub fn gateway_request(api: &DiscordAPI) -> (r: Result<RetryableRequest, ActorDiscordError>)
        ensures
            outcome(r, api.requested(Method::Get, GATEWAY_PATH@, None)),
            carries(r, None),
    {
        api.get(GATEWAY_PATH)
    }

    /// A session for the gateway that `reply` names, with the token of
    /// `api`. It has no socket yet and has seen no sequence number.
    ///
    /// Fails with `UrlError` exactly where the reply holds no absolute
    /// address.
    pub fn create(api: &DiscordAPI, reply: &GatewayReply, intents: GatewayIntents) -> (r: Result<
        DiscordBot,
        ActorDiscordError,
    >)
        ensures
            match r {
                Ok(bot) => normalized(reply.url@) == Some(bot.web_socket@) && bot.deep_view() == (
                DiscordBotModel {
                    token: api.token@,
                    web_socket: bot.web_socket@,
                    intents: intents.bits,
                    duration: INITIAL_INTERVAL,
                    sequence_number: None,
                    acknowledged: 0,
                    state: SocketState::Disconnected,
                }),
                Err(e) => e == ActorDiscordError::UrlError && normalized(reply.url@) is None,
            },
    {
        match normalize(reply.url.as_str()) {
            Some(web_socket) => Ok(
                DiscordBot {
                    token: api.token.clone(),
                    web_socket,
                    intents: intents.bits,
                    duration: INITIAL_INTERVAL,
                    sequence_number: None,
                    acknowledged: 0,
                    state: SocketState::Disconnected,
                },
            ),
            None => Err(ActorDiscordError::UrlError),
        }
    }

    /// Begins to connect: gives the address at which the socket is to be
    /// opened, which is that of the gateway with the query that selects the
    /// protocol.
    ///
    /// Only a session without a socket can begin: any other fails with
    /// `ProtocolError`. Where the address is longer than `MAX_ADDRESS` characters
    /// or cannot take the query, the session fails with `UrlError`. A
    /// session that fails stays as it was.
    pub fn start_websocket(&mut self) -> (r: Result<String, ActorDiscordError>)
        ensures
            match r {
                Ok(address) => {
                    &&& old(self).state is Disconnected
                    &&& old(self).web_socket@.len() <= MAX_ADDRESS
                    &&& with_query(old(self).web_socket@, GATEWAY_QUERY@) == Some(address@)
                    &&& final(self).deep_view() == (DiscordBotModel {
                        state: SocketState::Connecting,
                        ..old(self).deep_view()
                    })
                },
                Err(e) => {
                    &&& final(self).deep_view() == old(self).deep_view()
                    &&& if old(self).state is Disconnected {
                        e == ActorDiscordError::UrlError && (old(self).web_socket@.len()
                            > MAX_ADDRESS || with_query(old(self).web_socket@, GATEWAY_QUERY@)
                            is None)
                    } else {
                        e == ActorDiscordError::ProtocolError
                    }
                },
            },
    {
        match self.state {
            SocketState::Disconnected => {},
            _ => {
                return Err(ActorDiscordError::ProtocolError);
            },
        }
        proof {
            lemma_query_fits();
        }
        match set_query(self.web_socket.as_str(), GATEWAY_QUERY) {
            Some(address) => {
                self.state = SocketState::Connecting;
                Ok(address)
            },
            None => Err(ActorDiscordError::UrlError),
        }
    }

    /// Takes note that the socket is open: the session now waits for the
    /// hello, and the event that tells so is returned for the subscribers.
    ///
    /// A session that was not connecting stays as it was and returns `None`.
    pub fn opened(&mut self) -> (r: Option<Event>)
        ensures
            if old(self).state is Connecting {
                r == Some(Event::INIT) && final(self).deep_view() == (DiscordBotModel {
                    state: SocketState::AwaitingHello,
                    ..old(self).deep_view()
                })
            } else {
                r is None && final(self).deep_view() == old(self).deep_view()
            },
    {
        match self.state {
            SocketState::Connecting => {
                self.state = SocketState::AwaitingHello;
                Some(Event::INIT)
            },
            _ => None,
        }
    }

    /// Takes note that the socket failed, or could not be opened: a session
    /// that is connecting or has an open socket gives it up. Any other
    /// session stays as it was.
    pub fn fail(&mut self)
        ensures
            final(self).deep_view() == if old(self).state is Connecting || old(
                self,
            ).state.is_open() {
                old(self).deep_view().failed()
            } else {
                old(self).deep_view()
            },
    {
        let connecting = match self.state {
            SocketState::Connecting => true,
            _ => false,
        };
        if connecting || self.state.open() {
            self.state = SocketState::Closing;
        }
    }

    /// Takes note that the socket is gone: a session that was giving it up
    /// is closed. Any other session stays as it was.
    pub fn closed(&mut self)
        ensures
            final(self).deep_view() == if old(self).state is Closing {
                DiscordBotModel { state: SocketState::Closed, ..old(self).deep_view() }
            } else {
                old(self).deep_view()
            },
    {
        match self.state {
            SocketState::Closing => {
                self.state = SocketState::Closed;
            },
            _ => {},
        }
    }

    /// Moves the sequence number up to `seen`, unless it is already above.
    fn see(&mut self, seen: Option<usize>)
        ensures
            final(self).deep_view() == old(self).deep_view().saw(seen),
    {
        match seen {
            Some(n) => {
                let newer = match self.sequence_number {
                    Some(m) => m <= n,
                    None => true,
                };
                if newer {
                    self.sequence_number = Some(n);
                }
            },
            None => {},
        }
    }

    /// The identification of this session as a gateway message.
    fn identify(&self) -> (r: GatewayMessage)
        ensures
            r@ == self.deep_view().identify(),
            sound(r.d, 2),
    {
        let identify = GatewayIdentify::create(self.token.as_str(), self.intents);
        GatewayMessage { t: None, s: None, op: IDENTIFY, d: identify.to_json() }
    }

    /// Handles a dispatch with the given name and payload, as
    /// [`DiscordBotModel::dispatched`] says.
    pub fn handle_ws_gateway_event(&mut self, event_name: &str, gateway_message: &Json) -> (r:
        Result<Reaction, ActorDiscordError>)
        ensures
            final(self).deep_view() == old(self).deep_view().dispatched(
                event_name@,
                gateway_message@,
            ).0,
            reaction_is(r, old(self).deep_view().dispatched(event_name@, gateway_message@).1),
            answer_fits(r),
    {
        match classify(event_name, gateway_message) {
            None => {
                self.state = SocketState::Closing;
                Err(ActorDiscordError::ProtocolError)
            },
            Some(event) => {
                let notice = if same_text(event_name, "READY") {
                    match self.state {
                        SocketState::Identifying => {
                            self.state = SocketState::Connected;
                        },
                        _ => {},
                    }
                    Notice::Ready
                } else if event.is_none() {
                    Notice::UnknownEvent
                } else {
                    Notice::Quiet
                };
                Ok(Reaction { proceed: true, send: None, publish: event, timer: None, notice })
            },
        }
    }

    /// Handles a hello with the given payload, as
    /// [`DiscordBotModel::greeted`] says.
    pub fn handle_hello(&mut self, payload: &Json) -> (r: Result<Reaction, ActorDiscordError>)
        ensures
            final(self).deep_view() == old(self).deep_view().greeted(payload@).0,
            reaction_is(r, old(self).deep_view().greeted(payload@).1),
            answer_fits(r),
    {
        match GatewayHello::from_json(payload) {
            None => {
                self.state = SocketState::Closing;
                Err(ActorDiscordError::ProtocolError)
            },
            Some(hello) => {
                let identify = self.identify();
                self.duration = hello.heartbeat_interval;
                match self.state {
                    SocketState::AwaitingHello => {
                        self.state = SocketState::Identifying;
                    },
                    _ => {},
                }
                Ok(
                    Reaction {
                        proceed: true,
                        send: Some(identify),
                        publish: None,
                        timer: Some(hello.heartbeat_interval),
                        notice: Notice::Quiet,
                    },
                )
            },
        }
    }

    /// Handles one gateway message, as [`DiscordBotModel::handled`] says.
    pub fn handle_envelope(&mut self, message: GatewayMessage) -> (r: Result<
        Reaction,
        ActorDiscordError,
    >)
        ensures
            final(self).deep_view() == old(self).deep_view().handled(message@).0,
            reaction_is(r, old(self).deep_view().handled(message@).1),
            answer_fits(r),
    {
        if !self.state.open() {
            return Ok(Reaction::stop());
        }
        let waiting = match self.state {
            SocketState::AwaitingHello => true,
            _ => false,
        };
        if waiting && message.op != HELLO {
            return Ok(Reaction::note(Notice::Early));
        }
        self.see(message.s);
        if message.op == GATEWAY {
            match &message.t {
                Some(name) => self.handle_ws_gateway_event(name.as_str(), &message.d),
                None => Ok(Reaction::note(Notice::Unnamed)),
            }
        } else if message.op == HELLO {
            self.handle_hello(&message.d)
        } else if message.op == ACK {
            if self.acknowledged < usize::MAX {
                self.acknowledged = self.acknowledged + 1;
            }
            Ok(Reaction::note(Notice::Acknowledged))
        } else if message.op == INVALID_SESSION {
            Ok(Reaction::note(Notice::InvalidSession))
        } else if message.op == RECONNECT {
            Ok(Reaction::note(Notice::Reconnect))
        } else {
            Ok(Reaction::note(Notice::UnknownOpCode))
        }
    }

    /// Handles one frame from the socket, as [`frame_handled`] says.
    pub fn handle_ws(&mut self, response: Frame) -> (r: Result<Outcome, ActorDiscordError>)
        ensures
            frame_handled(old(self).deep_view(), response, final(self).deep_view(), r),
    {
        if !self.state.open() {
            return Ok(Outcome::stop());
        }
        match response {
            Frame::Text(bytes) => {
                let text = text_of_bytes(&bytes);
                let message = match GatewayMessage::decode(text.as_str()) {
                    Ok(message) => message,
                    Err(_) => {
                        self.state = SocketState::Closing;
                        return Err(ActorDiscordError::ProtocolError);
                    },
                };
                let reaction = match self.handle_envelope(message) {
                    Ok(reaction) => reaction,
                    Err(e) => {
                        return Err(e);
                    },
                };
                let send = match &reaction.send {
                    Some(answer) => {
                        proof {
                            lemma_sound_grows(answer.d, 2, (MAX_DEPTH - 1) as nat);
                        }
                        Some(Message::Text(answer.encode().unwrap()))
                    },
                    None => None,
                };
                Ok(
                    Outcome {
                        proceed: reaction.proceed,
                        send,
                        publish: reaction.publish,
                        timer: reaction.timer,
                        notice: reaction.notice,
                    },
                )
            },
            Frame::Ping(payload) => Ok(
                Outcome {
                    proceed: true,
                    send: Some(Message::Pong(payload)),
                    publish: None,
                    timer: None,
                    notice: Notice::Quiet,
                },
            ),
            Frame::Close(_) => {
                self.state = SocketState::Closing;
                Ok(Outcome::stop())
            },
            _ => Ok(Outcome::idle()),
        }
    }

    /// The heartbeat that the session sends when its timer fires, as
    /// [`DiscordBotModel::heartbeat`] says.
    ///
    /// Its payload is an integer or `null`.
    pub fn heartbeat_message(&self) -> (r: Option<GatewayMessage>)
        ensures
            r.deep_view() == self.deep_view().heartbeat(),
            match r {
                Some(message) => sound(message.d, 0),
                None => true,
            },
    {
        if self.state.beating() {
            let d = match self.sequence_number {
                Some(n) => Json::unsigned(n as u64),
                None => Json::Null,
            };
            Some(GatewayMessage { t: None, s: None, op: HEARTBEAT, d })
        } else {
            None
        }
    }

    /// The frame that the session sends when its timer fires: the heartbeat
    /// that [`DiscordBotModel::heartbeat`] describes, as text.
    ///
    /// Returns `None` exactly where the session sends no heartbeat: before
    /// the hello and after the end.
    pub fn heartbeat(&self) -> (r: Option<Message>)
        ensures
            r.deep_view() == match self.deep_view().heartbeat() {
                Some(message) => Some(framed(message)),
                None => None,
            },
    {
        match self.heartbeat_message() {
            Some(message) => {
                proof {
                    lemma_sound_grows(message.d, 0, (MAX_DEPTH - 1) as nat);
                }
                Some(Message::Text(message.encode().unwrap()))
            },
            None => None,
        }
    }
}

/// The frame of a heartbeat holds what the serializer writes for the
/// document of the heartbeat as it stands: no number in it is real. The
/// heartbeat carries the sequence number of the session, or `null` where it
/// has none.
pub proof fn lemma_heartbeat_frame(bot: DiscordBotModel)
    requires
        bot.heartbeat() is Some,
    ensures
        framed(bot.heartbeat().unwrap()) == MessageModel::Text(
            written(bot.heartbeat().unwrap().encoded()),
        ),
        bot.heartbeat().unwrap() == (GatewayMessageModel {
            t: None,
            s: None,
            op: HEARTBEAT,
            d: match bot.sequence_number {
                Some(n) => JsonModel::Number(NumberModel::Int(n as int)),
                None => JsonModel::Null,
            },
        }),
{
    lemma_message_real_free(bot.heartbeat().unwrap());
}

/// The frame of the identification holds what the serializer writes for its
/// document as it stands: no number in it is real.
pub proof fn lemma_identify_frame(bot: DiscordBotModel)
    ensures
        framed(bot.identify()) == MessageModel::Text(written(bot.identify().encoded())),
{
    lemma_identify_real_free(
        GatewayIdentifyModel {
            token: bot.token,
            intents: bot.intents,
            properties: client_properties(),
            v: PROTOCOL_VERSION,
        },
    );
    lemma_message_real_free(bot.identify());
}

/// Every step of the state machine leads further along the life of the
/// socket: no state comes again once it is left, and nothing follows the
/// closed state. The handshake has one way only: a session that is connected
/// has been through every state before it.
pub proof fn lemma_steps_lead_on(from: SocketState, to: SocketState)
    requires
        from.follows(to),
    ensures
        from.rank() < to.rank(),
        !(from is Closed),
        to.rank() <= 4 ==> to.rank() == from.rank() + 1,
{
}

/// No gateway message makes the sequence number of a session go down.
pub proof fn lemma_sequence_never_falls(bot: DiscordBotModel, message: GatewayMessageModel)
    ensures
        at_most(bot.sequence_number, bot.handled(message).0.sequence_number),
{
}

/// A gateway message leaves the state of a session as it is, or moves it
/// one step along the state machine.
pub proof fn lemma_message_steps(bot: DiscordBotModel, message: GatewayMessageModel)
    ensures
        bot.handled(message).0.state == bot.state || bot.state.follows(
            bot.handled(message).0.state,
        ),
{
}

/// A frame leaves the state of a session as it is, or moves it one step
/// along the state machine, and does not make its sequence number go down.
pub proof fn lemma_frame_steps(
    before: DiscordBotModel,
    frame: Frame,
    after: DiscordBotModel,
    r: Result<Outcome, ActorDiscordError>,
)
    requires
        frame_handled(before, frame, after, r),
    ensures
        after.state == before.state || before.state.follows(after.state),
        at_most(before.sequence_number, after.sequence_number),
{
}

/// A session that waits for the hello answers a frame that holds one with
/// one frame, its identification, and with nothing else. The timer starts
/// again at the interval that the hello names; from then on the session is
/// identifying itself and sends heartbeats.
pub proof fn lemma_hello_answered(
    before: DiscordBotModel,
    bytes: Seq<u8>,
    message: GatewayMessageModel,
    hello: GatewayHello,
    after: DiscordBotModel,
    r: Result<Outcome, ActorDiscordError>,
)
    requires
        before.state is AwaitingHello,
        text_handled(before, bytes, after, r),
        GatewayMessageModel::decoded_text(lossy(bytes)) == Some(message),
        message.op == HELLO,
        GatewayHello::decoded(message.d) == Some(hello),
    ensures
        gives(
            r,
            OutcomeModel {
                proceed: true,
                send: Some(MessageModel::Text(written(before.identify().encoded()))),
                publish: None,
                timer: Some(hello.heartbeat_interval),
                notice: Notice::Quiet,
            },
        ),
        before.identify().op == IDENTIFY && before.identify().s is None && before.identify().t
            is None,
        after.state is Identifying,
        after.duration == hello.heartbeat_interval,
        after.heartbeat() is Some,
{
    lemma_identify_frame(before.saw(message.s));
}

/// A frame that holds a dispatch moves the sequence number of a session
/// that has had its hello to that of the dispatch, unless the session holds
/// a higher one already; where the frame is handled without error, the next
/// heartbeat carries that number.
pub proof fn lemma_dispatch_tracked(
    before: DiscordBotModel,
    bytes: Seq<u8>,
    message: GatewayMessageModel,
    n: usize,
    after: DiscordBotModel,
    r: Result<Outcome, ActorDiscordError>,
)
    requires
        before.state.is_beating(),
        text_handled(before, bytes, after, r),
        GatewayMessageModel::decoded_text(lossy(bytes)) == Some(message),
        message.op == GATEWAY,
        message.s == Some(n),
        at_most(before.sequence_number, Some(n)),
    ensures
        after.sequence_number == Some(n),
        r is Ok ==> after.heartbeat() == Some(
            GatewayMessageModel {
                t: None,
                s: None,
                op: HEARTBEAT,
                d: JsonModel::Number(NumberModel::Int(n as int)),
            },
        ),
{
}

/// A close frame ends a session with an open socket: the session stops,
/// sends nothing, and gives up its socket. It sends no heartbeat after that.
pub proof fn lemma_close_ends(
    before: DiscordBotModel,
    frame: Frame,
    after: DiscordBotModel,
    r: Result<Outcome, ActorDiscordError>,
)
    requires
        before.state.is_open(),
        frame is Close,
        frame_handled(before, frame, after, r),
    ensures
        gives(r, OutcomeModel::stop()),
        after.state is Closing,
        after.heartbeat() is None,
{
}

/// A session without an open socket is silent: it sends no heartbeat, and
/// whatever frame it is given, it stops, sends nothing and stays as it is.
pub proof fn lemma_silent_without_socket(
    before: DiscordBotModel,
    frame: Frame,
    after: DiscordBotModel,
    r: Result<Outcome, ActorDiscordError>,
)
    requires
        !before.state.is_open(),
        frame_handled(before, frame, after, r),
    ensures
        gives(r, OutcomeModel::stop()),
        after == before,
        before.heartbeat() is None,
{
}

/// Whether a message is a dispatch that carries the sequence number `n` and
/// can be handled: it has no name, or a payload that goes with its name.
pub open spec fn sound_dispatch(message: GatewayMessageModel, n: usize) -> bool {
    &&& message.op == GATEWAY
    &&& message.s == Some(n)
    &&& message.t matches Some(name) ==> classified(name, message.d) is Some
}

/// After a series of dispatches whose sequence numbers do not go down, the
/// session holds the last of them, and its next heartbeat carries it.
///
/// The session has had its hello, and its own sequence number, if it has
/// one, is not above the first of the series.
pub proof fn lemma_sequence_tracking(
    bot: DiscordBotModel,
    messages: Seq<GatewayMessageModel>,
    numbers: Seq<usize>,
)
    requires
        bot.state.is_beating(),
        messages.len() > 0,
        numbers.len() == messages.len(),
        forall|i: int| 0 <= i < messages.len() ==> sound_dispatch(#[trigger] messages[i], numbers[i]),
        forall|i: int, j: int| 0 <= i <= j < numbers.len() ==> numbers[i] <= numbers[j],
        at_most(bot.sequence_number, Some(numbers[0])),
    ensures
        bot.fed(messages).state.is_beating(),
        bot.fed(messages).sequence_number == Some(numbers.last()),
        bot.fed(messages).heartbeat() == Some(
            GatewayMessageModel {
                t: None,
                s: None,
                op: HEARTBEAT,
                d: JsonModel::Number(NumberModel::Int(numbers.last() as int)),
            },
        ),
    decreases messages.len(),
{
    let front = messages.drop_last();
    let last = messages.last();
    assert(sound_dispatch(last, numbers.last()));
    if front.len() == 0 {
        assert(bot.fed(front) == bot);
    } else {
        let earlier = numbers.drop_last();
        assert forall|i: int| 0 <= i < front.len() implies sound_dispatch(
            #[trigger] front[i],
            earlier[i],
        ) by {
            assert(front[i] == messages[i]);
        }
        lemma_sequence_tracking(bot, front, earlier);
        assert(earlier.last() == numbers[numbers.len() - 2]);
    }
}

} // verus!
