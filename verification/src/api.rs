use crate::address::{join, joined};
use crate::decimal::decimal;
use crate::decode::{read, required, Decode};
use crate::errors::ActorDiscordError;
use crate::json::{parsed, sound, text_of, Json, JsonModel, Number, NumberModel, MAX_DEPTH};
use crate::pattern::{lowercase, lowered, replace_all, replaced};
use crate::types::events::{GuildChannelCreate, SnowflakeID};
use vstd::prelude::*;

verus! {

/// The path under which the REST interface lives.
pub const API_PREFIX: &'static str = "/api/v9/";

/// The path under which guilds live.
pub const GUILD_ID: &'static str = "guilds/";

/// The status of a response that carries what was asked for.
pub const OK: u16 = 200;

/// The status of a response that carries what was created.
pub const CREATED: u16 = 201;

/// The status by which the server throttles a client.
pub const TOO_MANY_REQUESTS: u16 = 429;

/// Matches every character that may not stand in a name: one that is no
/// number, no emoji, no Latin letter and no hyphen.
pub const FORBIDDEN: &'static str = "[^\\pN\\p{Emoji}A-Za-z0-9\\-]";

/// Matches a number sign.
pub const HASH: &'static str = "#";

/// Matches a run of hyphens.
pub const HYPHENS: &'static str = "-+";

/// Matches a hyphen at the start.
pub const LEADING_HYPHEN: &'static str = "^-";

/// Matches a hyphen at the end.
pub const TRAILING_HYPHEN: &'static str = "-$";

/// The text in which every match of `pattern` in the text so far, if there
/// is one, is replaced by `replacement`.
pub open spec fn then_replaced(
    text: Option<Seq<char>>,
    pattern: Seq<char>,
    replacement: Seq<char>,
) -> Option<Seq<char>> {
    match text {
        Some(text) => replaced(pattern, text, replacement),
        None => None,
    }
}

/// The name that a text is turned into: every forbidden character and
/// every number sign becomes a hyphen, a run of hyphens becomes one, a
/// hyphen at the start or at the end goes, and the rest is put in lower
/// case.
pub open spec fn sanitized(source: Seq<char>) -> Option<Seq<char>> {
    let hyphenated = then_replaced(
        then_replaced(replaced(FORBIDDEN@, source, "-"@), HASH@, "-"@),
        HYPHENS@,
        "-"@,
    );
    match then_replaced(then_replaced(hyphenated, LEADING_HYPHEN@, ""@), TRAILING_HYPHEN@, ""@) {
        Some(trimmed) => Some(lowered(trimmed)),
        None => None,
    }
}

/// The verb of a request.
#[derive(Debug, Copy, Clone, PartialEq, Eq, Structural)]
pub enum Method {
    Get,
    Post,
    Patch,
    Delete,
}

impl Method {
    /// The verb in capital letters, as it goes on the wire.
    pub fn as_str(self) -> (r: &'static str)
        ensures
            r@ == match self {
                Method::Get => "GET"@,
                Method::Post => "POST"@,
                Method::Patch => "PATCH"@,
                Method::Delete => "DELETE"@,
            },
    {
        match self {
            Method::Get => "GET",
            Method::Post => "POST",
            Method::Patch => "PATCH",
            Method::Delete => "DELETE",
        }
    }
}

/// What the server sends with the status that throttles: how many seconds
/// to wait, and why.
#[derive(Debug, Clone, PartialEq)]
pub struct RetryMessage {
    pub retry_after: Number,
    pub message: String,
}

/// The mathematical value of a [`RetryMessage`].
pub struct RetryMessageModel {
    pub retry_after: NumberModel,
    pub message: Seq<char>,
}

impl DeepView for RetryMessage {
    type V = RetryMessageModel;

    open spec fn deep_view(&self) -> RetryMessageModel {
        RetryMessageModel { retry_after: self.retry_after@, message: self.message@ }
    }
}

impl Decode for RetryMessage {
    /// The signal that a document stands for: an object with a number under
    /// `retry_after` and a string under `message`.
    open spec fn decoded(doc: JsonModel) -> Option<RetryMessageModel> {
        let retry_after = required::<Number>(doc, "retry_after"@);
        let message = required::<String>(doc, "message"@);
        if doc is Object && retry_after is Some && message is Some {
            Some(RetryMessageModel { retry_after: retry_after.unwrap(), message: message.unwrap() })
        } else {
            None
        }
    }

    fn from_json(doc: &Json) -> (r: Option<RetryMessage>) {
        if !doc.is_object() {
            return None;
        }
        let retry_after = match read::<Number>(doc, "retry_after") {
            Some(retry_after) => retry_after,
            None => {
                return None;
            },
        };
        let message = match read::<String>(doc, "message") {
            Some(message) => message,
            None => {
                return None;
            },
        };
        Some(RetryMessage { retry_after, message })
    }
}

/// What one response means for the request it answers.
#[derive(Debug, Clone, PartialEq)]
pub enum Verdict<T> {
    /// The request succeeded, with this result.
    Done(T),
    /// The server throttled the request: wait as the signal says, then send
    /// the request again.
    Retry(RetryMessage),
    /// The request failed for good.
    Failed(ActorDiscordError),
}

/// The mathematical value of a [`Verdict`].
pub enum VerdictModel<V> {
    Done(V),
    Retry(RetryMessageModel),
    Failed(ActorDiscordError),
}

impl<T: DeepView> DeepView for Verdict<T> {
    type V = VerdictModel<T::V>;

    open spec fn deep_view(&self) -> VerdictModel<T::V> {
        match self {
            Verdict::Done(value) => VerdictModel::Done(value.deep_view()),
            Verdict::Retry(signal) => VerdictModel::Retry(signal.deep_view()),
            Verdict::Failed(error) => VerdictModel::Failed(*error),
        }
    }
}

/// What a status, and the document that was read from the body, mean.
///
/// With the status 200 or 201 the document has to stand for a value of the
/// expected type. With the status 429 it has to stand for a throttling
/// signal. A body that is no JSON, or has another shape, is a response
/// error, and so is every other status.
pub open spec fn judged<T: Decode>(status: u16, body: Option<JsonModel>) -> VerdictModel<T::V> {
    if status == OK || status == CREATED {
        match body {
            Some(doc) => match T::decoded(doc) {
                Some(value) => VerdictModel::Done(value),
                None => VerdictModel::Failed(ActorDiscordError::ResponseError),
            },
            None => VerdictModel::Failed(ActorDiscordError::ResponseError),
        }
    } else if status == TOO_MANY_REQUESTS {
        match body {
            Some(doc) => match RetryMessage::decoded(doc) {
                Some(signal) => VerdictModel::Retry(signal),
                None => VerdictModel::Failed(ActorDiscordError::ResponseError),
            },
            None => VerdictModel::Failed(ActorDiscordError::ResponseError),
        }
    } else {
        VerdictModel::Failed(ActorDiscordError::ResponseError)
    }
}

/// Decides what a status and the document read from the body mean.
pub fn judge<T: Decode>(status: u16, body: Option<Json>) -> (r: Verdict<T>)
    ensures
        r.deep_view() == judged::<T>(status, body.deep_view()),
{
    if status == OK || status == CREATED {
        match body {
            Some(doc) => match T::from_json(&doc) {
                Some(value) => Verdict::Done(value),
                None => Verdict::Failed(ActorDiscordError::ResponseError),
            },
            None => Verdict::Failed(ActorDiscordError::ResponseError),
        }
    } else if status == TOO_MANY_REQUESTS {
        match body {
            Some(doc) => match RetryMessage::from_json(&doc) {
                Some(signal) => Verdict::Retry(signal),
                None => Verdict::Failed(ActorDiscordError::ResponseError),
            },
            None => Verdict::Failed(ActorDiscordError::ResponseError),
        }
    } else {
        Verdict::Failed(ActorDiscordError::ResponseError)
    }
}

/// What came back for one attempt of a request.
#[derive(Debug, Clone, PartialEq)]
pub enum Reply {
    /// Nothing: the request could not be sent, or no response arrived.
    Unreachable,
    /// A response with a status and a body.
    Response { status: u16, body: String },
}

/// The mathematical value of a [`Reply`]: the body is the document that is
/// read from it, or `None` where it is no JSON.
pub enum ReplyModel {
    Unreachable,
    Response { status: u16, body: Option<JsonModel> },
}

impl DeepView for Reply {
    type V = ReplyModel;

    open spec fn deep_view(&self) -> ReplyModel {
        match self {
            Reply::Unreachable => ReplyModel::Unreachable,
            Reply::Response { status, body } => ReplyModel::Response {
                status: *status,
                body: parsed(body@),
            },
        }
    }
}

impl ReplyModel {
    /// What the reply means for the request: a transport error where nothing
    /// came back, and else what its status and body mean.
    pub open spec fn verdict<T: Decode>(self) -> VerdictModel<T::V> {
        match self {
            ReplyModel::Unreachable => VerdictModel::Failed(ActorDiscordError::TransportError),
            ReplyModel::Response { status, body } => judged::<T>(status, body),
        }
    }

    /// Whether the reply throttles the request with a signal that can be
    /// read.
    pub open spec fn throttles(self) -> bool {
        self.verdict::<Json>() is Retry
    }

    /// The signal of a reply that throttles.
    pub open spec fn signal(self) -> RetryMessageModel
        recommends
            self.throttles(),
    {
        self.verdict::<Json>()->Retry_0
    }
}

/// One call of the REST interface while it is under way.
#[derive(Debug, Clone, PartialEq)]
pub struct RetryableRequest {
    pub method: Method,
    pub url: String,
    pub body: Option<Json>,
    /// How many more times the request may be sent.
    pub attempts_remaining: usize,
}

/// The mathematical value of a [`RetryableRequest`].
pub struct RetryableRequestModel {
    pub method: Method,
    pub url: Seq<char>,
    pub body: Option<JsonModel>,
    pub attempts_remaining: usize,
}

impl DeepView for RetryableRequest {
    type V = RetryableRequestModel;

    open spec fn deep_view(&self) -> RetryableRequestModel {
        RetryableRequestModel {
            method: self.method,
            url: self.url@,
            body: self.body.deep_view(),
            attempts_remaining: self.attempts_remaining,
        }
    }
}

/// What goes on the wire for one attempt of a request.
#[derive(Debug, Clone, PartialEq)]
pub struct Attempt {
    pub method: Method,
    pub url: String,
    pub headers: Vec<(String, String)>,
    pub body: Option<String>,
}

/// The mathematical value of an [`Attempt`].
pub struct AttemptModel {
    pub method: Method,
    pub url: Seq<char>,
    pub headers: Seq<(Seq<char>, Seq<char>)>,
    pub body: Option<Seq<char>>,
}

impl DeepView for Attempt {
    type V = AttemptModel;

    open spec fn deep_view(&self) -> AttemptModel {
        AttemptModel {
            method: self.method,
            url: self.url@,
            headers: self.headers.deep_view(),
            body: self.body.deep_view(),
        }
    }
}

/// How a request ended when it was run against a list of replies.
#[derive(Debug, PartialEq)]
pub struct Exchange<T> {
    pub result: Result<T, ActorDiscordError>,
    /// The throttling signals that were obeyed, in the order they came.
    pub waits: Vec<RetryMessage>,
    /// What went on the wire, attempt by attempt.
    pub sent: Vec<Attempt>,
}

/// The mathematical value of an [`Exchange`].
pub struct ExchangeModel<V> {
    pub result: Result<V, ActorDiscordError>,
    pub waits: Seq<RetryMessageModel>,
    pub sent: Seq<AttemptModel>,
}

impl<T: DeepView> DeepView for Exchange<T> {
    type V = ExchangeModel<T::V>;

    open spec fn deep_view(&self) -> ExchangeModel<T::V> {
        ExchangeModel {
            result: match self.result {
                Ok(value) => Ok(value.deep_view()),
                Err(error) => Err(error),
            },
            waits: self.waits.deep_view(),
            sent: self.sent.deep_view(),
        }
    }
}

impl<V> ExchangeModel<V> {
    /// The exchange that ends at once and after one attempt.
    pub open spec fn once(
        result: Result<V, ActorDiscordError>,
        attempt: AttemptModel,
    ) -> ExchangeModel<V> {
        ExchangeModel { result, waits: Seq::empty(), sent: seq![attempt] }
    }

    /// The exchange that ends before anything is sent.
    pub open spec fn never(error: ActorDiscordError) -> ExchangeModel<V> {
        ExchangeModel { result: Err(error), waits: Seq::empty(), sent: Seq::empty() }
    }

    /// The exchange that begins with one more throttled attempt.
    pub open spec fn after(self, signal: RetryMessageModel, attempt: AttemptModel) -> ExchangeModel<
        V,
    > {
        ExchangeModel {
            result: self.result,
            waits: seq![signal] + self.waits,
            sent: seq![attempt] + self.sent,
        }
    }

    /// The exchange that comes after the throttled attempts `sent` with the
    /// signals `waits`.
    pub open spec fn after_all(
        self,
        waits: Seq<RetryMessageModel>,
        sent: Seq<AttemptModel>,
    ) -> ExchangeModel<V> {
        ExchangeModel { result: self.result, waits: waits + self.waits, sent: sent + self.sent }
    }
}

/// How a request ends that may be sent `attempts` times, puts `wire` on the
/// wire each time, and gets the given replies, one for each time it is sent.
///
/// With no attempt left the request fails with `RetryError`, and with a body
/// that cannot be written (`wire` is `None`) with `EncodeError`; nothing is
/// sent then. Else the request is sent. A reply that throttles is waited for
/// and uses up one attempt; any other reply ends the request, with its
/// result or with its error. Where the replies have run out, nothing comes
/// back for the attempt: a transport error.
pub open spec fn exchanged<T: Decode>(
    attempts: nat,
    wire: Option<AttemptModel>,
    replies: Seq<ReplyModel>,
) -> ExchangeModel<T::V>
    decreases replies.len(),
{
    if attempts == 0 {
        ExchangeModel::never(ActorDiscordError::RetryError)
    } else {
        match wire {
            None => ExchangeModel::never(ActorDiscordError::EncodeError),
            Some(attempt) => if replies.len() == 0 {
                ExchangeModel::once(Err(ActorDiscordError::TransportError), attempt)
            } else {
                match replies[0].verdict::<T>() {
                    VerdictModel::Done(value) => ExchangeModel::once(Ok(value), attempt),
                    VerdictModel::Failed(error) => ExchangeModel::once(Err(error), attempt),
                    VerdictModel::Retry(signal) => exchanged::<T>(
                        (attempts - 1) as nat,
                        wire,
                        replies.skip(1),
                    ).after(signal, attempt),
                }
            },
        }
    }
}

/// The request that a client with the given base address and number of
/// retries makes for `method` on the address that `suffix` names, or `None`
/// where the suffix cannot be joined to the base address.
pub open spec fn requested_under(
    base_url: Seq<char>,
    max_retries: usize,
    method: Method,
    suffix: Seq<char>,
    body: Option<JsonModel>,
) -> Option<RetryableRequestModel> {
    match joined(base_url, suffix) {
        Some(url) => Some(RetryableRequestModel { method, url, body, attempts_remaining: max_retries }),
        None => None,
    }
}

/// The request by which a client with the given base address and number of
/// retries reads a guild: for the address of the guild under the address of
/// all guilds, itself read against the base address.
pub open spec fn guild_request_under(base_url: Seq<char>, max_retries: usize, id: SnowflakeID) -> Option<
    RetryableRequestModel,
> {
    match joined(base_url, GUILD_ID@) {
        Some(guilds) => match joined(guilds, decimal(id.id as nat)) {
            Some(url) => requested_under(base_url, max_retries, Method::Get, url, None),
            None => None,
        },
        None => None,
    }
}

/// The text that goes out for the body of a request: none where the
/// request has no body. The outer `None` says that the body cannot be
/// written, because it is not sound within `MAX_DEPTH`.
pub open spec fn body_text(body: Option<Json>) -> Option<Option<Seq<char>>> {
    match body {
        None => Some(None),
        Some(doc) => if sound(doc, MAX_DEPTH as nat) {
            Some(Some(text_of(doc@)))
        } else {
            None
        },
    }
}

/// Whether `r` is the request that was expected, or the address error where
/// none was.
pub open spec fn outcome(
    r: Result<RetryableRequest, ActorDiscordError>,
    expected: Option<RetryableRequestModel>,
) -> bool {
    match r {
        Ok(request) => expected == Some(request.deep_view()),
        Err(e) => e == ActorDiscordError::UrlError && expected is None,
    }
}

/// The path of the channels of a guild.
fn channels_prefix(guild_id: SnowflakeID) -> (r: String)
    ensures
        r@ == DiscordAPI::channels_path(guild_id),
{
    let mut prefix = GUILD_ID.to_owned();
    let name = guild_id.to_string();
    prefix.append(name.as_str());
    prefix.append("/channels");
    prefix
}

/// The path of a channel.
fn channel_prefix(channel_id: SnowflakeID) -> (r: String)
    ensures
        r@ == DiscordAPI::channel_path(channel_id),
{
    let mut prefix = "channels/".to_owned();
    let name = channel_id.to_string();
    prefix.append(name.as_str());
    prefix
}

/// Whether the request that `r` holds, if it holds one, carries `body`
/// itself, member for member.
pub open spec fn carries(r: Result<RetryableRequest, ActorDiscordError>, body: Option<Json>) -> bool {
    match r {
        Ok(request) => request.body == body,
        Err(_) => true,
    }
}

/// Whether the request that `r` holds, if it holds one, carries a body that
/// is sound within `limit`, so that it can be written as text.
pub open spec fn carries_sound(r: Result<RetryableRequest, ActorDiscordError>, limit: nat) -> bool {
    match r {
        Ok(request) => match request.body {
            Some(doc) => sound(doc, limit),
            None => false,
        },
        Err(_) => true,
    }
}

/// A client of the REST interface.
#[derive(Debug, Clone, PartialEq)]
pub struct DiscordAPI {
    /// The address under which the interface lives.
    pub base_url: String,
    pub token: String,
    /// How many times a request is sent before the client gives up.
    pub max_retries: usize,
}

impl DiscordAPI {
    /// The request for `method` on the address that `suffix` names under the
    /// base address, or `None` where the two cannot be joined.
    pub open spec fn requested(
        self,
        method: Method,
        suffix: Seq<char>,
        body: Option<JsonModel>,
    ) -> Option<RetryableRequestModel> {
        requested_under(self.base_url@, self.max_retries, method, suffix, body)
    }

    /// What goes on the wire for each attempt of a request: its verb and
    /// address, the headers, and the text of its body. `None` where the body
    /// cannot be written.
    pub open spec fn wire(self, request: RetryableRequest) -> Option<AttemptModel> {
        match body_text(request.body) {
            Some(body) => Some(
                AttemptModel {
                    method: request.method,
                    url: request.url@,
                    headers: self.header_list(),
                    body,
                },
            ),
            None => None,
        }
    }

    /// The headers that go with every request.
    pub open spec fn header_list(self) -> Seq<(Seq<char>, Seq<char>)> {
        seq![
            ("Content-Type"@, "application/json"@),
            ("User-Agent"@, "PFC-Discord"@),
            ("Authorization"@, "Bot "@ + self.token@),
        ]
    }

    /// A client for the interface under `connect_addr`.
    ///
    /// Fails with `UrlError` exactly where `connect_addr` is no absolute
    /// address to which the path of the interface can be joined.
    pub fn create(token: &str, connect_addr: &str, max_retries: usize) -> (r: Result<
        DiscordAPI,
        ActorDiscordError,
    >)
        ensures
            match r {
                Ok(api) => joined(connect_addr@, API_PREFIX@) == Some(api.base_url@) && api.token@
                    == token@ && api.max_retries == max_retries,
                Err(e) => e == ActorDiscordError::UrlError && joined(connect_addr@, API_PREFIX@)
                    is None,
            },
    {
        match join(connect_addr, API_PREFIX) {
            Some(base_url) => Ok(DiscordAPI { base_url, token: token.to_owned(), max_retries }),
            None => Err(ActorDiscordError::UrlError),
        }
    }

    /// The headers that go with every request: the content type, the user
    /// agent and the authorization by the bot's token.
    pub fn headers(&self) -> (r: Vec<(String, String)>)
        ensures
            r.deep_view() == self.header_list(),
    {
        let mut authorization = "Bot ".to_owned();
        authorization.append(self.token.as_str());
        let mut r: Vec<(String, String)> = Vec::new();
        r.push(("Content-Type".to_owned(), "application/json".to_owned()));
        r.push(("User-Agent".to_owned(), "PFC-Discord".to_owned()));
        r.push(("Authorization".to_owned(), authorization));
        assert(r.deep_view() =~= self.header_list());
        r
    }

    /// A request for `method` on the address that `url_suffix` names.
    ///
    /// Fails with `UrlError` exactly where the suffix cannot be joined to the
    /// base address.
    pub fn request(&self, method: Method, url_suffix: &str, body: Option<Json>) -> (r: Result<
        RetryableRequest,
        ActorDiscordError,
    >)
        ensures
            outcome(r, self.requested(method, url_suffix@, body.deep_view())),
            carries(r, body),
    {
        match join(self.base_url.as_str(), url_suffix) {
            Some(url) => Ok(
                RetryableRequest { method, url, body, attempts_remaining: self.max_retries },
            ),
            None => Err(ActorDiscordError::UrlError),
        }
    }

    /// A request that reads what `url_suffix` names.
    pub fn get(&self, url_suffix: &str) -> (r: Result<RetryableRequest, ActorDiscordError>)
        ensures
            outcome(r, self.requested(Method::Get, url_suffix@, None)),
            carries(r, None),
    {
        self.request(Method::Get, url_suffix, None)
    }

    /// A request that sends `args` to what `url_suffix` names.
    pub fn post(&self, url_suffix: &str, args: Json) -> (r: Result<
        RetryableRequest,
        ActorDiscordError,
    >)
        ensures
            outcome(r, self.requested(Method::Post, url_suffix@, Some(args@))),
            carries(r, Some(args)),
    {
        self.request(Method::Post, url_suffix, Some(args))
    }

    /// A request that deletes what `url_suffix` names.
    pub fn delete(&self, url_suffix: &str) -> (r: Result<RetryableRequest, ActorDiscordError>)
        ensures
            outcome(r, self.requested(Method::Delete, url_suffix@, None)),
            carries(r, None),
    {
        self.request(Method::Delete, url_suffix, None)
    }

    /// A request that changes what `url_suffix` names as `args` say.
    pub fn patch(&self, url_suffix: &str, args: Json) -> (r: Result<
        RetryableRequest,
        ActorDiscordError,
    >)
        ensures
            outcome(r, self.requested(Method::Patch, url_suffix@, Some(args@))),
            carries(r, Some(args)),
    {
        self.request(Method::Patch, url_suffix, Some(args))
    }

    /// The path of the channels of a guild.
    pub open spec fn channels_path(guild_id: SnowflakeID) -> Seq<char> {
        GUILD_ID@ + decimal(guild_id.id as nat) + "/channels"@
    }

    /// The path of a channel.
    pub open spec fn channel_path(channel_id: SnowflakeID) -> Seq<char> {
        "channels/"@ + decimal(channel_id.id as nat)
    }

    /// The path of the messages of a channel.
    pub open spec fn messages_path(channel_id: SnowflakeID) -> Seq<char> {
        "channels/"@ + decimal(channel_id.id as nat) + "/messages"@
    }

    /// The request that reads a guild.
    pub open spec fn guild_request(self, id: SnowflakeID) -> Option<RetryableRequestModel> {
        guild_request_under(self.base_url@, self.max_retries, id)
    }

    /// The request that lists the channels of a guild.
    pub open spec fn channels_request(self, guild_id: SnowflakeID) -> Option<
        RetryableRequestModel,
    > {
        match joined(self.base_url@, Self::channels_path(guild_id)) {
            Some(url) => self.requested(Method::Get, url, None),
            None => None,
        }
    }

    /// A request that reads the guild `id`.
    pub fn guild(&self, id: SnowflakeID) -> (r: Result<RetryableRequest, ActorDiscordError>)
        ensures
            outcome(r, self.guild_request(id)),
            carries(r, None),
    {
        let guilds = match join(self.base_url.as_str(), GUILD_ID) {
            Some(guilds) => guilds,
            None => {
                return Err(ActorDiscordError::UrlError);
            },
        };
        let name = id.to_string();
        match join(guilds.as_str(), name.as_str()) {
            Some(url) => self.get(url.as_str()),
            None => Err(ActorDiscordError::UrlError),
        }
    }

    /// A request that lists the channels of the guild `guild_id`.
    pub fn channels(&self, guild_id: SnowflakeID) -> (r: Result<
        RetryableRequest,
        ActorDiscordError,
    >)
        ensures
            outcome(r, self.channels_request(guild_id)),
            carries(r, None),
    {
        let prefix = channels_prefix(guild_id);
        match join(self.base_url.as_str(), prefix.as_str()) {
            Some(url) => self.get(url.as_str()),
            None => Err(ActorDiscordError::UrlError),
        }
    }

    /// A request that creates a channel in the guild `guild_id`.
    pub fn create_channel(&self, guild_id: SnowflakeID, channel_details: GuildChannelCreate) -> (r:
        Result<RetryableRequest, ActorDiscordError>)
        ensures
            outcome(
                r,
                self.requested(
                    Method::Post,
                    Self::channels_path(guild_id),
                    Some(channel_details.deep_view().encoded()),
                ),
            ),
            carries_sound(r, 1),
    {
        let prefix = channels_prefix(guild_id);
        self.post(prefix.as_str(), channel_details.to_json())
    }

    /// A request that deletes the channel `channel_id`.
    pub fn delete_channel(&self, channel_id: SnowflakeID) -> (r: Result<
        RetryableRequest,
        ActorDiscordError,
    >)
        ensures
            outcome(r, self.requested(Method::Delete, Self::channel_path(channel_id), None)),
            carries(r, None),
    {
        let prefix = channel_prefix(channel_id);
        self.delete(prefix.as_str())
    }

    /// A request that changes the channel `channel_id` as `args` say.
    pub fn patch_channel(&self, channel_id: SnowflakeID, args: Json) -> (r: Result<
        RetryableRequest,
        ActorDiscordError,
    >)
        ensures
            outcome(r, self.requested(Method::Patch, Self::channel_path(channel_id), Some(args@))),
            carries(r, Some(args)),
    {
        let prefix = channel_prefix(channel_id);
        self.patch(prefix.as_str(), args)
    }

    /// A request that posts `message` to the channel `channel_id`.
    pub fn create_message(&self, channel_id: SnowflakeID, message: Json) -> (r: Result<
        RetryableRequest,
        ActorDiscordError,
    >)
        ensures
            outcome(
                r,
                self.requested(Method::Post, Self::messages_path(channel_id), Some(message@)),
            ),
            carries(r, Some(message)),
    {
        let mut prefix = channel_prefix(channel_id);
        prefix.append("/messages");
        self.post(prefix.as_str(), message)
    }

    /// Turns a text into a name that a channel can have, as [`sanitized`]
    /// says.
    ///
    /// Returns `None` exactly where one of the patterns cannot be compiled.
    pub fn sanitize(source: &str) -> (r: Option<String>)
        ensures
            r.deep_view() == sanitized(source@),
    {
        let cleaned = match replace_all(FORBIDDEN, source, "-") {
            Some(text) => text,
            None => {
                return None;
            },
        };
        let de_hash = match replace_all(HASH, cleaned.as_str(), "-") {
            Some(text) => text,
            None => {
                return None;
            },
        };
        let de_dup = match replace_all(HYPHENS, de_hash.as_str(), "-") {
            Some(text) => text,
            None => {
                return None;
            },
        };
        let trimmed_start = match replace_all(LEADING_HYPHEN, de_dup.as_str(), "") {
            Some(text) => text,
            None => {
                return None;
            },
        };
        let trimmed_end = match replace_all(TRAILING_HYPHEN, trimmed_start.as_str(), "") {
            Some(text) => text,
            None => {
                return None;
            },
        };
        Some(lowercase(trimmed_end.as_str()))
    }

    /// Decides what a response means: whether it carries the result, asks to
    /// wait and try again, or ends the request.
    ///
    /// The body is read as JSON; the verdict is that of [`judge`] on the
    /// status and the document.
    pub fn handle_response<T: Decode>(status: u16, body: &str) -> (r: Verdict<T>)
        ensures
            r.deep_view() == judged::<T>(status, parsed(body@)),
    {
        judge::<T>(status, Json::parse(body))
    }

    /// What goes on the wire for the next attempt of `request`, as
    /// [`Self::wire`] says.
    ///
    /// Fails with `RetryError` exactly where the request has no attempt
    /// left, and else with `EncodeError` exactly where the body cannot be
    /// written as text.
    pub fn attempt(&self, request: &RetryableRequest) -> (r: Result<Attempt, ActorDiscordError>)
        ensures
            match r {
                Ok(attempt) => request.attempts_remaining > 0 && self.wire(*request) == Some(
                    attempt.deep_view(),
                ),
                Err(e) => if request.attempts_remaining == 0 {
                    e == ActorDiscordError::RetryError
                } else {
                    e == ActorDiscordError::EncodeError && self.wire(*request) is None
                },
            },
    {
        if request.attempts_remaining == 0 {
            return Err(ActorDiscordError::RetryError);
        }
        let body = match &request.body {
            Some(body) => match body.print() {
                Some(text) => Some(text),
                None => {
                    return Err(ActorDiscordError::EncodeError);
                },
            },
            None => None,
        };
        Ok(
            Attempt {
                method: request.method,
                url: request.url.clone(),
                headers: self.headers(),
                body,
            },
        )
    }
}

impl RetryableRequest {
    /// Takes in what came back for the attempt that was just made.
    ///
    /// The verdict is that of the reply. A reply that throttles uses up one
    /// attempt; nothing else changes the request. A request that had no
    /// attempt left fails with `RetryError`, whatever the reply.
    pub fn on_reply<T: Decode>(&mut self, reply: &Reply) -> (r: Verdict<T>)
        ensures
            r.deep_view() == if old(self).attempts_remaining == 0 {
                VerdictModel::Failed(ActorDiscordError::RetryError)
            } else {
                reply.deep_view().verdict::<T>()
            },
            *final(self) == (RetryableRequest {
                attempts_remaining: if r is Retry {
                    (old(self).attempts_remaining - 1) as usize
                } else {
                    old(self).attempts_remaining
                },
                ..*old(self)
            }),
    {
        if self.attempts_remaining == 0 {
            return Verdict::Failed(ActorDiscordError::RetryError);
        }
        let verdict = match reply {
            Reply::Unreachable => Verdict::Failed(ActorDiscordError::TransportError),
            Reply::Response { status, body } => DiscordAPI::handle_response::<T>(
                *status,
                body.as_str(),
            ),
        };
        match &verdict {
            Verdict::Retry(_) => {
                self.attempts_remaining = self.attempts_remaining - 1;
            },
            _ => {},
        }
        verdict
    }

    /// Runs the request against a list of replies, the first for the first
    /// attempt, and tells how it ends, what it waited for and what it sent,
    /// as [`exchanged`] says.
    pub fn replay<T: Decode>(self, api: &DiscordAPI, replies: &Vec<Reply>) -> (r: Exchange<T>)
        ensures
            r.deep_view() == exchanged::<T>(
                self.attempts_remaining as nat,
                api.wire(self),
                replies.deep_view(),
            ),
    {
        let ghost all = replies.deep_view();
        let ghost attempts = self.attempts_remaining as nat;
        let ghost wire = api.wire(self);
        let mut request = self;
        let mut waits: Vec<RetryMessage> = Vec::new();
        let mut sent: Vec<Attempt> = Vec::new();
        let mut i: usize = 0;
        proof {
            assert(all.skip(0) == all);
            assert(waits.deep_view() == Seq::<RetryMessageModel>::empty());
            assert(sent.deep_view() == Seq::<AttemptModel>::empty());
            let whole = exchanged::<T>(attempts, wire, all);
            assert(Seq::<RetryMessageModel>::empty() + whole.waits == whole.waits);
            assert(Seq::<AttemptModel>::empty() + whole.sent == whole.sent);
        }
        while request.attempts_remaining > 0
            invariant
                i <= replies.len(),
                all == replies.deep_view(),
                attempts == self.attempts_remaining as nat,
                wire == api.wire(self),
                wire == api.wire(request),
                exchanged::<T>(attempts, wire, all) == exchanged::<T>(
                    request.attempts_remaining as nat,
                    wire,
                    all.skip(i as int),
                ).after_all(waits.deep_view(), sent.deep_view()),
            decreases request.attempts_remaining,
        {
            let ghost rest = all.skip(i as int);
            let ghost waited = waits.deep_view();
            let ghost before = sent.deep_view();
            let ghost left = request.attempts_remaining as nat;
            let attempt = match api.attempt(&request) {
                Ok(attempt) => attempt,
                Err(error) => {
                    assert(waited + Seq::<RetryMessageModel>::empty() == waited);
                    assert(before + Seq::<AttemptModel>::empty() == before);
                    return Exchange { result: Err(error), waits, sent };
                },
            };
            let ghost now = attempt.deep_view();
            sent.push(attempt);
            assert(sent.deep_view() == before.push(now));
            assert(before + seq![now] == before.push(now));
            assert(waited + Seq::<RetryMessageModel>::empty() == waited);
            if i >= replies.len() {
                assert(rest.len() == 0);
                return Exchange { result: Err(ActorDiscordError::TransportError), waits, sent };
            }
            assert(rest[0] == replies[i as int].deep_view());
            assert(rest.skip(1) == all.skip(i + 1));
            match request.on_reply::<T>(&replies[i]) {
                Verdict::Done(value) => {
                    assert(exchanged::<T>(left, wire, rest) == ExchangeModel::<T::V>::once(
                        Ok(value.deep_view()),
                        now,
                    ));
                    return Exchange { result: Ok(value), waits, sent };
                },
                Verdict::Failed(error) => {
                    assert(exchanged::<T>(left, wire, rest) == ExchangeModel::<T::V>::once(
                        Err(error),
                        now,
                    ));
                    return Exchange { result: Err(error), waits, sent };
                },
                Verdict::Retry(signal) => {
                    let ghost later = exchanged::<T>(
                        request.attempts_remaining as nat,
                        wire,
                        all.skip(i + 1),
                    );
                    waits.push(signal);
                    assert(waits.deep_view() == waited.push(signal.deep_view()));
                    assert(waited + (seq![signal.deep_view()] + later.waits) == waited.push(
                        signal.deep_view(),
                    ) + later.waits);
                    assert(before + (seq![now] + later.sent) == before.push(now) + later.sent);
                },
            }
            i = i + 1;
        }
        assert(waits.deep_view() + Seq::<RetryMessageModel>::empty() == waits.deep_view());
        assert(sent.deep_view() + Seq::<AttemptModel>::empty() == sent.deep_view());
        Exchange { result: Err(ActorDiscordError::RetryError), waits, sent }
    }
}

/// Whether a reply throttles does not depend on what the request expects.
pub proof fn lemma_throttles<T: Decode>(reply: ReplyModel)
    ensures
        reply.verdict::<T>() is Retry <==> reply.throttles(),
        reply.throttles() ==> reply.verdict::<T>() == VerdictModel::<T::V>::Retry(reply.signal()),
{
}

/// A request that is throttled fewer times than it may be sent, and then
/// succeeds, returns the result of the reply that succeeded. It has waited
/// as each throttling signal said, in the order the signals came, and has
/// put the same on the wire once for each throttling reply and once more.
pub proof fn lemma_throttled_then_done<T: Decode>(
    attempts: nat,
    wire: AttemptModel,
    replies: Seq<ReplyModel>,
    k: nat,
)
    requires
        k < attempts,
        k < replies.len(),
        forall|i: int| 0 <= i < k ==> (#[trigger] replies[i]).throttles(),
        replies[k as int].verdict::<T>() is Done,
    ensures
        exchanged::<T>(attempts, Some(wire), replies) == (ExchangeModel::<T::V> {
            result: Ok(replies[k as int].verdict::<T>()->Done_0),
            waits: Seq::new(k, |i: int| replies[i].signal()),
            sent: Seq::new(k + 1, |i: int| wire),
        }),
    decreases k,
{
    let whole = exchanged::<T>(attempts, Some(wire), replies);
    if k == 0 {
        assert(whole.waits =~= Seq::new(k, |i: int| replies[i].signal()));
        assert(whole.sent =~= Seq::new(k + 1, |i: int| wire));
    } else {
        lemma_throttles::<T>(replies[0]);
        let rest = replies.skip(1);
        assert forall|i: int| 0 <= i < k - 1 implies (#[trigger] rest[i]).throttles() by {
            assert(rest[i] == replies[i + 1]);
        }
        assert(rest[k - 1] == replies[k as int]);
        lemma_throttled_then_done::<T>((attempts - 1) as nat, wire, rest, (k - 1) as nat);
        let later = exchanged::<T>((attempts - 1) as nat, Some(wire), rest);
        assert(whole == later.after(replies[0].signal(), wire));
        assert(whole.waits =~= Seq::new(k, |i: int| replies[i].signal())) by {
            assert forall|i: int| 0 <= i < k implies whole.waits[i] == replies[i].signal() by {
                if i > 0 {
                    assert(rest[i - 1] == replies[i]);
                }
            }
        }
        assert(whole.sent =~= Seq::new(k + 1, |i: int| wire));
    }
}

/// A request that is throttled every time it is sent fails with
/// `RetryError`, after it has been sent as often as it may and has waited
/// as each signal said.
pub proof fn lemma_always_throttled<T: Decode>(
    attempts: nat,
    wire: AttemptModel,
    replies: Seq<ReplyModel>,
)
    requires
        attempts <= replies.len(),
        forall|i: int| 0 <= i < attempts ==> (#[trigger] replies[i]).throttles(),
    ensures
        exchanged::<T>(attempts, Some(wire), replies) == (ExchangeModel::<T::V> {
            result: Err(ActorDiscordError::RetryError),
            waits: Seq::new(attempts, |i: int| replies[i].signal()),
            sent: Seq::new(attempts, |i: int| wire),
        }),
    decreases attempts,
{
    let whole = exchanged::<T>(attempts, Some(wire), replies);
    if attempts == 0 {
        assert(whole.waits =~= Seq::new(attempts, |i: int| replies[i].signal()));
        assert(whole.sent =~= Seq::new(attempts, |i: int| wire));
    } else {
        lemma_throttles::<T>(replies[0]);
        let rest = replies.skip(1);
        assert forall|i: int| 0 <= i < attempts - 1 implies (#[trigger] rest[i]).throttles() by {
            assert(rest[i] == replies[i + 1]);
        }
        lemma_always_throttled::<T>((attempts - 1) as nat, wire, rest);
        let later = exchanged::<T>((attempts - 1) as nat, Some(wire), rest);
        assert(whole == later.after(replies[0].signal(), wire));
        assert(whole.waits =~= Seq::new(attempts, |i: int| replies[i].signal())) by {
            assert forall|i: int| 0 <= i < attempts implies whole.waits[i] == replies[i].signal() by {
                if i > 0 {
                    assert(rest[i - 1] == replies[i]);
                }
            }
        }
        assert(whole.sent =~= Seq::new(attempts, |i: int| wire));
    }
}

/// A first response whose status is neither success nor throttling ends the
/// request at once with `ResponseError`: it was sent once, nothing is
/// waited for, and no second attempt is made.
pub proof fn lemma_rejected_at_once<T: Decode>(
    attempts: nat,
    wire: AttemptModel,
    replies: Seq<ReplyModel>,
    status: u16,
    body: Option<JsonModel>,
)
    requires
        attempts >= 1,
        replies.len() >= 1,
        replies[0] == (ReplyModel::Response { status, body }),
        status != OK,
        status != CREATED,
        status != TOO_MANY_REQUESTS,
    ensures
        exchanged::<T>(attempts, Some(wire), replies) == (ExchangeModel::<T::V> {
            result: Err(ActorDiscordError::ResponseError),
            waits: Seq::empty(),
            sent: seq![wire],
        }),
{
}

/// A first attempt for which nothing comes back ends the request at once
/// with `TransportError`: it is not sent again.
pub proof fn lemma_unreachable_at_once<T: Decode>(
    attempts: nat,
    wire: AttemptModel,
    replies: Seq<ReplyModel>,
)
    requires
        attempts >= 1,
        replies.len() >= 1,
        replies[0] == ReplyModel::Unreachable,
    ensures
        exchanged::<T>(attempts, Some(wire), replies) == (ExchangeModel::<T::V> {
            result: Err(ActorDiscordError::TransportError),
            waits: Seq::empty(),
            sent: seq![wire],
        }),
{
}

/// A request whose body cannot be written fails with `EncodeError` before
/// anything is sent, whatever the replies would have been.
pub proof fn lemma_unwritable<T: Decode>(attempts: nat, replies: Seq<ReplyModel>)
    requires
        attempts >= 1,
    ensures
        exchanged::<T>(attempts, None, replies) == ExchangeModel::<T::V>::never(
            ActorDiscordError::EncodeError,
        ),
{
}

/// Every attempt of a request that carries a document which is sound within
/// `MAX_DEPTH` puts the text of that document on the wire, with the verb and
/// the address of the request: the same each time, however many attempts
/// are left.
pub proof fn lemma_wire_carries_body(api: DiscordAPI, request: RetryableRequest, args: Json)
    requires
        request.body == Some(args),
        sound(args, MAX_DEPTH as nat),
    ensures
        api.wire(request) == Some(
            AttemptModel {
                method: request.method,
                url: request.url@,
                headers: api.header_list(),
                body: Some(text_of(args@)),
            },
        ),
        forall|left: usize|
            api.wire(RetryableRequest { attempts_remaining: left, ..request }) == api.wire(request),
{
}

/// A request that carries a sound document, is throttled fewer times than
/// it may be sent and then succeeds, has put the text of that document on
/// the wire once for each throttling reply and once more, and returns the
/// result of the reply that succeeded.
pub proof fn lemma_body_sent_each_time<T: Decode>(
    api: DiscordAPI,
    request: RetryableRequest,
    args: Json,
    replies: Seq<ReplyModel>,
    k: nat,
)
    requires
        request.body == Some(args),
        sound(args, MAX_DEPTH as nat),
        k < request.attempts_remaining,
        k < replies.len(),
        forall|i: int| 0 <= i < k ==> (#[trigger] replies[i]).throttles(),
        replies[k as int].verdict::<T>() is Done,
    ensures
        exchanged::<T>(request.attempts_remaining as nat, api.wire(request), replies) == (
        ExchangeModel::<T::V> {
            result: Ok(replies[k as int].verdict::<T>()->Done_0),
            waits: Seq::new(k, |i: int| replies[i].signal()),
            sent: Seq::new(
                k + 1,
                |i: int|
                    AttemptModel {
                        method: request.method,
                        url: request.url@,
                        headers: api.header_list(),
                        body: Some(text_of(args@)),
                    },
            ),
        }),
{
    lemma_wire_carries_body(api, request, args);
    lemma_throttled_then_done::<T>(
        request.attempts_remaining as nat,
        api.wire(request).unwrap(),
        replies,
        k,
    );
    let wire = api.wire(request).unwrap();
    assert(Seq::new(k + 1, |i: int| wire) =~= Seq::new(
        k + 1,
        |i: int|
            AttemptModel {
                method: request.method,
                url: request.url@,
                headers: api.header_list(),
                body: Some(text_of(args@)),
            },
    ));
}

} // verus!
