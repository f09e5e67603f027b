use vstd::prelude::*;

verus! {

/// What can go wrong in a request or on the gateway.
#[derive(Debug, Clone, PartialEq, Eq)]
pub enum ActorDiscordError {
    /// The server answered with a status that is neither success nor
    /// throttling, or with a body that does not have the expected shape.
    ResponseError,
    /// A response error that names the address and the cause.
    ResponseErrorMsg { url: String, err: String },
    /// Every attempt of a request was throttled.
    RetryError,
    /// The request never reached the server, or its answer never came back.
    TransportError,
    /// A gateway frame that cannot be read as a message.
    ProtocolError,
    /// An address that cannot be read, or joined to the base address.
    UrlError,
    /// A document that cannot be written as text: arrays and objects are
    /// nested too deep in it, or a number in it has a literal that does not
    /// read as a number.
    EncodeError,
}

/// The text that Rust's `{:?}` writes for a string.
pub uninterp spec fn quoted(text: Seq<char>) -> Seq<char>;

/// Formats a string as `{:?}` does, in quotes and with its special
/// characters escaped.
///
/// Claims that the result is a function of the text.
#[verifier::external_body]
fn quote(text: &str) -> (r: String)
    ensures
        r@ == quoted(text@),
{
    format!("{:?}", text)
}

impl ActorDiscordError {
    /// The text of the message that describes the error.
    pub open spec fn message_text(self) -> Seq<char> {
        match self {
            ActorDiscordError::ResponseError => "ResponseError HTTP(s) Error"@,
            ActorDiscordError::ResponseErrorMsg { url, err } => "HTTP(s) Error "@ + quoted(url@)
                + " "@ + quoted(err@),
            ActorDiscordError::RetryError => "Too many retries"@,
            ActorDiscordError::TransportError => "Transport error"@,
            ActorDiscordError::ProtocolError => "Protocol error"@,
            ActorDiscordError::UrlError => "Invalid URL"@,
            ActorDiscordError::EncodeError => "Encode error"@,
        }
    }

    /// Describes the error in words.
    pub fn message(&self) -> (r: String)
        ensures
            r@ == self.message_text(),
    {
        match self {
            ActorDiscordError::ResponseError => "ResponseError HTTP(s) Error".to_owned(),
            ActorDiscordError::ResponseErrorMsg { url, err } => {
                let mut text = "HTTP(s) Error ".to_owned();
                let url_text = quote(url.as_str());
                text.append(url_text.as_str());
                text.append(" ");
                let err_text = quote(err.as_str());
                text.append(err_text.as_str());
                text
            },
            ActorDiscordError::RetryError => "Too many retries".to_owned(),
            ActorDiscordError::TransportError => "Transport error".to_owned(),
            ActorDiscordError::ProtocolError => "Protocol error".to_owned(),
            ActorDiscordError::UrlError => "Invalid URL".to_owned(),
            ActorDiscordError::EncodeError => "Encode error".to_owned(),
        }
    }
}

} // verus!
