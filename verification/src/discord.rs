use crate::address::joined;
use crate::api::{
    guild_request_under, DiscordAPI, RetryableRequest, RetryableRequestModel, API_PREFIX,
};
use crate::errors::ActorDiscordError;
use crate::types::events::{Event, SnowflakeID};
use vstd::prelude::*;

verus! {

/// The guild that the example subscriber asks about.
pub const EXAMPLE_GUILD: &'static str = "839604684573638696";

/// A subscriber that shows how to react to the events of a session: when
/// the socket is open it asks the REST interface about one guild.
#[derive(Debug, Clone, PartialEq)]
pub struct ExampleDiscordActor {
    pub token: String,
    pub connect_addr: String,
    pub max_retries: usize,
}

impl ExampleDiscordActor {
    /// A subscriber that will talk to the interface under `connect_addr`.
    pub fn create(token: &str, connect_addr: &str, retries: usize) -> (r: Result<
        Self,
        ActorDiscordError,
    >)
        ensures
            r matches Ok(actor) && actor.token@ == token@ && actor.connect_addr@ == connect_addr@
                && actor.max_retries == retries,
    {
        Ok(
            ExampleDiscordActor {
                token: token.to_owned(),
                connect_addr: connect_addr.to_owned(),
                max_retries: retries,
            },
        )
    }

    /// The request that the subscriber makes when the socket is open: it
    /// reads the example guild through a client for the interface under the
    /// address that the subscriber connects to. `None` where that address,
    /// or the address of the guild, cannot be made.
    pub open spec fn request(self) -> Option<RetryableRequestModel> {
        match joined(self.connect_addr@, API_PREFIX@) {
            Some(base_url) => guild_request_under(
                base_url,
                self.max_retries,
                SnowflakeID::of_text(EXAMPLE_GUILD@),
            ),
            None => None,
        }
    }

    /// What the subscriber does about an event of the connection.
    ///
    /// When the socket is open it returns the request that [`Self::request`]
    /// describes, and fails with `UrlError` exactly where there is none. For
    /// every other event it returns `Ok(None)`.
    pub fn handle(&self, msg: &Event) -> (r: Result<Option<RetryableRequest>, ActorDiscordError>)
        ensures
            match msg {
                Event::INIT => match r {
                    Ok(request) => request is Some && request.deep_view() == self.request(),
                    Err(e) => e == ActorDiscordError::UrlError && self.request() is None,
                },
                Event::GuildCreate(_) => r matches Ok(None),
            },
    {
        match msg {
            Event::INIT => {
                let api = match DiscordAPI::create(
                    self.token.as_str(),
                    self.connect_addr.as_str(),
                    self.max_retries,
                ) {
                    Ok(api) => api,
                    Err(e) => {
                        return Err(e);
                    },
                };
                match api.guild(SnowflakeID::from(EXAMPLE_GUILD)) {
                    Ok(request) => Ok(Some(request)),
                    Err(e) => Err(e),
                }
            },
            Event::GuildCreate(_) => Ok(None),
        }
    }
}

} // verus!
