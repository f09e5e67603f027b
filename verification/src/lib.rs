//! A client for the wire protocol of a chat platform: a REST interface
//! that throttles its clients, and a gateway that streams events over a
//! socket.
//!
//! The library holds the rules of both and leaves the network to its
//! caller. [`api`] builds requests and decides, reply by reply, whether a
//! request is done, has to wait and be sent again, or has failed.
//! [`connection`] is the state machine of one gateway session: it says what
//! to send and what to publish for each frame and each tick of the heartbeat
//! timer. [`dispatcher`] hands the published events to subscribers in the
//! order they came.

pub mod address;
pub mod api;
pub mod connection;
pub mod decimal;
pub mod decode;
pub mod discord;
pub mod dispatcher;
pub mod errors;
pub mod intents;
pub mod json;
pub mod pattern;
pub mod types;

pub use api::DiscordAPI;
pub use connection::DiscordBot;
pub use intents::GatewayIntents;
pub use types::gateway::{NAME, VERSION};
