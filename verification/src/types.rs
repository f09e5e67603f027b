pub mod events;
pub mod gateway;
