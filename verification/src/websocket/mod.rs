pub mod connection;
pub mod events;
pub mod handlers;
