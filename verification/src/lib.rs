//! The core of a multi-tenant chat service: communities with channels and
//! members, direct conversations, message lifecycle and authorization,
//! moderation cascades, and connection presence.
pub mod api;
pub mod database;
pub mod middleware;
pub mod models;
pub mod services;
pub mod tasks;
pub mod text;
pub mod utils;
pub mod websocket;
