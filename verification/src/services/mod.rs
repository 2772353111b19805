pub mod auth;
pub mod avatar;
pub mod channel;
pub mod chat;
pub mod default_server;
pub mod direct_message;
pub mod file_storage;
pub mod file_validation;
pub mod init;
pub mod messaging;
pub mod profanity;
pub mod server;
pub mod user_moderation;
pub mod word_sequence;
