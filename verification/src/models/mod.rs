pub mod channel;
pub mod direct_message;
pub mod file;
pub mod login_attempt;
pub mod message;
pub mod server;
pub mod server_member;
pub mod user;
pub mod user_session;
