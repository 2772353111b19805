pub mod auth;
pub mod guest;
