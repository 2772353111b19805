pub mod clock;
pub mod crypto;
pub mod error;
pub mod helpers;
pub mod ids;
pub mod jwt;
pub mod permissions;
pub mod validation;
