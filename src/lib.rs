//! Passwordless authentication core: one-time codes delivered by email,
//! their one-minute validity window, session tokens and the check that
//! guards every protected operation.

pub mod strings;
pub mod error;
pub mod clock;
pub mod email;
pub mod code;
pub mod token;
pub mod record;
pub mod store;
pub mod laws;
pub mod user;
