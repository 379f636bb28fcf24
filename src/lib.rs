//! Credential lookup, password hashing and time-limited access tokens.

pub mod error;
pub mod id;
pub mod kernel;
pub mod cache;
pub mod token_cache;
pub mod password;
pub mod database;
pub mod credentials;
pub mod session;
pub mod users;
pub mod api;
