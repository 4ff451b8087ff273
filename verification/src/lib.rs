//! Client-side credential and local-cache layer of a session with the Proton
//! API: the tag-indexed cache store, the secret cache built on it, and the
//! coordinator that renews a session's bearer-token pair.

pub mod api;
pub mod auth;
pub mod cache;
pub mod cancellation;
pub mod client;
pub mod concurrent_map;
pub mod encoding;
pub mod identity;
pub mod secret;
pub mod session;
pub mod text;

pub use identity::{EventId, PasswordMode, SessionId, UserId};
