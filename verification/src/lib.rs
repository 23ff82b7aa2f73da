//! Session-expiration rules for OAuth2, compatibility and browser sessions,
//! and the small decisions around user profile lookups.
//!
//! Timestamps are instants given as microseconds since the Unix epoch;
//! durations are whole seconds.

pub mod time;
pub mod scopes;
pub mod config;
pub mod expiry;
pub mod inactivity;
pub mod pg_expiration;
pub mod user_info;
