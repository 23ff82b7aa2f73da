//! Configuration of scope-based session expiration.

use vstd::prelude::*;

use crate::time::{days_in_seconds, hours_in_seconds, minutes_in_seconds};

verus! {

/// Default maximum lifetime of a short-lived session: 10 hours, in seconds.
pub fn default_short_lived_session_max_lifetime() -> (seconds: i64)
    ensures
        seconds == 10 * 3600,
{
    hours_in_seconds(10)
}

/// Default maximum lifetime of a long-lived session: 30 days, in seconds.
pub fn default_long_lived_session_max_lifetime() -> (seconds: i64)
    ensures
        seconds == 30 * 86400,
{
    days_in_seconds(30)
}

/// Default minimum inactivity before a session can be expired: 30 minutes,
/// in seconds.
pub fn default_pg_session_inactivity_ttl() -> (seconds: i64)
    ensures
        seconds == 30 * 60,
{
    minutes_in_seconds(30)
}

/// Configuration of the scope-based session expiration feature.
///
/// Sessions with the `urn:pg:session:short-lived` scope expire after
/// `short_lived_max_lifetime` (default: 10 hours), sessions with the
/// `urn:pg:session:long-lived` scope after `long_lived_max_lifetime`
/// (default: 30 days); sessions with neither scope are not affected.
/// In both cases the session must also have been inactive for at least
/// `inactivity_ttl` (default: 30 minutes). All durations are in seconds.
#[derive(Clone, Copy, Debug, PartialEq, Eq, Structural)]
pub struct PgSessionExpirationConfig {
    /// Whether the feature is enabled (off unless set, when the section is present).
    pub enabled: bool,
    /// Maximum lifetime of a session with the short-lived scope.
    pub short_lived_max_lifetime: i64,
    /// Maximum lifetime of a session with the long-lived scope.
    pub long_lived_max_lifetime: i64,
    /// Minimum inactivity before a session is eligible for expiration.
    pub inactivity_ttl: i64,
}

/// Project-specific configuration.
#[derive(Clone, Copy, Debug, PartialEq, Eq, Structural)]
pub struct PgConfig {
    /// Scope-based session expiration; absent means disabled.
    pub session_expiration: Option<PgSessionExpirationConfig>,
}

impl PgConfig {
    /// Whether the configuration holds only default values.
    pub fn is_default(&self) -> (result: bool)
        ensures
            result == (self.session_expiration is None),
    {
        self.session_expiration.is_none()
    }
}

impl Default for PgConfig {
    fn default() -> (config: Self)
        ensures
            config.session_expiration is None,
    {
        PgConfig { session_expiration: None }
    }
}

} // verus!
