//! Expiration of sessions that have been inactive for too long, per kind of
//! session (OAuth2, compatibility, browser).

use vstd::prelude::*;

use crate::time::{instant_before, instant_before_representable, spec_instant_before};

verus! {

/// Number of sessions fetched and expired by one batch job; a full batch
/// schedules a job for the next one.
pub const EXPIRATION_BATCH_SIZE: usize = 100;

/// How long (in seconds) each kind of session may stay inactive before it is
/// expired; `None` leaves that kind alone.
#[derive(Clone, Copy, Debug, PartialEq, Eq, Structural)]
pub struct SessionExpirationConfig {
    /// Inactivity allowed to OAuth2 sessions of dynamically registered clients.
    pub oauth_session_inactivity_ttl: Option<i64>,
    /// Inactivity allowed to compatibility sessions.
    pub compat_session_inactivity_ttl: Option<i64>,
    /// Inactivity allowed to browser sessions.
    pub user_session_inactivity_ttl: Option<i64>,
}

/// For each kind of session, the instant before which its last activity must
/// lie for it to be expired; `None` where that kind is not expired.
#[derive(Clone, Copy, Debug, PartialEq, Eq, Structural)]
pub struct InactiveSessionThresholds {
    /// Threshold for OAuth2 sessions.
    pub oauth_last_active_before: Option<i64>,
    /// Threshold for compatibility sessions.
    pub compat_last_active_before: Option<i64>,
    /// Threshold for browser sessions.
    pub user_last_active_before: Option<i64>,
}

/// Whether `now - ttl` can be represented, where there is a `ttl`.
pub open spec fn ttl_representable(ttl: Option<i64>, now: i64) -> bool {
    ttl matches Some(t) ==> instant_before_representable(now as int, t as int)
}

/// The instant `ttl` before `now`, where there is a `ttl`.
pub open spec fn spec_threshold(ttl: Option<i64>, now: i64) -> Option<i64> {
    match ttl {
        Some(t) => Some(spec_instant_before(now as int, t as int) as i64),
        None => None,
    }
}

/// Whether every threshold of `config` can be represented at `now`.
pub open spec fn inactivity_config_representable(config: SessionExpirationConfig, now: i64) -> bool {
    &&& ttl_representable(config.oauth_session_inactivity_ttl, now)
    &&& ttl_representable(config.compat_session_inactivity_ttl, now)
    &&& ttl_representable(config.user_session_inactivity_ttl, now)
}

/// What one run of the inactivity expiration does at `now`: nothing when the
/// feature is not configured, else one threshold per configured kind.
pub open spec fn spec_inactive_session_thresholds(
    config: Option<SessionExpirationConfig>,
    now: i64,
) -> Option<InactiveSessionThresholds> {
    match config {
        None => None,
        Some(c) => Some(
            InactiveSessionThresholds {
                oauth_last_active_before: spec_threshold(c.oauth_session_inactivity_ttl, now),
                compat_last_active_before: spec_threshold(c.compat_session_inactivity_ttl, now),
                user_last_active_before: spec_threshold(c.user_session_inactivity_ttl, now),
            },
        ),
    }
}

/// A kind of session has a threshold exactly when it has a TTL, and the
/// threshold is `now` minus that many seconds (in microseconds).
pub open spec fn ttl_gives_threshold(ttl: Option<i64>, now: i64, threshold: Option<i64>) -> bool {
    &&& threshold is Some <==> ttl is Some
    &&& ttl matches Some(t) ==> threshold == Some((now - t * 1_000_000) as i64)
}

/// Each kind of session gets a threshold exactly when its own TTL is set,
/// and that threshold is `now` minus its own TTL; with no configuration,
/// nothing is scheduled at all.
pub proof fn law_each_kind_follows_its_own_ttl(config: Option<SessionExpirationConfig>, now: i64)
    requires
        config matches Some(c) ==> inactivity_config_representable(c, now),
    ensures
        spec_inactive_session_thresholds(config, now) is Some <==> config is Some,
        spec_inactive_session_thresholds(config, now) matches Some(t) ==> config matches Some(c) && {
            &&& (t.oauth_last_active_before is Some <==> c.oauth_session_inactivity_ttl is Some)
            &&& (t.compat_last_active_before is Some <==> c.compat_session_inactivity_ttl is Some)
            &&& (t.user_last_active_before is Some <==> c.user_session_inactivity_ttl is Some)
            &&& c.oauth_session_inactivity_ttl matches Some(ttl) ==> t.oauth_last_active_before
                == Some((now - ttl * 1_000_000) as i64)
            &&& c.compat_session_inactivity_ttl matches Some(ttl) ==> t.compat_last_active_before
                == Some((now - ttl * 1_000_000) as i64)
            &&& c.user_session_inactivity_ttl matches Some(ttl) ==> t.user_last_active_before
                == Some((now - ttl * 1_000_000) as i64)
        },
{
}

/// A longer TTL gives an earlier threshold, and a later `now` a later one:
/// a session selected under one configuration stays selected when the TTL
/// shrinks or time passes.
pub proof fn law_threshold_monotone(ttl1: i64, ttl2: i64, now1: i64, now2: i64)
    requires
        ttl_representable(Some(ttl1), now1),
        ttl_representable(Some(ttl2), now2),
        ttl2 <= ttl1,
        now1 <= now2,
    ensures
        spec_threshold(Some(ttl1), now1)->0 <= spec_threshold(Some(ttl2), now2)->0,
{
}

fn threshold(ttl: Option<i64>, now: i64) -> (result: Option<i64>)
    requires
        ttl_representable(ttl, now),
    ensures
        result == spec_threshold(ttl, now),
{
    match ttl {
        Some(t) => Some(instant_before(now, t)),
        None => None,
    }
}

/// The thresholds of one run of the inactivity expiration at `now`: `None`
/// when automatic expiration is not configured, else for each kind of
/// session `now` minus its TTL, where it has one.
pub fn inactive_session_thresholds(config: &Option<SessionExpirationConfig>, now: i64) -> (result:
    Option<InactiveSessionThresholds>)
    requires
        config matches Some(c) ==> inactivity_config_representable(*c, now),
    ensures
        result == spec_inactive_session_thresholds(*config, now),
        result is Some <==> config is Some,
        result matches Some(t) ==> config matches Some(c) && {
            &&& ttl_gives_threshold(c.oauth_session_inactivity_ttl, now, t.oauth_last_active_before)
            &&& ttl_gives_threshold(c.compat_session_inactivity_ttl, now, t.compat_last_active_before)
            &&& ttl_gives_threshold(c.user_session_inactivity_ttl, now, t.user_last_active_before)
        },
{
    match config {
        None => None,
        Some(c) => Some(
            InactiveSessionThresholds {
                oauth_last_active_before: threshold(c.oauth_session_inactivity_ttl, now),
                compat_last_active_before: threshold(c.compat_session_inactivity_ttl, now),
                user_last_active_before: threshold(c.user_session_inactivity_ttl, now),
            },
        ),
    }
}

/// When a session was created, when it was last active (if ever), and
/// whether it is finished.
#[derive(Clone, Copy, Debug, PartialEq, Eq, Structural)]
pub struct SessionActivity {
    /// When the session was created.
    pub created_at: i64,
    /// When the session was last active; `None` if it never was.
    pub last_active_at: Option<i64>,
    /// Whether the session is finished.
    pub finished: bool,
}

/// The instant from which a session counts as inactive: its last activity,
/// or its creation if it was never active.
pub open spec fn inactive_since(activity: SessionActivity) -> i64 {
    match activity.last_active_at {
        Some(at) => at,
        None => activity.created_at,
    }
}

/// Whether the session was last active strictly before `before`; a session
/// that was never active was not.
pub open spec fn last_active_before(activity: SessionActivity, before: i64) -> bool {
    activity.last_active_at matches Some(at) && at < before
}

/// The sessions of one kind (compatibility or browser) an inactivity
/// expiration batch looks for; the storage layer answers it.
#[derive(Clone, Copy, Debug, PartialEq, Eq, Structural)]
pub struct InactiveSessionQuery {
    /// Only sessions last active strictly before this instant; sessions
    /// that were never active are not selected.
    pub last_active_before: i64,
    /// Only sessions that are not finished yet.
    pub active_only: bool,
}

impl InactiveSessionQuery {
    /// Whether the query selects a session with this activity.
    pub open spec fn selects(self, activity: SessionActivity) -> bool {
        &&& self.active_only ==> !activity.finished
        &&& last_active_before(activity, self.last_active_before)
    }
}

/// The query for compatibility sessions that are still active and have been
/// inactive since before `last_active_before`.
pub fn inactive_compat_sessions_query(last_active_before: i64) -> (query: InactiveSessionQuery)
    ensures
        query == (InactiveSessionQuery { last_active_before, active_only: true }),
{
    InactiveSessionQuery { last_active_before, active_only: true }
}

/// The query for browser sessions that are still active and have been
/// inactive since before `last_active_before`.
pub fn inactive_browser_sessions_query(last_active_before: i64) -> (query: InactiveSessionQuery)
    ensures
        query == (InactiveSessionQuery { last_active_before, active_only: true }),
{
    InactiveSessionQuery { last_active_before, active_only: true }
}

/// A kind of session with an inactivity TTL is selected for expiration at
/// `now` exactly when it is still active and was last active more than the
/// TTL ago; a session that was never active is not selected.
pub proof fn law_inactive_sessions_expire_after_ttl(ttl: i64, now: i64, activity: SessionActivity)
    requires
        instant_before_representable(now as int, ttl as int),
    ensures
        (InactiveSessionQuery {
            last_active_before: spec_instant_before(now as int, ttl as int) as i64,
            active_only: true,
        }).selects(activity) <==> (!activity.finished && (activity.last_active_at matches Some(at)
            && at < now - ttl * 1_000_000)),
{
}

/// An OAuth2 session as the storage layer holds it, as far as the expiration
/// queries look at it. Scope tokens are given by their text.
#[derive(Clone, Debug)]
pub struct OAuth2SessionRecord {
    /// Creation, last activity and state.
    pub activity: SessionActivity,
    /// The user the session belongs to, if any.
    pub user_id: Option<u128>,
    /// Whether the session's client was registered dynamically.
    pub dynamic_client: bool,
    /// The session's scope tokens.
    pub scope: Vec<String>,
}

/// The sessions an OAuth2 expiration batch looks for; the storage layer
/// answers it. Scope tokens are given by their text.
#[derive(Clone, Debug)]
pub struct OAuth2SessionQuery {
    /// Only sessions last active strictly before this instant.
    pub last_active_before: i64,
    /// Whether sessions that were never active are selected too, counted as
    /// inactive since their creation (see [`inactive_since`]).
    pub include_never_active: bool,
    /// Only sessions created strictly before this instant, if set.
    pub created_before: Option<i64>,
    /// Only sessions whose scope holds one of these tokens, if not empty.
    pub scope_containing_any: Vec<String>,
    /// Only sessions that belong to a user.
    pub any_user: bool,
    /// Only sessions of dynamically registered clients.
    pub only_dynamic_clients: bool,
    /// Only sessions that are not finished yet.
    pub active_only: bool,
}

impl OAuth2SessionQuery {
    /// Whether the query selects `session`.
    pub open spec fn selects(self, session: OAuth2SessionRecord) -> bool {
        &&& self.active_only ==> !session.activity.finished
        &&& if self.include_never_active {
            inactive_since(session.activity) < self.last_active_before
        } else {
            last_active_before(session.activity, self.last_active_before)
        }
        &&& self.created_before matches Some(before) ==> session.activity.created_at < before
        &&& self.scope_containing_any@.len() > 0 ==> exists|i: int, j: int|
            0 <= i < self.scope_containing_any@.len() && 0 <= j < session.scope@.len()
                && #[trigger] self.scope_containing_any@[i]@ == #[trigger] session.scope@[j]@
        &&& self.any_user ==> session.user_id is Some
        &&& self.only_dynamic_clients ==> session.dynamic_client
    }
}

/// The query for OAuth2 sessions of dynamically registered clients that are
/// still active and were last active before `last_active_before` (sessions
/// that were never active are not selected).
pub fn inactive_oauth2_sessions_query(last_active_before: i64) -> (query: OAuth2SessionQuery)
    ensures
        query.last_active_before == last_active_before,
        !query.include_never_active,
        query.created_before is None,
        query.scope_containing_any@.len() == 0,
        query.any_user,
        query.only_dynamic_clients,
        query.active_only,
{
    OAuth2SessionQuery {
        last_active_before,
        include_never_active: false,
        created_before: None,
        scope_containing_any: Vec::new(),
        any_user: true,
        only_dynamic_clients: true,
        active_only: true,
    }
}

} // verus!
