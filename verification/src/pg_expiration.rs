//! Expiration of OAuth2 sessions by their lifetime scope.
//!
//! A session with the short-lived scope expires once it was created more than
//! the short lifetime ago, one with the long-lived scope (and not the
//! short-lived one) once it was created more than the long lifetime ago; in
//! both cases it must also have been inactive for the inactivity TTL, which
//! the session query asks of the storage layer. Sessions with neither scope
//! are left alone.

use vstd::prelude::*;

use crate::config::PgSessionExpirationConfig;
use crate::expiry::{
    expiry_steps, plan_session_expiry, sync_delays_in_range, ExpiryStep, SessionToExpire,
};
use crate::inactivity::{inactive_since, OAuth2SessionQuery, OAuth2SessionRecord};
use crate::scopes::{
    scope_contains, spec_scope_contains, PG_SESSION_LONG_LIVED, PG_SESSION_SHORT_LIVED,
};
use crate::time::{instant_before, instant_before_representable, spec_instant_before};

verus! {

/// The instants one run of the scope-based expiration works with.
#[derive(Clone, Copy, Debug, PartialEq, Eq, Structural)]
pub struct PgExpirationThresholds {
    /// Short-lived sessions created strictly before this instant are expired.
    pub short_lived_created_before: i64,
    /// Long-lived sessions created strictly before this instant are expired.
    pub long_lived_created_before: i64,
    /// Only sessions last active strictly before this instant are expired.
    pub inactive_before: i64,
}

/// Whether the three thresholds of `config` can be represented at `now`.
pub open spec fn pg_config_representable(config: PgSessionExpirationConfig, now: i64) -> bool {
    &&& instant_before_representable(now as int, config.short_lived_max_lifetime as int)
    &&& instant_before_representable(now as int, config.long_lived_max_lifetime as int)
    &&& instant_before_representable(now as int, config.inactivity_ttl as int)
}

/// The thresholds of `config` at `now`.
pub open spec fn spec_pg_thresholds(config: PgSessionExpirationConfig, now: i64) -> PgExpirationThresholds {
    PgExpirationThresholds {
        short_lived_created_before: spec_instant_before(now as int, config.short_lived_max_lifetime as int) as i64,
        long_lived_created_before: spec_instant_before(now as int, config.long_lived_max_lifetime as int) as i64,
        inactive_before: spec_instant_before(now as int, config.inactivity_ttl as int) as i64,
    }
}

/// What one run of the scope-based expiration schedules at `now`: nothing
/// unless the feature is configured and enabled.
pub open spec fn spec_pg_expiration_thresholds(
    config: Option<PgSessionExpirationConfig>,
    now: i64,
) -> Option<PgExpirationThresholds> {
    match config {
        Some(c) => if c.enabled {
            Some(spec_pg_thresholds(c, now))
        } else {
            None
        },
        None => None,
    }
}

/// The thresholds for one run of the scope-based expiration at `now`, or
/// `None` when the feature is not configured or not enabled.
pub fn pg_expiration_thresholds(config: &Option<PgSessionExpirationConfig>, now: i64) -> (result:
    Option<PgExpirationThresholds>)
    requires
        config matches Some(c) ==> (c.enabled ==> pg_config_representable(*c, now)),
    ensures
        result == spec_pg_expiration_thresholds(*config, now),
        result is Some <==> (config matches Some(c) && c.enabled),
        result matches Some(t) ==> config matches Some(c) && {
            &&& t.short_lived_created_before == now - c.short_lived_max_lifetime * 1_000_000
            &&& t.long_lived_created_before == now - c.long_lived_max_lifetime * 1_000_000
            &&& t.inactive_before == now - c.inactivity_ttl * 1_000_000
        },
{
    match config {
        None => None,
        Some(c) => {
            if !c.enabled {
                return None;
            }
            Some(
                PgExpirationThresholds {
                    short_lived_created_before: instant_before(now, c.short_lived_max_lifetime),
                    long_lived_created_before: instant_before(now, c.long_lived_max_lifetime),
                    inactive_before: instant_before(now, c.inactivity_ttl),
                },
            )
        },
    }
}

/// The scope-based expiration runs exactly when it is configured and
/// enabled, and then each threshold is `now` minus its own configured
/// duration: the short lifetime, the long lifetime and the inactivity TTL,
/// with nothing capped or rounded.
pub proof fn law_thresholds_follow_configuration(config: Option<PgSessionExpirationConfig>, now: i64)
    requires
        config matches Some(c) ==> (c.enabled ==> pg_config_representable(c, now)),
    ensures
        spec_pg_expiration_thresholds(config, now) is Some <==> (config matches Some(c) && c.enabled),
        spec_pg_expiration_thresholds(config, now) matches Some(t) ==> config matches Some(c) && {
            &&& t.short_lived_created_before == now - c.short_lived_max_lifetime * 1_000_000
            &&& t.long_lived_created_before == now - c.long_lived_max_lifetime * 1_000_000
            &&& t.inactive_before == now - c.inactivity_ttl * 1_000_000
        },
{
}

/// Two configurations that differ only in one duration give thresholds that
/// differ only in the matching threshold, by that difference: each
/// threshold depends on its own duration alone.
pub proof fn law_thresholds_independent(c1: PgSessionExpirationConfig, c2: PgSessionExpirationConfig, now: i64)
    requires
        c1.enabled,
        c2.enabled,
        pg_config_representable(c1, now),
        pg_config_representable(c2, now),
    ensures
        spec_pg_expiration_thresholds(Some(c1), now) matches Some(t1) && spec_pg_expiration_thresholds(
            Some(c2),
            now,
        ) matches Some(t2) && {
            &&& t1.short_lived_created_before - t2.short_lived_created_before == (
            c2.short_lived_max_lifetime - c1.short_lived_max_lifetime) * 1_000_000
            &&& t1.long_lived_created_before - t2.long_lived_created_before == (
            c2.long_lived_max_lifetime - c1.long_lived_max_lifetime) * 1_000_000
            &&& t1.inactive_before - t2.inactive_before == (c2.inactivity_ttl - c1.inactivity_ttl)
                * 1_000_000
        },
{
}

/// The later of the two creation thresholds: a session created after it is
/// past neither lifetime.
pub open spec fn later_created_before(thresholds: PgExpirationThresholds) -> i64 {
    if thresholds.short_lived_created_before >= thresholds.long_lived_created_before {
        thresholds.short_lived_created_before
    } else {
        thresholds.long_lived_created_before
    }
}

/// The sessions a scope-based expiration batch considers: active sessions of
/// a user, inactive since before the inactivity threshold (since their
/// creation, for sessions never active), created before
/// the later of the two creation thresholds, and holding one of the two
/// lifetime scopes.
pub open spec fn spec_pg_query_selects(thresholds: PgExpirationThresholds, session: OAuth2SessionRecord) -> bool {
    &&& !session.activity.finished
    &&& inactive_since(session.activity) < thresholds.inactive_before
    &&& session.activity.created_at < later_created_before(thresholds)
    &&& spec_scope_contains(session.scope@, PG_SESSION_SHORT_LIVED@) || spec_scope_contains(
        session.scope@,
        PG_SESSION_LONG_LIVED@,
    )
    &&& session.user_id is Some
}

/// The query for the sessions a scope-based expiration batch considers: see
/// [`spec_pg_query_selects`].
pub fn pg_oauth2_sessions_query(thresholds: &PgExpirationThresholds) -> (query: OAuth2SessionQuery)
    ensures
        query.last_active_before == thresholds.inactive_before,
        query.include_never_active,
        query.created_before == Some(later_created_before(*thresholds)),
        query.scope_containing_any@.len() == 2,
        query.scope_containing_any@[0]@ == PG_SESSION_SHORT_LIVED@,
        query.scope_containing_any@[1]@ == PG_SESSION_LONG_LIVED@,
        query.any_user,
        !query.only_dynamic_clients,
        query.active_only,
        forall|session: OAuth2SessionRecord|
            #[trigger] query.selects(session) == spec_pg_query_selects(*thresholds, session),
{
    let mut scopes: Vec<String> = Vec::new();
    scopes.push(PG_SESSION_SHORT_LIVED.to_owned());
    scopes.push(PG_SESSION_LONG_LIVED.to_owned());
    let created_before = if thresholds.short_lived_created_before >= thresholds.long_lived_created_before {
        thresholds.short_lived_created_before
    } else {
        thresholds.long_lived_created_before
    };
    let query = OAuth2SessionQuery {
        last_active_before: thresholds.inactive_before,
        include_never_active: true,
        created_before: Some(created_before),
        scope_containing_any: scopes,
        any_user: true,
        only_dynamic_clients: false,
        active_only: true,
    };
    assert forall|session: OAuth2SessionRecord|
        #[trigger] query.selects(session) == spec_pg_query_selects(*thresholds, session) by {
        let tokens = query.scope_containing_any@;
        let scope = session.scope@;
        if spec_scope_contains(scope, PG_SESSION_SHORT_LIVED@) {
            let j = choose|j: int| 0 <= j < scope.len() && #[trigger] scope[j]@ == PG_SESSION_SHORT_LIVED@;
            assert(tokens[0]@ == scope[j]@);
        }
        if spec_scope_contains(scope, PG_SESSION_LONG_LIVED@) {
            let j = choose|j: int| 0 <= j < scope.len() && #[trigger] scope[j]@ == PG_SESSION_LONG_LIVED@;
            assert(tokens[1]@ == scope[j]@);
        }
        if exists|i: int, j: int|
            0 <= i < tokens.len() && 0 <= j < scope.len() && #[trigger] tokens[i]@ == #[trigger] scope[j]@ {
            let (i, j) = choose|i: int, j: int|
                0 <= i < tokens.len() && 0 <= j < scope.len() && #[trigger] tokens[i]@ == #[trigger] scope[j]@;
            assert(scope[j]@ == tokens[i]@);
            if i == 0 {
                assert(spec_scope_contains(scope, PG_SESSION_SHORT_LIVED@));
            } else {
                assert(spec_scope_contains(scope, PG_SESSION_LONG_LIVED@));
            }
        }
    }
    query
}

/// An OAuth2 session returned by the scope-based expiration query.
#[derive(Clone, Debug)]
pub struct PgSessionCandidate {
    /// The session's id.
    pub id: u128,
    /// The user the session belongs to, if any.
    pub user_id: Option<u128>,
    /// When the session was created.
    pub created_at: i64,
    /// The session's scope tokens, each by its text.
    pub scope: Vec<String>,
}

/// Whether a session with this creation time and scope is past its lifetime:
/// the short-lived scope takes precedence over the long-lived one, and a
/// session with neither is never past it.
pub open spec fn spec_should_expire(
    thresholds: PgExpirationThresholds,
    created_at: i64,
    scope: Seq<String>,
) -> bool {
    if spec_scope_contains(scope, PG_SESSION_SHORT_LIVED@) {
        created_at < thresholds.short_lived_created_before
    } else if spec_scope_contains(scope, PG_SESSION_LONG_LIVED@) {
        created_at < thresholds.long_lived_created_before
    } else {
        false
    }
}

/// Whether `session` is past the lifetime its scope gives it.
pub fn should_expire_pg_session(thresholds: &PgExpirationThresholds, session: &PgSessionCandidate) -> (result: bool)
    ensures
        result == spec_should_expire(*thresholds, session.created_at, session.scope@),
{
    if scope_contains(&session.scope, PG_SESSION_SHORT_LIVED) {
        session.created_at < thresholds.short_lived_created_before
    } else if scope_contains(&session.scope, PG_SESSION_LONG_LIVED) {
        session.created_at < thresholds.long_lived_created_before
    } else {
        false
    }
}

/// The sessions of a batch that are past their lifetime, in batch order.
pub open spec fn pg_sessions_to_expire(
    thresholds: PgExpirationThresholds,
    sessions: Seq<PgSessionCandidate>,
) -> Seq<SessionToExpire>
    decreases sessions.len(),
{
    if sessions.len() == 0 {
        Seq::empty()
    } else {
        let earlier = pg_sessions_to_expire(thresholds, sessions.drop_last());
        let last = sessions.last();
        if spec_should_expire(thresholds, last.created_at, last.scope@) {
            earlier.push(SessionToExpire { id: last.id, user_id: last.user_id })
        } else {
            earlier
        }
    }
}

/// A session that holds neither lifetime scope is never expired by its
/// lifetime, whatever the thresholds.
pub proof fn law_sessions_without_lifetime_scope_never_expire(
    thresholds: PgExpirationThresholds,
    created_at: i64,
    scope: Seq<String>,
)
    requires
        !spec_scope_contains(scope, PG_SESSION_SHORT_LIVED@),
        !spec_scope_contains(scope, PG_SESSION_LONG_LIVED@),
    ensures
        !spec_should_expire(thresholds, created_at, scope),
{
}

/// With an enabled configuration, at `now`, a session is past its lifetime
/// exactly when it was created more than the lifetime of its scope ago: the
/// short lifetime for the short-lived scope (which takes precedence), the
/// long lifetime for the long-lived scope.
pub proof fn law_expiry_by_lifetime(
    config: PgSessionExpirationConfig,
    now: i64,
    created_at: i64,
    scope: Seq<String>,
)
    requires
        pg_config_representable(config, now),
    ensures
        spec_should_expire(spec_pg_thresholds(config, now), created_at, scope) == if spec_scope_contains(
            scope,
            PG_SESSION_SHORT_LIVED@,
        ) {
            created_at < now - config.short_lived_max_lifetime * 1_000_000
        } else if spec_scope_contains(scope, PG_SESSION_LONG_LIVED@) {
            created_at < now - config.long_lived_max_lifetime * 1_000_000
        } else {
            false
        },
{
}

/// Expiration is monotone in time: a session past its lifetime at `earlier`
/// is still past it at any later instant, and the inactivity threshold only
/// moves forward.
pub proof fn law_expiry_monotone_in_time(
    config: PgSessionExpirationConfig,
    earlier: i64,
    later: i64,
    created_at: i64,
    scope: Seq<String>,
)
    requires
        earlier <= later,
        pg_config_representable(config, earlier),
        pg_config_representable(config, later),
    ensures
        spec_should_expire(spec_pg_thresholds(config, earlier), created_at, scope) ==> spec_should_expire(
            spec_pg_thresholds(config, later),
            created_at,
            scope,
        ),
        spec_pg_thresholds(config, earlier).inactive_before <= spec_pg_thresholds(
            config,
            later,
        ).inactive_before,
{
}

/// Filtering the query by creation time loses no session that is past its
/// lifetime, whichever of the two lifetimes is longer.
pub proof fn law_query_keeps_every_expirable_session(
    thresholds: PgExpirationThresholds,
    created_at: i64,
    scope: Seq<String>,
)
    requires
        spec_should_expire(thresholds, created_at, scope),
    ensures
        created_at < later_created_before(thresholds),
{
}

/// With an enabled configuration, at `now`, the scope-based expiration
/// selects and expires a session exactly when it is active, belongs to a
/// user, has been inactive (since its last activity, or its creation if it
/// was never active) for longer than the inactivity TTL, and was created
/// more than the lifetime of its scope ago: the short lifetime for the
/// short-lived scope (which takes precedence), the long lifetime for the
/// long-lived scope. Sessions with neither scope are never expired.
pub proof fn law_pg_expiry_follows_configuration(
    config: PgSessionExpirationConfig,
    now: i64,
    session: OAuth2SessionRecord,
)
    requires
        pg_config_representable(config, now),
    ensures
        spec_pg_query_selects(spec_pg_thresholds(config, now), session) && spec_should_expire(
            spec_pg_thresholds(config, now),
            session.activity.created_at,
            session.scope@,
        ) <==> {
            &&& !session.activity.finished
            &&& session.user_id is Some
            &&& inactive_since(session.activity) < now - config.inactivity_ttl * 1_000_000
            &&& if spec_scope_contains(session.scope@, PG_SESSION_SHORT_LIVED@) {
                session.activity.created_at < now - config.short_lived_max_lifetime * 1_000_000
            } else if spec_scope_contains(session.scope@, PG_SESSION_LONG_LIVED@) {
                session.activity.created_at < now - config.long_lived_max_lifetime * 1_000_000
            } else {
                false
            }
        },
{
}

/// The sessions picked from a batch are exactly those past their lifetime:
/// each picked session is one of the batch that is past it, and each session
/// of the batch that is past it is picked.
pub proof fn law_picks_exactly_expired_sessions(
    thresholds: PgExpirationThresholds,
    sessions: Seq<PgSessionCandidate>,
)
    ensures
        forall|k: int|
            0 <= k < pg_sessions_to_expire(thresholds, sessions).len() ==> exists|i: int|
                0 <= i < sessions.len() && spec_should_expire(
                    thresholds,
                    sessions[i].created_at,
                    sessions[i].scope@,
                ) && #[trigger] pg_sessions_to_expire(thresholds, sessions)[k] == (SessionToExpire {
                    id: sessions[i].id,
                    user_id: sessions[i].user_id,
                }),
        forall|i: int|
            0 <= i < sessions.len() && spec_should_expire(
                thresholds,
                sessions[i].created_at,
                sessions[i].scope@,
            ) ==> pg_sessions_to_expire(thresholds, sessions).contains(
                SessionToExpire { id: #[trigger] sessions[i].id, user_id: sessions[i].user_id },
            ),
    decreases sessions.len(),
{
    if sessions.len() > 0 {
        let earlier = sessions.drop_last();
        law_picks_exactly_expired_sessions(thresholds, earlier);
        let picked = pg_sessions_to_expire(thresholds, sessions);
        let before = pg_sessions_to_expire(thresholds, earlier);
        let last = sessions.last();
        assert forall|k: int| 0 <= k < picked.len() implies exists|i: int|
            0 <= i < sessions.len() && spec_should_expire(
                thresholds,
                sessions[i].created_at,
                sessions[i].scope@,
            ) && #[trigger] picked[k] == (SessionToExpire {
                id: sessions[i].id,
                user_id: sessions[i].user_id,
            }) by {
            if k < before.len() {
                assert(picked[k] == before[k]);
                let i = choose|i: int|
                    0 <= i < earlier.len() && spec_should_expire(
                        thresholds,
                        earlier[i].created_at,
                        earlier[i].scope@,
                    ) && before[k] == (SessionToExpire { id: earlier[i].id, user_id: earlier[i].user_id });
                assert(sessions[i] == earlier[i]);
            } else {
                assert(sessions[sessions.len() - 1] == last);
            }
        }
        assert forall|i: int|
            0 <= i < sessions.len() && spec_should_expire(
                thresholds,
                sessions[i].created_at,
                sessions[i].scope@,
            ) implies picked.contains(
            SessionToExpire { id: #[trigger] sessions[i].id, user_id: sessions[i].user_id },
        ) by {
            let x = SessionToExpire { id: sessions[i].id, user_id: sessions[i].user_id };
            if i < sessions.len() - 1 {
                assert(earlier[i] == sessions[i]);
                assert(before.contains(x));
                let k = choose|k: int| 0 <= k < before.len() && before[k] == x;
                assert(picked[k] == x);
            } else {
                assert(picked[picked.len() - 1] == x);
            }
        }
    }
}

/// The steps that expire the sessions of a batch that are past their
/// lifetime; the others are skipped.
pub fn plan_pg_session_expiry(thresholds: &PgExpirationThresholds, sessions: &Vec<PgSessionCandidate>) -> (steps: Vec<ExpiryStep>)
    requires
        sync_delays_in_range(pg_sessions_to_expire(*thresholds, sessions@)),
    ensures
        steps@ == expiry_steps(pg_sessions_to_expire(*thresholds, sessions@)),
{
    let mut expiring: Vec<SessionToExpire> = Vec::new();
    let mut i: usize = 0;
    while i < sessions.len()
        invariant
            0 <= i <= sessions.len(),
            expiring@ == pg_sessions_to_expire(*thresholds, sessions@.take(i as int)),
        decreases sessions.len() - i,
    {
        assert(sessions@.take(i + 1).drop_last() =~= sessions@.take(i as int));
        let session = &sessions[i];
        if should_expire_pg_session(thresholds, session) {
            expiring.push(SessionToExpire { id: session.id, user_id: session.user_id });
        }
        i = i + 1;
    }
    assert(sessions@.take(sessions.len() as int) =~= sessions@);
    plan_session_expiry(&expiring)
}

} // verus!
