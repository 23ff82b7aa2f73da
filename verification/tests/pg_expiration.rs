use pg_sessions::config::{
    default_long_lived_session_max_lifetime, default_pg_session_inactivity_ttl,
    default_short_lived_session_max_lifetime, PgConfig, PgSessionExpirationConfig,
};
use pg_sessions::expiry::ExpiryStep;
use pg_sessions::pg_expiration::{
    pg_expiration_thresholds, pg_oauth2_sessions_query, plan_pg_session_expiry,
    should_expire_pg_session, PgExpirationThresholds, PgSessionCandidate,
};
use pg_sessions::scopes::{PG_MAS_LOGOUT, PG_SESSION_LONG_LIVED, PG_SESSION_SHORT_LIVED};

const SECOND: i64 = 1_000_000;
const HOUR: i64 = 3600 * SECOND;
const DAY: i64 = 24 * HOUR;
/// An arbitrary starting instant, in microseconds since the epoch.
const T0: i64 = 1_700_000_000 * SECOND;

/// The configuration used by the job tests: 10 hours, 30 days, 1 hour.
fn config_with_pg_session_expiration() -> PgSessionExpirationConfig {
    PgSessionExpirationConfig {
        enabled: true,
        short_lived_max_lifetime: 10 * 3600,
        long_lived_max_lifetime: 30 * 86400,
        inactivity_ttl: 3600,
    }
}

fn candidate(id: u128, user: u128, created_at: i64, scopes: &[&str]) -> PgSessionCandidate {
    PgSessionCandidate {
        id,
        user_id: Some(user),
        created_at,
        scope: scopes.iter().map(|s| s.to_string()).collect(),
    }
}

/// Whether the storage query of `thresholds` selects a session with this
/// last activity and creation time (its scope and state aside).
fn query_selects(thresholds: &PgExpirationThresholds, last_active_at: i64, created_at: i64) -> bool {
    let query = pg_oauth2_sessions_query(thresholds);
    last_active_at < query.last_active_before
        && query.created_before.map_or(true, |before| created_at < before)
}

#[test]
fn test_expire_short_lived_sessions() {
    let config = config_with_pg_session_expiration();
    let short = candidate(1, 100, T0, &["openid", PG_SESSION_SHORT_LIVED]);
    let plain = candidate(2, 100, T0, &["openid"]);

    // Right away, nothing is past its lifetime.
    let thresholds = pg_expiration_thresholds(&Some(config), T0).unwrap();
    assert!(!should_expire_pg_session(&thresholds, &short));
    assert!(!should_expire_pg_session(&thresholds, &plain));

    // 11 hours later the short-lived session is past 10h and inactive for 1h.
    let now = T0 + 11 * HOUR;
    let thresholds = pg_expiration_thresholds(&Some(config), now).unwrap();
    assert!(query_selects(&thresholds, T0, T0));
    let steps = plan_pg_session_expiry(&thresholds, &vec![short.clone(), plain.clone()]);
    assert_eq!(
        steps,
        vec![
            ExpiryStep::SyncDevices { user_id: 100, delay_seconds: 60 },
            ExpiryStep::Finish { session_id: 1 },
        ]
    );
}

#[test]
fn test_expire_long_lived_sessions() {
    let config = config_with_pg_session_expiration();
    let long = candidate(5, 200, T0, &["openid", PG_SESSION_LONG_LIVED]);
    let now = T0 + 30 * DAY + HOUR;
    let thresholds = pg_expiration_thresholds(&Some(config), now).unwrap();
    assert!(query_selects(&thresholds, T0, T0));
    let steps = plan_pg_session_expiry(&thresholds, &vec![long]);
    assert_eq!(
        steps,
        vec![
            ExpiryStep::SyncDevices { user_id: 200, delay_seconds: 60 },
            ExpiryStep::Finish { session_id: 5 },
        ]
    );
}

#[test]
fn test_active_sessions_not_expired() {
    let config = config_with_pg_session_expiration();
    // Created at T0, active again 10 hours later, checked one hour after that.
    let last_active_at = T0 + 10 * HOUR;
    let now = last_active_at + HOUR;
    let thresholds = pg_expiration_thresholds(&Some(config), now).unwrap();
    // Past its lifetime, but not inactive long enough to be selected.
    let short = candidate(3, 300, T0, &["openid", PG_SESSION_SHORT_LIVED]);
    assert!(should_expire_pg_session(&thresholds, &short));
    assert!(!query_selects(&thresholds, last_active_at, T0));
}

#[test]
fn test_long_lived_not_expired_before_lifetime() {
    let config = config_with_pg_session_expiration();
    let long = candidate(4, 400, T0, &["openid", PG_SESSION_LONG_LIVED]);
    let now = T0 + 15 * DAY;
    let thresholds = pg_expiration_thresholds(&Some(config), now).unwrap();
    // Old enough for the query, but not past the long lifetime.
    assert!(query_selects(&thresholds, T0, T0));
    assert!(!should_expire_pg_session(&thresholds, &long));
    assert_eq!(plan_pg_session_expiry(&thresholds, &vec![long]), vec![]);
}

#[test]
fn thresholds_are_now_minus_each_duration() {
    let config = config_with_pg_session_expiration();
    let thresholds = pg_expiration_thresholds(&Some(config), T0).unwrap();
    assert_eq!(
        thresholds,
        PgExpirationThresholds {
            short_lived_created_before: T0 - 10 * HOUR,
            long_lived_created_before: T0 - 30 * DAY,
            inactive_before: T0 - HOUR,
        }
    );
}

#[test]
fn disabled_or_absent_configuration_schedules_nothing() {
    let mut config = config_with_pg_session_expiration();
    config.enabled = false;
    assert_eq!(pg_expiration_thresholds(&Some(config), T0), None);
    assert_eq!(pg_expiration_thresholds(&None, T0), None);
}

#[test]
fn short_lived_scope_takes_precedence() {
    let config = config_with_pg_session_expiration();
    let both = candidate(6, 600, T0, &[PG_SESSION_LONG_LIVED, PG_SESSION_SHORT_LIVED]);
    // 11 hours: past the short lifetime, far from the long one.
    let thresholds = pg_expiration_thresholds(&Some(config), T0 + 11 * HOUR).unwrap();
    assert!(should_expire_pg_session(&thresholds, &both));
}

#[test]
fn sessions_without_lifetime_scope_are_never_expired() {
    let config = config_with_pg_session_expiration();
    let other = candidate(7, 700, T0, &["openid", PG_MAS_LOGOUT, "urn:pg:session:other"]);
    let thresholds = pg_expiration_thresholds(&Some(config), T0 + 1000 * DAY).unwrap();
    assert!(!should_expire_pg_session(&thresholds, &other));
}

#[test]
fn creation_exactly_at_threshold_is_not_expired() {
    let config = config_with_pg_session_expiration();
    let now = T0 + 10 * HOUR;
    let thresholds = pg_expiration_thresholds(&Some(config), now).unwrap();
    let at = candidate(8, 800, T0, &[PG_SESSION_SHORT_LIVED]);
    let before = candidate(9, 800, T0 - 1, &[PG_SESSION_SHORT_LIVED]);
    assert!(!should_expire_pg_session(&thresholds, &at));
    assert!(should_expire_pg_session(&thresholds, &before));
}

#[test]
fn expiration_is_monotone_in_time() {
    let config = config_with_pg_session_expiration();
    let session = candidate(10, 1000, T0, &[PG_SESSION_LONG_LIVED]);
    let mut was_expired = false;
    for day in 0..40 {
        let thresholds = pg_expiration_thresholds(&Some(config), T0 + day * DAY).unwrap();
        let expired = should_expire_pg_session(&thresholds, &session);
        assert!(!was_expired || expired);
        was_expired = expired;
    }
    assert!(was_expired);
}

#[test]
fn query_asks_for_both_lifetime_scopes() {
    let config = config_with_pg_session_expiration();
    let thresholds = pg_expiration_thresholds(&Some(config), T0).unwrap();
    let query = pg_oauth2_sessions_query(&thresholds);
    assert_eq!(
        query.scope_containing_any,
        vec![PG_SESSION_SHORT_LIVED.to_string(), PG_SESSION_LONG_LIVED.to_string()]
    );
    assert_eq!(query.created_before, Some(T0 - 10 * HOUR));
    assert_eq!(query.last_active_before, T0 - HOUR);
    assert!(query.any_user && query.active_only && !query.only_dynamic_clients);
}

#[test]
fn batch_skips_unexpired_sessions_and_syncs_each_user_once() {
    let config = config_with_pg_session_expiration();
    let thresholds = pg_expiration_thresholds(&Some(config), T0 + 11 * HOUR).unwrap();
    let sessions = vec![
        candidate(1, 10, T0, &[PG_SESSION_SHORT_LIVED]),
        candidate(2, 20, T0, &[PG_SESSION_LONG_LIVED]),
        candidate(3, 10, T0, &[PG_SESSION_SHORT_LIVED]),
        candidate(4, 30, T0, &[PG_SESSION_SHORT_LIVED]),
    ];
    assert_eq!(
        plan_pg_session_expiry(&thresholds, &sessions),
        vec![
            ExpiryStep::SyncDevices { user_id: 10, delay_seconds: 60 },
            ExpiryStep::Finish { session_id: 1 },
            ExpiryStep::Finish { session_id: 3 },
            ExpiryStep::SyncDevices { user_id: 30, delay_seconds: 70 },
            ExpiryStep::Finish { session_id: 4 },
        ]
    );
}

#[test]
fn default_durations() {
    assert_eq!(default_short_lived_session_max_lifetime(), 36_000);
    assert_eq!(default_long_lived_session_max_lifetime(), 2_592_000);
    assert_eq!(default_pg_session_inactivity_ttl(), 1_800);
    // Each default lies within the range the configuration schema documents.
    assert!((60..=7_776_000).contains(&default_short_lived_session_max_lifetime()));
    assert!((60..=7_776_000).contains(&default_long_lived_session_max_lifetime()));
    assert!((60..=86_400).contains(&default_pg_session_inactivity_ttl()));
}

#[test]
fn pg_config_is_default_only_without_section() {
    assert!(PgConfig::default().is_default());
    let config = PgConfig { session_expiration: Some(config_with_pg_session_expiration()) };
    assert!(!config.is_default());
}

#[test]
fn query_keeps_every_session_past_its_lifetime() {
    let config = config_with_pg_session_expiration();
    let now = T0 + 31 * DAY;
    let thresholds = pg_expiration_thresholds(&Some(config), now).unwrap();
    let long = candidate(11, 1100, T0, &[PG_SESSION_LONG_LIVED]);
    assert!(should_expire_pg_session(&thresholds, &long));
    let query = pg_oauth2_sessions_query(&thresholds);
    assert!(long.created_at < query.created_before.unwrap());
}

#[test]
fn long_lifetime_below_short_lifetime_still_expires_long_lived_sessions() {
    // With the long lifetime under the short one, a long-lived session past
    // its lifetime but younger than the short lifetime is still selected.
    let config = PgSessionExpirationConfig {
        enabled: true,
        short_lived_max_lifetime: 10 * 3600,
        long_lived_max_lifetime: 3600,
        inactivity_ttl: 60,
    };
    let now = T0 + 5 * HOUR;
    let thresholds = pg_expiration_thresholds(&Some(config), now).unwrap();
    let long = candidate(12, 1200, T0, &[PG_SESSION_LONG_LIVED]);
    assert!(should_expire_pg_session(&thresholds, &long));
    assert!(query_selects(&thresholds, T0, T0));
    assert_eq!(pg_oauth2_sessions_query(&thresholds).created_before, Some(now - HOUR));
    // A short-lived session of the same age is not past its lifetime.
    let short = candidate(13, 1300, T0, &[PG_SESSION_SHORT_LIVED]);
    assert!(!should_expire_pg_session(&thresholds, &short));
    assert_eq!(
        plan_pg_session_expiry(&thresholds, &vec![long, short]),
        vec![
            ExpiryStep::SyncDevices { user_id: 1200, delay_seconds: 60 },
            ExpiryStep::Finish { session_id: 12 },
        ]
    );
}
