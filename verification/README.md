# pg_sessions

Verified session-expiration rules for an OAuth2 authorization service.

- `src/` is the library, verified with Verus. Instants are microseconds since
  the Unix epoch, durations whole seconds.
  - `time`: duration helpers backed by `chrono::TimeDelta`, and instant arithmetic.
  - `scopes`: the lifetime scope tokens and scope membership.
  - `config`: the scope-based expiration configuration and its defaults.
  - `expiry`: finishing a batch of sessions and spacing out device syncs, with
    the laws every batch obeys.
  - `inactivity`: expiration of sessions inactive for too long.
  - `pg_expiration`: expiration by lifetime scope, with its laws.
  - `user_info`: what is shown of a user when lookups succeed or fail.
- `app/` is the plumbing: configuration (de)serialization, storage and
  homeserver access, and the async job runners that carry out the library's
  decisions.
- `tests/` exercises the library on concrete values.
