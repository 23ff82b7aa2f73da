//! Scope tokens that steer session behaviour, and scope membership.

use vstd::prelude::*;

verus! {

/// `urn:pg:mas-logout`: when a session with this scope revokes its access or
/// refresh token, the browser session it is linked to ends too, with every
/// other OAuth2 session linked to that browser session.
pub const PG_MAS_LOGOUT: &'static str = "urn:pg:mas-logout";

/// `urn:pg:session:short-lived`: the session expires once it is older than
/// the configured short lifetime and has been inactive long enough.
pub const PG_SESSION_SHORT_LIVED: &'static str = "urn:pg:session:short-lived";

/// `urn:pg:session:long-lived`: the session expires once it is older than
/// the configured long lifetime and has been inactive long enough.
pub const PG_SESSION_LONG_LIVED: &'static str = "urn:pg:session:long-lived";

/// Whether a scope holds the token `token`.
pub open spec fn spec_scope_contains(scope: Seq<String>, token: Seq<char>) -> bool {
    exists|i: int| 0 <= i < scope.len() && #[trigger] scope[i]@ == token
}

/// Whether `scope` holds the token `token`.
pub fn scope_contains(scope: &Vec<String>, token: &str) -> (result: bool)
    ensures
        result == spec_scope_contains(scope@, token@),
{
    let wanted: String = token.to_owned();
    let mut i: usize = 0;
    while i < scope.len()
        invariant
            0 <= i <= scope.len(),
            wanted@ == token@,
            forall|j: int| 0 <= j < i ==> scope@[j]@ != token@,
        decreases scope.len() - i,
    {
        if scope[i] == wanted {
            return true;
        }
        i = i + 1;
    }
    false
}

} // verus!
