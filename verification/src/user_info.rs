//! What is shown of a user in place of their Matrix ID: an email address and
//! a display name, each when it can be had.

use vstd::prelude::*;

verus! {

/// How long the homeserver may take to answer a display-name lookup, in seconds.
pub const DISPLAY_NAME_LOOKUP_TIMEOUT_SECONDS: u64 = 1;

/// The email address shown for a user: the first of their addresses, or none
/// when they have none or the listing failed.
pub fn first_email<E>(listing: Result<Vec<String>, E>) -> (email: Option<String>)
    ensures
        email == match listing {
            Ok(emails) => if emails@.len() > 0 {
                Some(emails@[0])
            } else {
                None
            },
            Err(_) => None,
        },
{
    match listing {
        Ok(mut emails) => {
            if emails.len() > 0 {
                Some(emails.remove(0))
            } else {
                None
            }
        },
        Err(_) => None,
    }
}

/// How a display-name lookup on the homeserver ended.
#[derive(Clone, Debug)]
pub enum DisplayNameLookup {
    /// The homeserver answered; the user may have no display name.
    Answered(Option<String>),
    /// The homeserver reported an error.
    Failed,
    /// The homeserver did not answer in time.
    TimedOut,
}

/// The display name shown for a user: the one the homeserver gave, or none
/// when it has none, failed or did not answer in time.
pub fn display_name_from_lookup(lookup: DisplayNameLookup) -> (name: Option<String>)
    ensures
        name == match lookup {
            DisplayNameLookup::Answered(n) => n,
            _ => None,
        },
{
    match lookup {
        DisplayNameLookup::Answered(name) => name,
        DisplayNameLookup::Failed => None,
        DisplayNameLookup::TimedOut => None,
    }
}

} // verus!
