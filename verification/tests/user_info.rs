use pg_sessions::user_info::{display_name_from_lookup, first_email, DisplayNameLookup};

#[test]
fn test_fetch_user_email_returns_email() {
    let listing: Result<Vec<String>, ()> = Ok(vec!["test@example.com".to_owned()]);
    assert_eq!(first_email(listing), Some("test@example.com".to_owned()));
}

#[test]
fn test_fetch_user_email_returns_none_when_no_email() {
    let listing: Result<Vec<String>, ()> = Ok(vec![]);
    assert_eq!(first_email(listing), None);
}

#[test]
fn first_of_several_emails_is_shown() {
    let listing: Result<Vec<String>, ()> =
        Ok(vec!["a@example.com".to_owned(), "b@example.com".to_owned()]);
    assert_eq!(first_email(listing), Some("a@example.com".to_owned()));
}

#[test]
fn failed_email_listing_shows_nothing() {
    let listing: Result<Vec<String>, &str> = Err("database unavailable");
    assert_eq!(first_email(listing), None);
}

#[test]
fn display_name_comes_from_the_answer() {
    assert_eq!(
        display_name_from_lookup(DisplayNameLookup::Answered(Some("Alice".to_owned()))),
        Some("Alice".to_owned())
    );
    assert_eq!(display_name_from_lookup(DisplayNameLookup::Answered(None)), None);
}

#[test]
fn failed_or_late_display_name_lookup_shows_nothing() {
    assert_eq!(display_name_from_lookup(DisplayNameLookup::Failed), None);
    assert_eq!(display_name_from_lookup(DisplayNameLookup::TimedOut), None);
}
