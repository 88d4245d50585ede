use webreg_scraper::gateway::{auth_outcome, bearer_rejection};
use webreg_scraper::keys::{
    check_key_result, format_api_key, issue_entry, new_key_entry, parse_bearer,
    single_row_changed, AuthCheckResult, BearerError, KEY_LIFETIME_SECS,
};

fn is_key_part(s: &str) -> bool {
    s.len() == 36 && s.chars().all(|c| c.is_ascii_digit() || ('a'..='f').contains(&c) || c == '-')
}

#[test]
fn issued_credential_has_the_documented_shape() {
    let e = new_key_entry(Some("hello".to_string())).ok().unwrap();
    let cred = format_api_key(&e);
    let (p, t) = cred.split_once('#').unwrap();
    assert!(is_key_part(p));
    assert!(is_key_part(t));
    assert_ne!(p, t);
    assert_eq!(e.expires_at, e.created_at + KEY_LIFETIME_SECS);
    assert_eq!(e.description.as_deref(), Some("hello"));
}

#[test]
fn issued_key_is_valid_right_away() {
    let e = issue_entry("p".to_string(), "t".to_string(), 1000, None).unwrap();
    assert_eq!(e.expires_at, 1000 + 365 * 24 * 3600);
    assert_eq!(check_key_result(&vec![e.expires_at], 1000), AuthCheckResult::Valid);
}

#[test]
fn key_created_a_year_and_a_day_ago_has_expired() {
    let now = 1_700_000_000;
    let e = issue_entry("p".to_string(), "t".to_string(), now - 366 * 24 * 3600, None).unwrap();
    assert_eq!(check_key_result(&vec![e.expires_at], now), AuthCheckResult::ExpiredKey);
}

#[test]
fn no_row_means_unknown_key() {
    assert_eq!(check_key_result(&vec![], 5), AuthCheckResult::NoPrefixOrKeyFound);
}

#[test]
fn expiry_at_now_is_still_valid() {
    assert_eq!(check_key_result(&vec![5], 5), AuthCheckResult::Valid);
    assert_eq!(check_key_result(&vec![4], 5), AuthCheckResult::ExpiredKey);
}

#[test]
fn exactly_one_changed_row_is_success() {
    assert!(single_row_changed(1));
    assert!(!single_row_changed(0));
    assert!(!single_row_changed(2));
}

#[test]
fn bearer_header_is_split_on_first_hash() {
    let (p, t) = parse_bearer(Some("Bearer abc#def")).unwrap();
    assert_eq!(p, "abc");
    assert_eq!(t, "def");
    let (p, t) = parse_bearer(Some("Bearer a#b#c")).unwrap();
    assert_eq!(p, "a");
    assert_eq!(t, "b#c");
}

#[test]
fn bearer_header_without_separator_is_refused() {
    let e = parse_bearer(Some("Bearer abcdef")).unwrap_err();
    assert_eq!(e, BearerError::MissingSeparator);
    let r = bearer_rejection(e);
    assert_eq!(r.status, 401);
    assert_eq!(r.message, "Token is in invalid format (missing separator).");
}

#[test]
fn missing_or_other_scheme_is_refused() {
    assert_eq!(parse_bearer(None).unwrap_err(), BearerError::MissingToken);
    assert_eq!(parse_bearer(Some("Basic abc#def")).unwrap_err(), BearerError::MissingToken);
    assert_eq!(parse_bearer(Some("Bear")).unwrap_err(), BearerError::MissingToken);
    assert_eq!(bearer_rejection(BearerError::MissingToken).message, "You didn't provide a bearer token.");
}

#[test]
fn auth_outcomes_tell_unknown_from_expired() {
    assert!(auth_outcome(AuthCheckResult::Valid).is_ok());
    let e = auth_outcome(AuthCheckResult::NoPrefixOrKeyFound).unwrap_err();
    assert_eq!((e.status, e.message.as_str()), (401, "Token is invalid or the key doesn't exist."));
    let e = auth_outcome(AuthCheckResult::ExpiredKey).unwrap_err();
    assert_eq!((e.status, e.message.as_str()), (401, "Token is expired."));
}

#[test]
fn issuing_at_the_end_of_time_is_refused() {
    assert!(issue_entry("p".to_string(), "t".to_string(), i64::MAX - KEY_LIFETIME_SECS, None).is_some());
    assert!(issue_entry("p".to_string(), "t".to_string(), i64::MAX - KEY_LIFETIME_SECS + 1, None).is_none());
}

#[test]
fn credential_is_prefix_hash_token() {
    let e = issue_entry("abc".to_string(), "def".to_string(), 0, Some("d".to_string())).unwrap();
    assert_eq!(format_api_key(&e), "abc#def");
    assert_eq!(e.created_at, 0);
    assert_eq!(e.description.as_deref(), Some("d"));
}
