use riichi_auth::error::AuthError;
use riichi_auth::store::CredentialStore;

const T0: i64 = 1_700_000_000_000;

#[test]
fn issue_then_authenticate_succeeds() {
    let mut store = CredentialStore::new();
    let code = store.issue_code("someone@example.com", T0);
    let first = store.authenticate("someone@example.com", &code, "10.0.0.1", T0).unwrap();
    assert!(!first.is_empty());
    assert_eq!(first.len(), 36);
    let second = store.authenticate("someone@example.com", &code, "10.0.0.1", T0 + 1).unwrap();
    assert_ne!(first, second);
}

#[test]
fn code_valid_until_one_minute() {
    let mut store = CredentialStore::new();
    let code = store.issue_code("a@b.com", T0);
    assert!(store.authenticate("a@b.com", &code, "ip", T0 + 59_999).is_ok());
    assert_eq!(store.authenticate("a@b.com", &code, "ip", T0 + 60_000), Err(AuthError::CodeExpired));
    assert_eq!(store.authenticate("a@b.com", &code, "ip", T0 + 3_600_000), Err(AuthError::CodeExpired));
}

#[test]
fn wrong_code_is_invalid_whether_or_not_expired() {
    let mut store = CredentialStore::new();
    let code = store.issue_code("a@b.com", T0);
    let wrong = if code == "AAAAAAA" { "BBBBBBB" } else { "AAAAAAA" };
    assert_eq!(store.authenticate("a@b.com", wrong, "ip", T0), Err(AuthError::InvalidCode));
    assert_eq!(store.authenticate("a@b.com", wrong, "ip", T0 + 120_000), Err(AuthError::InvalidCode));
    assert_eq!(store.authenticate("a@b.com", "", "ip", T0), Err(AuthError::InvalidCode));
}

#[test]
fn check_follows_latest_token() {
    let mut store = CredentialStore::new();
    let code = store.issue_code("a@b.com", T0);
    assert!(!store.check("a@b.com", &None));
    assert!(!store.check("a@b.com", &Some(String::new())));
    let first = store.authenticate("a@b.com", &code, "ip", T0).unwrap();
    assert!(store.check("a@b.com", &Some(first.clone())));
    assert!(!store.check("a@b.com", &None));
    assert!(!store.check("a@b.com", &Some("wrong".to_string())));
    let second = store.authenticate("a@b.com", &code, "ip", T0 + 10).unwrap();
    assert!(store.check("a@b.com", &Some(second.clone())));
    assert!(!store.check("a@b.com", &Some(first)));
}

#[test]
fn new_code_keeps_session() {
    let mut store = CredentialStore::new();
    let code = store.issue_code("a@b.com", T0);
    let token = store.authenticate("a@b.com", &code, "ip", T0).unwrap();
    let newer = store.issue_code("a@b.com", T0 + 5);
    assert!(store.check("a@b.com", &Some(token)));
    let rec = store.get("a@b.com").unwrap();
    assert_eq!(rec.code, newer);
    assert_eq!(rec.code_issued_at, T0 + 5);
}

#[test]
fn email_lookup_ignores_case() {
    let mut store = CredentialStore::new();
    let code = store.issue_code("A@b.com", T0);
    let token = store.authenticate("a@B.COM", &code, "ip", T0).unwrap();
    assert!(store.check("a@b.com", &Some(token)));
    assert_eq!(store.get("a@b.com").unwrap().email, "A@B.COM");
}

#[test]
fn new_member_scenario() {
    let mut store = CredentialStore::new();
    assert!(store.get("new@x.com").is_none());
    let code = store.issue_code("new@x.com", T0);
    let rec = store.get("new@x.com").unwrap();
    assert_eq!(rec.code, code);
    assert_eq!(rec.code_issued_at, T0);
    assert_eq!(rec.session_id, None);
    let session = store.authenticate("new@x.com", &code, "127.0.0.1", T0 + 30_000).unwrap();
    assert_eq!(store.get("new@x.com").unwrap().ip_address, Some("127.0.0.1".to_string()));
    assert!(store.check("new@x.com", &Some(session.clone())));
    assert!(!store.check("new@x.com", &Some("wrong".to_string())));
    assert_eq!(
        store.authenticate("new@x.com", &code, "127.0.0.1", T0 + 30_000 + 61_000),
        Err(AuthError::CodeExpired)
    );
    assert!(store.check("new@x.com", &Some(session)));
}

#[test]
fn unknown_email_not_found() {
    let mut store = CredentialStore::new();
    assert_eq!(store.authenticate("nobody@x.com", "ABCDEFG", "ip", T0), Err(AuthError::NotFound));
    store.issue_code("somebody@x.com", T0);
    assert_eq!(store.authenticate("nobody@x.com", "ABCDEFG", "ip", T0), Err(AuthError::NotFound));
    assert!(!store.check("nobody@x.com", &Some("x".to_string())));
}

#[test]
fn failed_authentication_changes_nothing() {
    let mut store = CredentialStore::new();
    let code = store.issue_code("a@b.com", T0);
    let token = store.authenticate("a@b.com", &code, "first", T0).unwrap();
    assert!(store.authenticate("a@b.com", &code, "second", T0 + 60_000).is_err());
    let rec = store.get("a@b.com").unwrap();
    assert_eq!(rec.session_id, Some(token));
    assert_eq!(rec.ip_address, Some("first".to_string()));
}
