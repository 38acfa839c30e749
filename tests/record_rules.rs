use riichi_auth::clock::{code_expired, CODE_VALIDITY_MILLIS};
use riichi_auth::code::{generate_code, CODE_LEN};
use riichi_auth::email::normalize_email;
use riichi_auth::error::AuthError;
use riichi_auth::record::{authorize, check_authentication, login, IdentityRecord};

#[test]
fn codes_are_seven_alphanumerics() {
    for _ in 0..50 {
        let code = generate_code();
        assert_eq!(code.chars().count(), CODE_LEN);
        assert!(code.chars().all(|c| c.is_ascii_alphanumeric()));
    }
}

#[test]
fn email_normalised_to_upper_case() {
    assert_eq!(normalize_email("a@b.com"), "A@B.COM");
    assert_eq!(normalize_email("Mixed.Case@Example.org"), "MIXED.CASE@EXAMPLE.ORG");
    assert_eq!(normalize_email(""), "");
}

#[test]
fn expiry_window_edges() {
    assert_eq!(CODE_VALIDITY_MILLIS, 60_000);
    assert!(!code_expired(1_000, 1_000));
    assert!(!code_expired(1_000, 60_999));
    assert!(code_expired(1_000, 61_000));
    assert!(!code_expired(1_000, 0));
    assert!(!code_expired(i64::MAX, i64::MAX));
    assert!(code_expired(i64::MIN, i64::MIN + 60_000));
}

#[test]
fn stored_token_comparison() {
    let tok = Some("abc".to_string());
    assert!(!check_authentication(&None, &None));
    assert!(!check_authentication(&None, &Some(String::new())));
    assert!(!check_authentication(&tok, &None));
    assert!(!check_authentication(&tok, &Some("abd".to_string())));
    assert!(check_authentication(&tok, &Some("abc".to_string())));
}

#[test]
fn issue_creates_or_refreshes() {
    let fresh = IdentityRecord::issue(None, "x@y.z", "CODE123".to_string(), 5);
    assert_eq!(fresh.email, "X@Y.Z");
    assert_eq!(fresh.code, "CODE123");
    assert_eq!(fresh.code_issued_at, 5);
    assert_eq!(fresh.session_id, None);
    let mut rec = fresh;
    rec.session_id = Some("tok".to_string());
    let again = IdentityRecord::issue(Some(rec), "X@y.Z", "OTHER12".to_string(), 9);
    assert_eq!(again.email, "X@Y.Z");
    assert_eq!(again.code, "OTHER12");
    assert_eq!(again.code_issued_at, 9);
    assert_eq!(again.session_id, Some("tok".to_string()));
}

#[test]
fn login_outcomes() {
    assert_eq!(login(None, "C", "ip", 0).err(), Some(AuthError::NotFound));
    let rec = IdentityRecord::new("K".to_string(), "C".to_string(), 0);
    assert_eq!(login(Some(rec), "D", "ip", 0).err(), Some(AuthError::InvalidCode));
    let rec = IdentityRecord::new("K".to_string(), "C".to_string(), 0);
    assert_eq!(login(Some(rec), "C", "ip", 60_000).err(), Some(AuthError::CodeExpired));
    let rec = IdentityRecord::new("K".to_string(), "C".to_string(), 0);
    let (upd, tok) = login(Some(rec), "C", "1.2.3.4", 59_999).unwrap();
    assert_eq!(upd.session_id, Some(tok.clone()));
    assert_eq!(upd.ip_address, Some("1.2.3.4".to_string()));
    assert_eq!(tok.len(), 36);
}

#[test]
fn authorize_outcomes() {
    assert_eq!(authorize(&None, &Some("t".to_string())), Err(AuthError::NotFound));
    let mut rec = IdentityRecord::new("K".to_string(), "C".to_string(), 0);
    assert_eq!(authorize(&Some(rec), &Some("t".to_string())), Err(AuthError::NotAuthenticated));
    rec = IdentityRecord::new("K".to_string(), "C".to_string(), 0);
    rec.session_id = Some("t".to_string());
    let rec = Some(rec);
    assert_eq!(authorize(&rec, &None), Err(AuthError::NotAuthenticated));
    assert_eq!(authorize(&rec, &Some("u".to_string())), Err(AuthError::NotAuthenticated));
    assert_eq!(authorize(&rec, &Some("t".to_string())), Ok(()));
}

#[test]
fn stored_dates_round_trip() {
    let rec = IdentityRecord::from_stored("K".to_string(), "C".to_string(), "1970-01-01T00:01:00Z", None, None).unwrap();
    assert_eq!(rec.code_issued_at, 60_000);
    let rec = IdentityRecord::from_stored("K".to_string(), "C".to_string(), "2023-11-14T22:13:20.500+00:00", None, None).unwrap();
    assert_eq!(rec.code_issued_at, 1_700_000_000_500);
    assert_eq!(
        IdentityRecord::from_stored("K".to_string(), "C".to_string(), "yesterday", None, None).err(),
        Some(AuthError::StoreError)
    );
    let rec = IdentityRecord::new("K".to_string(), "C".to_string(), 0);
    assert_eq!(rec.code_date_text(), Some("1970-01-01T00:00:00+00:00".to_string()));
    let rec = IdentityRecord::new("K".to_string(), "C".to_string(), i64::MAX);
    assert_eq!(rec.code_date_text(), None);
}
