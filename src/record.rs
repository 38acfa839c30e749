use vstd::prelude::*;
use crate::clock::{code_expired, expired_at, format_rfc3339_millis, parse_rfc3339_millis, rfc3339_millis, rfc3339_text};
use crate::email::{email_key, normalize_email};
use crate::error::AuthError;
use crate::strings::opt_view;
use crate::token::{new_session_token, TOKEN_LEN};

verus! {

/// The authentication state stored for one identity.
pub struct IdentityRecord {
    /// Lookup key: the email address in upper case.
    pub email: String,
    /// The one-time code issued last.
    pub code: String,
    /// When `code` was issued, in milliseconds since the Unix epoch.
    pub code_issued_at: i64,
    /// The session token minted by the last successful authentication.
    pub session_id: Option<String>,
    /// The address the last successful authentication reported.
    pub ip_address: Option<String>,
}

/// The mathematical value of an `IdentityRecord`.
pub struct IdentityView {
    pub email: Seq<char>,
    pub code: Seq<char>,
    pub code_issued_at: i64,
    pub session_id: Option<Seq<char>>,
    pub ip_address: Option<Seq<char>>,
}

impl View for IdentityRecord {
    type V = IdentityView;

    open spec fn view(&self) -> IdentityView {
        IdentityView {
            email: self.email@,
            code: self.code@,
            code_issued_at: self.code_issued_at,
            session_id: opt_view(self.session_id),
            ip_address: opt_view(self.ip_address),
        }
    }
}

/// The record after a code `code` is issued at `now` under `key`: a new
/// record with no session when there was none, else the previous one with
/// its code and issuance time overwritten and all else kept.
pub open spec fn issued(prev: Option<IdentityView>, key: Seq<char>, code: Seq<char>, now: i64) -> IdentityView {
    match prev {
        Some(p) => IdentityView {
            email: p.email,
            code: code,
            code_issued_at: now,
            session_id: p.session_id,
            ip_address: p.ip_address,
        },
        None => IdentityView {
            email: key,
            code: code,
            code_issued_at: now,
            session_id: None,
            ip_address: None,
        },
    }
}

/// The verdict on a submitted code at instant `now`: a mismatch is reported
/// before an expiry.
pub open spec fn verdict(r: IdentityView, submitted: Seq<char>, now: i64) -> Result<(), AuthError> {
    if submitted != r.code {
        Err(AuthError::InvalidCode)
    } else if expired_at(r.code_issued_at as int, now as int) {
        Err(AuthError::CodeExpired)
    } else {
        Ok(())
    }
}

/// The record after a session `token` is started from address `ip`.
pub open spec fn with_session(r: IdentityView, token: Seq<char>, ip: Seq<char>) -> IdentityView {
    IdentityView { session_id: Some(token), ip_address: Some(ip), ..r }
}

/// A presented token is admitted only if one is presented, one is stored,
/// and the two are equal.
pub open spec fn token_admits(stored: Option<Seq<char>>, presented: Option<Seq<char>>) -> bool {
    match (stored, presented) {
        (Some(s), Some(p)) => s == p,
        _ => false,
    }
}

/// The view of an optional record.
pub open spec fn opt_record_view(o: Option<IdentityRecord>) -> Option<IdentityView> {
    match o {
        Some(r) => Some(r@),
        None => None,
    }
}

/// Whether `presented` is the stored session token `stored`; an absent
/// stored token matches nothing.
pub fn check_authentication(stored: &Option<String>, presented: &Option<String>) -> (r: bool)
    ensures
        r == token_admits(opt_view(*stored), opt_view(*presented)),
{
    match (stored, presented) {
        (Some(s), Some(p)) => *s == *p,
        _ => false,
    }
}

impl IdentityRecord {
    /// A new record under `key` holding `code` issued at `now`, with no session.
    pub fn new(key: String, code: String, now: i64) -> (r: Self)
        ensures
            r@ == issued(None, key@, code@, now),
    {
        IdentityRecord { email: key, code, code_issued_at: now, session_id: None, ip_address: None }
    }

    /// Issues `code` at `now` for `email`: refreshes `existing`, the record
    /// found under the email's key, or creates one when none was found.
    pub fn issue(existing: Option<IdentityRecord>, email: &str, code: String, now: i64) -> (r: Self)
        ensures
            r@ == issued(opt_record_view(existing), email_key(email@), code@, now),
    {
        match existing {
            Some(mut rec) => {
                rec.refresh_code(code, now);
                rec
            },
            None => IdentityRecord::new(normalize_email(email), code, now),
        }
    }

    /// Overwrites the code and its issuance time, keeping all else.
    pub fn refresh_code(&mut self, code: String, now: i64)
        ensures
            final(self)@ == issued(Some(old(self)@), old(self)@.email, code@, now),
    {
        self.code = code;
        self.code_issued_at = now;
    }

    /// Checks a submitted code at instant `now`.
    pub fn verify_code(&self, submitted: &str, now: i64) -> (r: Result<(), AuthError>)
        ensures
            r == verdict(self@, submitted@, now),
    {
        let submitted = submitted.to_owned();
        if submitted != self.code {
            Err(AuthError::InvalidCode)
        } else if code_expired(self.code_issued_at, now) {
            Err(AuthError::CodeExpired)
        } else {
            Ok(())
        }
    }

    /// Authenticates with a submitted code at `now`. On success a fresh
    /// session token is stored, with `ip` as its originating address, and
    /// returned; on failure the record is left as it was.
    pub fn authenticate(&mut self, submitted: &str, ip: &str, now: i64) -> (r: Result<String, AuthError>)
        ensures
            match verdict(old(self)@, submitted@, now) {
                Err(e) => r == Err::<String, AuthError>(e) && final(self)@ == old(self)@,
                Ok(()) => r matches Ok(t) && t@.len() == TOKEN_LEN
                    && final(self)@ == with_session(old(self)@, t@, ip@),
            },
    {
        match self.verify_code(submitted, now) {
            Err(e) => Err(e),
            Ok(()) => {
                let token = new_session_token();
                self.session_id = Some(token.clone());
                self.ip_address = Some(ip.to_owned());
                Ok(token)
            },
        }
    }

    /// Whether `presented` is this identity's current session token.
    pub fn admits(&self, presented: &Option<String>) -> (r: bool)
        ensures
            r == token_admits(self@.session_id, opt_view(*presented)),
    {
        check_authentication(&self.session_id, presented)
    }

    /// Rebuilds a record from its stored fields, where the issuance time is
    /// kept as RFC 3339 text; text that is not RFC 3339 is a store error.
    pub fn from_stored(
        email: String,
        code: String,
        code_date: &str,
        session_id: Option<String>,
        ip_address: Option<String>,
    ) -> (r: Result<Self, AuthError>)
        ensures
            match rfc3339_millis(code_date@) {
                Some(t) => r matches Ok(rec) && rec@ == (IdentityView {
                    email: email@,
                    code: code@,
                    code_issued_at: t,
                    session_id: opt_view(session_id),
                    ip_address: opt_view(ip_address),
                }),
                None => r == Err::<IdentityRecord, AuthError>(AuthError::StoreError),
            },
    {
        match parse_rfc3339_millis(code_date) {
            Some(t) => Ok(IdentityRecord { email, code, code_issued_at: t, session_id, ip_address }),
            None => Err(AuthError::StoreError),
        }
    }

    /// The issuance time as RFC 3339 text, for storage; `None` where the
    /// instant is out of range.
    pub fn code_date_text(&self) -> (r: Option<String>)
        ensures
            opt_view(r) == rfc3339_text(self.code_issued_at),
    {
        format_rfc3339_millis(self.code_issued_at)
    }
}

/// Authenticates against `existing`, the record found under the email's
/// key: `NotFound` when there is none, else as `IdentityRecord::authenticate`,
/// handing back the updated record with the token.
pub fn login(existing: Option<IdentityRecord>, submitted: &str, ip: &str, now: i64) -> (r: Result<(IdentityRecord, String), AuthError>)
    ensures
        match existing {
            None => r == Err::<(IdentityRecord, String), AuthError>(AuthError::NotFound),
            Some(rec) => match verdict(rec@, submitted@, now) {
                Err(e) => r == Err::<(IdentityRecord, String), AuthError>(e),
                Ok(()) => r matches Ok((upd, t)) && t@.len() == TOKEN_LEN
                    && upd@ == with_session(rec@, t@, ip@),
            },
        },
{
    match existing {
        None => Err(AuthError::NotFound),
        Some(mut rec) => match rec.authenticate(submitted, ip, now) {
            Err(e) => Err(e),
            Ok(t) => Ok((rec, t)),
        },
    }
}

/// Admits a protected operation on `existing`, the record found under the
/// email's key: `NotFound` when there is none, `NotAuthenticated` unless
/// `presented` is its session token.
pub fn authorize(existing: &Option<IdentityRecord>, presented: &Option<String>) -> (r: Result<(), AuthError>)
    ensures
        match opt_record_view(*existing) {
            None => r == Err::<(), AuthError>(AuthError::NotFound),
            Some(v) => if token_admits(v.session_id, opt_view(*presented)) {
                r == Ok::<(), AuthError>(())
            } else {
                r == Err::<(), AuthError>(AuthError::NotAuthenticated)
            },
        },
{
    match existing {
        None => Err(AuthError::NotFound),
        Some(rec) => if rec.admits(presented) {
            Ok(())
        } else {
            Err(AuthError::NotAuthenticated)
        },
    }
}

} // verus!
