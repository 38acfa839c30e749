use vstd::prelude::*;
use crate::clock::CODE_VALIDITY_MILLIS;
use crate::email::email_key;
use crate::error::AuthError;
use crate::store::{admitted, auth_verdict, issue_in, lookup, session_in, Identities};

verus! {

/// Issuing a code and then submitting that code while it is still fresh
/// succeeds, and the session then started is the one stored for the email.
pub proof fn lemma_issue_then_authenticate(
    m: Identities,
    email: Seq<char>,
    code: Seq<char>,
    issued_at: i64,
    now: i64,
    token: Seq<char>,
    ip: Seq<char>,
)
    requires
        issued_at <= now < issued_at + CODE_VALIDITY_MILLIS,
    ensures
        auth_verdict(issue_in(m, email, code, issued_at), email, code, now) == Ok::<(), AuthError>(()),
        lookup(session_in(issue_in(m, email, code, issued_at), email, token, ip), email_key(email))
            matches Some(r) && r.session_id == Some(token),
{
}

/// The correct code is accepted strictly before the end of its one-minute
/// window and refused as expired from that instant on.
pub proof fn lemma_expiry_boundary(m: Identities, email: Seq<char>, code: Seq<char>, issued_at: i64, now: i64)
    ensures
        auth_verdict(issue_in(m, email, code, issued_at), email, code, now) == if now >= issued_at + CODE_VALIDITY_MILLIS {
            Err::<(), AuthError>(AuthError::CodeExpired)
        } else {
            Ok::<(), AuthError>(())
        },
{
}

/// A code other than the stored one is refused as invalid, whether or not
/// the stored code has expired.
pub proof fn lemma_wrong_code_invalid(m: Identities, email: Seq<char>, submitted: Seq<char>, now: i64)
    requires
        m.contains_key(email_key(email)),
        submitted != m[email_key(email)].code,
    ensures
        auth_verdict(m, email, submitted, now) == Err::<(), AuthError>(AuthError::InvalidCode),
{
}

/// An identity that was never issued a code is not found.
pub proof fn lemma_unknown_not_found(m: Identities, email: Seq<char>, submitted: Seq<char>, now: i64)
    requires
        !m.contains_key(email_key(email)),
    ensures
        auth_verdict(m, email, submitted, now) == Err::<(), AuthError>(AuthError::NotFound),
{
}

/// Without a presented token nothing is admitted.
pub proof fn lemma_check_without_token(m: Identities, email: Seq<char>)
    ensures
        !admitted(m, email, None),
{
}

/// After a session starts, exactly its token is admitted; a later session
/// replaces it, after which the earlier token is refused (where the two
/// tokens differ).
pub proof fn lemma_check_follows_latest_session(
    m: Identities,
    email: Seq<char>,
    first: Seq<char>,
    first_ip: Seq<char>,
    second: Seq<char>,
    second_ip: Seq<char>,
    presented: Seq<char>,
)
    requires
        m.contains_key(email_key(email)),
    ensures
        admitted(session_in(m, email, first, first_ip), email, Some(presented)) == (presented == first),
        admitted(session_in(session_in(m, email, first, first_ip), email, second, second_ip), email, Some(presented))
            == (presented == second),
        first != second ==> !admitted(
            session_in(session_in(m, email, first, first_ip), email, second, second_ip),
            email,
            Some(first),
        ),
{
}

/// Issuing a new code leaves the current session in force.
pub proof fn lemma_issue_keeps_session(
    m: Identities,
    email: Seq<char>,
    code: Seq<char>,
    now: i64,
    presented: Option<Seq<char>>,
)
    requires
        m.contains_key(email_key(email)),
    ensures
        admitted(issue_in(m, email, code, now), email, presented) == admitted(m, email, presented),
{
}

} // verus!
