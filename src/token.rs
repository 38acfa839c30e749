use vstd::prelude::*;

verus! {

/// Number of characters in a session token (a hyphenated UUID).
pub const TOKEN_LEN: usize = 36;

/// Relies on `uuid::Uuid::new_v4` and the `Display` of `Uuid`, which writes
/// the hyphenated form: 32 hex digits and 4 hyphens.
#[verifier::external_body]
pub(crate) fn new_session_token() -> (r: String)
    ensures
        r@.len() == TOKEN_LEN,
{
    uuid::Uuid::new_v4().to_string()
}

} // verus!
