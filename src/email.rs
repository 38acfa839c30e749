use vstd::prelude::*;

verus! {

/// The upper-case form of a text, as `str::to_uppercase` computes it.
pub uninterp spec fn upper_of(s: Seq<char>) -> Seq<char>;

/// Relies on `str::to_uppercase`: the result depends on the characters alone.
#[verifier::external_body]
fn to_uppercase(s: &str) -> (r: String)
    ensures
        r@ == upper_of(s@),
{
    s.to_uppercase()
}

/// The key under which an identity is stored: the email in upper case, so
/// that lookups ignore case.
pub open spec fn email_key(email: Seq<char>) -> Seq<char> {
    upper_of(email)
}

/// Normalises an email address to its lookup key.
pub fn normalize_email(email: &str) -> (r: String)
    ensures
        r@ == email_key(email@),
{
    to_uppercase(email)
}

} // verus!
