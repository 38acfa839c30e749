use vstd::prelude::*;

verus! {

/// Number of characters in a one-time code.
pub const CODE_LEN: usize = 7;

/// An ASCII letter or digit: `a-z`, `A-Z` or `0-9`.
pub open spec fn is_ascii_alphanumeric(c: char) -> bool {
    ('a' <= c && c <= 'z') || ('A' <= c && c <= 'Z') || ('0' <= c && c <= '9')
}

/// A well-formed one-time code: `CODE_LEN` ASCII letters and digits.
pub open spec fn is_code(s: Seq<char>) -> bool {
    &&& s.len() == CODE_LEN
    &&& forall|i: int| 0 <= i < s.len() ==> is_ascii_alphanumeric(#[trigger] s[i])
}

/// Relies on rand's `Alphanumeric` distribution, sampled from the thread-local
/// generator: it yields a byte among the ASCII letters and digits.
#[verifier::external_body]
fn random_alphanumeric() -> (c: char)
    ensures
        is_ascii_alphanumeric(c),
{
    char::from(rand::Rng::sample(&mut rand::thread_rng(), rand::distributions::Alphanumeric))
}

/// Relies on `String::push`: appends one character at the end.
#[verifier::external_body]
fn push_char(s: &mut String, c: char)
    ensures
        final(s)@ == old(s)@.push(c),
{
    s.push(c)
}

/// Draws a fresh one-time code of `CODE_LEN` random ASCII letters and digits.
pub fn generate_code() -> (r: String)
    ensures
        is_code(r@),
{
    let mut code = String::new();
    let mut i: usize = 0;
    while i < CODE_LEN
        invariant
            i <= CODE_LEN,
            code@.len() == i,
            forall|j: int| 0 <= j < code@.len() ==> is_ascii_alphanumeric(#[trigger] code@[j]),
        decreases CODE_LEN - i,
    {
        let c = random_alphanumeric();
        push_char(&mut code, c);
        i = i + 1;
    }
    code
}

} // verus!
