use vstd::prelude::*;

verus! {

/// Failures of the authentication core.
#[derive(Debug, Clone, Copy, PartialEq, Eq, Structural)]
pub enum AuthError {
    /// No identity is stored under the (normalised) email.
    NotFound,
    /// The submitted code differs from the stored one.
    InvalidCode,
    /// The code matches but its validity window has closed.
    CodeExpired,
    /// No session token was presented, or it is not the stored one.
    NotAuthenticated,
    /// The notification could not be sent.
    DeliveryError,
    /// The persisted record could not be read back.
    StoreError,
}

} // verus!
