//! The ways a request can fail authentication or authorization.

use vstd::prelude::*;

verus! {

/// Why a request was turned away. Every error is final for the request that
/// raised it.
#[derive(Debug, PartialEq, Eq)]
pub enum AuthError {
    /// A token is required and the request carries no `Authorization` header.
    MissingHeader,
    /// The header is too short, is not text, or does not use the `Bearer`
    /// scheme.
    MalformedHeader,
    /// The token's signature or structure is not acceptable.
    InvalidToken,
    /// The token's validity window has passed.
    Expired,
    /// The revocation store did not clear the token: it is revoked, or the
    /// store could not be asked.
    Revoked,
    /// The claims do not grant what the operation needs; the text names the
    /// check that failed.
    NotEnoughPermissions(String),
}

impl AuthError {
    /// The reason carried by a permission failure.
    pub open spec fn reason(self) -> Seq<char>
        recommends
            self is NotEnoughPermissions,
    {
        self->NotEnoughPermissions_0@
    }

    /// Whether the error reports that the claims fall short, with this
    /// reason.
    pub open spec fn denies_with(self, reason: Seq<char>) -> bool {
        self is NotEnoughPermissions && self.reason() == reason
    }
}

} // verus!
