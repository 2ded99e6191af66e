//! The error kinds the handler can reject a request with. Every failure
//! aborts the whole operation; the kind names the precondition that failed.

use vstd::prelude::*;

verus! {

/// Why a migration request was rejected.
#[derive(Clone, Copy, Debug, PartialEq, Eq, Structural)]
pub enum MintError {
    /// Fewer than the required thirteen accounts were supplied.
    NotEnoughAccountKeys,
    /// The declared new update authority is not the one expected identity.
    UpdateAuthorityMismatch,
    /// The token, mint or template metadata account bytes do not deserialize
    /// under the expected binary layout.
    MalformedAccount,
    /// The held amount of the presented token is not exactly one unit.
    EmptyOrInvalidToken,
    /// The mint is not in true non-fungible shape: nonzero decimals, supply
    /// other than one, a freeze authority set, or a holding that does not
    /// reference the supplied mint.
    InvalidMint,
    /// No program authority could be derived, or the supplied authority
    /// account differs from the derived identity.
    AuthorityDerivationMismatch,
}

} // verus!
