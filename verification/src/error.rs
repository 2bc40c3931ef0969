use vstd::prelude::*;

verus! {

/// The error taxonomy of the marketplace core. A failed transition reports
/// exactly one of these kinds and persists no side effects.
#[derive(Clone, Copy, Debug, PartialEq, Eq, Structural)]
pub enum MarketplaceError {
    /// The caller is not the required signer or not the recorded owner.
    AuthorizationError,
    /// The listed or settled price is zero.
    InvalidPrice,
    /// A balance debit would underflow.
    InsufficientBalance,
    /// Issuance targets an already-used identity or derived address.
    DuplicateAsset,
    /// A token or registry primitive rejected the call.
    ExternalPrimitiveFailure,
}

} // verus!
