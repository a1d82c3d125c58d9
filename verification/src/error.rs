use vstd::prelude::*;

verus! {

/// Why a transfer or a close failed.
///
/// `AuthorizationMismatch` is decided by this crate, and so is
/// `TokenTypeMismatch` where the accounts handed in do not both reference the
/// transfer's token type. The other variants are answers of the
/// token-management service and are passed on as they came; the service may
/// answer with the first two as well.
#[derive(Clone, Copy, Debug, PartialEq, Eq)]
pub enum EscrowError {
    /// A derived authority's seed path does not re-derive to the authorizing
    /// account's address.
    AuthorizationMismatch,
    /// The source account holds less than the amount to be moved.
    InsufficientBalance,
    /// The amount's implied precision disagrees with the token type's
    /// declared decimal precision.
    PrecisionMismatch,
    /// Source and destination do not reference the same token type.
    TokenTypeMismatch,
    /// The account to close still holds tokens.
    NonZeroBalance,
    /// The account to close does not exist.
    AccountAlreadyClosed,
    /// Any other rejection by the token-management service, with the code
    /// the service gave.
    ServiceError { code: u32 },
}

} // verus!
