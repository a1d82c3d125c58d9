//! Verified core of an escrow program's custodial-asset operations.
//!
//! Two operations are offered: moving a token balance between two custodial
//! accounts, and closing a custodial account so that its storage deposit is
//! returned. Both may be authorized by a direct signer or by a derived
//! authority that proves control by supplying its seed path. The
//! token-management service that owns the balances is not part of this
//! crate: each operation decides what to ask of the service, hands the
//! request to it, and surfaces its answer unchanged.

pub mod account;
pub mod address;
pub mod authority;
pub mod close;
pub mod error;
pub mod laws;
pub mod transfer;
