use vstd::prelude::*;
use crate::address::Address;

verus! {

/// The identity of a fungible asset, with the number of fractional digits
/// against which the token-management service validates amounts.
#[derive(Clone, Copy, Debug, PartialEq, Eq)]
pub struct TokenType {
    pub id: Address,
    pub decimals: u8,
}

/// A handle to a token balance held under an owner.
///
/// The balance is owned and changed by the token-management service alone:
/// the handle carries what the service last reported, and no operation of
/// this crate reads or writes it.
#[derive(Clone, Copy, Debug, PartialEq, Eq)]
pub struct CustodialAccount {
    pub address: Address,
    pub owner: Address,
    pub token_type: Address,
    pub balance: u64,
}

impl CustodialAccount {
    /// Whether the account declares `token_type` as the asset it holds.
    pub open spec fn references(self, token_type: TokenType) -> bool {
        self.token_type@ == token_type.id@
    }
}

} // verus!
