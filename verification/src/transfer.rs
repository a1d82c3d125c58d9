use vstd::prelude::*;
use crate::account::{CustodialAccount, TokenType};
use crate::address::Address;
use crate::authority::{AuthorizationContext, AuthorizationModel, AuthorizationProof, ProofModel};
use crate::error::EscrowError;

verus! {

/// The values of one transfer: what is to move, between which accounts, and
/// on whose word. It exists for the length of one call.
pub struct TransferRequest {
    pub source: CustodialAccount,
    pub destination: CustodialAccount,
    pub amount: u64,
    pub token_type: TokenType,
    pub authority: Address,
    pub authorization: AuthorizationModel,
}

/// The request handed to the token-management service to move `amount` base
/// units of `token_type` from `source` to `destination`.
#[derive(Debug, PartialEq, Eq)]
pub struct MoveCall {
    pub source: Address,
    pub destination: Address,
    pub authority: Address,
    pub token_type: TokenType,
    pub amount: u64,
    pub proof: AuthorizationProof,
}

/// The mathematical content of a `MoveCall`.
pub struct MoveModel {
    pub source: Address,
    pub destination: Address,
    pub authority: Address,
    pub token_type: TokenType,
    pub amount: u64,
    pub proof: ProofModel,
}

impl View for MoveCall {
    type V = MoveModel;

    open spec fn view(&self) -> MoveModel {
        MoveModel {
            source: self.source,
            destination: self.destination,
            authority: self.authority,
            token_type: self.token_type,
            amount: self.amount,
            proof: self.proof@,
        }
    }
}

impl TransferRequest {
    /// Whether source and destination both reference the token type of the
    /// transfer.
    pub open spec fn token_types_match(self) -> bool {
        self.source.references(self.token_type) && self.destination.references(self.token_type)
    }

    /// Whether the authorization context may speak for the authority.
    pub open spec fn authorized(self) -> bool {
        self.authorization.authorizes(self.authority)
    }

    /// What the transfer asks of the service, or why it asks nothing.
    ///
    /// A derived authority whose seed path does not re-derive to the
    /// authority is refused first; then accounts that do not both reference
    /// the token type. Otherwise exactly one request is made. The amount is
    /// passed as given, zero included, and neither it nor the balances are
    /// examined.
    pub open spec fn plan(self) -> Result<MoveModel, EscrowError> {
        if !self.authorized() {
            Err(EscrowError::AuthorizationMismatch)
        } else if !self.token_types_match() {
            Err(EscrowError::TokenTypeMismatch)
        } else {
            Ok(
                MoveModel {
                    source: self.source.address,
                    destination: self.destination.address,
                    authority: self.authority,
                    token_type: self.token_type,
                    amount: self.amount,
                    proof: self.authorization.proof_for(self.authority),
                },
            )
        }
    }
}

/// The transfer that the arguments of one call describe.
pub open spec fn transfer_request(
    from: CustodialAccount,
    to: CustodialAccount,
    amount: u64,
    mint: TokenType,
    authority: Address,
    authorization: AuthorizationModel,
) -> TransferRequest {
    TransferRequest {
        source: from,
        destination: to,
        amount,
        token_type: mint,
        authority,
        authorization,
    }
}

/// The model of a planned transfer.
pub open spec fn move_outcome(outcome: Result<MoveCall, EscrowError>) -> Result<
    MoveModel,
    EscrowError,
> {
    match outcome {
        Ok(call) => Ok(call@),
        Err(e) => Err(e),
    }
}

/// Decides what a transfer asks of the token-management service, without
/// asking it. The authorization context is consumed.
pub fn plan_transfer(
    from: &CustodialAccount,
    to: &CustodialAccount,
    amount: u64,
    mint: &TokenType,
    authority: &Address,
    authorization: AuthorizationContext,
) -> (outcome: Result<MoveCall, EscrowError>)
    ensures
        move_outcome(outcome) == transfer_request(
            *from,
            *to,
            amount,
            *mint,
            *authority,
            authorization@,
        ).plan(),
        authorization@.exceeds_seed_limits() ==> outcome matches Err(
            EscrowError::AuthorizationMismatch,
        ),
{
    let proof = match authorization.authorize(authority) {
        Ok(proof) => proof,
        Err(e) => {
            return Err(e);
        },
    };
    if !(from.token_type.same_as(&mint.id) && to.token_type.same_as(&mint.id)) {
        return Err(EscrowError::TokenTypeMismatch);
    }
    Ok(
        MoveCall {
            source: from.address,
            destination: to.address,
            authority: *authority,
            token_type: *mint,
            amount,
            proof,
        },
    )
}

/// Moves `amount` base units of `mint` from `from` to `to` through the
/// token-management service, on the word of `authority`.
///
/// Where the transfer's plan refuses, its error is returned and the service
/// is not asked. Otherwise the service is asked once, with the planned
/// request, and its answer is returned as it came: success says that the
/// balance has moved by `amount`, an error that nothing has changed.
pub fn transfer_tokens<S>(
    from: &CustodialAccount,
    to: &CustodialAccount,
    amount: u64,
    mint: &TokenType,
    authority: &Address,
    service: S,
    authorization: AuthorizationContext,
) -> (outcome: Result<(), EscrowError>) where S: FnOnce(MoveCall) -> Result<(), EscrowError>
    requires
        forall|call: MoveCall|
            transfer_request(*from, *to, amount, *mint, *authority, authorization@).plan() == Ok::<
                MoveModel,
                EscrowError,
            >(call@) ==> #[trigger] service.requires((call,)),
    ensures
        match transfer_request(*from, *to, amount, *mint, *authority, authorization@).plan() {
            Err(e) => outcome == Err::<(), EscrowError>(e),
            Ok(request) => exists|call: MoveCall|
                call@ == request && #[trigger] service.ensures((call,), outcome),
        },
        authorization@.exceeds_seed_limits() ==> outcome matches Err(
            EscrowError::AuthorizationMismatch,
        ),
{
    match plan_transfer(from, to, amount, mint, authority, authorization) {
        Ok(call) => service(call),
        Err(e) => Err(e),
    }
}

} // verus!
