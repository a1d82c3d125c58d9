use vstd::prelude::*;
use crate::account::CustodialAccount;
use crate::address::Address;
use crate::authority::{AuthorizationContext, AuthorizationModel, AuthorizationProof, ProofModel};
use crate::error::EscrowError;

verus! {

/// The values of one close: the account to close, where its storage deposit
/// is to go, and on whose word. It exists for the length of one call.
pub struct CloseRequest {
    pub account: CustodialAccount,
    pub destination: Address,
    pub authority: Address,
    pub authorization: AuthorizationModel,
}

/// The request handed to the token-management service to close `account`
/// and credit its storage deposit to `destination`. The deposit's amount is
/// the service's to determine and is no part of the request.
#[derive(Debug, PartialEq, Eq)]
pub struct CloseCall {
    pub account: Address,
    pub destination: Address,
    pub authority: Address,
    pub proof: AuthorizationProof,
}

/// The mathematical content of a `CloseCall`.
pub struct CloseModel {
    pub account: Address,
    pub destination: Address,
    pub authority: Address,
    pub proof: ProofModel,
}

impl View for CloseCall {
    type V = CloseModel;

    open spec fn view(&self) -> CloseModel {
        CloseModel {
            account: self.account,
            destination: self.destination,
            authority: self.authority,
            proof: self.proof@,
        }
    }
}

impl CloseRequest {
    /// Whether the authorization context may speak for the authority.
    pub open spec fn authorized(self) -> bool {
        self.authorization.authorizes(self.authority)
    }

    /// What the close asks of the service, or why it asks nothing.
    ///
    /// A derived authority whose seed path does not re-derive to the
    /// authority is refused. Otherwise exactly one request is made. Whether
    /// the account still holds tokens, or exists at all, is for the service
    /// to say.
    pub open spec fn plan(self) -> Result<CloseModel, EscrowError> {
        if !self.authorized() {
            Err(EscrowError::AuthorizationMismatch)
        } else {
            Ok(
                CloseModel {
                    account: self.account.address,
                    destination: self.destination,
                    authority: self.authority,
                    proof: self.authorization.proof_for(self.authority),
                },
            )
        }
    }
}

/// The close that the arguments of one call describe.
pub open spec fn close_request(
    token_account: CustodialAccount,
    destination: Address,
    authority: Address,
    authorization: AuthorizationModel,
) -> CloseRequest {
    CloseRequest { account: token_account, destination, authority, authorization }
}

/// The model of a planned close.
pub open spec fn close_outcome(outcome: Result<CloseCall, EscrowError>) -> Result<
    CloseModel,
    EscrowError,
> {
    match outcome {
        Ok(call) => Ok(call@),
        Err(e) => Err(e),
    }
}

/// Decides what a close asks of the token-management service, without
/// asking it. The authorization context is consumed.
pub fn plan_close(
    token_account: &CustodialAccount,
    destination: &Address,
    authority: &Address,
    authorization: AuthorizationContext,
) -> (outcome: Result<CloseCall, EscrowError>)
    ensures
        close_outcome(outcome) == close_request(
            *token_account,
            *destination,
            *authority,
            authorization@,
        ).plan(),
        authorization@.exceeds_seed_limits() ==> outcome matches Err(
            EscrowError::AuthorizationMismatch,
        ),
{
    match authorization.authorize(authority) {
        Ok(proof) => Ok(
            CloseCall {
                account: token_account.address,
                destination: *destination,
                authority: *authority,
                proof,
            },
        ),
        Err(e) => Err(e),
    }
}

/// Closes `token_account` through the token-management service and has its
/// storage deposit sent to `destination`, on the word of `authority`.
///
/// Where the close's plan refuses, its error is returned and the service is
/// not asked. Otherwise the service is asked once, with the planned request,
/// and its answer is returned as it came: success says that the account is
/// gone and the destination has its deposit, an error that nothing has
/// changed.
pub fn close_token_account<S>(
    token_account: &CustodialAccount,
    destination: &Address,
    authority: &Address,
    service: S,
    authorization: AuthorizationContext,
) -> (outcome: Result<(), EscrowError>) where S: FnOnce(CloseCall) -> Result<(), EscrowError>
    requires
        forall|call: CloseCall|
            close_request(*token_account, *destination, *authority, authorization@).plan() == Ok::<
                CloseModel,
                EscrowError,
            >(call@) ==> #[trigger] service.requires((call,)),
    ensures
        match close_request(*token_account, *destination, *authority, authorization@).plan() {
            Err(e) => outcome == Err::<(), EscrowError>(e),
            Ok(request) => exists|call: CloseCall|
                call@ == request && #[trigger] service.ensures((call,), outcome),
        },
        authorization@.exceeds_seed_limits() ==> outcome matches Err(
            EscrowError::AuthorizationMismatch,
        ),
{
    match plan_close(token_account, destination, authority, authorization) {
        Ok(call) => service(call),
        Err(e) => Err(e),
    }
}

} // verus!
