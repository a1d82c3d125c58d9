use vstd::prelude::*;
use crate::account::CustodialAccount;
use crate::address::Address;
use crate::authority::{AuthorizationModel, ProofModel};
use crate::close::{CloseModel, CloseRequest};
use crate::error::EscrowError;
use crate::transfer::{MoveModel, TransferRequest};

verus! {

/// A derived authority whose seed path does not re-derive to the authorizing
/// account's address is refused with `AuthorizationMismatch`, whether the
/// operation is a transfer or a close, and whatever else is asked. No
/// request reaches the service, so nothing it holds can change.
pub proof fn failed_derivation_refuses_every_operation(
    transfer: TransferRequest,
    close: CloseRequest,
)
    requires
        transfer.authorization is DerivedAuthority,
        transfer.authorization.derived_address() != Some(transfer.authority@),
        close.authorization is DerivedAuthority,
        close.authorization.derived_address() != Some(close.authority@),
    ensures
        transfer.plan() == Err::<MoveModel, EscrowError>(EscrowError::AuthorizationMismatch),
        close.plan() == Err::<CloseModel, EscrowError>(EscrowError::AuthorizationMismatch),
{
}

/// A transfer between accounts that declare different token types is refused
/// with `TokenTypeMismatch`, provided its authorization holds. No request
/// reaches the service, so no balance can change.
pub proof fn differing_token_types_refuse_transfer(transfer: TransferRequest)
    requires
        transfer.authorized(),
        transfer.source.token_type@ != transfer.destination.token_type@,
    ensures
        transfer.plan() == Err::<MoveModel, EscrowError>(EscrowError::TokenTypeMismatch),
{
}

/// A transfer is put to the service exactly when its authorization holds and
/// both accounts reference the token type. It then goes from the source to
/// the destination, for exactly the amount given, zero included, under the
/// token type's decimal precision. Whether the source holds the amount is
/// for the service to say.
pub proof fn admissible_transfer_asks_for_exact_amount(transfer: TransferRequest)
    ensures
        transfer.plan() is Ok <==> transfer.authorized() && transfer.token_types_match(),
        transfer.plan() matches Ok(call) ==> call.source == transfer.source.address
            && call.destination == transfer.destination.address && call.authority
            == transfer.authority && call.amount == transfer.amount && call.token_type
            == transfer.token_type,
{
}

/// A transfer is refused or put to the service whatever the balances on its
/// handles: two transfers that differ in nothing else have the same plan.
pub proof fn transfer_plan_ignores_balances(
    transfer: TransferRequest,
    source: u64,
    destination: u64,
)
    ensures
        (TransferRequest {
            source: CustodialAccount { balance: source, ..transfer.source },
            destination: CustodialAccount { balance: destination, ..transfer.destination },
            ..transfer
        }).plan() == transfer.plan(),
{
}

/// A close is put to the service exactly when its authorization holds. It
/// then names the account's address and the destination given; the deposit's
/// amount is no part of it.
pub proof fn authorized_close_is_asked(close: CloseRequest)
    ensures
        close.plan() is Ok <==> close.authorized(),
        close.plan() matches Ok(call) ==> call.account == close.account.address
            && call.destination == close.destination && call.authority == close.authority,
{
}

/// A close is refused or put to the service whatever the balance on its
/// handle: whether the account still holds tokens is for the service to say.
pub proof fn close_plan_ignores_balance(close: CloseRequest, balance: u64)
    ensures
        (CloseRequest { account: CustodialAccount { balance, ..close.account }, ..close }).plan()
            == close.plan(),
{
}

/// Exactly one of the two modes is active in a request, and it is chosen by
/// the presence or absence of a seed path alone: with a seed path the proof
/// is that path and the authority's address, without one it is the
/// transaction's signer set.
pub proof fn proof_mode_follows_seed_path(
    program: Address,
    seed_path: Option<Seq<Seq<u8>>>,
    authority: Address,
)
    ensures
        match seed_path {
            Some(path) => AuthorizationModel::from_seeds(program, seed_path).proof_for(authority)
                == (ProofModel::DerivedSeeds { address: authority, seed_path: path }),
            None => AuthorizationModel::from_seeds(program, seed_path).proof_for(authority)
                == ProofModel::TransactionSigner,
        },
        seed_path is None ==> AuthorizationModel::from_seeds(program, seed_path).authorizes(
            authority,
        ),
{
}

/// A transfer and a close under the same context and authority are
/// authorized alike, and carry the same proof to the service.
pub proof fn transfer_and_close_share_authorization(transfer: TransferRequest, close: CloseRequest)
    requires
        transfer.authority == close.authority,
        transfer.authorization == close.authorization,
    ensures
        transfer.authorized() <==> close.authorized(),
        transfer.plan() matches Ok(moved) ==> close.plan() matches Ok(closed) && moved.proof
            == closed.proof,
{
}

/// An address is its thirty-two bytes: two addresses with the same bytes are
/// the same address.
pub proof fn addresses_are_their_bytes(a: Address, b: Address)
    ensures
        (a@ == b@) <==> (a == b),
{
    if a@ == b@ {
        assert(a.bytes =~= b.bytes);
    }
}

} // verus!
