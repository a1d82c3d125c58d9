use std::cell::RefCell;

use escrow::account::{CustodialAccount, TokenType};
use escrow::address::Address;
use escrow::authority::{AuthorizationContext, AuthorizationProof, SeedPath};
use escrow::close::{close_token_account, plan_close, CloseCall};
use escrow::error::EscrowError;
use escrow::transfer::plan_transfer;

const PROGRAM: [u8; 32] = [7u8; 32];

/// The address that the seed path `["escrow", 2u64 in little-endian]` derives
/// under `PROGRAM`.
const VAULT_2: [u8; 32] = [
    74, 50, 181, 167, 185, 26, 30, 163, 131, 242, 37, 181, 184, 237, 101, 227, 162, 11, 145, 207,
    22, 13, 170, 234, 210, 96, 115, 138, 227, 192, 67, 156,
];

const TOKEN_A: [u8; 32] = [0xA0; 32];
const VAULT: [u8; 32] = [1u8; 32];
const RECIPIENT: [u8; 32] = [2u8; 32];
const OWNER: [u8; 32] = [3u8; 32];

fn vault(balance: u64) -> CustodialAccount {
    CustodialAccount {
        address: Address::new(VAULT),
        owner: Address::new(OWNER),
        token_type: Address::new(TOKEN_A),
        balance,
    }
}

fn escrow_path(vault_id: u64) -> SeedPath {
    SeedPath { seeds: vec![b"escrow".to_vec(), vault_id.to_le_bytes().to_vec()] }
}

fn derived(vault_id: u64) -> AuthorizationContext {
    AuthorizationContext::DerivedAuthority {
        program: Address::new(PROGRAM),
        seed_path: escrow_path(vault_id),
    }
}

/// A stand-in for the token-management service: it holds one account, with
/// its token balance and storage deposit, and what the recipient has been
/// credited, and answers a request as the service's interface says it does.
struct Vault {
    open: bool,
    balance: u64,
    deposit: u64,
    credited: u64,
    asked: u32,
}

impl Vault {
    fn answer(&mut self, call: &CloseCall) -> Result<(), EscrowError> {
        self.asked += 1;
        if !self.open || call.account != Address::new(VAULT) {
            return Err(EscrowError::AccountAlreadyClosed);
        }
        if self.balance != 0 {
            return Err(EscrowError::NonZeroBalance);
        }
        self.open = false;
        self.credited += self.deposit;
        self.deposit = 0;
        Ok(())
    }
}

#[test]
fn close_returns_the_deposit() {
    let ledger =
        RefCell::new(Vault { open: true, balance: 0, deposit: 2_039_280, credited: 0, asked: 0 });
    let outcome = close_token_account(
        &vault(0),
        &Address::new(RECIPIENT),
        &Address::new(OWNER),
        |call: CloseCall| ledger.borrow_mut().answer(&call),
        AuthorizationContext::DirectSigner,
    );
    assert_eq!(outcome, Ok(()));
    assert!(!ledger.borrow().open);
    assert_eq!(ledger.borrow().credited, 2_039_280);
}

#[test]
fn second_close_finds_the_account_closed() {
    let ledger =
        RefCell::new(Vault { open: true, balance: 0, deposit: 2_039_280, credited: 0, asked: 0 });
    let first = close_token_account(
        &vault(0),
        &Address::new(RECIPIENT),
        &Address::new(OWNER),
        |call: CloseCall| ledger.borrow_mut().answer(&call),
        AuthorizationContext::DirectSigner,
    );
    let second = close_token_account(
        &vault(0),
        &Address::new(RECIPIENT),
        &Address::new(OWNER),
        |call: CloseCall| ledger.borrow_mut().answer(&call),
        AuthorizationContext::DirectSigner,
    );
    assert_eq!(first, Ok(()));
    assert_eq!(second, Err(EscrowError::AccountAlreadyClosed));
    assert_eq!(ledger.borrow().asked, 2);
    assert_eq!(ledger.borrow().credited, 2_039_280);
}

#[test]
fn close_with_tokens_left_is_refused_by_the_service() {
    let ledger =
        RefCell::new(Vault { open: true, balance: 5, deposit: 2_039_280, credited: 0, asked: 0 });
    let outcome = close_token_account(
        &vault(5),
        &Address::new(RECIPIENT),
        &Address::new(OWNER),
        |call: CloseCall| ledger.borrow_mut().answer(&call),
        AuthorizationContext::DirectSigner,
    );
    assert_eq!(outcome, Err(EscrowError::NonZeroBalance));
    assert_eq!(ledger.borrow().asked, 1);
    assert!(ledger.borrow().open);
    assert_eq!(ledger.borrow().balance, 5);
    assert_eq!(ledger.borrow().deposit, 2_039_280);
    assert_eq!(ledger.borrow().credited, 0);
}

#[test]
fn direct_signer_close_names_every_part() {
    let planned = plan_close(
        &vault(0),
        &Address::new(RECIPIENT),
        &Address::new(OWNER),
        AuthorizationContext::DirectSigner,
    );
    assert_eq!(
        planned,
        Ok(CloseCall {
            account: Address::new(VAULT),
            destination: Address::new(RECIPIENT),
            authority: Address::new(OWNER),
            proof: AuthorizationProof::TransactionSigner,
        })
    );
}

#[test]
fn derived_authority_close_carries_address_and_seeds() {
    let planned = plan_close(
        &vault(0),
        &Address::new(RECIPIENT),
        &Address::new(VAULT_2),
        derived(2),
    );
    assert_eq!(
        planned,
        Ok(CloseCall {
            account: Address::new(VAULT),
            destination: Address::new(RECIPIENT),
            authority: Address::new(VAULT_2),
            proof: AuthorizationProof::DerivedSeeds {
                address: Address::new(VAULT_2),
                seed_path: escrow_path(2),
            },
        })
    );
}

#[test]
fn close_request_does_not_depend_on_the_balance() {
    let empty = plan_close(
        &vault(0),
        &Address::new(RECIPIENT),
        &Address::new(OWNER),
        AuthorizationContext::DirectSigner,
    );
    let full = plan_close(
        &vault(u64::MAX),
        &Address::new(RECIPIENT),
        &Address::new(OWNER),
        AuthorizationContext::DirectSigner,
    );
    assert!(empty.is_ok());
    assert_eq!(empty, full);
}

#[test]
fn derived_authority_closes_and_wrong_id_is_refused_unasked() {
    let ledger =
        RefCell::new(Vault { open: true, balance: 0, deposit: 2_039_280, credited: 0, asked: 0 });
    let refused = close_token_account(
        &vault(0),
        &Address::new(RECIPIENT),
        &Address::new(VAULT_2),
        |call: CloseCall| ledger.borrow_mut().answer(&call),
        derived(3),
    );
    assert_eq!(refused, Err(EscrowError::AuthorizationMismatch));
    assert_eq!(ledger.borrow().asked, 0);
    assert!(ledger.borrow().open);
    assert_eq!(ledger.borrow().credited, 0);

    let closed = close_token_account(
        &vault(0),
        &Address::new(RECIPIENT),
        &Address::new(VAULT_2),
        |call: CloseCall| ledger.borrow_mut().answer(&call),
        derived(2),
    );
    assert_eq!(closed, Ok(()));
    assert_eq!(ledger.borrow().asked, 1);
    assert!(!ledger.borrow().open);
    assert_eq!(ledger.borrow().credited, 2_039_280);
}

#[test]
fn close_is_asked_once_with_the_planned_request() {
    let seen: RefCell<Vec<CloseCall>> = RefCell::new(Vec::new());
    let outcome = close_token_account(
        &vault(0),
        &Address::new(RECIPIENT),
        &Address::new(VAULT_2),
        |call: CloseCall| {
            seen.borrow_mut().push(call);
            Ok(())
        },
        derived(2),
    );
    let planned =
        plan_close(&vault(0), &Address::new(RECIPIENT), &Address::new(VAULT_2), derived(2));
    assert_eq!(outcome, Ok(()));
    assert_eq!(seen.borrow().len(), 1);
    assert_eq!(Ok(seen.borrow_mut().pop().unwrap()), planned);
}

#[test]
fn every_answer_to_a_close_is_surfaced_unchanged() {
    let answers = [
        Ok(()),
        Err(EscrowError::AuthorizationMismatch),
        Err(EscrowError::NonZeroBalance),
        Err(EscrowError::AccountAlreadyClosed),
        Err(EscrowError::ServiceError { code: 9 }),
    ];
    for answer in answers {
        let outcome = close_token_account(
            &vault(0),
            &Address::new(RECIPIENT),
            &Address::new(OWNER),
            |_call: CloseCall| answer,
            AuthorizationContext::DirectSigner,
        );
        assert_eq!(outcome, answer);
    }
}

#[test]
fn transfer_and_close_carry_the_same_proof() {
    let mint = TokenType { id: Address::new(TOKEN_A), decimals: 2 };
    let other = CustodialAccount { address: Address::new(RECIPIENT), ..vault(0) };
    let moved = plan_transfer(&vault(1), &other, 1, &mint, &Address::new(VAULT_2), derived(2));
    let closed =
        plan_close(&vault(0), &Address::new(RECIPIENT), &Address::new(VAULT_2), derived(2));
    assert_eq!(moved.unwrap().proof, closed.unwrap().proof);

    let moved = plan_transfer(&vault(1), &other, 1, &mint, &Address::new(VAULT_2), derived(3));
    let closed =
        plan_close(&vault(0), &Address::new(RECIPIENT), &Address::new(VAULT_2), derived(3));
    assert_eq!(moved, Err(EscrowError::AuthorizationMismatch));
    assert_eq!(closed, Err(EscrowError::AuthorizationMismatch));
}
