use vstd::prelude::*;
use anchor_lang::prelude::Pubkey;
use crate::address::Address;
use crate::error::EscrowError;

verus! {

/// The most seeds a seed path may hold for an address to be derived from it.
pub const MAX_SEEDS: usize = 16;

/// The most bytes one seed may hold for an address to be derived from it.
pub const MAX_SEED_LEN: usize = 32;

/// An ordered sequence of byte strings from which, together with the
/// deriving program's address, a derived authority's address is computed.
#[derive(Debug, PartialEq, Eq)]
pub struct SeedPath {
    pub seeds: Vec<Vec<u8>>,
}

impl View for SeedPath {
    type V = Seq<Seq<u8>>;

    open spec fn view(&self) -> Seq<Seq<u8>> {
        Seq::new(self.seeds@.len(), |i: int| self.seeds@[i]@)
    }
}

/// Whether a seed path is short enough, in seeds and in each seed, for an
/// address to be derived from it.
pub open spec fn within_seed_limits(seed_path: Seq<Seq<u8>>) -> bool {
    &&& seed_path.len() <= MAX_SEEDS
    &&& forall|i: int| 0 <= i < seed_path.len() ==> (#[trigger] seed_path[i]).len() <= MAX_SEED_LEN
}

/// The address that the ledger derives from a seed path under a program, or
/// `None` where it derives none. The derivation is a hash of the seeds, the
/// program's address and a fixed marker, refused where the hash is a point of
/// the signature curve; it is computed by the ledger's SDK and not restated
/// here.
pub uninterp spec fn program_address(seed_path: Seq<Seq<u8>>, program: Seq<u8>) -> Option<Seq<u8>>;

/// The bytes of an address that may be absent.
pub open spec fn address_bytes(address: Option<Address>) -> Option<Seq<u8>> {
    match address {
        Some(a) => Some(a@),
        None => None,
    }
}

/// Trusted: calls `Pubkey::create_program_address` of the ledger's SDK, as
/// `anchor_lang::prelude` exports it, on the seeds in their order and on the
/// program's address. Off the ledger that function is a pure computation on
/// its two arguments, so its result is given the name `program_address`. It
/// fails, and `None` is returned, where more than `MAX_SEEDS` seeds are
/// given, where one seed is longer than `MAX_SEED_LEN` bytes, or where the
/// hash lies on the curve; only the first two are stated here.
#[verifier::external_body]
fn create_program_address(seed_path: &SeedPath, program: &Address) -> (derived: Option<Address>)
    ensures
        address_bytes(derived) == program_address(seed_path@, program@),
        !within_seed_limits(seed_path@) ==> derived is None,
{
    let seeds: Vec<&[u8]> = seed_path.seeds.iter().map(|seed| seed.as_slice()).collect();
    match Pubkey::create_program_address(&seeds, &Pubkey::new_from_array(program.bytes)) {
        Ok(key) => Some(Address { bytes: key.to_bytes() }),
        Err(_) => None,
    }
}

/// Who asserts the right to move or close a custodial account.
///
/// The context is made for one call and consumed by it: it cannot be cloned,
/// and no operation stores it.
#[derive(Debug, PartialEq, Eq)]
pub enum AuthorizationContext {
    /// The authorizing account has signed the enclosing transaction.
    DirectSigner,
    /// The authorizing account has no key: control is proven by supplying the
    /// seed path from which, under `program`, its address derives.
    DerivedAuthority { program: Address, seed_path: SeedPath },
}

/// The mathematical content of an `AuthorizationContext`: the same two
/// modes, with the seed path as a sequence of byte sequences.
pub enum AuthorizationModel {
    DirectSigner,
    DerivedAuthority { program: Address, seed_path: Seq<Seq<u8>> },
}

impl View for AuthorizationContext {
    type V = AuthorizationModel;

    open spec fn view(&self) -> AuthorizationModel {
        match *self {
            AuthorizationContext::DirectSigner => AuthorizationModel::DirectSigner,
            AuthorizationContext::DerivedAuthority { program, seed_path } => {
                AuthorizationModel::DerivedAuthority { program, seed_path: seed_path@ }
            },
        }
    }
}

/// What is handed to the token-management service as proof of authorization.
#[derive(Debug, PartialEq, Eq)]
pub enum AuthorizationProof {
    /// The service relies on the transaction's existing signer set.
    TransactionSigner,
    /// The service's host re-derives `address` from `seed_path` and treats
    /// the authority as having signed, for this call only.
    DerivedSeeds { address: Address, seed_path: SeedPath },
}

/// The mathematical content of an `AuthorizationProof`: the same two forms,
/// with the seed path as a sequence of byte sequences.
pub enum ProofModel {
    TransactionSigner,
    DerivedSeeds { address: Address, seed_path: Seq<Seq<u8>> },
}

impl View for AuthorizationProof {
    type V = ProofModel;

    open spec fn view(&self) -> ProofModel {
        match *self {
            AuthorizationProof::TransactionSigner => ProofModel::TransactionSigner,
            AuthorizationProof::DerivedSeeds { address, seed_path } => {
                ProofModel::DerivedSeeds { address, seed_path: seed_path@ }
            },
        }
    }
}

impl AuthorizationModel {
    /// The mode chosen by the presence or absence of a seed path.
    pub open spec fn from_seeds(
        program: Address,
        seed_path: Option<Seq<Seq<u8>>>,
    ) -> AuthorizationModel {
        match seed_path {
            Some(seed_path) => AuthorizationModel::DerivedAuthority { program, seed_path },
            None => AuthorizationModel::DirectSigner,
        }
    }

    /// Whether the context holds a seed path too long, in seeds or in one
    /// seed, for any address to be derived from it.
    pub open spec fn exceeds_seed_limits(self) -> bool {
        self matches AuthorizationModel::DerivedAuthority { seed_path, .. } && !within_seed_limits(
            seed_path,
        )
    }

    /// The address that the context's seed path derives, if it derives one.
    /// A direct signer derives none.
    pub open spec fn derived_address(self) -> Option<Seq<u8>> {
        match self {
            AuthorizationModel::DirectSigner => None,
            AuthorizationModel::DerivedAuthority { program, seed_path } => {
                program_address(seed_path, program@)
            },
        }
    }

    /// Whether the context may speak for `authority`. A direct signer is
    /// taken at its word: the transaction's signer set is checked by the
    /// host, not here. A derived authority must re-derive to `authority`.
    pub open spec fn authorizes(self, authority: Address) -> bool {
        match self {
            AuthorizationModel::DirectSigner => true,
            AuthorizationModel::DerivedAuthority { .. } => {
                self.derived_address() == Some(authority@)
            },
        }
    }

    /// The proof that the context yields for `authority`.
    pub open spec fn proof_for(self, authority: Address) -> ProofModel {
        match self {
            AuthorizationModel::DirectSigner => ProofModel::TransactionSigner,
            AuthorizationModel::DerivedAuthority { program, seed_path } => {
                ProofModel::DerivedSeeds { address: authority, seed_path }
            },
        }
    }

    /// What authorizing `authority` under the context comes to.
    pub open spec fn authorize(self, authority: Address) -> Result<ProofModel, EscrowError> {
        if self.authorizes(authority) {
            Ok(self.proof_for(authority))
        } else {
            Err(EscrowError::AuthorizationMismatch)
        }
    }
}

/// The model of a seed path that may be absent.
pub open spec fn seed_path_model(seed_path: Option<SeedPath>) -> Option<Seq<Seq<u8>>> {
    match seed_path {
        Some(path) => Some(path@),
        None => None,
    }
}

/// The model of the outcome of an authorization.
pub open spec fn proof_outcome(outcome: Result<AuthorizationProof, EscrowError>) -> Result<
    ProofModel,
    EscrowError,
> {
    match outcome {
        Ok(proof) => Ok(proof@),
        Err(e) => Err(e),
    }
}

impl AuthorizationContext {
    /// Chooses the mode by the presence or absence of a seed path: with one,
    /// a derived authority under `program`; without, a direct signer.
    pub fn from_seeds(program: Address, seed_path: Option<SeedPath>) -> (context:
        AuthorizationContext)
        ensures
            context@ == AuthorizationModel::from_seeds(program, seed_path_model(seed_path)),
    {
        match seed_path {
            Some(seed_path) => AuthorizationContext::DerivedAuthority { program, seed_path },
            None => AuthorizationContext::DirectSigner,
        }
    }

    /// The address that the context's seed path derives under its program,
    /// or `None` for a direct signer and for a seed path that derives none.
    pub fn derived_address(&self) -> (derived: Option<Address>)
        ensures
            address_bytes(derived) == self@.derived_address(),
            self@.exceeds_seed_limits() ==> derived is None,
    {
        match self {
            AuthorizationContext::DirectSigner => None,
            AuthorizationContext::DerivedAuthority { program, seed_path } => {
                create_program_address(seed_path, program)
            },
        }
    }

    /// Builds the proof handed to the service, consuming the context.
    ///
    /// A direct signer yields `TransactionSigner`. A derived authority yields
    /// its seed path together with `authority`, if the path re-derives to
    /// `authority`; otherwise the call fails with `AuthorizationMismatch`.
    pub fn authorize(self, authority: &Address) -> (outcome: Result<
        AuthorizationProof,
        EscrowError,
    >)
        ensures
            proof_outcome(outcome) == self@.authorize(*authority),
            self@.exceeds_seed_limits() ==> outcome matches Err(EscrowError::AuthorizationMismatch),
    {
        let derived = self.derived_address();
        match self {
            AuthorizationContext::DirectSigner => Ok(AuthorizationProof::TransactionSigner),
            AuthorizationContext::DerivedAuthority { program, seed_path } => {
                match derived {
                    Some(address) => {
                        if address.same_as(authority) {
                            Ok(AuthorizationProof::DerivedSeeds { address: *authority, seed_path })
                        } else {
                            Err(EscrowError::AuthorizationMismatch)
                        }
                    },
                    None => Err(EscrowError::AuthorizationMismatch),
                }
            },
        }
    }
}

} // verus!
