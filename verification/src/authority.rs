//! Derived authorities: keyless addresses computed from a seed, a bump and
//! the identity of the vault program. Whoever can name the seed and the bump
//! that derive an address controls it, so every operation recomputes the
//! address from the bump it was given and compares.

use anchor_lang::prelude::Pubkey;
use vstd::prelude::*;

use crate::address::{lemma_view_injective, Address};
use crate::error::VaultError;

verus! {

/// What `Pubkey::create_program_address` returns for the seeds `[seed, [bump]]`
/// and the program `program`: the derived address, or `None` where the seeds
/// derive no address (the hash is a point of the curve).
pub uninterp spec fn program_address(seed: Seq<u8>, bump: u8, program: Seq<u8>) -> Option<Seq<u8>>;

/// Calls `Pubkey::create_program_address` (the `Pubkey` that `anchor_lang`
/// hands on from `solana_program`) with the seeds `[seed, [bump]]`. The
/// contract only names the outcome; an error of the outside function becomes
/// `None`.
#[verifier::external_body]
pub(crate) fn create_program_address(seed: &Address, bump: u8, program: &Address) -> (derived:
    Option<Address>)
    ensures
        match derived {
            Some(address) => program_address(seed@, bump, program@) == Some(address@),
            None => program_address(seed@, bump, program@) is None,
        },
{
    let program_id = Pubkey::new_from_array(program.bytes);
    match Pubkey::create_program_address(&[&seed.bytes[..], &[bump]], &program_id) {
        Ok(key) => Some(Address { bytes: key.to_bytes() }),
        Err(_) => None,
    }
}

/// Calls `Pubkey::try_find_program_address` (the `Pubkey` that `anchor_lang`
/// hands on from `solana_program`) with the single seed `seed`. That
/// function tries the bumps from 255 down to 1 with
/// `create_program_address` and returns the first that derives an address,
/// with its bump; the contract says so over `program_address`. Nothing of
/// this is proved here.
#[verifier::external_body]
pub(crate) fn find_program_address(seed: &Address, program: &Address) -> (found: Option<
    (Address, u8),
>)
    ensures
        match found {
            Some((address, bump)) => {
                &&& bump >= 1
                &&& program_address(seed@, bump, program@) == Some(address@)
                &&& forall|higher: u8|
                    bump < higher ==> (#[trigger] program_address(seed@, higher, program@)) is None
            },
            None => forall|bump: u8|
                bump >= 1 ==> (#[trigger] program_address(seed@, bump, program@)) is None,
        },
{
    let program_id = Pubkey::new_from_array(program.bytes);
    match Pubkey::try_find_program_address(&[&seed.bytes[..]], &program_id) {
        Some((key, bump)) => Some((Address { bytes: key.to_bytes() }, bump)),
        None => None,
    }
}

/// A derived authority: the seed and bump together with the address that
/// they derive. No private key belongs to the address.
#[derive(Clone, Copy, Debug, PartialEq, Eq)]
pub struct DerivedAuthority {
    pub seed: Address,
    pub bump: u8,
    pub address: Address,
}

/// Whether `seed` and `bump` derive `address` under `program`.
pub open spec fn derives(seed: Address, bump: u8, program: Address, address: Address) -> bool {
    program_address(seed@, bump, program@) == Some(address@)
}

/// The authority of `seed` and `claimed_bump` at the address `named`, if the
/// check has matched, and `AuthorityMismatch` if it has not.
pub open spec fn accepted_if(seed: Address, claimed_bump: u8, named: Address, matched: bool)
    -> Result<DerivedAuthority, VaultError> {
    if matched {
        Ok(DerivedAuthority { seed, bump: claimed_bump, address: named })
    } else {
        Err(VaultError::AuthorityMismatch)
    }
}

/// What the check of a claimed bump gives: the authority at the address
/// `named` if `seed` and `claimed_bump` derive that address under `program`,
/// and `AuthorityMismatch` if they derive another address or none.
pub open spec fn verified(seed: Address, claimed_bump: u8, program: Address, named: Address)
    -> Result<DerivedAuthority, VaultError> {
    accepted_if(seed, claimed_bump, named, derives(seed, claimed_bump, program, named))
}

/// The canonical authority of `seed` under `program`, if there is one. There
/// is at most one.
pub open spec fn canonical_authority(seed: Address, program: Address) -> Option<DerivedAuthority> {
    if exists|authority: DerivedAuthority|
        authority.seed == seed && #[trigger] authority.canonical_for(program) {
        Some(
            choose|authority: DerivedAuthority|
                authority.seed == seed && #[trigger] authority.canonical_for(program),
        )
    } else {
        None
    }
}

impl DerivedAuthority {
    /// The record is valid under `program`: its seed and bump derive its
    /// address.
    pub open spec fn valid_for(self, program: Address) -> bool {
        derives(self.seed, self.bump, program, self.address)
    }

    /// The record holds the canonical bump: the highest from 255 down to 1
    /// that derives an address at all.
    pub open spec fn canonical_for(self, program: Address) -> bool {
        &&& self.valid_for(program)
        &&& self.bump >= 1
        &&& forall|higher: u8|
            self.bump < higher ==> (#[trigger] program_address(
                self.seed@,
                higher,
                program@,
            )) is None
    }

    /// Derives the authority of `seed` under `program` with the canonical
    /// bump: the highest from 255 down to 1 that derives an address. `None`
    /// where none of them does.
    pub fn find(seed: &Address, program: &Address) -> (found: Option<DerivedAuthority>)
        ensures
            found == canonical_authority(*seed, *program),
    {
        match find_program_address(seed, program) {
            Some((address, bump)) => {
                let authority = DerivedAuthority { seed: *seed, bump, address };
                proof {
                    assert(authority.canonical_for(*program));
                    lemma_canonical_unique(
                        authority,
                        canonical_authority(*seed, *program)->Some_0,
                        *program,
                    );
                }
                Some(authority)
            },
            None => {
                proof {
                    assert forall|authority: DerivedAuthority|
                        authority.seed == *seed implies !#[trigger] authority.canonical_for(
                        *program,
                    ) by {
                        if authority.canonical_for(*program) {
                            assert(program_address(seed@, authority.bump, program@) is None);
                        }
                    }
                }
                None
            },
        }
    }

    /// Derives the authority of `seed` under `program` with the given bump,
    /// without searching. `None` where this bump derives no address.
    pub fn derive(seed: &Address, bump: u8, program: &Address) -> (derived: Option<
        DerivedAuthority,
    >)
        ensures
            match derived {
                Some(authority) => {
                    &&& authority.seed == *seed
                    &&& authority.bump == bump
                    &&& authority.valid_for(*program)
                },
                None => program_address(seed@, bump, program@) is None,
            },
    {
        match create_program_address(seed, bump, program) {
            Some(address) => Some(DerivedAuthority { seed: *seed, bump, address }),
            None => None,
        }
    }

    /// Decides on a claimed bump, given what it derives: accepted only if
    /// it derives the very address that the operation names.
    pub fn check(seed: &Address, claimed_bump: u8, derived: Option<Address>, named: &Address) -> (checked:
        Result<DerivedAuthority, VaultError>)
        ensures
            checked == accepted_if(*seed, claimed_bump, *named, derived == Some(*named)),
    {
        match derived {
            Some(address) => {
                if address.same(named) {
                    Ok(DerivedAuthority { seed: *seed, bump: claimed_bump, address })
                } else {
                    Err(VaultError::AuthorityMismatch)
                }
            },
            None => Err(VaultError::AuthorityMismatch),
        }
    }

    /// Checks a claimed bump: recomputes the address from the seed, the
    /// claimed bump and the program, and accepts only if it is the address
    /// that the operation names. A wrong bump is rejected, never replaced by
    /// one that would fit.
    pub fn verify(seed: &Address, claimed_bump: u8, program: &Address, named: &Address) -> (checked:
        Result<DerivedAuthority, VaultError>)
        ensures
            checked == verified(*seed, claimed_bump, *program, *named),
    {
        let derived = create_program_address(seed, claimed_bump, program);
        proof {
            if derived is Some {
                lemma_view_injective(derived->Some_0, *named);
            }
        }
        DerivedAuthority::check(seed, claimed_bump, derived, named)
    }
}

/// A seed has at most one canonical authority under a program.
pub proof fn lemma_canonical_unique(a: DerivedAuthority, b: DerivedAuthority, program: Address)
    requires
        a.seed == b.seed,
    ensures
        a.canonical_for(program) && b.canonical_for(program) ==> a == b,
{
    if a.canonical_for(program) && b.canonical_for(program) {
        if a.bump < b.bump {
            assert(program_address(a.seed@, b.bump, program@) is None);
        }
        if b.bump < a.bump {
            assert(program_address(b.seed@, a.bump, program@) is None);
        }
        lemma_view_injective(a.address, b.address);
    }
}

} // verus!
