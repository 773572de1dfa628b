//! The vault's configuration: its own identity and the two tokens it deals
//! in. It is resolved once and never changed afterwards.

use vstd::prelude::*;

use crate::address::{base58_address, lemma_view_injective, Address};
use crate::authority::{canonical_authority, DerivedAuthority};

verus! {

/// Address of the vault program, in base58.
pub const PROGRAM_ID: &'static str = "2vteEBtJopYp8Shc1kbD29WCjAZezp8mJMoDkmX5xGca";

/// Address of the reward token, in base58.
pub const REWARD_MINT_ADDRESS: &'static str = "5yCiYccC6xiv7s4yPHo4ESgHjBsXh1ySuwZr9Z1oL5v7";

/// Address of the principal token, in base58.
pub const MYSPL_MINT_ADDRESS: &'static str = "6oban7Xk5hk58NngWWyajhM9pQZej2akxUBSkAKwGJPF";

/// Size in bytes of one account record of the ledger, which is what the
/// escrow account is created with.
pub const ESCROW_ACCOUNT_SPACE: u64 = 165;

/// The identities that a vault is deployed with.
#[derive(Clone, Copy, Debug, PartialEq, Eq)]
pub struct VaultConfig {
    /// The vault program itself.
    pub program_id: Address,
    /// The token that holders deposit.
    pub principal_token_id: Address,
    /// The token that the vault mints in exchange.
    pub reward_token_id: Address,
}

/// The configuration that three base58 strings stand for, if each of them
/// decodes to an address and the two tokens differ.
pub open spec fn resolved(program_id: Seq<char>, principal: Seq<char>, reward: Seq<char>) -> Option<
    (Seq<u8>, Seq<u8>, Seq<u8>),
> {
    match (base58_address(program_id), base58_address(principal), base58_address(reward)) {
        (Some(program), Some(principal_token), Some(reward_token)) => if principal_token
            != reward_token {
            Some((program, principal_token, reward_token))
        } else {
            None
        },
        _ => None,
    }
}

impl VaultConfig {
    /// A configuration is well formed when the principal token and the
    /// reward token are two different tokens.
    pub open spec fn wf(self) -> bool {
        self.principal_token_id != self.reward_token_id
    }

    /// The three identities as byte sequences.
    pub open spec fn identities(self) -> (Seq<u8>, Seq<u8>, Seq<u8>) {
        (self.program_id@, self.principal_token_id@, self.reward_token_id@)
    }

    /// The configuration of the given identities. `None` where the principal
    /// token and the reward token are the same.
    pub fn new(program_id: Address, principal_token_id: Address, reward_token_id: Address) -> (config:
        Option<VaultConfig>)
        ensures
            config == if principal_token_id != reward_token_id {
                Some(VaultConfig { program_id, principal_token_id, reward_token_id })
            } else {
                None
            },
    {
        if principal_token_id.same(&reward_token_id) {
            None
        } else {
            Some(VaultConfig { program_id, principal_token_id, reward_token_id })
        }
    }

    /// The configuration of three decoded identities. `None` where one of
    /// them was not decoded or the two tokens are the same.
    pub fn from_decoded(
        program_id: Option<Address>,
        principal_token_id: Option<Address>,
        reward_token_id: Option<Address>,
    ) -> (config: Option<VaultConfig>)
        ensures
            config == match (program_id, principal_token_id, reward_token_id) {
                (Some(program), Some(principal), Some(reward)) => if principal != reward {
                    Some(
                        VaultConfig {
                            program_id: program,
                            principal_token_id: principal,
                            reward_token_id: reward,
                        },
                    )
                } else {
                    None
                },
                _ => None,
            },
    {
        match (program_id, principal_token_id, reward_token_id) {
            (Some(program), Some(principal), Some(reward)) => VaultConfig::new(
                program,
                principal,
                reward,
            ),
            _ => None,
        }
    }

    /// The configuration written as three base58 strings. `None` where one
    /// of them is no address or the two tokens are the same.
    pub fn resolve(program_id: &str, principal_token_id: &str, reward_token_id: &str) -> (config:
        Option<VaultConfig>)
        ensures
            match config {
                Some(found) => found.wf() && resolved(
                    program_id@,
                    principal_token_id@,
                    reward_token_id@,
                ) == Some(found.identities()),
                None => resolved(program_id@, principal_token_id@, reward_token_id@) is None,
            },
    {
        let program = Address::from_base58(program_id);
        let principal = Address::from_base58(principal_token_id);
        let reward = Address::from_base58(reward_token_id);
        proof {
            if principal is Some && reward is Some {
                lemma_view_injective(principal->Some_0, reward->Some_0);
            }
        }
        VaultConfig::from_decoded(program, principal, reward)
    }

    /// The configuration of the deployed vault, from the three constants of
    /// this module.
    pub fn deployed() -> (config: Option<VaultConfig>)
        ensures
            match config {
                Some(found) => found.wf() && resolved(
                    PROGRAM_ID@,
                    MYSPL_MINT_ADDRESS@,
                    REWARD_MINT_ADDRESS@,
                ) == Some(found.identities()),
                None => resolved(PROGRAM_ID@, MYSPL_MINT_ADDRESS@, REWARD_MINT_ADDRESS@) is None,
            },
    {
        VaultConfig::resolve(PROGRAM_ID, MYSPL_MINT_ADDRESS, REWARD_MINT_ADDRESS)
    }

    /// The authority that signs reward minting: derived from the reward
    /// token with the canonical bump. `None` where no bump derives one.
    pub fn mint_authority(&self) -> (found: Option<DerivedAuthority>)
        ensures
            found == canonical_authority(self.reward_token_id, self.program_id),
    {
        DerivedAuthority::find(&self.reward_token_id, &self.program_id)
    }

    /// The authority that owns the escrow account: derived from the
    /// principal token with the canonical bump. `None` where no bump derives
    /// one.
    pub fn escrow_authority(&self) -> (found: Option<DerivedAuthority>)
        ensures
            found == canonical_authority(self.principal_token_id, self.program_id),
    {
        DerivedAuthority::find(&self.principal_token_id, &self.program_id)
    }
}

} // verus!
