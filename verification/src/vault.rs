//! The vault's operations: registering the escrow account, staking and
//! unstaking. Each checks what it was given, then plans the ledger calls
//! that carry it out. No operation touches a balance itself.

use vstd::prelude::*;

use crate::address::Address;
use crate::authority::{canonical_authority, verified, DerivedAuthority};
use crate::config::VaultConfig;
use crate::error::VaultError;
use crate::ledger::{Authority, LedgerCall};
use crate::transition::Transition;

verus! {

/// The accounts named when the escrow account is registered.
#[derive(Clone, Copy, Debug, PartialEq, Eq)]
pub struct CreateMysplATA {
    /// The escrow account to create, at the address derived from the
    /// principal token.
    pub myspl_ata_for_program: Address,
    /// The principal token.
    pub myspl_mint: Address,
    /// Who funds the new account.
    pub payer: Address,
}

/// The accounts named by a stake.
#[derive(Clone, Copy, Debug, PartialEq, Eq)]
pub struct Stake {
    /// The holder's account that receives the reward.
    pub reward_ata_for_user: Address,
    /// The derived authority that signs the minting.
    pub authority_of_reward_mint: Address,
    /// The reward token.
    pub reward_mint: Address,
    /// The holder's account that the principal is taken from.
    pub myspl_ata_for_user: Address,
    /// The holder, who signs the transfer of the principal.
    pub authority_of_myspl_ata_for_user: Address,
    /// The escrow account.
    pub myspl_ata_for_program: Address,
    /// The principal token.
    pub myspl_mint: Address,
}

/// The accounts named by an unstake.
#[derive(Clone, Copy, Debug, PartialEq, Eq)]
pub struct UnStake {
    /// The holder's account that the reward is burnt from.
    pub reward_ata_for_user: Address,
    /// The holder, who signs the burning.
    pub authority_of_reward_ata_for_user: Address,
    /// The reward token.
    pub reward_mint: Address,
    /// The escrow account, which is its own authority.
    pub myspl_ata_for_program: Address,
    /// The holder's account that receives the principal.
    pub myspl_ata_for_user: Address,
    /// The principal token.
    pub myspl_mint: Address,
}

/// The vault's account for deposited principal. It is owned by the escrow
/// authority and lies at that authority's address.
#[derive(Clone, Copy, Debug, PartialEq, Eq)]
pub struct EscrowAccount {
    pub address: Address,
    pub token_id: Address,
    pub authority: DerivedAuthority,
}

/// A registration under way: the escrow account and the ledger call that
/// creates it.
#[derive(Clone, Copy, Debug, PartialEq, Eq)]
pub struct Registration {
    pub escrow: EscrowAccount,
    pub transition: Transition,
}

/// The reward minted for an amount of principal: one to one.
pub open spec fn reward_of(principal_amount: u64) -> u64 {
    principal_amount
}

/// The principal released for an amount of reward: one to one.
pub open spec fn principal_of(reward_amount: u64) -> u64 {
    reward_amount
}

/// The reward minted for an amount of principal.
pub fn reward_for(principal_amount: u64) -> (reward_amount: u64)
    ensures
        reward_amount == reward_of(principal_amount),
{
    principal_amount
}

/// The principal released for an amount of reward.
pub fn principal_for(reward_amount: u64) -> (principal_amount: u64)
    ensures
        principal_amount == principal_of(reward_amount),
{
    reward_amount
}

/// The registration that `authority` stands for: the escrow account at its
/// address, and the one call that creates it.
pub open spec fn registration_of(token_id: Address, authority: DerivedAuthority, payer: Address)
    -> Registration {
    Registration {
        escrow: EscrowAccount { address: authority.address, token_id, authority },
        transition: Transition::Pending {
            next: LedgerCall::CreateAccount { token_id, owner: authority, payer },
            later: None,
        },
    }
}

/// What a registration is decided as, given the escrow authority that was
/// found.
///
/// The token must be the configured principal token (`AccountMismatch`) and
/// an escrow authority must have been found (`AuthorityMismatch`). The
/// escrow account then lies at the address of that authority, and one call
/// creates it. Whether an account exists there already is the ledger's to
/// say: its refusal aborts the transition with `AlreadyInitialized`.
pub open spec fn registration_decided(
    config: VaultConfig,
    principal_token_id: Address,
    payer: Address,
    escrow_authority: Option<DerivedAuthority>,
) -> Result<Registration, VaultError> {
    if principal_token_id != config.principal_token_id {
        Err(VaultError::AccountMismatch)
    } else {
        match escrow_authority {
            Some(authority) => Ok(registration_of(config.principal_token_id, authority, payer)),
            None => Err(VaultError::AuthorityMismatch),
        }
    }
}

/// What a registration is planned as: decided on the canonical escrow
/// authority, the one derived from the principal token.
pub open spec fn register_plan(config: VaultConfig, principal_token_id: Address, payer: Address)
    -> Result<Registration, VaultError> {
    registration_decided(
        config,
        principal_token_id,
        payer,
        canonical_authority(config.principal_token_id, config.program_id),
    )
}

/// Decides on a registration, given the escrow authority that was found.
pub fn plan_registration(
    config: &VaultConfig,
    principal_token_id: &Address,
    payer: &Address,
    escrow_authority: Option<DerivedAuthority>,
) -> (planned: Result<Registration, VaultError>)
    ensures
        planned == registration_decided(*config, *principal_token_id, *payer, escrow_authority),
{
    if !principal_token_id.same(&config.principal_token_id) {
        return Err(VaultError::AccountMismatch);
    }
    match escrow_authority {
        Some(authority) => Ok(
            Registration {
                escrow: EscrowAccount {
                    address: authority.address,
                    token_id: config.principal_token_id,
                    authority,
                },
                transition: Transition::Pending {
                    next: LedgerCall::CreateAccount {
                        token_id: config.principal_token_id,
                        owner: authority,
                        payer: *payer,
                    },
                    later: None,
                },
            },
        ),
        None => Err(VaultError::AuthorityMismatch),
    }
}

/// Plans the creation of the escrow account for `principal_token_id`,
/// funded by `payer`.
pub fn register(config: &VaultConfig, principal_token_id: &Address, payer: &Address) -> (planned:
    Result<Registration, VaultError>)
    ensures
        planned == register_plan(*config, *principal_token_id, *payer),
{
    let escrow_authority = config.escrow_authority();
    plan_registration(config, principal_token_id, payer, escrow_authority)
}

/// What the registration of the escrow account named in `accounts` is
/// decided as, given the escrow authority that was found: as
/// `registration_decided` for the token and the payer named, and rejected
/// with `AuthorityMismatch` also where the account named does not lie at
/// the address of that authority.
pub open spec fn escrow_creation_decided(
    config: VaultConfig,
    accounts: CreateMysplATA,
    escrow_authority: Option<DerivedAuthority>,
) -> Result<Transition, VaultError> {
    match registration_decided(config, accounts.myspl_mint, accounts.payer, escrow_authority) {
        Ok(registration) => if registration.escrow.address == accounts.myspl_ata_for_program {
            Ok(registration.transition)
        } else {
            Err(VaultError::AuthorityMismatch)
        },
        Err(error) => Err(error),
    }
}

/// What the registration of the escrow account named in `accounts` is
/// planned as: decided on the canonical escrow authority.
pub open spec fn create_myspl_ata_plan(config: VaultConfig, accounts: CreateMysplATA) -> Result<
    Transition,
    VaultError,
> {
    escrow_creation_decided(
        config,
        accounts,
        canonical_authority(config.principal_token_id, config.program_id),
    )
}

/// Decides on the registration of the escrow account named in `accounts`,
/// given the escrow authority that was found.
pub fn plan_escrow_creation(
    config: &VaultConfig,
    accounts: &CreateMysplATA,
    escrow_authority: Option<DerivedAuthority>,
) -> (planned: Result<Transition, VaultError>)
    ensures
        planned == escrow_creation_decided(*config, *accounts, escrow_authority),
{
    match plan_registration(config, &accounts.myspl_mint, &accounts.payer, escrow_authority) {
        Ok(registration) => {
            if registration.escrow.address.same(&accounts.myspl_ata_for_program) {
                Ok(registration.transition)
            } else {
                Err(VaultError::AuthorityMismatch)
            }
        },
        Err(error) => Err(error),
    }
}

/// Plans the registration of the escrow account named in `accounts`.
pub fn create_myspl_ata(config: &VaultConfig, accounts: &CreateMysplATA) -> (planned: Result<
    Transition,
    VaultError,
>)
    ensures
        planned == create_myspl_ata_plan(*config, *accounts),
{
    let escrow_authority = config.escrow_authority();
    plan_escrow_creation(config, accounts, escrow_authority)
}

/// The calls of a stake: mint the reward to the holder, signed by the
/// derived mint authority, then move the principal from the holder into
/// escrow, signed by the holder. Both use the amounts of one exchange.
pub open spec fn stake_calls(
    config: VaultConfig,
    accounts: Stake,
    mint_authority: DerivedAuthority,
    myspl_amount: u64,
) -> Transition {
    Transition::Pending {
        next: LedgerCall::Mint {
            token_id: config.reward_token_id,
            destination: accounts.reward_ata_for_user,
            amount: reward_of(myspl_amount),
            authority: Authority::Derived { authority: mint_authority },
        },
        later: Some(
            LedgerCall::Transfer {
                token_id: config.principal_token_id,
                source: accounts.myspl_ata_for_user,
                destination: accounts.myspl_ata_for_program,
                amount: myspl_amount,
                authority: Authority::Holder { address: accounts.authority_of_myspl_ata_for_user },
            },
        ),
    }
}

/// What a stake is decided as, given how the two bumps were checked.
///
/// The accounts must name the configured tokens (`AccountMismatch`), the
/// mint authority must have been accepted (`AuthorityMismatch`), and the
/// escrow account must have been accepted (`AccountMismatch`). An amount of
/// zero is then a transition with nothing to do and no call to the ledger.
/// Any other amount gives the calls of `stake_calls`.
pub open spec fn stake_decided(
    config: VaultConfig,
    accounts: Stake,
    mint_authority: Result<DerivedAuthority, VaultError>,
    escrow: Result<DerivedAuthority, VaultError>,
    myspl_amount: u64,
) -> Result<Transition, VaultError> {
    if accounts.reward_mint != config.reward_token_id || accounts.myspl_mint
        != config.principal_token_id {
        Err(VaultError::AccountMismatch)
    } else if mint_authority is Err {
        Err(VaultError::AuthorityMismatch)
    } else if escrow is Err {
        Err(VaultError::AccountMismatch)
    } else if myspl_amount == 0 {
        Ok(Transition::Complete)
    } else {
        Ok(stake_calls(config, accounts, mint_authority->Ok_0, myspl_amount))
    }
}

/// What a stake is planned as: decided on the check of the claimed mint
/// bump against the mint authority named, derived from the reward token,
/// and on the check of the escrow bump against the escrow account named,
/// derived from the principal token.
pub open spec fn stake_plan(
    config: VaultConfig,
    accounts: Stake,
    authority_of_reward_mint_bump: u8,
    myspl_ata_for_program_bump: u8,
    myspl_amount: u64,
) -> Result<Transition, VaultError> {
    stake_decided(
        config,
        accounts,
        verified(
            config.reward_token_id,
            authority_of_reward_mint_bump,
            config.program_id,
            accounts.authority_of_reward_mint,
        ),
        verified(
            config.principal_token_id,
            myspl_ata_for_program_bump,
            config.program_id,
            accounts.myspl_ata_for_program,
        ),
        myspl_amount,
    )
}

/// Decides on a stake, given how the two bumps were checked.
pub fn plan_stake(
    config: &VaultConfig,
    accounts: &Stake,
    mint_authority: Result<DerivedAuthority, VaultError>,
    escrow: Result<DerivedAuthority, VaultError>,
    myspl_amount: u64,
) -> (planned: Result<Transition, VaultError>)
    ensures
        planned == stake_decided(*config, *accounts, mint_authority, escrow, myspl_amount),
{
    if !accounts.reward_mint.same(&config.reward_token_id) || !accounts.myspl_mint.same(
        &config.principal_token_id,
    ) {
        return Err(VaultError::AccountMismatch);
    }
    let signer = match mint_authority {
        Ok(authority) => authority,
        Err(_) => { return Err(VaultError::AuthorityMismatch); },
    };
    if escrow.is_err() {
        return Err(VaultError::AccountMismatch);
    }
    if myspl_amount == 0 {
        return Ok(Transition::Complete);
    }
    let reward_amount = reward_for(myspl_amount);
    Ok(
        Transition::Pending {
            next: LedgerCall::Mint {
                token_id: config.reward_token_id,
                destination: accounts.reward_ata_for_user,
                amount: reward_amount,
                authority: Authority::Derived { authority: signer },
            },
            later: Some(
                LedgerCall::Transfer {
                    token_id: config.principal_token_id,
                    source: accounts.myspl_ata_for_user,
                    destination: accounts.myspl_ata_for_program,
                    amount: myspl_amount,
                    authority: Authority::Holder {
                        address: accounts.authority_of_myspl_ata_for_user,
                    },
                },
            ),
        },
    )
}

/// Plans a stake of `myspl_amount` units of principal.
pub fn stake(
    config: &VaultConfig,
    accounts: &Stake,
    authority_of_reward_mint_bump: u8,
    myspl_ata_for_program_bump: u8,
    myspl_amount: u64,
) -> (planned: Result<Transition, VaultError>)
    ensures
        planned == stake_plan(
            *config,
            *accounts,
            authority_of_reward_mint_bump,
            myspl_ata_for_program_bump,
            myspl_amount,
        ),
{
    let mint_authority = DerivedAuthority::verify(
        &config.reward_token_id,
        authority_of_reward_mint_bump,
        &config.program_id,
        &accounts.authority_of_reward_mint,
    );
    let escrow = DerivedAuthority::verify(
        &config.principal_token_id,
        myspl_ata_for_program_bump,
        &config.program_id,
        &accounts.myspl_ata_for_program,
    );
    plan_stake(config, accounts, mint_authority, escrow, myspl_amount)
}

/// The calls of an unstake: burn the reward from the holder, signed by the
/// holder, then release the principal from escrow to the holder, signed by
/// the escrow account as its own derived authority.
pub open spec fn unstake_calls(
    config: VaultConfig,
    accounts: UnStake,
    escrow_authority: DerivedAuthority,
    reward_amount: u64,
) -> Transition {
    Transition::Pending {
        next: LedgerCall::Burn {
            token_id: config.reward_token_id,
            source: accounts.reward_ata_for_user,
            amount: reward_amount,
            authority: Authority::Holder { address: accounts.authority_of_reward_ata_for_user },
        },
        later: Some(
            LedgerCall::Transfer {
                token_id: config.principal_token_id,
                source: accounts.myspl_ata_for_program,
                destination: accounts.myspl_ata_for_user,
                amount: principal_of(reward_amount),
                authority: Authority::Derived { authority: escrow_authority },
            },
        ),
    }
}

/// What an unstake is decided as, given how the escrow bump was checked.
///
/// The accounts must name the configured tokens (`AccountMismatch`) and the
/// escrow authority must have been accepted (`AuthorityMismatch`). An
/// amount of zero is then a transition with nothing to do and no call to
/// the ledger. Any other amount gives the calls of `unstake_calls`: the
/// amount released is the one the caller asked to redeem, not read from any
/// record of what the holder once staked.
pub open spec fn unstake_decided(
    config: VaultConfig,
    accounts: UnStake,
    escrow_authority: Result<DerivedAuthority, VaultError>,
    reward_amount: u64,
) -> Result<Transition, VaultError> {
    if accounts.reward_mint != config.reward_token_id || accounts.myspl_mint
        != config.principal_token_id {
        Err(VaultError::AccountMismatch)
    } else if escrow_authority is Err {
        Err(VaultError::AuthorityMismatch)
    } else if reward_amount == 0 {
        Ok(Transition::Complete)
    } else {
        Ok(unstake_calls(config, accounts, escrow_authority->Ok_0, reward_amount))
    }
}

/// What an unstake is planned as: decided on the check of the claimed bump
/// against the escrow account named, which is its own authority, derived
/// from the principal token.
pub open spec fn unstake_plan(
    config: VaultConfig,
    accounts: UnStake,
    myspl_ata_for_program_bump: u8,
    reward_amount: u64,
) -> Result<Transition, VaultError> {
    unstake_decided(
        config,
        accounts,
        verified(
            config.principal_token_id,
            myspl_ata_for_program_bump,
            config.program_id,
            accounts.myspl_ata_for_program,
        ),
        reward_amount,
    )
}

/// Decides on an unstake, given how the escrow bump was checked.
pub fn plan_unstake(
    config: &VaultConfig,
    accounts: &UnStake,
    escrow_authority: Result<DerivedAuthority, VaultError>,
    reward_amount: u64,
) -> (planned: Result<Transition, VaultError>)
    ensures
        planned == unstake_decided(*config, *accounts, escrow_authority, reward_amount),
{
    if !accounts.reward_mint.same(&config.reward_token_id) || !accounts.myspl_mint.same(
        &config.principal_token_id,
    ) {
        return Err(VaultError::AccountMismatch);
    }
    let signer = match escrow_authority {
        Ok(authority) => authority,
        Err(_) => { return Err(VaultError::AuthorityMismatch); },
    };
    if reward_amount == 0 {
        return Ok(Transition::Complete);
    }
    let myspl_amount = principal_for(reward_amount);
    Ok(
        Transition::Pending {
            next: LedgerCall::Burn {
                token_id: config.reward_token_id,
                source: accounts.reward_ata_for_user,
                amount: reward_amount,
                authority: Authority::Holder {
                    address: accounts.authority_of_reward_ata_for_user,
                },
            },
            later: Some(
                LedgerCall::Transfer {
                    token_id: config.principal_token_id,
                    source: accounts.myspl_ata_for_program,
                    destination: accounts.myspl_ata_for_user,
                    amount: myspl_amount,
                    authority: Authority::Derived { authority: signer },
                },
            ),
        },
    )
}

/// Plans an unstake of `reward_amount` units of reward.
pub fn unstake(
    config: &VaultConfig,
    accounts: &UnStake,
    myspl_ata_for_program_bump: u8,
    reward_amount: u64,
) -> (planned: Result<Transition, VaultError>)
    ensures
        planned == unstake_plan(*config, *accounts, myspl_ata_for_program_bump, reward_amount),
{
    let escrow_authority = DerivedAuthority::verify(
        &config.principal_token_id,
        myspl_ata_for_program_bump,
        &config.program_id,
        &accounts.myspl_ata_for_program,
    );
    plan_unstake(config, accounts, escrow_authority, reward_amount)
}

} // verus!
