use staker::address::Address;
use staker::authority::DerivedAuthority;
use staker::config::VaultConfig;
use staker::error::VaultError;
use staker::ledger::{Authority, LedgerCall};
use staker::transition::Transition;
use staker::vault::{
    plan_escrow_creation, plan_registration, plan_stake, plan_unstake, CreateMysplATA,
    EscrowAccount, Registration, Stake, UnStake,
};

fn named(byte: u8) -> Address {
    Address::new([byte; 32])
}

fn config() -> VaultConfig {
    VaultConfig { program_id: named(100), principal_token_id: named(10), reward_token_id: named(11) }
}

fn mint_authority() -> DerivedAuthority {
    DerivedAuthority { seed: named(11), bump: 200, address: named(21) }
}

fn escrow_authority() -> DerivedAuthority {
    DerivedAuthority { seed: named(10), bump: 201, address: named(20) }
}

fn stake_accounts() -> Stake {
    Stake {
        reward_ata_for_user: named(1),
        authority_of_reward_mint: named(21),
        reward_mint: named(11),
        myspl_ata_for_user: named(2),
        authority_of_myspl_ata_for_user: named(3),
        myspl_ata_for_program: named(20),
        myspl_mint: named(10),
    }
}

fn unstake_accounts() -> UnStake {
    UnStake {
        reward_ata_for_user: named(1),
        authority_of_reward_ata_for_user: named(3),
        reward_mint: named(11),
        myspl_ata_for_program: named(20),
        myspl_ata_for_user: named(2),
        myspl_mint: named(10),
    }
}

#[test]
fn check_accepts_only_the_address_named() {
    assert_eq!(
        DerivedAuthority::check(&named(11), 200, Some(named(21)), &named(21)),
        Ok(mint_authority())
    );
    assert_eq!(
        DerivedAuthority::check(&named(11), 200, Some(named(22)), &named(21)),
        Err(VaultError::AuthorityMismatch)
    );
    assert_eq!(
        DerivedAuthority::check(&named(11), 200, None, &named(21)),
        Err(VaultError::AuthorityMismatch)
    );
}

#[test]
fn check_keeps_the_claimed_bump() {
    for bump in [0u8, 1, 254, 255] {
        assert_eq!(
            DerivedAuthority::check(&named(5), bump, Some(named(6)), &named(6)),
            Ok(DerivedAuthority { seed: named(5), bump, address: named(6) })
        );
    }
}

#[test]
fn from_decoded_needs_all_three_identities() {
    assert_eq!(
        VaultConfig::from_decoded(Some(named(100)), Some(named(10)), Some(named(11))),
        Some(config())
    );
    assert_eq!(VaultConfig::from_decoded(None, Some(named(10)), Some(named(11))), None);
    assert_eq!(VaultConfig::from_decoded(Some(named(100)), None, Some(named(11))), None);
    assert_eq!(VaultConfig::from_decoded(Some(named(100)), Some(named(10)), None), None);
    assert_eq!(VaultConfig::from_decoded(None, None, None), None);
    assert_eq!(
        VaultConfig::from_decoded(Some(named(100)), Some(named(10)), Some(named(10))),
        None
    );
    // the program may share its address with nothing in particular
    assert_eq!(
        VaultConfig::from_decoded(Some(named(10)), Some(named(10)), Some(named(11))),
        Some(VaultConfig {
            program_id: named(10),
            principal_token_id: named(10),
            reward_token_id: named(11)
        })
    );
}

#[test]
fn plan_registration_on_each_input() {
    let planned = plan_registration(&config(), &named(10), &named(9), Some(escrow_authority()));
    assert_eq!(
        planned,
        Ok(Registration {
            escrow: EscrowAccount {
                address: named(20),
                token_id: named(10),
                authority: escrow_authority(),
            },
            transition: Transition::Pending {
                next: LedgerCall::CreateAccount {
                    token_id: named(10),
                    owner: escrow_authority(),
                    payer: named(9),
                },
                later: None,
            },
        })
    );
    assert_eq!(
        plan_registration(&config(), &named(10), &named(9), None),
        Err(VaultError::AuthorityMismatch)
    );
    assert_eq!(
        plan_registration(&config(), &named(11), &named(9), Some(escrow_authority())),
        Err(VaultError::AccountMismatch)
    );
    // the token is looked at first
    assert_eq!(
        plan_registration(&config(), &named(12), &named(9), None),
        Err(VaultError::AccountMismatch)
    );
}

#[test]
fn plan_escrow_creation_on_each_input() {
    let accounts =
        CreateMysplATA { myspl_ata_for_program: named(20), myspl_mint: named(10), payer: named(9) };
    assert_eq!(
        plan_escrow_creation(&config(), &accounts, Some(escrow_authority())),
        Ok(Transition::Pending {
            next: LedgerCall::CreateAccount {
                token_id: named(10),
                owner: escrow_authority(),
                payer: named(9),
            },
            later: None,
        })
    );
    assert_eq!(
        plan_escrow_creation(&config(), &accounts, None),
        Err(VaultError::AuthorityMismatch)
    );
    let elsewhere =
        CreateMysplATA { myspl_ata_for_program: named(19), myspl_mint: named(10), payer: named(9) };
    assert_eq!(
        plan_escrow_creation(&config(), &elsewhere, Some(escrow_authority())),
        Err(VaultError::AuthorityMismatch)
    );
    let other_token =
        CreateMysplATA { myspl_ata_for_program: named(20), myspl_mint: named(11), payer: named(9) };
    assert_eq!(
        plan_escrow_creation(&config(), &other_token, Some(escrow_authority())),
        Err(VaultError::AccountMismatch)
    );
}

#[test]
fn plan_stake_on_each_input() {
    let mismatch = Err(VaultError::AuthorityMismatch);
    let planned =
        plan_stake(&config(), &stake_accounts(), Ok(mint_authority()), Ok(escrow_authority()), 100);
    assert_eq!(
        planned,
        Ok(Transition::Pending {
            next: LedgerCall::Mint {
                token_id: named(11),
                destination: named(1),
                amount: 100,
                authority: Authority::Derived { authority: mint_authority() },
            },
            later: Some(LedgerCall::Transfer {
                token_id: named(10),
                source: named(2),
                destination: named(20),
                amount: 100,
                authority: Authority::Holder { address: named(3) },
            }),
        })
    );
    assert_eq!(
        plan_stake(&config(), &stake_accounts(), mismatch, Ok(escrow_authority()), 100),
        Err(VaultError::AuthorityMismatch)
    );
    assert_eq!(
        plan_stake(&config(), &stake_accounts(), Ok(mint_authority()), mismatch, 100),
        Err(VaultError::AccountMismatch)
    );
    assert_eq!(
        plan_stake(&config(), &stake_accounts(), mismatch, mismatch, 100),
        Err(VaultError::AuthorityMismatch)
    );
    assert_eq!(
        plan_stake(&config(), &stake_accounts(), Ok(mint_authority()), Ok(escrow_authority()), 0),
        Ok(Transition::Complete)
    );
    assert_eq!(
        plan_stake(&config(), &stake_accounts(), mismatch, Ok(escrow_authority()), 0),
        Err(VaultError::AuthorityMismatch)
    );
    let mut other_token = stake_accounts();
    other_token.reward_mint = named(10);
    assert_eq!(
        plan_stake(&config(), &other_token, Ok(mint_authority()), Ok(escrow_authority()), 100),
        Err(VaultError::AccountMismatch)
    );
    let mut other_principal = stake_accounts();
    other_principal.myspl_mint = named(12);
    assert_eq!(
        plan_stake(&config(), &other_principal, mismatch, mismatch, 0),
        Err(VaultError::AccountMismatch)
    );
}

#[test]
fn plan_unstake_on_each_input() {
    let mismatch = Err(VaultError::AuthorityMismatch);
    assert_eq!(
        plan_unstake(&config(), &unstake_accounts(), Ok(escrow_authority()), 50),
        Ok(Transition::Pending {
            next: LedgerCall::Burn {
                token_id: named(11),
                source: named(1),
                amount: 50,
                authority: Authority::Holder { address: named(3) },
            },
            later: Some(LedgerCall::Transfer {
                token_id: named(10),
                source: named(20),
                destination: named(2),
                amount: 50,
                authority: Authority::Derived { authority: escrow_authority() },
            }),
        })
    );
    assert_eq!(
        plan_unstake(&config(), &unstake_accounts(), mismatch, 50),
        Err(VaultError::AuthorityMismatch)
    );
    assert_eq!(
        plan_unstake(&config(), &unstake_accounts(), Ok(escrow_authority()), 0),
        Ok(Transition::Complete)
    );
    assert_eq!(
        plan_unstake(&config(), &unstake_accounts(), mismatch, 0),
        Err(VaultError::AuthorityMismatch)
    );
    let mut other_token = unstake_accounts();
    other_token.myspl_mint = named(11);
    assert_eq!(
        plan_unstake(&config(), &other_token, Ok(escrow_authority()), 50),
        Err(VaultError::AccountMismatch)
    );
    assert_eq!(
        plan_unstake(&config(), &other_token, mismatch, 50),
        Err(VaultError::AccountMismatch)
    );
}
