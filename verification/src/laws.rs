//! What holds of the vault's operations taken together, proved over the
//! books of the ledger.

use vstd::prelude::*;

use crate::address::{lemma_view_injective, Address};
use crate::authority::{program_address, DerivedAuthority};
use crate::config::VaultConfig;
use crate::error::VaultError;
use crate::ledger::{Account, LedgerState};
use crate::transition::Transition;
use crate::vault::{
    principal_of, register_plan, reward_of, stake_calls, stake_plan, unstake_calls, unstake_plan,
    Stake, UnStake,
};

verus! {

/// Derivation is a function of its inputs: deriving again from the same
/// seed, bump and program gives the same address, so two valid records that
/// agree on seed and bump are one record.
pub proof fn law_same_inputs_same_address(
    a: DerivedAuthority,
    b: DerivedAuthority,
    program: Address,
)
    requires
        a.seed == b.seed,
        a.bump == b.bump,
    ensures
        a.valid_for(program) && b.valid_for(program) ==> a == b,
{
    lemma_view_injective(a.address, b.address);
}

/// The mint authority is checked by deriving it again. A stake that claims
/// the bump of a valid authority and names that authority's address is not
/// rejected for its authority. A stake that claims a bump which derives
/// another address, or none, is rejected with `AuthorityMismatch`; every
/// bump above the canonical one is such a bump.
pub proof fn law_mint_authority_rederived(
    config: VaultConfig,
    accounts: Stake,
    registered: DerivedAuthority,
    claimed_bump: u8,
    escrow_bump: u8,
    amount: u64,
)
    requires
        registered.seed == config.reward_token_id,
        accounts.authority_of_reward_mint == registered.address,
        accounts.reward_mint == config.reward_token_id,
        accounts.myspl_mint == config.principal_token_id,
    ensures
        registered.valid_for(config.program_id) ==> stake_plan(
            config,
            accounts,
            registered.bump,
            escrow_bump,
            amount,
        ) != Err::<Transition, VaultError>(VaultError::AuthorityMismatch),
        program_address(config.reward_token_id@, claimed_bump, config.program_id@) != Some(
            registered.address@,
        ) ==> stake_plan(config, accounts, claimed_bump, escrow_bump, amount) == Err::<
            Transition,
            VaultError,
        >(VaultError::AuthorityMismatch),
        registered.canonical_for(config.program_id) && claimed_bump > registered.bump ==> stake_plan(
            config,
            accounts,
            claimed_bump,
            escrow_bump,
            amount,
        ) == Err::<Transition, VaultError>(VaultError::AuthorityMismatch),
{
}

/// The escrow authority is checked by deriving it again. An unstake that
/// claims the bump of a valid authority and names that authority's address
/// is planned. An unstake that claims a bump which derives another address,
/// or none, is rejected with `AuthorityMismatch`; every bump above the
/// canonical one is such a bump.
pub proof fn law_escrow_authority_rederived(
    config: VaultConfig,
    accounts: UnStake,
    registered: DerivedAuthority,
    claimed_bump: u8,
    amount: u64,
)
    requires
        registered.seed == config.principal_token_id,
        accounts.myspl_ata_for_program == registered.address,
        accounts.reward_mint == config.reward_token_id,
        accounts.myspl_mint == config.principal_token_id,
    ensures
        registered.valid_for(config.program_id) ==> unstake_plan(
            config,
            accounts,
            registered.bump,
            amount,
        ) is Ok,
        program_address(config.principal_token_id@, claimed_bump, config.program_id@) != Some(
            registered.address@,
        ) ==> unstake_plan(config, accounts, claimed_bump, amount) == Err::<Transition, VaultError>(
            VaultError::AuthorityMismatch,
        ),
        registered.canonical_for(config.program_id) && claimed_bump > registered.bump
            ==> unstake_plan(config, accounts, claimed_bump, amount) == Err::<
            Transition,
            VaultError,
        >(VaultError::AuthorityMismatch),
{
}

/// Registration happens once. On books that know the principal token and
/// have no account at the escrow address, a planned registration creates
/// exactly that one account, empty and owned by the escrow authority, and
/// changes nothing else. On the books it leaves, and on any books that hold
/// an account at the escrow address, every registration of the same token,
/// whoever pays, is rejected with `AlreadyInitialized`.
pub proof fn law_registration_once(
    config: VaultConfig,
    payer: Address,
    later_payer: Address,
    before: LedgerState,
)
    requires
        before.tokens.dom().contains(config.principal_token_id),
    ensures
        register_plan(config, config.principal_token_id, payer) matches Ok(first) ==> {
            &&& first.escrow.address == first.escrow.authority.address
            &&& first.escrow.token_id == config.principal_token_id
            &&& register_plan(config, config.principal_token_id, later_payer) matches Ok(second)
            &&& second.escrow == first.escrow
            &&& !before.accounts.dom().contains(first.escrow.address) ==> {
                &&& first.transition.run(before) matches Ok(after)
                &&& after.tokens == before.tokens
                &&& after.accounts == before.accounts.insert(
                    first.escrow.address,
                    Account {
                        token_id: config.principal_token_id,
                        owner: first.escrow.address,
                        balance: 0,
                    },
                )
                &&& second.transition.run(after) == Err::<LedgerState, VaultError>(
                    VaultError::AlreadyInitialized,
                )
            }
            &&& before.accounts.dom().contains(first.escrow.address) ==> first.transition.run(
                before,
            ) == Err::<LedgerState, VaultError>(VaultError::AlreadyInitialized)
        },
{
    reveal_with_fuel(Transition::run, 3);
    let planned = register_plan(config, config.principal_token_id, payer);
    if planned is Ok {
        let first = planned->Ok_0;
        if !before.accounts.dom().contains(first.escrow.address) {
            let after = before.create_account(
                config.principal_token_id,
                first.escrow.address,
            )->Ok_0;
            assert(first.transition.run(before) == Ok::<LedgerState, VaultError>(after));
        }
    }
}

/// The books are ready for a stake: the holder's reward account holds the
/// reward token, whose mint authority is the one named; the holder's
/// principal account and the escrow account hold the principal token; the
/// holder named owns the principal account.
pub open spec fn ready_to_stake(config: VaultConfig, accounts: Stake, books: LedgerState) -> bool {
    &&& books.holds(accounts.reward_ata_for_user, config.reward_token_id)
    &&& books.tokens[config.reward_token_id].mint_authority == accounts.authority_of_reward_mint
    &&& books.holds(accounts.myspl_ata_for_user, config.principal_token_id)
    &&& books.holds(accounts.myspl_ata_for_program, config.principal_token_id)
    &&& books.accounts[accounts.myspl_ata_for_user].owner
        == accounts.authority_of_myspl_ata_for_user
}

/// The books are ready for an unstake: the holder's reward account holds
/// the reward token and is owned by the holder named; the holder's
/// principal account and the escrow account hold the principal token; the
/// escrow account is owned by its own address.
pub open spec fn ready_to_unstake(config: VaultConfig, accounts: UnStake, books: LedgerState)
    -> bool {
    &&& books.holds(accounts.reward_ata_for_user, config.reward_token_id)
    &&& books.accounts[accounts.reward_ata_for_user].owner
        == accounts.authority_of_reward_ata_for_user
    &&& books.holds(accounts.myspl_ata_for_user, config.principal_token_id)
    &&& books.holds(accounts.myspl_ata_for_program, config.principal_token_id)
    &&& books.accounts[accounts.myspl_ata_for_program].owner == accounts.myspl_ata_for_program
}

/// When a stake succeeds. On books that are ready for it, the calls of a
/// stake all land exactly if the holder's principal covers the amount and
/// neither the reward supply, the holder's reward balance nor the escrow
/// balance would pass `u64::MAX`.
pub proof fn law_stake_succeeds(
    config: VaultConfig,
    accounts: Stake,
    mint_authority: DerivedAuthority,
    amount: u64,
    before: LedgerState,
)
    requires
        config.wf(),
        accounts.myspl_ata_for_user != accounts.myspl_ata_for_program,
        mint_authority.address == accounts.authority_of_reward_mint,
        ready_to_stake(config, accounts, before),
    ensures
        stake_calls(config, accounts, mint_authority, amount).run(before) is Ok <==> {
            &&& before.accounts[accounts.myspl_ata_for_user].balance >= amount
            &&& before.tokens[config.reward_token_id].supply + amount <= u64::MAX
            &&& before.accounts[accounts.reward_ata_for_user].balance + amount <= u64::MAX
            &&& before.accounts[accounts.myspl_ata_for_program].balance + amount <= u64::MAX
        },
{
    reveal_with_fuel(Transition::run, 3);
}

/// What a stake moves. After a stake of a positive amount has succeeded,
/// the holder's reward balance and the reward supply are up by exactly the
/// amount, the holder's principal balance is down by exactly the amount,
/// and the escrow balance is up by exactly the amount. No other account and
/// no other token has changed.
pub proof fn law_stake_moves_funds(
    config: VaultConfig,
    accounts: Stake,
    authority_of_reward_mint_bump: u8,
    myspl_ata_for_program_bump: u8,
    amount: u64,
    before: LedgerState,
)
    requires
        config.wf(),
        accounts.myspl_ata_for_user != accounts.myspl_ata_for_program,
        amount > 0,
    ensures
        stake_plan(
            config,
            accounts,
            authority_of_reward_mint_bump,
            myspl_ata_for_program_bump,
            amount,
        ) matches Ok(transition) ==> (transition.run(before) matches Ok(after) ==> {
            &&& after.accounts[accounts.reward_ata_for_user].balance
                == before.accounts[accounts.reward_ata_for_user].balance + amount
            &&& after.accounts[accounts.myspl_ata_for_user].balance
                == before.accounts[accounts.myspl_ata_for_user].balance - amount
            &&& after.accounts[accounts.myspl_ata_for_program].balance
                == before.accounts[accounts.myspl_ata_for_program].balance + amount
            &&& after.tokens[config.reward_token_id].supply
                == before.tokens[config.reward_token_id].supply + amount
            &&& after.tokens.dom() == before.tokens.dom()
            &&& after.accounts.dom() == before.accounts.dom()
            &&& forall|token_id: Address|
                token_id != config.reward_token_id ==> after.tokens[token_id]
                    == before.tokens[token_id]
            &&& forall|account: Address|
                account != accounts.reward_ata_for_user && account != accounts.myspl_ata_for_user
                    && account != accounts.myspl_ata_for_program ==> after.accounts[account]
                    == before.accounts[account]
        }),
{
    reveal_with_fuel(Transition::run, 3);
    let planned = stake_plan(
        config,
        accounts,
        authority_of_reward_mint_bump,
        myspl_ata_for_program_bump,
        amount,
    );
    if planned is Ok && planned->Ok_0.run(before) is Ok {
        let after = planned->Ok_0.run(before)->Ok_0;
        assert(after.tokens.dom() =~= before.tokens.dom());
        assert(after.accounts.dom() =~= before.accounts.dom());
    }
}

/// What an unstake moves. After an unstake of a positive amount has
/// succeeded, the holder's reward balance and the reward supply are down by
/// exactly the amount, the holder's principal balance is up by exactly the
/// amount, and the escrow balance is down by exactly the amount. No other
/// account and no other token has changed.
pub proof fn law_unstake_moves_funds(
    config: VaultConfig,
    accounts: UnStake,
    myspl_ata_for_program_bump: u8,
    amount: u64,
    before: LedgerState,
)
    requires
        config.wf(),
        accounts.myspl_ata_for_user != accounts.myspl_ata_for_program,
        amount > 0,
    ensures
        unstake_plan(config, accounts, myspl_ata_for_program_bump, amount) matches Ok(transition)
            ==> (transition.run(before) matches Ok(after) ==> {
            &&& after.accounts[accounts.reward_ata_for_user].balance
                == before.accounts[accounts.reward_ata_for_user].balance - amount
            &&& after.accounts[accounts.myspl_ata_for_user].balance
                == before.accounts[accounts.myspl_ata_for_user].balance + amount
            &&& after.accounts[accounts.myspl_ata_for_program].balance
                == before.accounts[accounts.myspl_ata_for_program].balance - amount
            &&& after.tokens[config.reward_token_id].supply
                == before.tokens[config.reward_token_id].supply - amount
            &&& after.tokens.dom() == before.tokens.dom()
            &&& after.accounts.dom() == before.accounts.dom()
            &&& forall|token_id: Address|
                token_id != config.reward_token_id ==> after.tokens[token_id]
                    == before.tokens[token_id]
            &&& forall|account: Address|
                account != accounts.reward_ata_for_user && account != accounts.myspl_ata_for_user
                    && account != accounts.myspl_ata_for_program ==> after.accounts[account]
                    == before.accounts[account]
        }),
{
    reveal_with_fuel(Transition::run, 3);
    let planned = unstake_plan(config, accounts, myspl_ata_for_program_bump, amount);
    if planned is Ok && planned->Ok_0.run(before) is Ok {
        let after = planned->Ok_0.run(before)->Ok_0;
        assert(after.tokens.dom() =~= before.tokens.dom());
        assert(after.accounts.dom() =~= before.accounts.dom());
    }
}

/// When an unstake succeeds, and how it fails on a short escrow. On books
/// that are ready for it, the calls of an unstake all land exactly if the
/// holder's reward balance, the reward supply and the escrow balance each
/// cover the amount and the holder's principal balance would not pass
/// `u64::MAX`. Where the reward can be burnt but the escrow balance is
/// short, the unstake is rejected with `InsufficientFunds`.
pub proof fn law_unstake_succeeds(
    config: VaultConfig,
    accounts: UnStake,
    escrow_authority: DerivedAuthority,
    amount: u64,
    before: LedgerState,
)
    requires
        config.wf(),
        accounts.myspl_ata_for_user != accounts.myspl_ata_for_program,
        escrow_authority.address == accounts.myspl_ata_for_program,
        ready_to_unstake(config, accounts, before),
    ensures
        unstake_calls(config, accounts, escrow_authority, amount).run(before) is Ok <==> {
            &&& before.accounts[accounts.reward_ata_for_user].balance >= amount
            &&& before.tokens[config.reward_token_id].supply >= amount
            &&& before.accounts[accounts.myspl_ata_for_program].balance >= amount
            &&& before.accounts[accounts.myspl_ata_for_user].balance + amount <= u64::MAX
        },
        before.accounts[accounts.reward_ata_for_user].balance >= amount
            && before.tokens[config.reward_token_id].supply >= amount
            && before.accounts[accounts.myspl_ata_for_program].balance < amount ==> unstake_calls(
            config,
            accounts,
            escrow_authority,
            amount,
        ).run(before) == Err::<LedgerState, VaultError>(VaultError::InsufficientFunds),
{
    reveal_with_fuel(Transition::run, 3);
}

/// Round trip. On books that are ready for it, where the holder also owns
/// the reward account and the escrow account is its own authority: when a
/// stake of a positive amount has succeeded, the unstake of the same amount
/// by the same holder, on the books that the stake left, succeeds and
/// leaves the books exactly as they were before the stake. The holder's
/// principal balance is back at its old value, and so are the reward
/// balance (zero, if it was zero), the escrow balance and the reward supply.
pub proof fn law_round_trip(
    config: VaultConfig,
    staked: Stake,
    unstaked: UnStake,
    mint_authority: DerivedAuthority,
    escrow_authority: DerivedAuthority,
    amount: u64,
    before: LedgerState,
)
    requires
        config.wf(),
        amount > 0,
        staked.myspl_ata_for_user != staked.myspl_ata_for_program,
        escrow_authority.address == staked.myspl_ata_for_program,
        unstaked.reward_ata_for_user == staked.reward_ata_for_user,
        unstaked.myspl_ata_for_user == staked.myspl_ata_for_user,
        unstaked.myspl_ata_for_program == staked.myspl_ata_for_program,
        ready_to_stake(config, staked, before),
        before.accounts[staked.reward_ata_for_user].owner
            == unstaked.authority_of_reward_ata_for_user,
        before.accounts[staked.myspl_ata_for_program].owner == staked.myspl_ata_for_program,
    ensures
        stake_calls(config, staked, mint_authority, amount).run(before) matches Ok(between)
            ==> unstake_calls(config, unstaked, escrow_authority, amount).run(between) == Ok::<
            LedgerState,
            VaultError,
        >(before),
{
    reveal_with_fuel(Transition::run, 3);
    let stake_ended = stake_calls(config, staked, mint_authority, amount).run(before);
    if stake_ended is Ok {
        let between = stake_ended->Ok_0;
        let unstake_ended = unstake_calls(config, unstaked, escrow_authority, amount).run(
            between,
        );
        assert(unstake_ended is Ok);
        let after = unstake_ended->Ok_0;
        assert(after.tokens =~= before.tokens);
        assert(after.accounts =~= before.accounts);
        assert(after =~= before);
    }
}

/// The exchange is one to one in both directions, so it grows with the
/// amount and a stake followed by an unstake of the reward it gave asks for
/// the principal that went in.
pub proof fn law_exchange_one_to_one(smaller: u64, larger: u64)
    requires
        smaller <= larger,
    ensures
        reward_of(smaller) == smaller,
        principal_of(smaller) == smaller,
        reward_of(smaller) <= reward_of(larger),
        principal_of(smaller) <= principal_of(larger),
        principal_of(reward_of(smaller)) == smaller,
{
}

/// An amount of zero is a defined no-op. A stake or an unstake of zero that
/// passes its checks is complete at once: it makes no call to the ledger
/// and leaves every balance as it was.
pub proof fn law_zero_amount_changes_nothing(
    config: VaultConfig,
    staked: Stake,
    unstaked: UnStake,
    mint_bump: u8,
    escrow_bump: u8,
    books: LedgerState,
)
    ensures
        stake_plan(config, staked, mint_bump, escrow_bump, 0) matches Ok(transition) ==> {
            &&& transition == Transition::Complete
            &&& transition.remaining().len() == 0
            &&& transition.run(books) == Ok::<LedgerState, VaultError>(books)
        },
        unstake_plan(config, unstaked, escrow_bump, 0) matches Ok(transition) ==> {
            &&& transition == Transition::Complete
            &&& transition.remaining().len() == 0
            &&& transition.run(books) == Ok::<LedgerState, VaultError>(books)
        },
{
    reveal_with_fuel(Transition::run, 2);
}

} // verus!
