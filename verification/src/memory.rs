//! A ledger kept in memory. It does with each call what `LedgerState` says
//! the ledger service does, and it carries out a transition as one unit:
//! either every call lands or the books stay as they were.

use vstd::prelude::*;

use crate::address::Address;
use crate::authority::DerivedAuthority;
use crate::error::{LedgerError, VaultError};
use crate::ledger::{Account, LedgerCall, LedgerState, Token};
use crate::transition::Transition;

verus! {

/// One line of a table: a record under its address.
struct Entry<V> {
    key: Address,
    value: V,
}

/// Some line of the table stands under `key`.
spec fn has_key<V>(entries: Seq<Entry<V>>, key: Address) -> bool {
    exists|i: int| 0 <= i < entries.len() && (#[trigger] entries[i]).key == key
}

/// A line of the table that stands under `key`.
spec fn index_of<V>(entries: Seq<Entry<V>>, key: Address) -> int {
    choose|i: int| 0 <= i < entries.len() && (#[trigger] entries[i]).key == key
}

/// No two lines stand under the same address.
spec fn distinct<V>(entries: Seq<Entry<V>>) -> bool {
    forall|i: int, j: int|
        0 <= i < j < entries.len() ==> (#[trigger] entries[i]).key != (#[trigger] entries[j]).key
}

/// The table as a map from address to record.
spec fn table<V>(entries: Seq<Entry<V>>) -> Map<Address, V> {
    Map::new(|key: Address| has_key(entries, key), |key: Address| entries[index_of(entries, key)].value)
}

/// The record of line `i` is what the map holds under that line's address.
proof fn lemma_table_at<V>(entries: Seq<Entry<V>>, i: int)
    requires
        distinct(entries),
        0 <= i < entries.len(),
    ensures
        table(entries).dom().contains(entries[i].key),
        table(entries)[entries[i].key] == entries[i].value,
        index_of(entries, entries[i].key) == i,
{
    let key = entries[i].key;
    assert(has_key(entries, key));
    let chosen = index_of(entries, key);
    assert(0 <= chosen < entries.len() && entries[chosen].key == key);
    if chosen < i {
        assert(entries[chosen].key != entries[i].key);
    }
    if i < chosen {
        assert(entries[i].key != entries[chosen].key);
    }
}

/// Replacing the record of a line replaces it in the map.
proof fn lemma_table_update<V>(entries: Seq<Entry<V>>, i: int, value: V)
    requires
        distinct(entries),
        0 <= i < entries.len(),
    ensures
        distinct(entries.update(i, Entry { key: entries[i].key, value })),
        table(entries.update(i, Entry { key: entries[i].key, value })) == table(entries).insert(
            entries[i].key,
            value,
        ),
{
    let key = entries[i].key;
    let updated = entries.update(i, Entry { key, value });
    assert forall|a: int, b: int| 0 <= a < b < updated.len() implies (#[trigger] updated[a]).key
        != (#[trigger] updated[b]).key by {
        assert(updated[a].key == entries[a].key);
        assert(updated[b].key == entries[b].key);
    }
    assert forall|k: Address| has_key(updated, k) == has_key(entries, k) by {
        if has_key(entries, k) {
            let j = index_of(entries, k);
            assert(updated[j].key == k);
        }
        if has_key(updated, k) {
            let j = index_of(updated, k);
            assert(entries[j].key == k);
        }
    }
    assert forall|k: Address| #[trigger]
        table(updated).dom().contains(k) implies table(updated)[k] == table(entries).insert(
        key,
        value,
    )[k] by {
        let j = index_of(updated, k);
        assert(0 <= j < updated.len() && updated[j].key == k);
        lemma_table_at(updated, j);
        if j == i {
        } else {
            assert(entries[j].key == k);
            lemma_table_at(entries, j);
            lemma_table_at(entries, i);
        }
    }
    lemma_table_at(entries, i);
    assert(table(updated) =~= table(entries).insert(key, value));
}

/// Adding a line under a free address adds it to the map.
proof fn lemma_table_push<V>(entries: Seq<Entry<V>>, key: Address, value: V)
    requires
        distinct(entries),
        !has_key(entries, key),
    ensures
        distinct(entries.push(Entry { key, value })),
        table(entries.push(Entry { key, value })) == table(entries).insert(key, value),
{
    let pushed = entries.push(Entry { key, value });
    let last = entries.len() as int;
    assert forall|a: int, b: int| 0 <= a < b < pushed.len() implies (#[trigger] pushed[a]).key
        != (#[trigger] pushed[b]).key by {
        if b == last {
            assert(pushed[a] == entries[a]);
            assert(entries[a].key != key);
        } else {
            assert(pushed[a] == entries[a]);
            assert(pushed[b] == entries[b]);
        }
    }
    assert(pushed[last].key == key);
    assert forall|k: Address| has_key(pushed, k) == (has_key(entries, k) || k == key) by {
        if has_key(entries, k) {
            let j = index_of(entries, k);
            assert(pushed[j].key == k);
        }
        if has_key(pushed, k) {
            let j = index_of(pushed, k);
            if j < last {
                assert(entries[j].key == k);
            }
        }
    }
    assert forall|k: Address| #[trigger]
        table(pushed).dom().contains(k) implies table(pushed)[k] == table(entries).insert(
        key,
        value,
    )[k] by {
        let j = index_of(pushed, k);
        assert(0 <= j < pushed.len() && pushed[j].key == k);
        lemma_table_at(pushed, j);
        if j < last {
            assert(entries[j].key == k);
            lemma_table_at(entries, j);
        }
    }
    assert(table(pushed) =~= table(entries).insert(key, value));
}

/// Looks for the line under `key`.
fn find<V>(entries: &Vec<Entry<V>>, key: &Address) -> (found: Option<usize>)
    ensures
        match found {
            Some(i) => i < entries.len() && entries[i as int].key == *key,
            None => !has_key(entries@, *key),
        },
{
    let mut i: usize = 0;
    while i < entries.len()
        invariant
            i <= entries.len(),
            forall|j: int| 0 <= j < i ==> (#[trigger] entries[j]).key != *key,
        decreases entries.len() - i,
    {
        if entries[i].key.same(key) {
            return Some(i);
        }
        i += 1;
    }
    None
}

/// A copy of the table.
fn copy_of<V: Copy>(entries: &Vec<Entry<V>>) -> (copy: Vec<Entry<V>>)
    ensures
        copy@ == entries@,
{
    let mut copy: Vec<Entry<V>> = Vec::new();
    let mut i: usize = 0;
    while i < entries.len()
        invariant
            i <= entries.len(),
            copy@ == entries@.take(i as int),
        decreases entries.len() - i,
    {
        let entry = Entry { key: entries[i].key, value: entries[i].value };
        copy.push(entry);
        assert(entries@.take(i as int).push(entries[i as int]) == entries@.take(i + 1));
        i += 1;
    }
    assert(entries@.take(entries.len() as int) == entries@);
    copy
}

/// A ledger in memory: tokens and accounts, each under its address.
pub struct MemoryLedger {
    tokens: Vec<Entry<Token>>,
    accounts: Vec<Entry<Account>>,
}

impl View for MemoryLedger {
    type V = LedgerState;

    closed spec fn view(&self) -> LedgerState {
        LedgerState { tokens: table(self.tokens@), accounts: table(self.accounts@) }
    }
}

impl MemoryLedger {
    /// No address stands for two tokens or for two accounts.
    pub closed spec fn wf(&self) -> bool {
        distinct(self.tokens@) && distinct(self.accounts@)
    }

    /// A ledger with no token and no account.
    pub fn new() -> (ledger: MemoryLedger)
        ensures
            ledger.wf(),
            ledger@.tokens == Map::<Address, Token>::empty(),
            ledger@.accounts == Map::<Address, Account>::empty(),
    {
        let ledger = MemoryLedger { tokens: Vec::new(), accounts: Vec::new() };
        assert(ledger@.tokens =~= Map::<Address, Token>::empty());
        assert(ledger@.accounts =~= Map::<Address, Account>::empty());
        ledger
    }

    /// What the ledger records of a token, if it is registered.
    pub fn token(&self, token_id: &Address) -> (found: Option<Token>)
        requires
            self.wf(),
        ensures
            found == if self@.tokens.dom().contains(*token_id) {
                Some(self@.tokens[*token_id])
            } else {
                None
            },
    {
        match find(&self.tokens, token_id) {
            Some(i) => {
                proof {
                    lemma_table_at(self.tokens@, i as int);
                }
                Some(self.tokens[i].value)
            },
            None => None,
        }
    }

    /// What the ledger records of an account, if it exists.
    pub fn account(&self, address: &Address) -> (found: Option<Account>)
        requires
            self.wf(),
        ensures
            found == if self@.accounts.dom().contains(*address) {
                Some(self@.accounts[*address])
            } else {
                None
            },
    {
        match find(&self.accounts, address) {
            Some(i) => {
                proof {
                    lemma_table_at(self.accounts@, i as int);
                }
                Some(self.accounts[i].value)
            },
            None => None,
        }
    }

    /// Registers a token with its mint authority.
    pub fn register_token(&mut self, token_id: &Address, mint_authority: &Address) -> (reply:
        Result<(), LedgerError>)
        requires
            old(self).wf(),
        ensures
            final(self).wf(),
            match old(self)@.register_token(*token_id, *mint_authority) {
                Ok(after) => reply is Ok && final(self)@ == after,
                Err(error) => reply == Err::<(), LedgerError>(error) && final(self)@ == old(self)@,
            },
    {
        match find(&self.tokens, token_id) {
            Some(i) => {
                proof {
                    lemma_table_at(self.tokens@, i as int);
                }
                Err(LedgerError::AccountExists)
            },
            None => {
                let value = Token { mint_authority: *mint_authority, supply: 0 };
                proof {
                    lemma_table_push(self.tokens@, *token_id, value);
                }
                self.tokens.push(Entry { key: *token_id, value });
                Ok(())
            },
        }
    }

    /// Opens an empty account of a token for a holder.
    pub fn open_account(&mut self, address: &Address, token_id: &Address, owner: &Address) -> (reply:
        Result<(), LedgerError>)
        requires
            old(self).wf(),
        ensures
            final(self).wf(),
            match old(self)@.open_account(*address, *token_id, *owner) {
                Ok(after) => reply is Ok && final(self)@ == after,
                Err(error) => reply == Err::<(), LedgerError>(error) && final(self)@ == old(self)@,
            },
    {
        match find(&self.tokens, token_id) {
            Some(t) => {
                proof {
                    lemma_table_at(self.tokens@, t as int);
                }
            },
            None => {
                return Err(LedgerError::AccountMismatch);
            },
        }
        match find(&self.accounts, address) {
            Some(i) => {
                proof {
                    lemma_table_at(self.accounts@, i as int);
                }
                Err(LedgerError::AccountExists)
            },
            None => {
                let value = Account { token_id: *token_id, owner: *owner, balance: 0 };
                proof {
                    lemma_table_push(self.accounts@, *address, value);
                }
                self.accounts.push(Entry { key: *address, value });
                Ok(())
            },
        }
    }

    /// Creates the account of a derived authority, at the authority's own
    /// address, and returns that address.
    pub fn create_account(&mut self, token_id: &Address, owner: &DerivedAuthority, payer: &Address)
        -> (reply: Result<Address, LedgerError>)
        requires
            old(self).wf(),
        ensures
            final(self).wf(),
            match old(self)@.create_account(*token_id, owner.address) {
                Ok(after) => reply == Ok::<Address, LedgerError>(owner.address) && final(self)@
                    == after,
                Err(error) => reply == Err::<Address, LedgerError>(error) && final(self)@ == old(
                    self,
                )@,
            },
    {
        match self.open_account(&owner.address, token_id, &owner.address) {
            Ok(_) => Ok(owner.address),
            Err(error) => Err(error),
        }
    }

    /// Mints `amount` units of a token into `destination`.
    pub fn mint(&mut self, token_id: &Address, destination: &Address, amount: u64, signer: &Address)
        -> (reply: Result<(), LedgerError>)
        requires
            old(self).wf(),
        ensures
            final(self).wf(),
            match old(self)@.mint(*token_id, *destination, amount, *signer) {
                Ok(after) => reply is Ok && final(self)@ == after,
                Err(error) => reply == Err::<(), LedgerError>(error) && final(self)@ == old(self)@,
            },
    {
        let t = match find(&self.tokens, token_id) {
            Some(t) => t,
            None => { return Err(LedgerError::AccountMismatch); },
        };
        let d = match find(&self.accounts, destination) {
            Some(d) => d,
            None => { return Err(LedgerError::AccountMismatch); },
        };
        proof {
            lemma_table_at(self.tokens@, t as int);
            lemma_table_at(self.accounts@, d as int);
        }
        let token = self.tokens[t].value;
        let account = self.accounts[d].value;
        if !account.token_id.same(token_id) {
            return Err(LedgerError::AccountMismatch);
        }
        if !signer.same(&token.mint_authority) {
            return Err(LedgerError::MintAuthorityRejected);
        }
        if amount > u64::MAX - token.supply || amount > u64::MAX - account.balance {
            return Err(LedgerError::SupplyOverflow);
        }
        let minted = Token { mint_authority: token.mint_authority, supply: token.supply + amount };
        let credited = Account {
            token_id: account.token_id,
            owner: account.owner,
            balance: account.balance + amount,
        };
        proof {
            lemma_table_update(self.tokens@, t as int, minted);
            lemma_table_update(self.accounts@, d as int, credited);
        }
        self.tokens.set(t, Entry { key: *token_id, value: minted });
        self.accounts.set(d, Entry { key: *destination, value: credited });
        Ok(())
    }

    /// Burns `amount` units of a token held in `source`.
    pub fn burn(&mut self, token_id: &Address, source: &Address, amount: u64, signer: &Address) -> (reply:
        Result<(), LedgerError>)
        requires
            old(self).wf(),
        ensures
            final(self).wf(),
            match old(self)@.burn(*token_id, *source, amount, *signer) {
                Ok(after) => reply is Ok && final(self)@ == after,
                Err(error) => reply == Err::<(), LedgerError>(error) && final(self)@ == old(self)@,
            },
    {
        let t = match find(&self.tokens, token_id) {
            Some(t) => t,
            None => { return Err(LedgerError::AccountMismatch); },
        };
        let s = match find(&self.accounts, source) {
            Some(s) => s,
            None => { return Err(LedgerError::AccountMismatch); },
        };
        proof {
            lemma_table_at(self.tokens@, t as int);
            lemma_table_at(self.accounts@, s as int);
        }
        let token = self.tokens[t].value;
        let account = self.accounts[s].value;
        if !account.token_id.same(token_id) {
            return Err(LedgerError::AccountMismatch);
        }
        if !signer.same(&account.owner) {
            return Err(LedgerError::Unauthorized);
        }
        if account.balance < amount {
            return Err(LedgerError::InsufficientFunds);
        }
        if token.supply < amount {
            return Err(LedgerError::SupplyOverflow);
        }
        let burnt = Token { mint_authority: token.mint_authority, supply: token.supply - amount };
        let debited = Account {
            token_id: account.token_id,
            owner: account.owner,
            balance: account.balance - amount,
        };
        proof {
            lemma_table_update(self.tokens@, t as int, burnt);
            lemma_table_update(self.accounts@, s as int, debited);
        }
        self.tokens.set(t, Entry { key: *token_id, value: burnt });
        self.accounts.set(s, Entry { key: *source, value: debited });
        Ok(())
    }

    /// Moves `amount` units of a token from `source` to `destination`.
    pub fn transfer(
        &mut self,
        token_id: &Address,
        source: &Address,
        destination: &Address,
        amount: u64,
        signer: &Address,
    ) -> (reply: Result<(), LedgerError>)
        requires
            old(self).wf(),
        ensures
            final(self).wf(),
            match old(self)@.transfer(*token_id, *source, *destination, amount, *signer) {
                Ok(after) => reply is Ok && final(self)@ == after,
                Err(error) => reply == Err::<(), LedgerError>(error) && final(self)@ == old(self)@,
            },
    {
        match find(&self.tokens, token_id) {
            Some(t) => {
                proof {
                    lemma_table_at(self.tokens@, t as int);
                }
            },
            None => {
                return Err(LedgerError::AccountMismatch);
            },
        }
        let s = match find(&self.accounts, source) {
            Some(s) => s,
            None => { return Err(LedgerError::AccountMismatch); },
        };
        let d = match find(&self.accounts, destination) {
            Some(d) => d,
            None => { return Err(LedgerError::AccountMismatch); },
        };
        proof {
            lemma_table_at(self.accounts@, s as int);
            lemma_table_at(self.accounts@, d as int);
        }
        let from = self.accounts[s].value;
        let to = self.accounts[d].value;
        if !from.token_id.same(token_id) || !to.token_id.same(token_id) {
            return Err(LedgerError::AccountMismatch);
        }
        if !signer.same(&from.owner) {
            return Err(LedgerError::Unauthorized);
        }
        if from.balance < amount {
            return Err(LedgerError::InsufficientFunds);
        }
        if s == d {
            return Ok(());
        }
        if amount > u64::MAX - to.balance {
            return Err(LedgerError::SupplyOverflow);
        }
        let debited = Account {
            token_id: from.token_id,
            owner: from.owner,
            balance: from.balance - amount,
        };
        let credited = Account { token_id: to.token_id, owner: to.owner, balance: to.balance + amount };
        proof {
            lemma_table_update(self.accounts@, s as int, debited);
            let halfway = self.accounts@.update(s as int, Entry { key: *source, value: debited });
            assert(halfway[d as int] == self.accounts@[d as int]);
            lemma_table_update(halfway, d as int, credited);
        }
        self.accounts.set(s, Entry { key: *source, value: debited });
        self.accounts.set(d, Entry { key: *destination, value: credited });
        Ok(())
    }

    /// Carries out one call.
    pub fn apply(&mut self, call: &LedgerCall) -> (reply: Result<(), LedgerError>)
        requires
            old(self).wf(),
        ensures
            final(self).wf(),
            match old(self)@.apply(*call) {
                Ok(after) => reply is Ok && final(self)@ == after,
                Err(error) => reply == Err::<(), LedgerError>(error) && final(self)@ == old(self)@,
            },
    {
        match call {
            LedgerCall::Mint { token_id, destination, amount, authority } => self.mint(
                token_id,
                destination,
                *amount,
                &authority.address(),
            ),
            LedgerCall::Burn { token_id, source, amount, authority } => self.burn(
                token_id,
                source,
                *amount,
                &authority.address(),
            ),
            LedgerCall::Transfer { token_id, source, destination, amount, authority } => self.transfer(
                token_id,
                source,
                destination,
                *amount,
                &authority.address(),
            ),
            LedgerCall::CreateAccount { token_id, owner, payer } => match self.create_account(
                token_id,
                owner,
                payer,
            ) {
                Ok(_) => Ok(()),
                Err(error) => Err(error),
            },
        }
    }

    /// Carries out a transition as one unit of work. The calls are made in
    /// order on a copy of the books; the copy replaces the books only when
    /// the last call has succeeded. On any refusal the books stay as they
    /// were and the error is returned.
    pub fn execute(&mut self, transition: Transition) -> (outcome: Result<(), VaultError>)
        requires
            old(self).wf(),
        ensures
            final(self).wf(),
            match transition.run(old(self)@) {
                Ok(after) => outcome is Ok && final(self)@ == after,
                Err(error) => outcome == Err::<(), VaultError>(error) && final(self)@ == old(
                    self,
                )@,
            },
    {
        let mut scratch = MemoryLedger {
            tokens: copy_of(&self.tokens),
            accounts: copy_of(&self.accounts),
        };
        let mut current = transition;
        let ghost before = self@;
        loop
            invariant
                scratch.wf(),
                self.wf(),
                self@ == before,
                before == old(self)@,
                current.run(scratch@) == transition.run(before),
            decreases current.remaining().len(),
        {
            match current {
                Transition::Pending { next, later } => {
                    let reply = scratch.apply(&next);
                    current = current.resume(reply);
                },
                Transition::Complete => {
                    *self = scratch;
                    return Ok(());
                },
                Transition::Aborted { error } => {
                    return Err(error);
                },
            }
        }
    }
}

} // verus!
