//! The boundary to the ledger service: the four calls that the vault makes,
//! and what the service is expected to do with each of them.
//!
//! The vault keeps no copy of any balance. `LedgerState` is the mathematical
//! picture of the service's books, used to say what a call changes.

use vstd::prelude::*;

use crate::address::Address;
use crate::authority::DerivedAuthority;
use crate::error::LedgerError;

verus! {

/// Who authorises a call: a holder by their own signature, or a derived
/// authority whose seed and bump the vault supplies.
#[derive(Clone, Copy, Debug, PartialEq, Eq)]
pub enum Authority {
    Holder { address: Address },
    Derived { authority: DerivedAuthority },
}

impl Authority {
    /// The address that signs.
    pub open spec fn signer(self) -> Address {
        match self {
            Authority::Holder { address } => address,
            Authority::Derived { authority } => authority.address,
        }
    }

    /// The address that signs.
    pub fn address(&self) -> (address: Address)
        ensures
            address == self.signer(),
    {
        match self {
            Authority::Holder { address } => *address,
            Authority::Derived { authority } => authority.address,
        }
    }
}

/// One instruction to the ledger service.
#[derive(Clone, Copy, Debug, PartialEq, Eq)]
pub enum LedgerCall {
    /// Create `amount` new units of the token in `destination`.
    Mint { token_id: Address, destination: Address, amount: u64, authority: Authority },
    /// Destroy `amount` units of the token held in `source`.
    Burn { token_id: Address, source: Address, amount: u64, authority: Authority },
    /// Move `amount` units of the token from `source` to `destination`.
    Transfer {
        token_id: Address,
        source: Address,
        destination: Address,
        amount: u64,
        authority: Authority,
    },
    /// Create an empty account of the token at the address of `owner`, owned
    /// by `owner` and funded by `payer`.
    CreateAccount { token_id: Address, owner: DerivedAuthority, payer: Address },
}

/// What the ledger records of a token.
#[derive(Clone, Copy, Debug, PartialEq, Eq)]
pub struct Token {
    pub mint_authority: Address,
    pub supply: u64,
}

/// What the ledger records of an account.
#[derive(Clone, Copy, Debug, PartialEq, Eq)]
pub struct Account {
    pub token_id: Address,
    pub owner: Address,
    pub balance: u64,
}

/// The books of the ledger: every token and every account, by address.
#[verifier::ext_equal]
pub struct LedgerState {
    pub tokens: Map<Address, Token>,
    pub accounts: Map<Address, Account>,
}

impl LedgerState {
    /// `account` exists and holds the registered token `token_id`.
    pub open spec fn holds(self, account: Address, token_id: Address) -> bool {
        &&& self.tokens.dom().contains(token_id)
        &&& self.accounts.dom().contains(account)
        &&& self.accounts[account].token_id == token_id
    }

    /// The books with the balance of `account` replaced.
    pub open spec fn with_balance(self, account: Address, balance: int) -> LedgerState {
        LedgerState {
            tokens: self.tokens,
            accounts: self.accounts.insert(
                account,
                Account { balance: balance as u64, ..self.accounts[account] },
            ),
        }
    }

    /// The books with the supply of `token_id` replaced.
    pub open spec fn with_supply(self, token_id: Address, supply: int) -> LedgerState {
        LedgerState {
            tokens: self.tokens.insert(
                token_id,
                Token { supply: supply as u64, ..self.tokens[token_id] },
            ),
            accounts: self.accounts,
        }
    }

    /// Minting: the destination must hold the token, the signer must be its
    /// mint authority, and neither the supply nor the balance may pass
    /// `u64::MAX`. Then both grow by `amount`.
    pub open spec fn mint(
        self,
        token_id: Address,
        destination: Address,
        amount: u64,
        signer: Address,
    ) -> Result<LedgerState, LedgerError> {
        if !self.holds(destination, token_id) {
            Err(LedgerError::AccountMismatch)
        } else if signer != self.tokens[token_id].mint_authority {
            Err(LedgerError::MintAuthorityRejected)
        } else if self.tokens[token_id].supply + amount > u64::MAX
            || self.accounts[destination].balance + amount > u64::MAX {
            Err(LedgerError::SupplyOverflow)
        } else {
            Ok(
                self.with_supply(token_id, self.tokens[token_id].supply + amount).with_balance(
                    destination,
                    self.accounts[destination].balance + amount,
                ),
            )
        }
    }

    /// Burning: the source must hold the token, the signer must own the
    /// source, and the balance must cover `amount`. Then balance and supply
    /// shrink by `amount`.
    pub open spec fn burn(self, token_id: Address, source: Address, amount: u64, signer: Address)
        -> Result<LedgerState, LedgerError> {
        if !self.holds(source, token_id) {
            Err(LedgerError::AccountMismatch)
        } else if signer != self.accounts[source].owner {
            Err(LedgerError::Unauthorized)
        } else if self.accounts[source].balance < amount {
            Err(LedgerError::InsufficientFunds)
        } else if self.tokens[token_id].supply < amount {
            Err(LedgerError::SupplyOverflow)
        } else {
            Ok(
                self.with_supply(token_id, self.tokens[token_id].supply - amount).with_balance(
                    source,
                    self.accounts[source].balance - amount,
                ),
            )
        }
    }

    /// Transferring: both accounts must hold the token, the signer must own
    /// the source, the source must cover `amount`, and the destination must
    /// not pass `u64::MAX`. A transfer from an account to itself changes
    /// nothing.
    pub open spec fn transfer(
        self,
        token_id: Address,
        source: Address,
        destination: Address,
        amount: u64,
        signer: Address,
    ) -> Result<LedgerState, LedgerError> {
        if !self.holds(source, token_id) || !self.holds(destination, token_id) {
            Err(LedgerError::AccountMismatch)
        } else if signer != self.accounts[source].owner {
            Err(LedgerError::Unauthorized)
        } else if self.accounts[source].balance < amount {
            Err(LedgerError::InsufficientFunds)
        } else if source == destination {
            Ok(self)
        } else if self.accounts[destination].balance + amount > u64::MAX {
            Err(LedgerError::SupplyOverflow)
        } else {
            Ok(
                self.with_balance(source, self.accounts[source].balance - amount).with_balance(
                    destination,
                    self.accounts[destination].balance + amount,
                ),
            )
        }
    }

    /// Registering a token: its address must be free. The new token has no
    /// supply yet.
    pub open spec fn register_token(self, token_id: Address, mint_authority: Address) -> Result<
        LedgerState,
        LedgerError,
    > {
        if self.tokens.dom().contains(token_id) {
            Err(LedgerError::AccountExists)
        } else {
            Ok(
                LedgerState {
                    tokens: self.tokens.insert(token_id, Token { mint_authority, supply: 0 }),
                    accounts: self.accounts,
                },
            )
        }
    }

    /// Opening an account for a holder: the token must be registered and the
    /// address free. The new account is empty.
    pub open spec fn open_account(self, address: Address, token_id: Address, owner: Address)
        -> Result<LedgerState, LedgerError> {
        if !self.tokens.dom().contains(token_id) {
            Err(LedgerError::AccountMismatch)
        } else if self.accounts.dom().contains(address) {
            Err(LedgerError::AccountExists)
        } else {
            Ok(
                LedgerState {
                    tokens: self.tokens,
                    accounts: self.accounts.insert(address, Account { token_id, owner, balance: 0 }),
                },
            )
        }
    }

    /// Creating an account for a derived authority: as opening one, at the
    /// authority's own address and owned by it.
    pub open spec fn create_account(self, token_id: Address, owner: Address) -> Result<
        LedgerState,
        LedgerError,
    > {
        self.open_account(owner, token_id, owner)
    }

    /// What the ledger does with a call: the books afterwards, or the reason
    /// for which it refuses and leaves the books as they are.
    pub open spec fn apply(self, call: LedgerCall) -> Result<LedgerState, LedgerError> {
        match call {
            LedgerCall::Mint { token_id, destination, amount, authority } => self.mint(
                token_id,
                destination,
                amount,
                authority.signer(),
            ),
            LedgerCall::Burn { token_id, source, amount, authority } => self.burn(
                token_id,
                source,
                amount,
                authority.signer(),
            ),
            LedgerCall::Transfer { token_id, source, destination, amount, authority } => self.transfer(
                token_id,
                source,
                destination,
                amount,
                authority.signer(),
            ),
            LedgerCall::CreateAccount { token_id, owner, payer } => self.create_account(
                token_id,
                owner.address,
            ),
        }
    }
}

} // verus!
