//! Core of a custody vault: holders deposit a principal token and receive a
//! reward token minted by the vault; later they burn the reward token to
//! reclaim the principal.
//!
//! The vault owns no private key. It acts through two derived authorities,
//! one that signs reward minting and one that owns the escrow account, and
//! it moves tokens only by instructing an external ledger service.

pub mod address;
pub mod authority;
pub mod config;
pub mod error;
pub mod laws;
pub mod ledger;
pub mod memory;
pub mod transition;
pub mod vault;
