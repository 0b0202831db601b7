//! A two-party asset-exchange escrow.
//!
//! An initializer locks one unit of an asset into a custody account that only
//! a program-derived authority controls, and publishes the payment it will
//! accept. A taker settles the trade atomically, or the initializer cancels
//! and takes the asset back. Either way the trade is resolved exactly once.
//!
//! - [`address`]: identities.
//! - [`authority`]: the derived custody authority and custody accounts.
//! - [`error`]: why an operation is refused.
//! - [`table`]: a map keyed by identities.
//! - [`token`]: the asset ledger and its primitives.
//! - [`escrow`]: the record, the accounts of each operation, and the rules.
//! - [`ledger`]: the state machine and its three operations.
//! - [`laws`]: what holds of every step.
pub mod address;
pub mod authority;
pub mod error;
pub mod escrow;
pub mod laws;
pub mod ledger;
pub mod table;
pub mod token;

pub use crate::address::Address;
pub use crate::authority::{find_program_address, find_vault_account, find_vault_authority};
pub use crate::error::{AuthorityError, EscrowError, SubstrateError, ValidationError};
pub use crate::escrow::{
    Cancel, CancelAccounts, EscrowAccount, Exchange, ExchangeAccounts, InitializeEscrow,
    InitializeEscrowAccounts,
};
pub use crate::ledger::{cancel, exchange, initialize_escrow, Ledger, LedgerState};
pub use crate::token::{CloseAccount, SetAuthority, TokenAccount, TokenLedger, Transfer};
