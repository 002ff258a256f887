//! A custodial balance ledger.
//!
//! Each vault record holds a balance for one owner. The owner deposits into
//! the vault, withdraws from it, closes it, or hands it to a new owner; a one
//! percent fee goes to a separate collector on every deposit and withdrawal.
//!
//! The ledger never moves value itself. Each operation that moves value comes
//! in two parts: a function that validates the request and lists the
//! transfers that have to be made, and a function that takes the outcome of
//! those transfers and decides the new state of the record and the event to
//! publish. The caller performs the transfers in between, leaves the ledger
//! alone meanwhile, and publishes the event afterwards. The transfers of one
//! operation are expected to take effect together or not at all.
//!
//! The fee is charged on top: a deposit moves the whole amount into the vault
//! and a withdrawal moves the whole amount out of it, and in both cases the
//! caller pays the fee to the collector from funds outside the vault.
pub mod account;
pub mod errors;
pub mod events;
pub mod helpers;
pub mod laws;
pub mod ledger;
pub mod operations;
pub mod pubkey;
pub mod transfer;

pub use account::VaultAccount;
pub use errors::CustomError;
pub use events::{CloseVaultEvent, DepositEvent, WithdrawEvent};
pub use helpers::{assert_balance, assert_owner, calculate_fee, send_fees};
pub use ledger::VaultLedger;
pub use operations::{close_vault, close_vault_transfers, deposit, deposit_transfers};
pub use operations::{init_vault, transfer_ownership, withdraw, withdraw_transfers};
pub use operations::{CloseVault, Deposit, InitVault, TransferOwnership, Withdraw};
pub use pubkey::Pubkey;
pub use transfer::{Endpoint, Transfer, TransferOutcome};
