//! The audit events that operations hand back for publication.
use vstd::prelude::*;
use crate::pubkey::Pubkey;

verus! {

/// Published after a deposit went through.
#[derive(Clone, Copy, Debug, PartialEq, Eq)]
pub struct DepositEvent {
    /// The party that deposited.
    pub initializer: Pubkey,
    /// The amount that was added to the balance.
    pub amount: u64,
}

/// Published after a withdrawal went through.
#[derive(Clone, Copy, Debug, PartialEq, Eq)]
pub struct WithdrawEvent {
    /// The party that withdrew.
    pub initializer: Pubkey,
    /// The amount that was taken from the balance.
    pub amount: u64,
}

/// Published after a vault that still held value was closed.
#[derive(Clone, Copy, Debug, PartialEq, Eq)]
pub struct CloseVaultEvent {
    /// The party that closed the vault.
    pub initializer: Pubkey,
    /// The balance that was returned to it.
    pub amount: u64,
}

} // verus!
