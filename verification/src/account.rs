//! The vault record.
use vstd::prelude::*;
use crate::pubkey::Pubkey;

verus! {

/// The balance held for one owner.
#[derive(Clone, Copy, Debug, PartialEq, Eq)]
pub struct VaultAccount {
    /// The value held, in the smallest unit.
    pub balance: u64,
    /// The party that may change this record.
    pub owner: Pubkey,
}

} // verus!
