//! The fee rule, the guards and the fee request that the operations share.
use vstd::prelude::*;
use crate::account::VaultAccount;
use crate::errors::CustomError;
use crate::pubkey::Pubkey;
use crate::transfer::{Endpoint, Transfer};

verus! {

/// The fee owed on moving `amount`: one percent, rounded down.
pub open spec fn fee_of(amount: int) -> int {
    amount / 100
}

/// The request that moves `fee` from the party that pays it to the collector.
pub open spec fn fee_transfer(from: Pubkey, to: Pubkey, fee: u64) -> Transfer {
    Transfer { from: Endpoint::Party(from), to: Endpoint::Party(to), amount: fee }
}

/// Builds the request that charges `fee` to `from` in favour of the collector `to`.
pub fn send_fees(from: &Pubkey, to: &Pubkey, fee: u64) -> (request: Transfer)
    ensures
        request == fee_transfer(*from, *to, fee),
{
    Transfer { from: Endpoint::Party(*from), to: Endpoint::Party(*to), amount: fee }
}

/// Computes the fee owed on moving `amount`.
pub fn calculate_fee(amount: u64) -> (fee: u64)
    ensures
        fee == fee_of(amount as int),
{
    amount / 100
}

/// Lets only the owner of `vault` through.
pub fn assert_owner(vault: &VaultAccount, initializer: &Pubkey) -> (guard: Result<
    (),
    CustomError,
>)
    ensures
        vault.owner == *initializer ==> guard == Ok::<(), CustomError>(()),
        vault.owner != *initializer ==> guard == Err::<(), CustomError>(
            CustomError::Unauthorized,
        ),
{
    if vault.owner == *initializer {
        Ok(())
    } else {
        Err(CustomError::Unauthorized)
    }
}

/// Lets a request through only if `vault` holds at least `amount`.
pub fn assert_balance(vault: &VaultAccount, amount: u64) -> (guard: Result<(), CustomError>)
    ensures
        vault.balance >= amount ==> guard == Ok::<(), CustomError>(()),
        vault.balance < amount ==> guard == Err::<(), CustomError>(
            CustomError::InsufficientFunds,
        ),
{
    if vault.balance >= amount {
        Ok(())
    } else {
        Err(CustomError::InsufficientFunds)
    }
}

} // verus!
