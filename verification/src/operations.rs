//! The operations on the ledger: opening a vault, depositing, withdrawing,
//! closing, and handing a vault to a new owner.
//!
//! A record stays under the key it was created for. Handing it to a new owner
//! changes who may operate on it, not where it is found: every operation on an
//! existing record names the key of the record and, apart from it, the caller.
use vstd::prelude::*;
use crate::account::VaultAccount;
use crate::errors::CustomError;
use crate::events::{CloseVaultEvent, DepositEvent, WithdrawEvent};
use crate::helpers::{
    assert_balance, assert_owner, calculate_fee, fee_of, fee_transfer, send_fees,
};
use crate::ledger::VaultLedger;
use crate::pubkey::Pubkey;
use crate::transfer::{Endpoint, Transfer, TransferOutcome};

verus! {

/// The parties to the opening of a vault.
#[derive(Clone, Copy, Debug, PartialEq, Eq)]
pub struct InitVault {
    /// The caller, for whom the vault is created and under whose identity it is stored.
    pub initializer: Pubkey,
}

/// The parties to a deposit.
#[derive(Clone, Copy, Debug, PartialEq, Eq)]
pub struct Deposit {
    /// The caller, who pays the deposit and its fee.
    pub initializer: Pubkey,
    /// The key of the vault that receives the deposit.
    pub vault: Pubkey,
    /// The party that receives the fee.
    pub fee_collector: Pubkey,
}

/// The parties to a withdrawal.
#[derive(Clone, Copy, Debug, PartialEq, Eq)]
pub struct Withdraw {
    /// The caller, who receives the amount and pays its fee.
    pub initializer: Pubkey,
    /// The key of the vault that the amount is taken from.
    pub vault: Pubkey,
    /// The party that receives the fee.
    pub fee_collector: Pubkey,
}

/// The parties to the closing of a vault.
#[derive(Clone, Copy, Debug, PartialEq, Eq)]
pub struct CloseVault {
    /// The caller, who receives what the vault still holds.
    pub initializer: Pubkey,
    /// The key of the vault to close.
    pub vault: Pubkey,
}

/// The parties to a change of owner.
#[derive(Clone, Copy, Debug, PartialEq, Eq)]
pub struct TransferOwnership {
    /// The caller, who gives the vault away.
    pub initializer: Pubkey,
    /// The key of the vault that changes hands.
    pub vault: Pubkey,
}

/// Why `caller` may not operate on the record under `vault`, if it may not:
/// there is no such record, or someone else owns it.
pub open spec fn access_error(
    records: Map<Pubkey, VaultAccount>,
    vault: Pubkey,
    caller: Pubkey,
) -> Option<CustomError> {
    if !records.contains_key(vault) {
        Some(CustomError::NotFound)
    } else if records[vault].owner != caller {
        Some(CustomError::Unauthorized)
    } else {
        None
    }
}

/// The record under `vault` with its balance set to `balance`.
pub open spec fn with_balance(
    records: Map<Pubkey, VaultAccount>,
    vault: Pubkey,
    balance: int,
) -> Map<Pubkey, VaultAccount> {
    records.insert(vault, VaultAccount { balance: balance as u64, owner: records[vault].owner })
}

/// Reads the record under `vault` on behalf of `caller`, who must own it.
fn authorized_record(ledger: &VaultLedger, vault: &Pubkey, caller: &Pubkey) -> (found: Result<
    VaultAccount,
    CustomError,
>)
    ensures
        match access_error(ledger@, *vault, *caller) {
            Some(error) => found == Err::<VaultAccount, CustomError>(error),
            None => found == Ok::<VaultAccount, CustomError>(ledger@[*vault]),
        },
{
    match ledger.get(vault) {
        Ok(record) => match assert_owner(&record, caller) {
            Ok(()) => Ok(record),
            Err(error) => Err(error),
        },
        Err(error) => Err(error),
    }
}

// ---------------------------------------------------------------------------
// Opening a vault
// ---------------------------------------------------------------------------

/// How the opening of a vault ends: it is refused if the caller has one already.
pub open spec fn init_vault_result(
    records: Map<Pubkey, VaultAccount>,
    parties: InitVault,
) -> Result<(), CustomError> {
    if records.contains_key(parties.initializer) {
        Err(CustomError::AlreadyExists)
    } else {
        Ok(())
    }
}

/// The records after the opening of a vault: a new, empty one owned by the
/// caller and stored under the caller's identity.
pub open spec fn init_vault_after(
    records: Map<Pubkey, VaultAccount>,
    parties: InitVault,
) -> Map<Pubkey, VaultAccount> {
    if init_vault_result(records, parties) is Ok {
        records.insert(
            parties.initializer,
            VaultAccount { balance: 0, owner: parties.initializer },
        )
    } else {
        records
    }
}

/// Opens an empty vault for the caller.
pub fn init_vault(ledger: &mut VaultLedger, parties: &InitVault) -> (done: Result<
    (),
    CustomError,
>)
    ensures
        done == init_vault_result(old(ledger)@, *parties),
        final(ledger)@ == init_vault_after(old(ledger)@, *parties),
{
    ledger.create(parties.initializer, VaultAccount { balance: 0, owner: parties.initializer })
}

// ---------------------------------------------------------------------------
// Depositing
// ---------------------------------------------------------------------------

/// Why a deposit is refused before any transfer is asked for, if it is.
pub open spec fn deposit_refusal(
    records: Map<Pubkey, VaultAccount>,
    parties: Deposit,
    amount: u64,
) -> Option<CustomError> {
    if access_error(records, parties.vault, parties.initializer) is Some {
        access_error(records, parties.vault, parties.initializer)
    } else if amount == 0 {
        Some(CustomError::InvalidAmount)
    } else if records[parties.vault].balance + amount > u64::MAX {
        Some(CustomError::Overflow)
    } else {
        None
    }
}

/// The transfers that a deposit asks for, in order: the fee from the caller
/// to the collector, then the whole amount from the caller to the vault.
pub open spec fn deposit_requests(parties: Deposit, amount: u64) -> Seq<Transfer> {
    seq![
        fee_transfer(parties.initializer, parties.fee_collector, fee_of(amount as int) as u64),
        Transfer {
            from: Endpoint::Party(parties.initializer),
            to: Endpoint::Vault(parties.vault),
            amount,
        },
    ]
}

/// How a deposit ends, given how its transfers ended.
pub open spec fn deposit_result(
    records: Map<Pubkey, VaultAccount>,
    parties: Deposit,
    amount: u64,
    outcome: TransferOutcome,
) -> Result<DepositEvent, CustomError> {
    match deposit_refusal(records, parties, amount) {
        Some(error) => Err(error),
        None => if outcome == TransferOutcome::Failed {
            Err(CustomError::TransferFailed)
        } else {
            Ok(DepositEvent { initializer: parties.initializer, amount })
        },
    }
}

/// The records after a deposit: the balance grows by the amount if the
/// deposit went through, and nothing changes if it did not.
pub open spec fn deposit_after(
    records: Map<Pubkey, VaultAccount>,
    parties: Deposit,
    amount: u64,
    outcome: TransferOutcome,
) -> Map<Pubkey, VaultAccount> {
    if deposit_result(records, parties, amount, outcome) is Ok {
        with_balance(records, parties.vault, records[parties.vault].balance + amount)
    } else {
        records
    }
}

/// Validates a deposit and gives the record as it will stand after it.
fn validated_deposit(ledger: &VaultLedger, parties: &Deposit, amount: u64) -> (valid: Result<
    VaultAccount,
    CustomError,
>)
    ensures
        match deposit_refusal(ledger@, *parties, amount) {
            Some(error) => valid == Err::<VaultAccount, CustomError>(error),
            None => valid is Ok && valid->Ok_0.owner == ledger@[parties.vault].owner
                && valid->Ok_0.balance == ledger@[parties.vault].balance + amount,
        },
{
    let record = match authorized_record(ledger, &parties.vault, &parties.initializer) {
        Ok(record) => record,
        Err(error) => { return Err(error); },
    };
    if amount == 0 {
        return Err(CustomError::InvalidAmount);
    }
    match record.balance.checked_add(amount) {
        Some(balance) => Ok(VaultAccount { balance, owner: record.owner }),
        None => Err(CustomError::Overflow),
    }
}

/// Validates a deposit and lists the transfers to make for it.
///
/// The caller pays the fee on top of the amount: the whole amount goes to the vault.
pub fn deposit_transfers(
    ledger: &VaultLedger,
    parties: &Deposit,
    amount: u64,
) -> (requests: Result<Vec<Transfer>, CustomError>)
    ensures
        match deposit_refusal(ledger@, *parties, amount) {
            Some(error) => requests == Err::<Vec<Transfer>, CustomError>(error),
            None => requests is Ok && requests->Ok_0@ == deposit_requests(*parties, amount),
        },
{
    match validated_deposit(ledger, parties, amount) {
        Ok(_) => {
            let fee = calculate_fee(amount);
            let mut requests: Vec<Transfer> = Vec::new();
            requests.push(send_fees(&parties.initializer, &parties.fee_collector, fee));
            requests.push(
                Transfer {
                    from: Endpoint::Party(parties.initializer),
                    to: Endpoint::Vault(parties.vault),
                    amount,
                },
            );
            assert(requests@ =~= deposit_requests(*parties, amount));
            Ok(requests)
        },
        Err(error) => Err(error),
    }
}

/// Deposits `amount` into the vault, once the transfers listed by
/// `deposit_transfers` have been attempted and ended as `outcome` says.
pub fn deposit(
    ledger: &mut VaultLedger,
    parties: &Deposit,
    amount: u64,
    outcome: TransferOutcome,
) -> (done: Result<DepositEvent, CustomError>)
    ensures
        done == deposit_result(old(ledger)@, *parties, amount, outcome),
        final(ledger)@ == deposit_after(old(ledger)@, *parties, amount, outcome),
{
    let record = match validated_deposit(ledger, parties, amount) {
        Ok(record) => record,
        Err(error) => { return Err(error); },
    };
    match outcome {
        TransferOutcome::Failed => Err(CustomError::TransferFailed),
        TransferOutcome::Completed => match ledger.update(&parties.vault, record) {
            Ok(()) => Ok(DepositEvent { initializer: parties.initializer, amount }),
            Err(error) => Err(error),
        },
    }
}

// ---------------------------------------------------------------------------
// Withdrawing
// ---------------------------------------------------------------------------

/// Why a withdrawal is refused before any transfer is asked for, if it is.
/// The balance has to cover the amount and its fee together.
pub open spec fn withdraw_refusal(
    records: Map<Pubkey, VaultAccount>,
    parties: Withdraw,
    amount: u64,
) -> Option<CustomError> {
    if access_error(records, parties.vault, parties.initializer) is Some {
        access_error(records, parties.vault, parties.initializer)
    } else if records[parties.vault].balance < amount + fee_of(amount as int) {
        Some(CustomError::InsufficientFunds)
    } else {
        None
    }
}

/// The transfers that a withdrawal asks for, in order: the fee from the
/// caller to the collector, then the amount from the vault to the caller.
pub open spec fn withdraw_requests(parties: Withdraw, amount: u64) -> Seq<Transfer> {
    seq![
        fee_transfer(parties.initializer, parties.fee_collector, fee_of(amount as int) as u64),
        Transfer {
            from: Endpoint::Vault(parties.vault),
            to: Endpoint::Party(parties.initializer),
            amount,
        },
    ]
}

/// How a withdrawal ends, given how its transfers ended.
pub open spec fn withdraw_result(
    records: Map<Pubkey, VaultAccount>,
    parties: Withdraw,
    amount: u64,
    outcome: TransferOutcome,
) -> Result<WithdrawEvent, CustomError> {
    match withdraw_refusal(records, parties, amount) {
        Some(error) => Err(error),
        None => if outcome == TransferOutcome::Failed {
            Err(CustomError::TransferFailed)
        } else {
            Ok(WithdrawEvent { initializer: parties.initializer, amount })
        },
    }
}

/// The records after a withdrawal: the balance shrinks by the amount, not by
/// the fee, if the withdrawal went through, and nothing changes if it did not.
pub open spec fn withdraw_after(
    records: Map<Pubkey, VaultAccount>,
    parties: Withdraw,
    amount: u64,
    outcome: TransferOutcome,
) -> Map<Pubkey, VaultAccount> {
    if withdraw_result(records, parties, amount, outcome) is Ok {
        with_balance(records, parties.vault, records[parties.vault].balance - amount)
    } else {
        records
    }
}

/// Validates a withdrawal and gives the record as it stands.
fn validated_withdrawal(
    ledger: &VaultLedger,
    parties: &Withdraw,
    amount: u64,
) -> (valid: Result<VaultAccount, CustomError>)
    ensures
        match withdraw_refusal(ledger@, *parties, amount) {
            Some(error) => valid == Err::<VaultAccount, CustomError>(error),
            None => valid == Ok::<VaultAccount, CustomError>(ledger@[parties.vault]),
        },
{
    let record = match authorized_record(ledger, &parties.vault, &parties.initializer) {
        Ok(record) => record,
        Err(error) => { return Err(error); },
    };
    let fee = calculate_fee(amount);
    let covered = match amount.checked_add(fee) {
        Some(total_amount) => assert_balance(&record, total_amount),
        None => Err(CustomError::InsufficientFunds),
    };
    match covered {
        Ok(()) => Ok(record),
        Err(error) => Err(error),
    }
}

/// Validates a withdrawal and lists the transfers to make for it.
///
/// The fee is charged to the caller's own funds, not taken from the vault.
pub fn withdraw_transfers(
    ledger: &VaultLedger,
    parties: &Withdraw,
    amount: u64,
) -> (requests: Result<Vec<Transfer>, CustomError>)
    ensures
        match withdraw_refusal(ledger@, *parties, amount) {
            Some(error) => requests == Err::<Vec<Transfer>, CustomError>(error),
            None => requests is Ok && requests->Ok_0@ == withdraw_requests(*parties, amount),
        },
{
    match validated_withdrawal(ledger, parties, amount) {
        Ok(_) => {
            let fee = calculate_fee(amount);
            let mut requests: Vec<Transfer> = Vec::new();
            requests.push(send_fees(&parties.initializer, &parties.fee_collector, fee));
            requests.push(
                Transfer {
                    from: Endpoint::Vault(parties.vault),
                    to: Endpoint::Party(parties.initializer),
                    amount,
                },
            );
            assert(requests@ =~= withdraw_requests(*parties, amount));
            Ok(requests)
        },
        Err(error) => Err(error),
    }
}

/// Withdraws `amount` from the vault, once the transfers listed by
/// `withdraw_transfers` have been attempted and ended as `outcome` says.
pub fn withdraw(
    ledger: &mut VaultLedger,
    parties: &Withdraw,
    amount: u64,
    outcome: TransferOutcome,
) -> (done: Result<WithdrawEvent, CustomError>)
    ensures
        done == withdraw_result(old(ledger)@, *parties, amount, outcome),
        final(ledger)@ == withdraw_after(old(ledger)@, *parties, amount, outcome),
{
    let record = match validated_withdrawal(ledger, parties, amount) {
        Ok(record) => record,
        Err(error) => { return Err(error); },
    };
    match outcome {
        TransferOutcome::Failed => Err(CustomError::TransferFailed),
        TransferOutcome::Completed => {
            let left = VaultAccount { balance: record.balance - amount, owner: record.owner };
            match ledger.update(&parties.vault, left) {
                Ok(()) => Ok(WithdrawEvent { initializer: parties.initializer, amount }),
                Err(error) => Err(error),
            }
        },
    }
}

// ---------------------------------------------------------------------------
// Closing a vault
// ---------------------------------------------------------------------------

/// The transfers that closing a vault asks for: what the vault still holds
/// goes to the caller; an empty vault asks for none.
pub open spec fn close_vault_requests(
    records: Map<Pubkey, VaultAccount>,
    parties: CloseVault,
) -> Seq<Transfer> {
    if records[parties.vault].balance > 0 {
        seq![
            Transfer {
                from: Endpoint::Vault(parties.vault),
                to: Endpoint::Party(parties.initializer),
                amount: records[parties.vault].balance,
            },
        ]
    } else {
        Seq::empty()
    }
}

/// How the closing of a vault ends, given how its transfer ended. No
/// transfer is made for an empty vault, and `outcome` plays no part then.
pub open spec fn close_vault_result(
    records: Map<Pubkey, VaultAccount>,
    parties: CloseVault,
    outcome: TransferOutcome,
) -> Result<Option<CloseVaultEvent>, CustomError> {
    match access_error(records, parties.vault, parties.initializer) {
        Some(error) => Err(error),
        None => if records[parties.vault].balance == 0 {
            Ok(None)
        } else if outcome == TransferOutcome::Failed {
            Err(CustomError::TransferFailed)
        } else {
            Ok(
                Some(
                    CloseVaultEvent {
                        initializer: parties.initializer,
                        amount: records[parties.vault].balance,
                    },
                ),
            )
        },
    }
}

/// The records after the closing of a vault: the record is gone if the vault
/// was closed, and nothing changes if it was not.
pub open spec fn close_vault_after(
    records: Map<Pubkey, VaultAccount>,
    parties: CloseVault,
    outcome: TransferOutcome,
) -> Map<Pubkey, VaultAccount> {
    if close_vault_result(records, parties, outcome) is Ok {
        records.remove(parties.vault)
    } else {
        records
    }
}

/// Validates the closing of a vault and lists the transfers to make for it.
pub fn close_vault_transfers(ledger: &VaultLedger, parties: &CloseVault) -> (requests: Result<
    Vec<Transfer>,
    CustomError,
>)
    ensures
        match access_error(ledger@, parties.vault, parties.initializer) {
            Some(error) => requests == Err::<Vec<Transfer>, CustomError>(error),
            None => requests is Ok && requests->Ok_0@ == close_vault_requests(ledger@, *parties),
        },
{
    match authorized_record(ledger, &parties.vault, &parties.initializer) {
        Ok(record) => {
            let remaining_balance = record.balance;
            let mut requests: Vec<Transfer> = Vec::new();
            if remaining_balance > 0 {
                requests.push(
                    Transfer {
                        from: Endpoint::Vault(parties.vault),
                        to: Endpoint::Party(parties.initializer),
                        amount: remaining_balance,
                    },
                );
            }
            assert(requests@ =~= close_vault_requests(ledger@, *parties));
            Ok(requests)
        },
        Err(error) => Err(error),
    }
}

/// Closes the vault and removes its record, once the transfer listed by
/// `close_vault_transfers` has been attempted and ended as `outcome` says.
pub fn close_vault(
    ledger: &mut VaultLedger,
    parties: &CloseVault,
    outcome: TransferOutcome,
) -> (done: Result<Option<CloseVaultEvent>, CustomError>)
    ensures
        done == close_vault_result(old(ledger)@, *parties, outcome),
        final(ledger)@ == close_vault_after(old(ledger)@, *parties, outcome),
{
    let record = match authorized_record(ledger, &parties.vault, &parties.initializer) {
        Ok(record) => record,
        Err(error) => { return Err(error); },
    };
    let remaining_balance = record.balance;
    let event = if remaining_balance > 0 {
        match outcome {
            TransferOutcome::Failed => { return Err(CustomError::TransferFailed); },
            TransferOutcome::Completed => Some(
                CloseVaultEvent { initializer: parties.initializer, amount: remaining_balance },
            ),
        }
    } else {
        None
    };
    match ledger.delete(&parties.vault) {
        Ok(_) => Ok(event),
        Err(error) => Err(error),
    }
}

// ---------------------------------------------------------------------------
// Handing a vault to a new owner
// ---------------------------------------------------------------------------

/// How a change of owner ends.
pub open spec fn transfer_ownership_result(
    records: Map<Pubkey, VaultAccount>,
    parties: TransferOwnership,
) -> Result<(), CustomError> {
    match access_error(records, parties.vault, parties.initializer) {
        Some(error) => Err(error),
        None => Ok(()),
    }
}

/// The records after a change of owner: the record keeps its key and its
/// balance and names the new owner, if the change went through.
pub open spec fn transfer_ownership_after(
    records: Map<Pubkey, VaultAccount>,
    parties: TransferOwnership,
    new_owner: Pubkey,
) -> Map<Pubkey, VaultAccount> {
    if transfer_ownership_result(records, parties) is Ok {
        records.insert(
            parties.vault,
            VaultAccount { balance: records[parties.vault].balance, owner: new_owner },
        )
    } else {
        records
    }
}

/// Makes `new_owner` the owner of the vault.
pub fn transfer_ownership(
    ledger: &mut VaultLedger,
    parties: &TransferOwnership,
    new_owner: Pubkey,
) -> (done: Result<(), CustomError>)
    ensures
        done == transfer_ownership_result(old(ledger)@, *parties),
        final(ledger)@ == transfer_ownership_after(old(ledger)@, *parties, new_owner),
{
    match authorized_record(ledger, &parties.vault, &parties.initializer) {
        Ok(record) => ledger.update(
            &parties.vault,
            VaultAccount { balance: record.balance, owner: new_owner },
        ),
        Err(error) => Err(error),
    }
}

} // verus!
