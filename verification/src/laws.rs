//! What holds of the operations, whatever the records and the request.
use vstd::prelude::*;
use crate::account::VaultAccount;
use crate::errors::CustomError;
use crate::helpers::fee_of;
use crate::operations::{
    access_error, close_vault_after, close_vault_requests, close_vault_result, deposit_after,
    deposit_requests, deposit_result, transfer_ownership_after, transfer_ownership_result,
    withdraw_after, withdraw_requests, withdraw_result, CloseVault, Deposit, TransferOwnership,
    Withdraw,
};
use crate::pubkey::Pubkey;
use crate::transfer::{net_gain, Endpoint, Transfer, TransferOutcome};

verus! {

/// Whether `after` differs from `before` at most in the record under `vault`,
/// which both hold and which has kept its owner.
pub open spec fn only_balance_changed(
    before: Map<Pubkey, VaultAccount>,
    after: Map<Pubkey, VaultAccount>,
    vault: Pubkey,
) -> bool {
    &&& after.dom() == before.dom()
    &&& before.contains_key(vault)
    &&& after[vault].owner == before[vault].owner
    &&& forall|key: Pubkey| before.contains_key(key) && key != vault ==> after[key] == before[key]
}

/// A deposit goes through exactly when the owner deposits a positive amount
/// that the balance has room for and the transfers complete. It then adds
/// exactly the amount to the balance of its vault, whatever the fee was, and
/// touches nothing else. A deposit attempted by anyone but the owner is
/// refused as unauthorized and leaves every record as it was.
pub proof fn deposit_adds_amount(
    records: Map<Pubkey, VaultAccount>,
    parties: Deposit,
    amount: u64,
    outcome: TransferOutcome,
)
    ensures
        deposit_result(records, parties, amount, outcome) is Ok <==> ({
            &&& records.contains_key(parties.vault)
            &&& records[parties.vault].owner == parties.initializer
            &&& amount > 0
            &&& records[parties.vault].balance + amount <= u64::MAX
            &&& outcome == TransferOutcome::Completed
        }),
        deposit_result(records, parties, amount, outcome) is Ok ==> ({
            let after = deposit_after(records, parties, amount, outcome);
            &&& after[parties.vault].balance == records[parties.vault].balance + amount
            &&& only_balance_changed(records, after, parties.vault)
        }),
        records.contains_key(parties.vault) && records[parties.vault].owner
            != parties.initializer ==> ({
            &&& deposit_result(records, parties, amount, outcome) matches Err(
                CustomError::Unauthorized,
            )
            &&& deposit_after(records, parties, amount, outcome) == records
        }),
{
    if deposit_result(records, parties, amount, outcome) is Ok {
        let after = deposit_after(records, parties, amount, outcome);
        assert(after.dom() =~= records.dom());
    }
}

/// A withdrawal that the owner asks for is refused for want of funds exactly
/// when the balance is less than the amount and its fee together. It goes
/// through exactly when the balance covers both and the transfers complete.
/// It then takes exactly the amount from the balance of its vault, and
/// touches nothing else.
pub proof fn withdraw_takes_amount(
    records: Map<Pubkey, VaultAccount>,
    parties: Withdraw,
    amount: u64,
    outcome: TransferOutcome,
)
    requires
        records.contains_key(parties.vault),
        records[parties.vault].owner == parties.initializer,
    ensures
        withdraw_result(records, parties, amount, outcome) matches Err(
            CustomError::InsufficientFunds,
        ) <==> records[parties.vault].balance < amount + fee_of(amount as int),
        withdraw_result(records, parties, amount, outcome) is Ok <==> ({
            &&& records[parties.vault].balance >= amount + fee_of(amount as int)
            &&& outcome == TransferOutcome::Completed
        }),
        withdraw_result(records, parties, amount, outcome) is Ok ==> ({
            let after = withdraw_after(records, parties, amount, outcome);
            &&& after[parties.vault].balance == records[parties.vault].balance - amount
            &&& only_balance_changed(records, after, parties.vault)
        }),
{
    if withdraw_result(records, parties, amount, outcome) is Ok {
        let after = withdraw_after(records, parties, amount, outcome);
        assert(after.dom() =~= records.dom());
    }
}

/// Whoever is not the owner of a vault can neither deposit into it, withdraw
/// from it, close it nor give it away: each attempt is refused as
/// unauthorized and leaves every record as it was.
pub proof fn only_owner_operates(
    records: Map<Pubkey, VaultAccount>,
    vault: Pubkey,
    caller: Pubkey,
    fee_collector: Pubkey,
    amount: u64,
    new_owner: Pubkey,
    outcome: TransferOutcome,
)
    requires
        records.contains_key(vault),
        records[vault].owner != caller,
    ensures
        ({
            let parties = Deposit { initializer: caller, vault, fee_collector };
            &&& deposit_result(records, parties, amount, outcome) matches Err(
                CustomError::Unauthorized,
            )
            &&& deposit_after(records, parties, amount, outcome) == records
        }),
        ({
            let parties = Withdraw { initializer: caller, vault, fee_collector };
            &&& withdraw_result(records, parties, amount, outcome) matches Err(
                CustomError::Unauthorized,
            )
            &&& withdraw_after(records, parties, amount, outcome) == records
        }),
        ({
            let parties = CloseVault { initializer: caller, vault };
            &&& close_vault_result(records, parties, outcome) matches Err(
                CustomError::Unauthorized,
            )
            &&& close_vault_after(records, parties, outcome) == records
        }),
        ({
            let parties = TransferOwnership { initializer: caller, vault };
            &&& transfer_ownership_result(records, parties) matches Err(CustomError::Unauthorized)
            &&& transfer_ownership_after(records, parties, new_owner) == records
        }),
{
}

/// A vault is closed once: after its closing went through, closing it again
/// finds no record and changes nothing, however the transfer is said to have
/// ended.
pub proof fn close_vault_twice(
    records: Map<Pubkey, VaultAccount>,
    parties: CloseVault,
    first: TransferOutcome,
    second: TransferOutcome,
)
    requires
        close_vault_result(records, parties, first) is Ok,
    ensures
        ({
            let closed = close_vault_after(records, parties, first);
            &&& !closed.contains_key(parties.vault)
            &&& close_vault_result(closed, parties, second) matches Err(CustomError::NotFound)
            &&& close_vault_after(closed, parties, second) == closed
        }),
{
}

/// After a vault changed hands, the new owner may operate on it and the
/// former owner may not; the record is still found under the same key and
/// holds the same balance, and no other record has changed.
pub proof fn ownership_passes_on(
    records: Map<Pubkey, VaultAccount>,
    parties: TransferOwnership,
    new_owner: Pubkey,
)
    requires
        transfer_ownership_result(records, parties) is Ok,
    ensures
        ({
            let after = transfer_ownership_after(records, parties, new_owner);
            &&& after.dom() == records.dom()
            &&& after[parties.vault].balance == records[parties.vault].balance
            &&& access_error(after, parties.vault, new_owner) is None
            &&& new_owner != parties.initializer ==> access_error(
                after,
                parties.vault,
                parties.initializer,
            ) == Some(CustomError::Unauthorized)
            &&& forall|key: Pubkey|
                records.contains_key(key) && key != parties.vault ==> after[key] == records[key]
        }),
{
    let after = transfer_ownership_after(records, parties, new_owner);
    assert(after.dom() =~= records.dom());
}

/// What a single transfer adds to the funds at an endpoint.
proof fn lemma_net_gain_of_one(only: Transfer, endpoint: Endpoint)
    ensures
        net_gain(seq![only], endpoint) == only.gain_of(endpoint),
{
    let one = seq![only];
    assert(one.drop_last().len() == 0);
    reveal_with_fuel(net_gain, 2);
}

/// What two transfers add to the funds at an endpoint is the sum of what each adds.
proof fn lemma_net_gain_of_two(first: Transfer, second: Transfer, endpoint: Endpoint)
    ensures
        net_gain(seq![first, second], endpoint) == first.gain_of(endpoint) + second.gain_of(
            endpoint,
        ),
{
    let both = seq![first, second];
    let head = both.drop_last();
    assert(head.len() == 1);
    assert(head.last() == first);
    assert(head.drop_last().len() == 0);
    reveal_with_fuel(net_gain, 3);
}

/// The transfers of a deposit put the whole amount into the backing store of
/// the vault, which is what the deposit adds to the balance. The fee comes on
/// top: a caller who is not the collector pays the amount and the fee, and
/// the collector receives the fee.
pub proof fn deposit_moves_amount_and_fee(parties: Deposit, amount: u64)
    ensures
        net_gain(deposit_requests(parties, amount), Endpoint::Vault(parties.vault)) == amount,
        parties.initializer != parties.fee_collector ==> ({
            let requests = deposit_requests(parties, amount);
            &&& net_gain(requests, Endpoint::Party(parties.initializer)) == -(amount + fee_of(
                amount as int,
            ))
            &&& net_gain(requests, Endpoint::Party(parties.fee_collector)) == fee_of(
                amount as int,
            )
        }),
{
    let requests = deposit_requests(parties, amount);
    lemma_net_gain_of_two(requests[0], requests[1], Endpoint::Vault(parties.vault));
    lemma_net_gain_of_two(requests[0], requests[1], Endpoint::Party(parties.initializer));
    lemma_net_gain_of_two(requests[0], requests[1], Endpoint::Party(parties.fee_collector));
    assert(requests =~= seq![requests[0], requests[1]]);
}

/// The transfers of a withdrawal take the amount out of the backing store of
/// the vault, which is what the withdrawal takes from the balance. The fee
/// does not come out of the vault: a caller who is not the collector receives
/// the amount less the fee, and the collector receives the fee.
pub proof fn withdraw_moves_amount_and_fee(parties: Withdraw, amount: u64)
    ensures
        net_gain(withdraw_requests(parties, amount), Endpoint::Vault(parties.vault)) == -amount,
        parties.initializer != parties.fee_collector ==> ({
            let requests = withdraw_requests(parties, amount);
            &&& net_gain(requests, Endpoint::Party(parties.initializer)) == amount - fee_of(
                amount as int,
            )
            &&& net_gain(requests, Endpoint::Party(parties.fee_collector)) == fee_of(
                amount as int,
            )
        }),
{
    let requests = withdraw_requests(parties, amount);
    lemma_net_gain_of_two(requests[0], requests[1], Endpoint::Vault(parties.vault));
    lemma_net_gain_of_two(requests[0], requests[1], Endpoint::Party(parties.initializer));
    lemma_net_gain_of_two(requests[0], requests[1], Endpoint::Party(parties.fee_collector));
    assert(requests =~= seq![requests[0], requests[1]]);
}

/// The transfers of a closing empty the backing store of the vault into the
/// caller's funds: the whole balance, and nothing for a vault that holds none.
pub proof fn close_vault_moves_balance(records: Map<Pubkey, VaultAccount>, parties: CloseVault)
    ensures
        net_gain(close_vault_requests(records, parties), Endpoint::Vault(parties.vault))
            == -records[parties.vault].balance,
        net_gain(close_vault_requests(records, parties), Endpoint::Party(parties.initializer))
            == records[parties.vault].balance,
{
    let requests = close_vault_requests(records, parties);
    if records[parties.vault].balance > 0 {
        lemma_net_gain_of_one(requests[0], Endpoint::Vault(parties.vault));
        lemma_net_gain_of_one(requests[0], Endpoint::Party(parties.initializer));
        assert(requests =~= seq![requests[0]]);
    }
}

} // verus!
