use vault_ledger::{
    close_vault, close_vault_transfers, deposit, deposit_transfers, init_vault,
    transfer_ownership, withdraw, withdraw_transfers, CloseVault, CloseVaultEvent, CustomError,
    Deposit, DepositEvent, Endpoint, InitVault, Pubkey, Transfer, TransferOutcome,
    TransferOwnership, VaultAccount, VaultLedger, Withdraw, WithdrawEvent,
};

const ALICE: Pubkey = Pubkey([0xA1; 32]);
const BOB: Pubkey = Pubkey([0xB0; 32]);
const COLLECTOR: Pubkey = Pubkey([0xFE; 32]);

fn ledger_with(key: Pubkey, balance: u64) -> VaultLedger {
    let mut ledger = VaultLedger::new();
    assert_eq!(ledger.create(key, VaultAccount { balance, owner: key }), Ok(()));
    ledger
}

fn deposit_by(caller: Pubkey, vault: Pubkey) -> Deposit {
    Deposit { initializer: caller, vault, fee_collector: COLLECTOR }
}

fn withdraw_by(caller: Pubkey, vault: Pubkey) -> Withdraw {
    Withdraw { initializer: caller, vault, fee_collector: COLLECTOR }
}

fn balance_of(ledger: &VaultLedger, key: Pubkey) -> u64 {
    ledger.get(&key).unwrap().balance
}

// Opening

#[test]
fn init_creates_an_empty_vault_owned_by_the_caller() {
    let mut ledger = VaultLedger::new();
    assert_eq!(init_vault(&mut ledger, &InitVault { initializer: ALICE }), Ok(()));
    assert_eq!(ledger.get(&ALICE), Ok(VaultAccount { balance: 0, owner: ALICE }));
    assert!(!ledger.contains(&BOB));
}

#[test]
fn init_twice_fails_and_keeps_the_record() {
    let mut ledger = ledger_with(ALICE, 300);
    assert_eq!(
        init_vault(&mut ledger, &InitVault { initializer: ALICE }),
        Err(CustomError::AlreadyExists)
    );
    assert_eq!(ledger.get(&ALICE), Ok(VaultAccount { balance: 300, owner: ALICE }));
}

// Depositing

#[test]
fn deposit_asks_for_the_fee_and_the_whole_amount() {
    let ledger = ledger_with(ALICE, 0);
    assert_eq!(
        deposit_transfers(&ledger, &deposit_by(ALICE, ALICE), 1000),
        Ok(vec![
            Transfer { from: Endpoint::Party(ALICE), to: Endpoint::Party(COLLECTOR), amount: 10 },
            Transfer { from: Endpoint::Party(ALICE), to: Endpoint::Vault(ALICE), amount: 1000 },
        ])
    );
}

#[test]
fn deposit_adds_the_whole_amount_to_the_balance() {
    let mut ledger = ledger_with(ALICE, 250);
    assert_eq!(
        deposit(&mut ledger, &deposit_by(ALICE, ALICE), 1000, TransferOutcome::Completed),
        Ok(DepositEvent { initializer: ALICE, amount: 1000 })
    );
    assert_eq!(ledger.get(&ALICE), Ok(VaultAccount { balance: 1250, owner: ALICE }));
}

#[test]
fn deposit_by_a_stranger_is_refused() {
    let mut ledger = ledger_with(ALICE, 250);
    let parties = deposit_by(BOB, ALICE);
    assert_eq!(deposit_transfers(&ledger, &parties, 10), Err(CustomError::Unauthorized));
    assert_eq!(
        deposit(&mut ledger, &parties, 10, TransferOutcome::Completed),
        Err(CustomError::Unauthorized)
    );
    assert_eq!(ledger.get(&ALICE), Ok(VaultAccount { balance: 250, owner: ALICE }));
}

#[test]
fn deposit_into_a_missing_vault_is_refused() {
    let mut ledger = ledger_with(ALICE, 250);
    let parties = deposit_by(BOB, BOB);
    assert_eq!(deposit_transfers(&ledger, &parties, 10), Err(CustomError::NotFound));
    assert_eq!(
        deposit(&mut ledger, &parties, 10, TransferOutcome::Completed),
        Err(CustomError::NotFound)
    );
    assert!(!ledger.contains(&BOB));
}

#[test]
fn deposit_of_nothing_is_refused() {
    let mut ledger = ledger_with(ALICE, 250);
    let parties = deposit_by(ALICE, ALICE);
    assert_eq!(deposit_transfers(&ledger, &parties, 0), Err(CustomError::InvalidAmount));
    assert_eq!(
        deposit(&mut ledger, &parties, 0, TransferOutcome::Completed),
        Err(CustomError::InvalidAmount)
    );
    assert_eq!(balance_of(&ledger, ALICE), 250);
}

#[test]
fn deposit_beyond_the_largest_balance_is_refused() {
    let mut ledger = ledger_with(ALICE, u64::MAX - 5);
    let parties = deposit_by(ALICE, ALICE);
    assert_eq!(deposit_transfers(&ledger, &parties, 6), Err(CustomError::Overflow));
    assert_eq!(
        deposit(&mut ledger, &parties, 6, TransferOutcome::Completed),
        Err(CustomError::Overflow)
    );
    assert_eq!(balance_of(&ledger, ALICE), u64::MAX - 5);
    assert_eq!(
        deposit(&mut ledger, &parties, 5, TransferOutcome::Completed),
        Ok(DepositEvent { initializer: ALICE, amount: 5 })
    );
    assert_eq!(balance_of(&ledger, ALICE), u64::MAX);
}

#[test]
fn deposit_whose_transfers_failed_changes_nothing() {
    let mut ledger = ledger_with(ALICE, 250);
    assert_eq!(
        deposit(&mut ledger, &deposit_by(ALICE, ALICE), 1000, TransferOutcome::Failed),
        Err(CustomError::TransferFailed)
    );
    assert_eq!(ledger.get(&ALICE), Ok(VaultAccount { balance: 250, owner: ALICE }));
}

#[test]
fn deposit_below_a_hundred_carries_no_fee() {
    let ledger = ledger_with(ALICE, 0);
    let requests = deposit_transfers(&ledger, &deposit_by(ALICE, ALICE), 99).unwrap();
    assert_eq!(requests.len(), 2);
    assert_eq!(requests[0].amount, 0);
    assert_eq!(requests[1].amount, 99);
}

// Withdrawing

#[test]
fn withdraw_asks_for_the_fee_and_the_amount() {
    let ledger = ledger_with(ALICE, 1000);
    assert_eq!(
        withdraw_transfers(&ledger, &withdraw_by(ALICE, ALICE), 500),
        Ok(vec![
            Transfer { from: Endpoint::Party(ALICE), to: Endpoint::Party(COLLECTOR), amount: 5 },
            Transfer { from: Endpoint::Vault(ALICE), to: Endpoint::Party(ALICE), amount: 500 },
        ])
    );
}

#[test]
fn withdraw_takes_the_amount_and_not_the_fee_from_the_balance() {
    let mut ledger = ledger_with(ALICE, 1000);
    assert_eq!(
        withdraw(&mut ledger, &withdraw_by(ALICE, ALICE), 500, TransferOutcome::Completed),
        Ok(WithdrawEvent { initializer: ALICE, amount: 500 })
    );
    assert_eq!(ledger.get(&ALICE), Ok(VaultAccount { balance: 500, owner: ALICE }));
}

#[test]
fn withdraw_needs_the_balance_to_cover_amount_and_fee() {
    let mut ledger = ledger_with(ALICE, 500);
    let parties = withdraw_by(ALICE, ALICE);
    // 497 + 4 = 501 > 500
    assert_eq!(withdraw_transfers(&ledger, &parties, 497), Err(CustomError::InsufficientFunds));
    assert_eq!(
        withdraw(&mut ledger, &parties, 497, TransferOutcome::Completed),
        Err(CustomError::InsufficientFunds)
    );
    assert_eq!(balance_of(&ledger, ALICE), 500);
    // 496 + 4 = 500
    assert_eq!(
        withdraw(&mut ledger, &parties, 496, TransferOutcome::Completed),
        Ok(WithdrawEvent { initializer: ALICE, amount: 496 })
    );
    assert_eq!(balance_of(&ledger, ALICE), 4);
}

#[test]
fn withdraw_of_the_whole_balance_fails_once_a_fee_is_due() {
    let mut ledger = ledger_with(ALICE, 500);
    assert_eq!(
        withdraw(&mut ledger, &withdraw_by(ALICE, ALICE), 500, TransferOutcome::Completed),
        Err(CustomError::InsufficientFunds)
    );
    let mut small = ledger_with(ALICE, 99);
    assert_eq!(
        withdraw(&mut small, &withdraw_by(ALICE, ALICE), 99, TransferOutcome::Completed),
        Ok(WithdrawEvent { initializer: ALICE, amount: 99 })
    );
    assert_eq!(balance_of(&small, ALICE), 0);
}

#[test]
fn withdraw_of_an_amount_whose_total_exceeds_64_bits_is_refused() {
    let mut ledger = ledger_with(ALICE, u64::MAX);
    let parties = withdraw_by(ALICE, ALICE);
    assert_eq!(
        withdraw(&mut ledger, &parties, u64::MAX, TransferOutcome::Completed),
        Err(CustomError::InsufficientFunds)
    );
    assert_eq!(withdraw_transfers(&ledger, &parties, u64::MAX), Err(CustomError::InsufficientFunds));
    assert_eq!(balance_of(&ledger, ALICE), u64::MAX);
}

#[test]
fn withdraw_of_nothing_goes_through() {
    let mut ledger = ledger_with(ALICE, 0);
    assert_eq!(
        withdraw(&mut ledger, &withdraw_by(ALICE, ALICE), 0, TransferOutcome::Completed),
        Ok(WithdrawEvent { initializer: ALICE, amount: 0 })
    );
    assert_eq!(balance_of(&ledger, ALICE), 0);
}

#[test]
fn withdraw_by_a_stranger_is_refused_and_changes_nothing() {
    let mut ledger = VaultLedger::new();
    assert_eq!(init_vault(&mut ledger, &InitVault { initializer: ALICE }), Ok(()));
    assert_eq!(
        deposit(&mut ledger, &deposit_by(ALICE, ALICE), 800, TransferOutcome::Completed),
        Ok(DepositEvent { initializer: ALICE, amount: 800 })
    );
    let parties = withdraw_by(BOB, ALICE);
    assert_eq!(withdraw_transfers(&ledger, &parties, 100), Err(CustomError::Unauthorized));
    assert_eq!(
        withdraw(&mut ledger, &parties, 100, TransferOutcome::Completed),
        Err(CustomError::Unauthorized)
    );
    assert_eq!(ledger.get(&ALICE), Ok(VaultAccount { balance: 800, owner: ALICE }));
}

#[test]
fn stranger_is_turned_away_before_the_balance_is_looked_at() {
    let mut ledger = ledger_with(ALICE, 10);
    assert_eq!(
        withdraw(&mut ledger, &withdraw_by(BOB, ALICE), 1_000_000, TransferOutcome::Completed),
        Err(CustomError::Unauthorized)
    );
}

#[test]
fn withdraw_from_a_missing_vault_is_refused() {
    let mut ledger = ledger_with(ALICE, 10);
    assert_eq!(
        withdraw(&mut ledger, &withdraw_by(BOB, BOB), 1, TransferOutcome::Completed),
        Err(CustomError::NotFound)
    );
}

#[test]
fn withdraw_whose_transfers_failed_changes_nothing() {
    let mut ledger = ledger_with(ALICE, 1000);
    assert_eq!(
        withdraw(&mut ledger, &withdraw_by(ALICE, ALICE), 500, TransferOutcome::Failed),
        Err(CustomError::TransferFailed)
    );
    assert_eq!(balance_of(&ledger, ALICE), 1000);
}

// Closing

#[test]
fn close_returns_the_balance_and_removes_the_record() {
    let mut ledger = ledger_with(ALICE, 500);
    let parties = CloseVault { initializer: ALICE, vault: ALICE };
    assert_eq!(
        close_vault_transfers(&ledger, &parties),
        Ok(vec![Transfer {
            from: Endpoint::Vault(ALICE),
            to: Endpoint::Party(ALICE),
            amount: 500
        }])
    );
    assert_eq!(
        close_vault(&mut ledger, &parties, TransferOutcome::Completed),
        Ok(Some(CloseVaultEvent { initializer: ALICE, amount: 500 }))
    );
    assert!(!ledger.contains(&ALICE));
}

#[test]
fn close_of_an_empty_vault_moves_nothing() {
    let mut ledger = ledger_with(ALICE, 0);
    let parties = CloseVault { initializer: ALICE, vault: ALICE };
    assert_eq!(close_vault_transfers(&ledger, &parties), Ok(vec![]));
    assert_eq!(close_vault(&mut ledger, &parties, TransferOutcome::Completed), Ok(None));
    assert!(!ledger.contains(&ALICE));
}

#[test]
fn close_of_an_empty_vault_does_not_look_at_the_outcome() {
    let mut ledger = ledger_with(ALICE, 0);
    let parties = CloseVault { initializer: ALICE, vault: ALICE };
    assert_eq!(close_vault(&mut ledger, &parties, TransferOutcome::Failed), Ok(None));
    assert!(!ledger.contains(&ALICE));
}

#[test]
fn close_twice_finds_no_record_the_second_time() {
    let mut ledger = ledger_with(ALICE, 500);
    let parties = CloseVault { initializer: ALICE, vault: ALICE };
    assert_eq!(
        close_vault(&mut ledger, &parties, TransferOutcome::Completed),
        Ok(Some(CloseVaultEvent { initializer: ALICE, amount: 500 }))
    );
    assert_eq!(close_vault_transfers(&ledger, &parties), Err(CustomError::NotFound));
    assert_eq!(
        close_vault(&mut ledger, &parties, TransferOutcome::Completed),
        Err(CustomError::NotFound)
    );
}

#[test]
fn close_by_a_stranger_is_refused() {
    let mut ledger = ledger_with(ALICE, 500);
    let parties = CloseVault { initializer: BOB, vault: ALICE };
    assert_eq!(close_vault_transfers(&ledger, &parties), Err(CustomError::Unauthorized));
    assert_eq!(
        close_vault(&mut ledger, &parties, TransferOutcome::Completed),
        Err(CustomError::Unauthorized)
    );
    assert_eq!(ledger.get(&ALICE), Ok(VaultAccount { balance: 500, owner: ALICE }));
}

#[test]
fn close_whose_transfer_failed_keeps_the_record() {
    let mut ledger = ledger_with(ALICE, 500);
    let parties = CloseVault { initializer: ALICE, vault: ALICE };
    assert_eq!(
        close_vault(&mut ledger, &parties, TransferOutcome::Failed),
        Err(CustomError::TransferFailed)
    );
    assert_eq!(ledger.get(&ALICE), Ok(VaultAccount { balance: 500, owner: ALICE }));
}

// Changing the owner

#[test]
fn new_owner_takes_over_and_the_record_keeps_its_key() {
    let mut ledger = ledger_with(ALICE, 700);
    let parties = TransferOwnership { initializer: ALICE, vault: ALICE };
    assert_eq!(transfer_ownership(&mut ledger, &parties, BOB), Ok(()));
    assert_eq!(ledger.get(&ALICE), Ok(VaultAccount { balance: 700, owner: BOB }));
    assert!(!ledger.contains(&BOB));
    // the former owner is a stranger now
    assert_eq!(
        withdraw(&mut ledger, &withdraw_by(ALICE, ALICE), 100, TransferOutcome::Completed),
        Err(CustomError::Unauthorized)
    );
    assert_eq!(transfer_ownership(&mut ledger, &parties, ALICE), Err(CustomError::Unauthorized));
    // the new owner operates on the record under its old key
    assert_eq!(
        withdraw(&mut ledger, &withdraw_by(BOB, ALICE), 100, TransferOutcome::Completed),
        Ok(WithdrawEvent { initializer: BOB, amount: 100 })
    );
    assert_eq!(ledger.get(&ALICE), Ok(VaultAccount { balance: 600, owner: BOB }));
}

#[test]
fn new_owner_can_still_open_a_vault_of_its_own() {
    let mut ledger = ledger_with(ALICE, 700);
    let parties = TransferOwnership { initializer: ALICE, vault: ALICE };
    assert_eq!(transfer_ownership(&mut ledger, &parties, BOB), Ok(()));
    assert_eq!(init_vault(&mut ledger, &InitVault { initializer: BOB }), Ok(()));
    assert_eq!(ledger.get(&BOB), Ok(VaultAccount { balance: 0, owner: BOB }));
    assert_eq!(ledger.get(&ALICE), Ok(VaultAccount { balance: 700, owner: BOB }));
}

#[test]
fn ownership_is_not_given_away_by_a_stranger() {
    let mut ledger = ledger_with(ALICE, 700);
    let parties = TransferOwnership { initializer: BOB, vault: ALICE };
    assert_eq!(transfer_ownership(&mut ledger, &parties, BOB), Err(CustomError::Unauthorized));
    assert_eq!(ledger.get(&ALICE), Ok(VaultAccount { balance: 700, owner: ALICE }));
}

#[test]
fn ownership_of_a_missing_vault_cannot_be_given_away() {
    let mut ledger = VaultLedger::new();
    let parties = TransferOwnership { initializer: ALICE, vault: ALICE };
    assert_eq!(transfer_ownership(&mut ledger, &parties, BOB), Err(CustomError::NotFound));
    assert!(!ledger.contains(&ALICE));
}

// Several steps

#[test]
fn open_deposit_withdraw_close() {
    let mut ledger = VaultLedger::new();
    assert_eq!(init_vault(&mut ledger, &InitVault { initializer: ALICE }), Ok(()));

    let paying_in = deposit_by(ALICE, ALICE);
    let requests = deposit_transfers(&ledger, &paying_in, 1000).unwrap();
    assert_eq!(requests[0].amount, 10);
    assert_eq!(
        deposit(&mut ledger, &paying_in, 1000, TransferOutcome::Completed),
        Ok(DepositEvent { initializer: ALICE, amount: 1000 })
    );
    assert_eq!(balance_of(&ledger, ALICE), 1000);

    let paying_out = withdraw_by(ALICE, ALICE);
    let requests = withdraw_transfers(&ledger, &paying_out, 500).unwrap();
    assert_eq!(requests[0].amount, 5);
    assert_eq!(requests[1].amount, 500);
    assert_eq!(
        withdraw(&mut ledger, &paying_out, 500, TransferOutcome::Completed),
        Ok(WithdrawEvent { initializer: ALICE, amount: 500 })
    );
    assert_eq!(balance_of(&ledger, ALICE), 500);

    let closing = CloseVault { initializer: ALICE, vault: ALICE };
    assert_eq!(
        close_vault_transfers(&ledger, &closing),
        Ok(vec![Transfer {
            from: Endpoint::Vault(ALICE),
            to: Endpoint::Party(ALICE),
            amount: 500
        }])
    );
    assert_eq!(
        close_vault(&mut ledger, &closing, TransferOutcome::Completed),
        Ok(Some(CloseVaultEvent { initializer: ALICE, amount: 500 }))
    );
    assert_eq!(ledger.get(&ALICE), Err(CustomError::NotFound));
}

#[test]
fn vaults_of_different_owners_do_not_touch_each_other() {
    let mut ledger = VaultLedger::new();
    assert_eq!(init_vault(&mut ledger, &InitVault { initializer: ALICE }), Ok(()));
    assert_eq!(init_vault(&mut ledger, &InitVault { initializer: BOB }), Ok(()));
    assert!(deposit(&mut ledger, &deposit_by(ALICE, ALICE), 300, TransferOutcome::Completed)
        .is_ok());
    assert!(deposit(&mut ledger, &deposit_by(BOB, BOB), 40, TransferOutcome::Completed).is_ok());
    assert!(withdraw(&mut ledger, &withdraw_by(ALICE, ALICE), 100, TransferOutcome::Completed)
        .is_ok());
    assert_eq!(balance_of(&ledger, ALICE), 200);
    assert_eq!(balance_of(&ledger, BOB), 40);
    let closing = CloseVault { initializer: BOB, vault: BOB };
    assert_eq!(
        close_vault(&mut ledger, &closing, TransferOutcome::Completed),
        Ok(Some(CloseVaultEvent { initializer: BOB, amount: 40 }))
    );
    assert_eq!(balance_of(&ledger, ALICE), 200);
    assert!(!ledger.contains(&BOB));
}

#[test]
fn vault_can_be_opened_again_after_closing() {
    let mut ledger = ledger_with(ALICE, 0);
    let closing = CloseVault { initializer: ALICE, vault: ALICE };
    assert_eq!(close_vault(&mut ledger, &closing, TransferOutcome::Completed), Ok(None));
    assert_eq!(init_vault(&mut ledger, &InitVault { initializer: ALICE }), Ok(()));
    assert_eq!(ledger.get(&ALICE), Ok(VaultAccount { balance: 0, owner: ALICE }));
}
