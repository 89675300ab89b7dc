use psp20_piggy::account::AccountId;
use psp20_piggy::piggybank::{
    reported_balance, Deposit, Error, GoalReached, LedgerCall, LedgerMessage, LedgerReply,
    PiggyBankBroken, V6psp20piggybank, Withdrawal,
};
use psp20_piggy::token::Token;

fn get_alice() -> AccountId {
    AccountId { bytes: [1u8; 20] }
}

fn get_bob() -> AccountId {
    AccountId { bytes: [2u8; 20] }
}

fn create_mock_token() -> AccountId {
    AccountId { bytes: [0x01; 20] }
}

fn vault_account() -> AccountId {
    AccountId { bytes: [9u8; 20] }
}

fn done(_call: LedgerCall) -> LedgerReply {
    LedgerReply::Done
}

fn failed(_call: LedgerCall) -> LedgerReply {
    LedgerReply::Failed
}

fn never(_call: LedgerCall) -> LedgerReply {
    panic!("the ledger must not be asked")
}

/// Carries a call to `token` as the ledger's host would, with the vault as
/// the caller that the ledger sees.
fn carry(token: &mut Token, call: LedgerCall) -> LedgerReply {
    if call.target != create_mock_token() {
        return LedgerReply::Failed;
    }
    match call.message {
        LedgerMessage::TransferFrom { from, to, value } => {
            match token.transfer_from(vault_account(), from, to, value) {
                Ok(()) => LedgerReply::Done,
                Err(_) => LedgerReply::Failed,
            }
        }
        LedgerMessage::Transfer { to, value } => match token.transfer(vault_account(), to, value) {
            Ok(()) => LedgerReply::Done,
            Err(_) => LedgerReply::Failed,
        },
        LedgerMessage::BalanceOf { owner } => LedgerReply::Balance(token.balance_of(owner)),
    }
}

#[test]
fn lib_new_works() {
    let token_address = create_mock_token();
    let piggy_bank = V6psp20piggybank::new(get_alice(), token_address);

    assert_eq!(piggy_bank.balance_of(get_alice()), 0);
    assert_eq!(piggy_bank.owner(), get_alice());
    assert_eq!(piggy_bank.token_address(), token_address);
}

#[test]
fn set_goal_works() {
    let token_address = create_mock_token();
    let mut piggy_bank = V6psp20piggybank::new(get_alice(), token_address);

    assert!(piggy_bank.set_goal(get_alice(), 1000).is_ok());
    assert_eq!(piggy_bank.goal_of(get_alice()), 1000);
}

#[test]
fn set_lock_time_works() {
    let token_address = create_mock_token();
    let mut piggy_bank = V6psp20piggybank::new(get_alice(), token_address);

    assert!(piggy_bank.set_lock_time(get_alice(), 1000000).is_ok());
    assert_eq!(piggy_bank.lock_time_of(get_alice()), 1000000);
}

#[test]
fn goal_reached_logic_works() {
    let token_address = create_mock_token();
    let mut piggy_bank = V6psp20piggybank::new(get_alice(), token_address);

    piggy_bank.set_goal(get_alice(), 100).unwrap();
    assert!(!piggy_bank.is_goal_reached(get_alice()));

    piggy_bank.settle_deposit(get_alice(), 100, LedgerReply::Done).unwrap();
    assert!(piggy_bank.is_goal_reached(get_alice()));
}

#[test]
fn multiple_users_work() {
    let bob = get_bob();

    let token_address = create_mock_token();
    let mut piggy_bank = V6psp20piggybank::new(get_alice(), token_address);

    piggy_bank.set_goal(get_alice(), 1000).unwrap();
    piggy_bank.set_goal(bob, 2000).unwrap();

    assert_eq!(piggy_bank.goal_of(get_alice()), 1000);
    assert_eq!(piggy_bank.goal_of(bob), 2000);
}

#[test]
fn absent_entries_read_as_zero() {
    let piggy_bank = V6psp20piggybank::new(get_alice(), create_mock_token());
    assert_eq!(piggy_bank.balance_of(get_bob()), 0);
    assert_eq!(piggy_bank.goal_of(get_bob()), 0);
    assert_eq!(piggy_bank.lock_time_of(get_bob()), 0);
    assert!(!piggy_bank.is_goal_reached(get_bob()));
}

#[test]
fn goal_of_zero_is_reached_by_an_empty_account() {
    let mut piggy_bank = V6psp20piggybank::new(get_alice(), create_mock_token());
    assert!(!piggy_bank.is_goal_reached(get_alice()));
    piggy_bank.set_goal(get_alice(), 0).unwrap();
    assert!(piggy_bank.is_goal_reached(get_alice()));
}

#[test]
fn deposit_hands_the_transfer_to_the_ledger() {
    let mut piggy_bank = V6psp20piggybank::new(get_alice(), create_mock_token());
    let mut seen = None;
    let result = piggy_bank.deposit(get_bob(), vault_account(), 70, |call| {
        seen = Some(call);
        LedgerReply::Done
    });
    assert_eq!(
        seen,
        Some(LedgerCall {
            target: create_mock_token(),
            message: LedgerMessage::TransferFrom {
                from: get_bob(),
                to: vault_account(),
                value: 70
            },
        })
    );
    assert_eq!(result, Ok((Deposit { owner: get_bob(), amount: 70, total: 70 }, None)));
    assert_eq!(piggy_bank.balance_of(get_bob()), 70);
    assert_eq!(piggy_bank.balance_of(get_alice()), 0);
}

#[test]
fn deposit_of_nothing_is_refused() {
    let mut piggy_bank = V6psp20piggybank::new(get_alice(), create_mock_token());
    assert_eq!(piggy_bank.deposit(get_alice(), vault_account(), 0, never), Err(Error::ZeroAmount));
    assert_eq!(piggy_bank.settle_deposit(get_alice(), 0, LedgerReply::Done), Err(Error::ZeroAmount));
    assert_eq!(piggy_bank.balance_of(get_alice()), 0);
}

#[test]
fn deposit_fails_when_the_ledger_does() {
    let mut piggy_bank = V6psp20piggybank::new(get_alice(), create_mock_token());
    assert_eq!(
        piggy_bank.deposit(get_alice(), vault_account(), 100, failed),
        Err(Error::TokenTransferFailed)
    );
    assert_eq!(
        piggy_bank.settle_deposit(get_alice(), 100, LedgerReply::Balance(100)),
        Err(Error::TokenTransferFailed)
    );
    assert_eq!(piggy_bank.balance_of(get_alice()), 0);
}

#[test]
fn deposit_beyond_the_allowance_fails() {
    let alice = get_alice();
    let mut token = Token::new(alice, 1000);
    let mut piggy_bank = V6psp20piggybank::new(alice, create_mock_token());
    token.approve(alice, vault_account(), 50).unwrap();

    let result = piggy_bank.deposit(alice, vault_account(), 100, |call| carry(&mut token, call));

    assert_eq!(result, Err(Error::TokenTransferFailed));
    assert_eq!(piggy_bank.balance_of(alice), 0);
    assert_eq!(token.balance_of(alice), 1000);
    assert_eq!(token.balance_of(vault_account()), 0);
    assert_eq!(token.allowance(alice, vault_account()), 50);
}

#[test]
fn deposit_moves_tokens_into_the_vault() {
    let alice = get_alice();
    let mut token = Token::new(alice, 1000);
    let mut piggy_bank = V6psp20piggybank::new(alice, create_mock_token());
    token.approve(alice, vault_account(), 150).unwrap();

    let result = piggy_bank.deposit(alice, vault_account(), 100, |call| carry(&mut token, call));

    assert_eq!(result, Ok((Deposit { owner: alice, amount: 100, total: 100 }, None)));
    assert_eq!(piggy_bank.balance_of(alice), 100);
    assert_eq!(token.balance_of(alice), 900);
    assert_eq!(token.balance_of(vault_account()), 100);
    assert_eq!(token.allowance(alice, vault_account()), 50);
    assert_eq!(piggy_bank.token_balance(vault_account(), |call| carry(&mut token, call)), 100);
}

#[test]
fn goal_then_deposit_then_withdraw() {
    let alice = get_alice();
    let mut token = Token::new(alice, 1000);
    let mut piggy_bank = V6psp20piggybank::new(alice, create_mock_token());
    token.approve(alice, vault_account(), 100).unwrap();

    piggy_bank.set_goal(alice, 100).unwrap();
    let deposited =
        piggy_bank.deposit(alice, vault_account(), 100, |call| carry(&mut token, call));
    assert_eq!(
        deposited,
        Ok((
            Deposit { owner: alice, amount: 100, total: 100 },
            Some(GoalReached { owner: alice, goal: 100 })
        ))
    );
    assert!(piggy_bank.is_goal_reached(alice));

    let withdrawn = piggy_bank.withdraw(alice, 0, 100, |call| carry(&mut token, call));
    assert_eq!(withdrawn, Ok(Withdrawal { owner: alice, amount: 100, remaining: 0 }));
    assert_eq!(piggy_bank.balance_of(alice), 0);
    assert!(!piggy_bank.is_goal_reached(alice));
    assert_eq!(piggy_bank.goal_of(alice), 100);
    assert_eq!(token.balance_of(alice), 1000);
    assert_eq!(token.balance_of(vault_account()), 0);
}

#[test]
fn deposit_announces_the_goal_only_when_met() {
    let mut piggy_bank = V6psp20piggybank::new(get_alice(), create_mock_token());
    piggy_bank.set_goal(get_alice(), 100).unwrap();
    assert_eq!(
        piggy_bank.deposit(get_alice(), vault_account(), 99, done),
        Ok((Deposit { owner: get_alice(), amount: 99, total: 99 }, None))
    );
    assert_eq!(
        piggy_bank.deposit(get_alice(), vault_account(), 1, done),
        Ok((
            Deposit { owner: get_alice(), amount: 1, total: 100 },
            Some(GoalReached { owner: get_alice(), goal: 100 })
        ))
    );
    assert_eq!(
        piggy_bank.deposit(get_alice(), vault_account(), 5, done),
        Ok((
            Deposit { owner: get_alice(), amount: 5, total: 105 },
            Some(GoalReached { owner: get_alice(), goal: 100 })
        ))
    );
}

#[test]
fn deposit_is_held_at_the_largest_amount() {
    let mut piggy_bank = V6psp20piggybank::new(get_alice(), create_mock_token());
    piggy_bank.deposit(get_alice(), vault_account(), u128::MAX - 1, done).unwrap();
    assert_eq!(
        piggy_bank.deposit(get_alice(), vault_account(), 2, done),
        Ok((Deposit { owner: get_alice(), amount: 2, total: u128::MAX }, None))
    );
    assert_eq!(piggy_bank.balance_of(get_alice()), u128::MAX);
}

#[test]
fn withdraw_hands_the_payout_to_the_ledger() {
    let mut piggy_bank = V6psp20piggybank::new(get_alice(), create_mock_token());
    piggy_bank.deposit(get_bob(), vault_account(), 100, done).unwrap();
    let mut seen = None;
    let result = piggy_bank.withdraw(get_bob(), 0, 30, |call| {
        seen = Some(call);
        LedgerReply::Done
    });
    assert_eq!(
        seen,
        Some(LedgerCall {
            target: create_mock_token(),
            message: LedgerMessage::Transfer { to: get_bob(), value: 30 },
        })
    );
    assert_eq!(result, Ok(Withdrawal { owner: get_bob(), amount: 30, remaining: 70 }));
    assert_eq!(piggy_bank.balance_of(get_bob()), 70);
}

#[test]
fn withdraw_of_nothing_is_refused() {
    let mut piggy_bank = V6psp20piggybank::new(get_alice(), create_mock_token());
    piggy_bank.deposit(get_alice(), vault_account(), 100, done).unwrap();
    assert_eq!(piggy_bank.withdraw(get_alice(), 0, 0, never), Err(Error::ZeroAmount));
    assert_eq!(piggy_bank.withdraw(get_bob(), 0, 0, never), Err(Error::ZeroAmount));
    assert_eq!(piggy_bank.balance_of(get_alice()), 100);
}

#[test]
fn withdraw_beyond_the_balance_is_refused() {
    let mut piggy_bank = V6psp20piggybank::new(get_alice(), create_mock_token());
    piggy_bank.deposit(get_alice(), vault_account(), 100, done).unwrap();
    assert_eq!(piggy_bank.withdraw(get_alice(), 0, 101, never), Err(Error::InsufficientBalance));
    assert_eq!(piggy_bank.withdraw(get_bob(), 0, 1, never), Err(Error::InsufficientBalance));
    assert_eq!(
        piggy_bank.settle_withdrawal(get_alice(), 0, 101, LedgerReply::Done),
        Err(Error::InsufficientBalance)
    );
    assert_eq!(piggy_bank.balance_of(get_alice()), 100);
}

#[test]
fn withdraw_waits_for_the_lock_time() {
    let mut piggy_bank = V6psp20piggybank::new(get_alice(), create_mock_token());
    piggy_bank.deposit(get_alice(), vault_account(), 100, done).unwrap();
    piggy_bank.set_lock_time(get_alice(), 1000).unwrap();

    assert_eq!(piggy_bank.withdraw(get_alice(), 999, 40, never), Err(Error::WithdrawalTooEarly));
    assert_eq!(piggy_bank.balance_of(get_alice()), 100);
    assert_eq!(piggy_bank.withdraw(get_alice(), 999, 101, never), Err(Error::InsufficientBalance));

    assert_eq!(
        piggy_bank.withdraw(get_alice(), 1000, 40, done),
        Ok(Withdrawal { owner: get_alice(), amount: 40, remaining: 60 })
    );
    assert_eq!(
        piggy_bank.withdraw(get_alice(), 5000, 60, done),
        Ok(Withdrawal { owner: get_alice(), amount: 60, remaining: 0 })
    );
}

#[test]
fn lock_time_of_one_account_does_not_hold_another() {
    let mut piggy_bank = V6psp20piggybank::new(get_alice(), create_mock_token());
    piggy_bank.deposit(get_alice(), vault_account(), 100, done).unwrap();
    piggy_bank.deposit(get_bob(), vault_account(), 100, done).unwrap();
    piggy_bank.set_lock_time(get_alice(), 1000).unwrap();
    assert!(piggy_bank.withdraw(get_bob(), 0, 100, done).is_ok());
    assert_eq!(piggy_bank.balance_of(get_alice()), 100);
    assert_eq!(piggy_bank.balance_of(get_bob()), 0);
}

#[test]
fn withdraw_keeps_the_balance_when_the_ledger_fails() {
    let alice = get_alice();
    let mut token = Token::new(alice, 1000);
    let mut piggy_bank = V6psp20piggybank::new(alice, create_mock_token());
    token.approve(alice, vault_account(), 100).unwrap();
    piggy_bank.deposit(alice, vault_account(), 100, |call| carry(&mut token, call)).unwrap();

    token.pause(alice).unwrap();
    let result = piggy_bank.withdraw(alice, 0, 60, |call| carry(&mut token, call));
    assert_eq!(result, Err(Error::TokenTransferFailed));
    assert_eq!(piggy_bank.balance_of(alice), 100);
    assert_eq!(token.balance_of(vault_account()), 100);

    token.unpause(alice).unwrap();
    let result = piggy_bank.withdraw(alice, 0, 60, |call| carry(&mut token, call));
    assert_eq!(result, Ok(Withdrawal { owner: alice, amount: 60, remaining: 40 }));
    assert_eq!(token.balance_of(alice), 960);
    assert_eq!(token.balance_of(vault_account()), 40);
}

#[test]
fn break_piggy_bank_pays_everything_and_forgets_the_account() {
    let mut piggy_bank = V6psp20piggybank::new(get_alice(), create_mock_token());
    piggy_bank.deposit(get_bob(), vault_account(), 100, done).unwrap();
    piggy_bank.set_goal(get_bob(), 500).unwrap();
    piggy_bank.set_lock_time(get_bob(), 1000).unwrap();
    piggy_bank.set_goal(get_alice(), 7).unwrap();

    let mut seen = None;
    let result = piggy_bank.break_piggy_bank(get_bob(), 1000, |call| {
        seen = Some(call);
        LedgerReply::Done
    });

    assert_eq!(
        seen,
        Some(LedgerCall {
            target: create_mock_token(),
            message: LedgerMessage::Transfer { to: get_bob(), value: 100 },
        })
    );
    assert_eq!(result, Ok(PiggyBankBroken { owner: get_bob(), amount: 100 }));
    assert_eq!(piggy_bank.balance_of(get_bob()), 0);
    assert_eq!(piggy_bank.goal_of(get_bob()), 0);
    assert_eq!(piggy_bank.lock_time_of(get_bob()), 0);
    assert!(!piggy_bank.is_goal_reached(get_bob()));
    assert_eq!(piggy_bank.goal_of(get_alice()), 7);
}

#[test]
fn break_piggy_bank_of_an_empty_account_is_refused() {
    let mut piggy_bank = V6psp20piggybank::new(get_alice(), create_mock_token());
    piggy_bank.set_lock_time(get_alice(), 1000).unwrap();
    assert_eq!(piggy_bank.break_piggy_bank(get_alice(), 0, never), Err(Error::InsufficientBalance));
    assert_eq!(piggy_bank.lock_time_of(get_alice()), 1000);
}

#[test]
fn break_piggy_bank_waits_for_the_lock_time() {
    let mut piggy_bank = V6psp20piggybank::new(get_alice(), create_mock_token());
    piggy_bank.deposit(get_alice(), vault_account(), 100, done).unwrap();
    piggy_bank.set_lock_time(get_alice(), 1000).unwrap();
    assert_eq!(piggy_bank.break_piggy_bank(get_alice(), 999, never), Err(Error::WithdrawalTooEarly));
    assert_eq!(piggy_bank.balance_of(get_alice()), 100);
    assert_eq!(
        piggy_bank.break_piggy_bank(get_alice(), 1000, done),
        Ok(PiggyBankBroken { owner: get_alice(), amount: 100 })
    );
}

#[test]
fn break_piggy_bank_keeps_the_account_when_the_ledger_fails() {
    let mut piggy_bank = V6psp20piggybank::new(get_alice(), create_mock_token());
    piggy_bank.deposit(get_alice(), vault_account(), 100, done).unwrap();
    piggy_bank.set_goal(get_alice(), 500).unwrap();
    assert_eq!(
        piggy_bank.break_piggy_bank(get_alice(), 0, failed),
        Err(Error::TokenTransferFailed)
    );
    assert_eq!(
        piggy_bank.settle_break(get_alice(), 0, LedgerReply::Failed),
        Err(Error::TokenTransferFailed)
    );
    assert_eq!(piggy_bank.balance_of(get_alice()), 100);
    assert_eq!(piggy_bank.goal_of(get_alice()), 500);
    assert_eq!(
        piggy_bank.settle_break(get_alice(), 0, LedgerReply::Done),
        Ok(PiggyBankBroken { owner: get_alice(), amount: 100 })
    );
}

#[test]
fn withdraw_if_goal_reached_waits_for_the_goal() {
    let mut piggy_bank = V6psp20piggybank::new(get_alice(), create_mock_token());
    piggy_bank.deposit(get_alice(), vault_account(), 60, done).unwrap();
    piggy_bank.set_goal(get_alice(), 100).unwrap();

    assert_eq!(
        piggy_bank.withdraw_if_goal_reached(get_alice(), 0, 10, never),
        Err(Error::GoalNotReached)
    );
    assert_eq!(
        piggy_bank.withdraw_if_goal_reached(get_alice(), 0, 0, never),
        Err(Error::GoalNotReached)
    );
    assert_eq!(piggy_bank.balance_of(get_alice()), 60);

    piggy_bank.deposit(get_alice(), vault_account(), 40, done).unwrap();
    assert_eq!(
        piggy_bank.withdraw_if_goal_reached(get_alice(), 0, 10, done),
        Ok(Withdrawal { owner: get_alice(), amount: 10, remaining: 90 })
    );
    assert_eq!(
        piggy_bank.withdraw_if_goal_reached(get_alice(), 0, 10, never),
        Err(Error::GoalNotReached)
    );
}

#[test]
fn withdraw_if_goal_reached_without_a_goal_is_a_withdrawal() {
    let mut piggy_bank = V6psp20piggybank::new(get_alice(), create_mock_token());
    piggy_bank.deposit(get_alice(), vault_account(), 60, done).unwrap();
    piggy_bank.set_lock_time(get_alice(), 10).unwrap();
    assert_eq!(
        piggy_bank.withdraw_if_goal_reached(get_alice(), 0, 0, never),
        Err(Error::ZeroAmount)
    );
    assert_eq!(
        piggy_bank.withdraw_if_goal_reached(get_alice(), 0, 61, never),
        Err(Error::InsufficientBalance)
    );
    assert_eq!(
        piggy_bank.withdraw_if_goal_reached(get_alice(), 9, 60, never),
        Err(Error::WithdrawalTooEarly)
    );
    assert_eq!(
        piggy_bank.withdraw_if_goal_reached(get_alice(), 10, 60, failed),
        Err(Error::TokenTransferFailed)
    );
    assert_eq!(
        piggy_bank.withdraw_if_goal_reached(get_alice(), 10, 60, done),
        Ok(Withdrawal { owner: get_alice(), amount: 60, remaining: 0 })
    );
}

#[test]
fn token_balance_asks_the_ledger_for_the_vault() {
    let piggy_bank = V6psp20piggybank::new(get_alice(), create_mock_token());
    let mut seen = None;
    let balance = piggy_bank.token_balance(vault_account(), |call| {
        seen = Some(call);
        LedgerReply::Balance(321)
    });
    assert_eq!(balance, 321);
    assert_eq!(
        seen,
        Some(LedgerCall {
            target: create_mock_token(),
            message: LedgerMessage::BalanceOf { owner: vault_account() },
        })
    );
}

#[test]
fn token_balance_reads_a_failure_as_zero() {
    let piggy_bank = V6psp20piggybank::new(get_alice(), create_mock_token());
    assert_eq!(piggy_bank.token_balance(vault_account(), failed), 0);
    assert_eq!(piggy_bank.token_balance(vault_account(), done), 0);
    assert_eq!(reported_balance(LedgerReply::Balance(5)), 5);
    assert_eq!(reported_balance(LedgerReply::Failed), 0);
    assert_eq!(reported_balance(LedgerReply::Done), 0);
}

#[test]
fn record_round_trip_keeps_the_vault() {
    let mut piggy_bank = V6psp20piggybank::new(get_alice(), create_mock_token());
    piggy_bank.deposit(get_bob(), vault_account(), 100, done).unwrap();
    piggy_bank.set_goal(get_bob(), 500).unwrap();
    piggy_bank.set_lock_time(get_alice(), 1000).unwrap();

    let record = piggy_bank.to_record();
    assert_eq!(record.token_address, create_mock_token());
    assert_eq!(record.owner, get_alice());
    assert_eq!(record.balances, vec![(get_bob(), 100)]);
    assert_eq!(record.goals, vec![(get_bob(), 500)]);
    assert_eq!(record.lock_times, vec![(get_alice(), 1000)]);

    let mut restored = V6psp20piggybank::from_record(&record);
    assert_eq!(restored.owner(), get_alice());
    assert_eq!(restored.token_address(), create_mock_token());
    assert_eq!(restored.balance_of(get_bob()), 100);
    assert_eq!(restored.goal_of(get_bob()), 500);
    assert_eq!(restored.lock_time_of(get_alice()), 1000);
    assert!(!restored.is_goal_reached(get_bob()));
    assert_eq!(
        restored.withdraw(get_bob(), 0, 100, done),
        Ok(Withdrawal { owner: get_bob(), amount: 100, remaining: 0 })
    );
}
