//! What holds of every vault, whatever the ledger answers.

use vstd::prelude::*;
use crate::account::AccountId;
use crate::piggybank::{Error, LedgerReply, Timestamp, VaultState};
use crate::token::Balance;

verus! {

/// The lock-time gate: while `now` is before the lock time of `caller`, no
/// withdrawal is made and no account is closed, whatever the ledger would
/// answer. A withdrawal of a positive amount that the balance covers is
/// refused with `WithdrawalTooEarly`, and so is the closing of an account
/// that holds something.
pub proof fn locked_refuses_withdrawals(
    v: VaultState,
    caller: AccountId,
    now: Timestamp,
    amount: Balance,
    reply: LedgerReply,
)
    requires
        v.is_locked(caller, now),
    ensures
        v.withdraw_result(caller, now, amount, reply) is Err,
        v.withdraw(caller, now, amount, reply) == v,
        amount != 0 && v.balance_of(caller) >= amount ==> v.withdraw_result(
            caller,
            now,
            amount,
            reply,
        ) == Err::<crate::piggybank::Withdrawal, Error>(Error::WithdrawalTooEarly),
        v.break_result(caller, now, reply) is Err,
        v.break_piggy_bank(caller, now, reply) == v,
        v.balance_of(caller) != 0 ==> v.break_result(caller, now, reply) == Err::<
            crate::piggybank::PiggyBankBroken,
            Error,
        >(Error::WithdrawalTooEarly),
{
}

/// Once `now` has reached the lock time of `caller`, or where none is set,
/// a withdrawal of a positive amount that the balance covers is made as soon
/// as the ledger pays it out, and takes exactly that amount; an account that
/// holds something is closed as soon as the ledger pays it out.
pub proof fn unlocked_admits_withdrawals(
    v: VaultState,
    caller: AccountId,
    now: Timestamp,
    amount: Balance,
)
    requires
        !v.lock_times.contains_key(caller) || now >= v.lock_times[caller],
    ensures
        amount != 0 && v.balance_of(caller) >= amount ==> {
            &&& v.withdraw_result(caller, now, amount, LedgerReply::Done) is Ok
            &&& v.withdraw(caller, now, amount, LedgerReply::Done).balance_of(caller)
                == v.balance_of(caller) - amount
        },
        v.balance_of(caller) != 0 ==> {
            &&& v.break_result(caller, now, LedgerReply::Done) is Ok
            &&& v.break_piggy_bank(caller, now, LedgerReply::Done).balance_of(caller) == 0
            &&& !v.break_piggy_bank(caller, now, LedgerReply::Done).goals.contains_key(caller)
            &&& !v.break_piggy_bank(caller, now, LedgerReply::Done).lock_times.contains_key(caller)
        },
{
}

/// A lock that has opened stays open as time goes on.
pub proof fn lock_stays_open(v: VaultState, caller: AccountId, earlier: Timestamp, later: Timestamp)
    requires
        earlier <= later,
        !v.is_locked(caller, earlier),
    ensures
        !v.is_locked(caller, later),
{
}

/// The goal predicate: an account has reached its goal exactly when a goal
/// is set for it and its balance is at least that goal; an account without a
/// goal has not.
pub proof fn goal_reached_means_goal_met(v: VaultState, who: AccountId)
    ensures
        v.is_goal_reached(who) <==> v.goals.contains_key(who) && v.balance_of(who) >= v.goals[who],
        !v.goals.contains_key(who) ==> !v.is_goal_reached(who),
{
}

/// A deposit announces the goal exactly when the account has reached it by
/// that deposit.
pub proof fn deposit_announces_goal(
    v: VaultState,
    caller: AccountId,
    amount: Balance,
    reply: LedgerReply,
)
    ensures
        v.deposit_result(caller, amount, reply) matches Ok(notices) ==> {
            &&& notices.0.total == v.deposit(caller, amount, reply).balance_of(caller)
            &&& notices.1 is Some <==> v.deposit(caller, amount, reply).is_goal_reached(caller)
            &&& notices.1 matches Some(reached) ==> reached.owner == caller && reached.goal
                == v.goals[caller]
        },
{
}

/// The vault follows the ledger: unless the ledger answers `Done`, no
/// operation changes the vault, and each fails.
pub proof fn failed_call_leaves_vault(
    v: VaultState,
    caller: AccountId,
    now: Timestamp,
    amount: Balance,
    reply: LedgerReply,
)
    requires
        reply != LedgerReply::Done,
    ensures
        v.deposit(caller, amount, reply) == v,
        v.deposit_result(caller, amount, reply) is Err,
        v.withdraw(caller, now, amount, reply) == v,
        v.withdraw_result(caller, now, amount, reply) is Err,
        v.withdraw_if_goal_reached(caller, now, amount, reply) == v,
        v.goal_withdraw_result(caller, now, amount, reply) is Err,
        v.break_piggy_bank(caller, now, reply) == v,
        v.break_result(caller, now, reply) is Err,
{
}

/// No operation touches another account's entries.
pub proof fn operations_touch_only_the_caller(
    v: VaultState,
    caller: AccountId,
    other: AccountId,
    now: Timestamp,
    amount: Balance,
    reply: LedgerReply,
)
    requires
        other != caller,
    ensures
        v.deposit(caller, amount, reply).balance_of(other) == v.balance_of(other),
        v.withdraw(caller, now, amount, reply).balance_of(other) == v.balance_of(other),
        v.withdraw_if_goal_reached(caller, now, amount, reply).balance_of(other) == v.balance_of(
            other,
        ),
        v.break_piggy_bank(caller, now, reply).balance_of(other) == v.balance_of(other),
        v.break_piggy_bank(caller, now, reply).goal_of(other) == v.goal_of(other),
        v.break_piggy_bank(caller, now, reply).lock_time_of(other) == v.lock_time_of(other),
{
}

} // verus!
