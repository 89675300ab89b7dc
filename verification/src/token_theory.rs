//! What holds of every ledger, whatever requests reach it.

use vstd::prelude::*;
use crate::account::AccountId;
use crate::tally::{lemma_total_empty, lemma_total_insert, lemma_total_bounds_entry};
use crate::token::{Balance, Call, Error, LedgerState, Operation, lemma_moved_circulating};

verus! {

/// A request that neither creates nor destroys tokens.
pub open spec fn keeps_supply(operation: Operation) -> bool {
    !(operation is Mint) && !(operation is Burn)
}

/// A fresh ledger is finite, and its accounts hold exactly its supply.
pub proof fn genesis_is_backed(caller: AccountId, initial_supply: Balance)
    ensures
        LedgerState::genesis(caller, initial_supply).finite(),
        LedgerState::genesis(caller, initial_supply).backed(),
{
    lemma_total_empty::<AccountId>();
    lemma_total_insert(Map::<AccountId, Balance>::empty(), caller, initial_supply);
}

/// A batch of transfers on a ledger whose accounts hold its supply leaves
/// both the supply and the sum of the balances as they were.
pub proof fn batch_conserves(s: LedgerState, caller: AccountId, list: Seq<(AccountId, Balance)>)
    requires
        s.finite(),
        s.backed(),
    ensures
        s.batch_transfer(caller, list).0.finite(),
        s.batch_transfer(caller, list).0.backed(),
        s.batch_transfer(caller, list).0.total_supply == s.total_supply,
        s.batch_transfer(caller, list).0.paused == s.paused,
        s.batch_transfer(caller, list).0.owner == s.owner,
    decreases list.len(),
{
    if list.len() > 0 && s.transfer_refusal(caller, list[0].0, list[0].1) is None {
        lemma_moved_circulating(s, caller, list[0].0, list[0].1);
        batch_conserves(s.moved(caller, list[0].0, list[0].1), caller, list.skip(1));
    }
}

/// Conservation, one request at a time: a request other than mint and burn,
/// made on a ledger whose accounts hold its supply, leaves the supply and
/// the sum of the balances as they were.
pub proof fn step_conserves(s: LedgerState, caller: AccountId, operation: Operation)
    requires
        s.finite(),
        s.backed(),
        keeps_supply(operation),
    ensures
        s.step(caller, operation).finite(),
        s.step(caller, operation).backed(),
        s.step(caller, operation).total_supply == s.total_supply,
        s.step(caller, operation).circulating() == s.circulating(),
{
    match operation {
        Operation::Transfer { to, value } => {
            if s.transfer_refusal(caller, to, value) is None {
                lemma_moved_circulating(s, caller, to, value);
            }
        },
        Operation::TransferFrom { from, to, value } => {
            if s.transfer_from_refusal(caller, from, to, value) is None {
                lemma_moved_circulating(s, from, to, value);
            }
        },
        Operation::BatchTransfer { recipients } => {
            batch_conserves(s, caller, recipients);
        },
        _ => {},
    }
}

/// Conservation: after any sequence of requests without mint and burn, made
/// on a ledger whose accounts hold its supply, they still hold exactly that
/// supply.
pub proof fn run_conserves(s: LedgerState, calls: Seq<Call>)
    requires
        s.finite(),
        s.backed(),
        forall|i: int| 0 <= i < calls.len() ==> keeps_supply(#[trigger] calls[i].operation),
    ensures
        s.run(calls).finite(),
        s.run(calls).backed(),
        s.run(calls).total_supply == s.total_supply,
        s.run(calls).circulating() == s.circulating(),
    decreases calls.len(),
{
    if calls.len() > 0 {
        let before = calls.drop_last();
        assert forall|i: int| 0 <= i < before.len() implies keeps_supply(
            #[trigger] before[i].operation,
        ) by {
            assert(before[i] == calls[i]);
        }
        run_conserves(s, before);
        assert(keeps_supply(calls[calls.len() - 1].operation));
        step_conserves(s.run(before), calls.last().caller, calls.last().operation);
    }
}

/// Conservation from the start: a ledger that was created and then only
/// asked to transfer, directly or on behalf of others, holds its initial
/// supply in its accounts.
pub proof fn transfers_conserve_initial_supply(
    caller: AccountId,
    initial_supply: Balance,
    calls: Seq<Call>,
)
    requires
        forall|i: int|
            0 <= i < calls.len() ==> (#[trigger] calls[i].operation is Transfer
                || calls[i].operation is TransferFrom),
    ensures
        LedgerState::genesis(caller, initial_supply).run(calls).circulating() == initial_supply,
        LedgerState::genesis(caller, initial_supply).run(calls).total_supply == initial_supply,
{
    genesis_is_backed(caller, initial_supply);
    assert forall|i: int| 0 <= i < calls.len() implies keeps_supply(
        #[trigger] calls[i].operation,
    ) by {
        assert(calls[i].operation is Transfer || calls[i].operation is TransferFrom);
    }
    run_conserves(LedgerState::genesis(caller, initial_supply), calls);
}

/// Burning keeps the accounts and the supply in step; minting does as long
/// as the supply stays below the largest amount.
pub proof fn mint_and_burn_keep_backing(s: LedgerState, caller: AccountId, value: Balance)
    requires
        s.finite(),
        s.backed(),
    ensures
        s.burn(caller, value).backed(),
        s.total_supply + value <= u128::MAX ==> s.mint(caller, value).backed(),
        s.total_supply + value <= u128::MAX ==> s.mint(caller, value).total_supply
            == s.total_supply + value,
        s.balance_of(caller) >= value ==> s.burn(caller, value).total_supply == s.total_supply
            - value,
{
    lemma_total_bounds_entry(s.balances, caller);
    lemma_total_insert(s.balances, caller, crate::token::sat_add(s.balance_of(caller), value));
    lemma_total_insert(s.balances, caller, crate::token::sat_sub(s.balance_of(caller), value));
}

/// No debit is ever clamped: a transfer that is made takes exactly `value`
/// from the sender, a burn exactly `value` from the burner, and a transfer
/// on behalf exactly `value` from the allowance. Each is made only where
/// that much is there.
pub proof fn debits_are_exact(
    s: LedgerState,
    caller: AccountId,
    from: AccountId,
    to: AccountId,
    value: Balance,
)
    ensures
        s.transfer_refusal(from, to, value) is None ==> s.balance_of(from) >= value,
        s.transfer_refusal(from, to, value) is None && from != to ==> s.transfer(
            from,
            to,
            value,
        ).balance_of(from) == s.balance_of(from) - value,
        s.transfer_from_refusal(caller, from, to, value) is None ==> s.allowance(from, caller)
            >= value && s.balance_of(from) >= value,
        s.transfer_from_refusal(caller, from, to, value) is None ==> s.transfer_from(
            caller,
            from,
            to,
            value,
        ).allowance(from, caller) == s.allowance(from, caller) - value,
        s.balance_of(caller) >= value ==> s.burn(caller, value).balance_of(caller) == s.balance_of(
            caller,
        ) - value,
        s.balance_of(caller) < value ==> s.burn(caller, value) == s,
{
}

/// An approval overwrites: afterwards exactly `value` is allowed, whatever
/// was allowed or approved before.
pub proof fn approve_sets_allowance(
    s: LedgerState,
    owner: AccountId,
    spender: AccountId,
    earlier: Balance,
    value: Balance,
)
    ensures
        s.approve(owner, spender, value).allowance(owner, spender) == value,
        s.approve(owner, spender, earlier).approve(owner, spender, value).allowance(owner, spender)
            == value,
{
}

/// After an approval of `value`, a transfer on behalf that moves `spent`
/// leaves `value - spent` allowed.
pub proof fn transfer_from_spends_allowance(
    s: LedgerState,
    owner: AccountId,
    spender: AccountId,
    to: AccountId,
    value: Balance,
    spent: Balance,
)
    requires
        spent <= value,
        s.approve(owner, spender, value).transfer_from_refusal(spender, owner, to, spent) is None,
    ensures
        s.approve(owner, spender, value).transfer_from(spender, owner, to, spent).allowance(
            owner,
            spender,
        ) == value - spent,
{
}

/// Only the owner can pause, and after the owner did, the ledger is paused.
pub proof fn pause_is_for_owner(s: LedgerState, caller: AccountId)
    ensures
        caller == s.owner ==> s.pause(caller).paused && s.owner_refusal(caller) is None,
        caller != s.owner ==> s.pause(caller) == s && s.owner_refusal(caller) == Some(
            Error::Unauthorized,
        ),
{
}

/// The pause gate: on a paused ledger every transfer is refused with
/// `Paused`, and so is every transfer on behalf that its allowance covers;
/// neither changes the ledger.
pub proof fn paused_refuses_transfers(
    s: LedgerState,
    caller: AccountId,
    from: AccountId,
    to: AccountId,
    value: Balance,
)
    requires
        s.paused,
    ensures
        s.transfer_refusal(from, to, value) == Some(Error::Paused),
        s.transfer(from, to, value) == s,
        s.allowance(from, caller) >= value ==> s.transfer_from_refusal(caller, from, to, value)
            == Some(Error::Paused),
        s.transfer_from_refusal(caller, from, to, value) is Some,
        s.transfer_from(caller, from, to, value) == s,
{
}

/// A request that is not the owner's `unpause`.
pub open spec fn leaves_pause(s: LedgerState, call: Call) -> bool {
    !(call.operation is Unpause && call.caller == s.owner)
}

/// The pause lasts until the owner resumes: whatever requests reach a paused
/// ledger, as long as none is the owner's `unpause`, it stays paused, under
/// the same owner.
pub proof fn pause_lasts_until_unpause(s: LedgerState, calls: Seq<Call>)
    requires
        s.paused,
        forall|i: int| 0 <= i < calls.len() ==> leaves_pause(s, #[trigger] calls[i]),
    ensures
        s.run(calls).paused,
        s.run(calls).owner == s.owner,
    decreases calls.len(),
{
    if calls.len() > 0 {
        let before = calls.drop_last();
        assert forall|i: int| 0 <= i < before.len() implies leaves_pause(s, #[trigger] before[i]) by {
            assert(before[i] == calls[i]);
        }
        pause_lasts_until_unpause(s, before);
        assert(leaves_pause(s, calls[calls.len() - 1]));
        let last = calls.last();
        match last.operation {
            Operation::BatchTransfer { recipients } => {
                batch_keeps_switches(s.run(before), last.caller, recipients);
            },
            _ => {},
        }
    }
}

/// A batch of transfers touches neither the pause switch nor the owner nor
/// the blacklist.
pub proof fn batch_keeps_switches(
    s: LedgerState,
    caller: AccountId,
    list: Seq<(AccountId, Balance)>,
)
    ensures
        s.batch_transfer(caller, list).0.paused == s.paused,
        s.batch_transfer(caller, list).0.owner == s.owner,
        s.batch_transfer(caller, list).0.blacklist == s.blacklist,
    decreases list.len(),
{
    if list.len() > 0 && s.transfer_refusal(caller, list[0].0, list[0].1) is None {
        batch_keeps_switches(s.moved(caller, list[0].0, list[0].1), caller, list.skip(1));
    }
}

/// The blacklist gate: a transfer with a blacklisted party is refused and
/// changes nothing, and so is one on behalf. On a ledger that is not paused
/// the refusal is `Blacklisted`, for a transfer on behalf where its
/// allowance covers the amount.
pub proof fn blacklisted_refuses_transfers(
    s: LedgerState,
    caller: AccountId,
    from: AccountId,
    to: AccountId,
    value: Balance,
)
    requires
        s.is_blacklisted(from) || s.is_blacklisted(to),
    ensures
        s.transfer_refusal(from, to, value) is Some,
        s.transfer(from, to, value) == s,
        !s.paused ==> s.transfer_refusal(from, to, value) == Some(Error::Blacklisted),
        s.transfer_from_refusal(caller, from, to, value) is Some,
        s.transfer_from(caller, from, to, value) == s,
        !s.paused && s.allowance(from, caller) >= value ==> s.transfer_from_refusal(
            caller,
            from,
            to,
            value,
        ) == Some(Error::Blacklisted),
{
}

} // verus!
