//! The savings vault: per account a deposited balance, an optional goal and
//! an optional lock time.
//!
//! The vault never touches the token ledger's state. Where an operation
//! needs the ledger, it hands one [`LedgerCall`] to the `invoke` function it
//! was given, which carries it to the ledger and brings back a
//! [`LedgerReply`]. The vault changes its own state only after the ledger
//! has answered that the call was carried out: a deposit is credited after
//! the ledger moved the tokens in, and a withdrawal is debited after the
//! ledger moved them out. A call that fails leaves the vault as it was.

use vstd::prelude::*;
use crate::account::AccountId;
use crate::store::{Table, entries_map};
use crate::tally::held;
use crate::token::{Balance, sat_add, sat_sub};

verus! {

/// A point in time, in milliseconds.
pub type Timestamp = u64;

/// Why a vault operation was refused.
#[derive(Debug, Clone, Copy, PartialEq, Eq, Structural)]
pub enum Error {
    InsufficientBalance,
    GoalNotReached,
    WithdrawalTooEarly,
    Unauthorized,
    ZeroAmount,
    TokenTransferFailed,
}

/// Notice of a deposit: who made it, how much, and what the account holds
/// now.
#[derive(Debug, Clone, Copy, PartialEq, Eq)]
pub struct Deposit {
    pub owner: AccountId,
    pub amount: Balance,
    pub total: Balance,
}

/// Notice of a withdrawal: who made it, how much, and what the account
/// still holds.
#[derive(Debug, Clone, Copy, PartialEq, Eq)]
pub struct Withdrawal {
    pub owner: AccountId,
    pub amount: Balance,
    pub remaining: Balance,
}

/// Notice of an account having been emptied and closed.
#[derive(Debug, Clone, Copy, PartialEq, Eq)]
pub struct PiggyBankBroken {
    pub owner: AccountId,
    pub amount: Balance,
}

/// Notice of a deposit having brought an account to its goal.
#[derive(Debug, Clone, Copy, PartialEq, Eq)]
pub struct GoalReached {
    pub owner: AccountId,
    pub goal: Balance,
}

/// What the vault asks of the ledger. The vault itself is the caller that the
/// ledger sees.
#[derive(Debug, Clone, Copy, PartialEq, Eq)]
pub enum LedgerMessage {
    /// Move `value` from `from` to `to` against the vault's allowance.
    TransferFrom { from: AccountId, to: AccountId, value: Balance },
    /// Move `value` from the vault's own balance to `to`.
    Transfer { to: AccountId, value: Balance },
    /// Report what `owner` holds.
    BalanceOf { owner: AccountId },
}

/// A message together with the ledger it is meant for.
#[derive(Debug, Clone, Copy, PartialEq, Eq)]
pub struct LedgerCall {
    pub target: AccountId,
    pub message: LedgerMessage,
}

/// What comes back from a call: the ledger carried it out, or it reported a
/// balance, or the call failed. `Failed` stands for every fault alike: the
/// ledger refused, or it could not be reached, or its answer could not be
/// read.
#[derive(Debug, Clone, Copy, PartialEq, Eq, Structural)]
pub enum LedgerReply {
    Done,
    Balance(Balance),
    Failed,
}

impl LedgerReply {
    /// The balance that a reply reports; nothing where it reports none.
    pub open spec fn balance_or_zero(self) -> Balance {
        match self {
            LedgerReply::Balance(balance) => balance,
            _ => 0,
        }
    }
}

/// What a vault is, as a mathematical value. An account without a balance
/// entry holds nothing, one without a goal entry has no goal, and one
/// without a lock entry is not locked.
#[verifier::ext_equal]
pub struct VaultState {
    pub token_address: AccountId,
    pub balances: Map<AccountId, Balance>,
    pub goals: Map<AccountId, Balance>,
    pub lock_times: Map<AccountId, Timestamp>,
    pub owner: AccountId,
}

impl VaultState {
    /// The vault right after its creation by `caller`.
    pub open spec fn fresh(caller: AccountId, token_address: AccountId) -> VaultState {
        VaultState {
            token_address,
            balances: Map::empty(),
            goals: Map::empty(),
            lock_times: Map::empty(),
            owner: caller,
        }
    }

    pub open spec fn balance_of(self, who: AccountId) -> Balance {
        held(self.balances, who)
    }

    pub open spec fn goal_of(self, who: AccountId) -> Balance {
        held(self.goals, who)
    }

    pub open spec fn lock_time_of(self, who: AccountId) -> Timestamp {
        if self.lock_times.contains_key(who) {
            self.lock_times[who]
        } else {
            0
        }
    }

    /// A goal is set for `who`, and what `who` holds meets it.
    pub open spec fn is_goal_reached(self, who: AccountId) -> bool {
        self.goals.contains_key(who) && self.balance_of(who) >= self.goals[who]
    }

    /// A lock time is set for `who`, and `now` is before it.
    pub open spec fn is_locked(self, who: AccountId, now: Timestamp) -> bool {
        self.lock_times.contains_key(who) && now < self.lock_times[who]
    }

    pub open spec fn credited(self, who: AccountId, amount: Balance) -> VaultState {
        VaultState {
            balances: self.balances.insert(who, sat_add(self.balance_of(who), amount)),
            ..self
        }
    }

    pub open spec fn debited(self, who: AccountId, amount: Balance) -> VaultState {
        VaultState {
            balances: self.balances.insert(who, sat_sub(self.balance_of(who), amount)),
            ..self
        }
    }

    /// The vault without any entry for `who`.
    pub open spec fn closed(self, who: AccountId) -> VaultState {
        VaultState {
            balances: self.balances.remove(who),
            goals: self.goals.remove(who),
            lock_times: self.lock_times.remove(who),
            ..self
        }
    }

    /// The call that moves a deposit of `amount` by `caller` into the vault,
    /// whose own account on the ledger is `vault`.
    pub open spec fn deposit_call(
        self,
        caller: AccountId,
        vault: AccountId,
        amount: Balance,
    ) -> LedgerCall {
        LedgerCall {
            target: self.token_address,
            message: LedgerMessage::TransferFrom { from: caller, to: vault, value: amount },
        }
    }

    /// The call that pays `amount` out of the vault to `caller`.
    pub open spec fn payout_call(self, caller: AccountId, amount: Balance) -> LedgerCall {
        LedgerCall {
            target: self.token_address,
            message: LedgerMessage::Transfer { to: caller, value: amount },
        }
    }

    /// The call that asks what the vault, whose own account on the ledger is
    /// `vault`, holds there.
    pub open spec fn balance_call(self, vault: AccountId) -> LedgerCall {
        LedgerCall { target: self.token_address, message: LedgerMessage::BalanceOf { owner: vault } }
    }

    /// Why a deposit of `amount` is refused before the ledger is asked, if it
    /// is.
    pub open spec fn deposit_refusal(self, amount: Balance) -> Option<Error> {
        if amount == 0 {
            Some(Error::ZeroAmount)
        } else {
            None
        }
    }

    /// Why a withdrawal of `amount` by `caller` at `now` is refused before
    /// the ledger is asked, if it is: the amount is looked at first, then the
    /// balance, then the lock.
    pub open spec fn withdraw_refusal(
        self,
        caller: AccountId,
        now: Timestamp,
        amount: Balance,
    ) -> Option<Error> {
        if amount == 0 {
            Some(Error::ZeroAmount)
        } else if self.balance_of(caller) < amount {
            Some(Error::InsufficientBalance)
        } else if self.is_locked(caller, now) {
            Some(Error::WithdrawalTooEarly)
        } else {
            None
        }
    }

    /// Why closing `caller`'s account at `now` is refused before the ledger
    /// is asked, if it is.
    pub open spec fn break_refusal(self, caller: AccountId, now: Timestamp) -> Option<Error> {
        if self.balance_of(caller) == 0 {
            Some(Error::InsufficientBalance)
        } else if self.is_locked(caller, now) {
            Some(Error::WithdrawalTooEarly)
        } else {
            None
        }
    }

    /// Why a withdrawal that waits for the goal is refused before the ledger
    /// is asked, if it is: a goal that is set and not met comes first.
    pub open spec fn goal_withdraw_refusal(
        self,
        caller: AccountId,
        now: Timestamp,
        amount: Balance,
    ) -> Option<Error> {
        if self.goals.contains_key(caller) && self.balance_of(caller) < self.goals[caller] {
            Some(Error::GoalNotReached)
        } else {
            self.withdraw_refusal(caller, now, amount)
        }
    }

    /// What a deposit returns once the ledger has answered `reply`.
    pub open spec fn deposit_result(
        self,
        caller: AccountId,
        amount: Balance,
        reply: LedgerReply,
    ) -> Result<(Deposit, Option<GoalReached>), Error> {
        let total = sat_add(self.balance_of(caller), amount);
        if amount == 0 {
            Err(Error::ZeroAmount)
        } else if reply != LedgerReply::Done {
            Err(Error::TokenTransferFailed)
        } else {
            Ok(
                (
                    Deposit { owner: caller, amount, total },
                    if self.goals.contains_key(caller) && total >= self.goals[caller] {
                        Some(GoalReached { owner: caller, goal: self.goals[caller] })
                    } else {
                        None
                    },
                ),
            )
        }
    }

    /// The vault after a deposit to which the ledger answered `reply`.
    pub open spec fn deposit(
        self,
        caller: AccountId,
        amount: Balance,
        reply: LedgerReply,
    ) -> VaultState {
        if self.deposit_result(caller, amount, reply) is Ok {
            self.credited(caller, amount)
        } else {
            self
        }
    }

    /// What a withdrawal returns once the ledger has answered `reply`.
    pub open spec fn withdraw_result(
        self,
        caller: AccountId,
        now: Timestamp,
        amount: Balance,
        reply: LedgerReply,
    ) -> Result<Withdrawal, Error> {
        match self.withdraw_refusal(caller, now, amount) {
            Some(e) => Err(e),
            None => if reply != LedgerReply::Done {
                Err(Error::TokenTransferFailed)
            } else {
                Ok(
                    Withdrawal {
                        owner: caller,
                        amount,
                        remaining: sat_sub(self.balance_of(caller), amount),
                    },
                )
            },
        }
    }

    /// The vault after a withdrawal to which the ledger answered `reply`.
    pub open spec fn withdraw(
        self,
        caller: AccountId,
        now: Timestamp,
        amount: Balance,
        reply: LedgerReply,
    ) -> VaultState {
        if self.withdraw_result(caller, now, amount, reply) is Ok {
            self.debited(caller, amount)
        } else {
            self
        }
    }

    /// What closing `caller`'s account returns once the ledger has answered
    /// `reply`.
    pub open spec fn break_result(
        self,
        caller: AccountId,
        now: Timestamp,
        reply: LedgerReply,
    ) -> Result<PiggyBankBroken, Error> {
        match self.break_refusal(caller, now) {
            Some(e) => Err(e),
            None => if reply != LedgerReply::Done {
                Err(Error::TokenTransferFailed)
            } else {
                Ok(PiggyBankBroken { owner: caller, amount: self.balance_of(caller) })
            },
        }
    }

    /// The vault after `caller` asked to close its account and the ledger
    /// answered `reply`.
    pub open spec fn break_piggy_bank(
        self,
        caller: AccountId,
        now: Timestamp,
        reply: LedgerReply,
    ) -> VaultState {
        if self.break_result(caller, now, reply) is Ok {
            self.closed(caller)
        } else {
            self
        }
    }

    /// What a withdrawal that waits for the goal returns once the ledger has
    /// answered `reply`.
    pub open spec fn goal_withdraw_result(
        self,
        caller: AccountId,
        now: Timestamp,
        amount: Balance,
        reply: LedgerReply,
    ) -> Result<Withdrawal, Error> {
        if self.goals.contains_key(caller) && self.balance_of(caller) < self.goals[caller] {
            Err(Error::GoalNotReached)
        } else {
            self.withdraw_result(caller, now, amount, reply)
        }
    }

    /// The vault after a withdrawal that waits for the goal, to which the
    /// ledger answered `reply`.
    pub open spec fn withdraw_if_goal_reached(
        self,
        caller: AccountId,
        now: Timestamp,
        amount: Balance,
        reply: LedgerReply,
    ) -> VaultState {
        if self.goal_withdraw_result(caller, now, amount, reply) is Ok {
            self.debited(caller, amount)
        } else {
            self
        }
    }
}

/// The balance that `reply` reports; nothing where it reports none, so that
/// a failed query reads as an empty account.
pub fn reported_balance(reply: LedgerReply) -> (balance: Balance)
    ensures
        balance == reply.balance_or_zero(),
{
    match reply {
        LedgerReply::Balance(balance) => balance,
        _ => 0,
    }
}

/// A vault written out as plain values, for keeping outside the program.
/// Each list holds the entries of one table; where a key occurs more than
/// once, its last entry counts.
#[derive(Debug, Clone)]
pub struct VaultRecord {
    pub token_address: AccountId,
    pub balances: Vec<(AccountId, Balance)>,
    pub goals: Vec<(AccountId, Balance)>,
    pub lock_times: Vec<(AccountId, Timestamp)>,
    pub owner: AccountId,
}

impl VaultRecord {
    /// The vault that the record stands for.
    pub open spec fn state(&self) -> VaultState {
        VaultState {
            token_address: self.token_address,
            balances: entries_map(self.balances@),
            goals: entries_map(self.goals@),
            lock_times: entries_map(self.lock_times@),
            owner: self.owner,
        }
    }
}

/// A savings vault for the tokens of one ledger.
pub struct V6psp20piggybank {
    token_address: AccountId,
    balances: Table<AccountId, Balance>,
    goals: Table<AccountId, Balance>,
    lock_times: Table<AccountId, Timestamp>,
    owner: AccountId,
}

impl View for V6psp20piggybank {
    type V = VaultState;

    closed spec fn view(&self) -> VaultState {
        VaultState {
            token_address: self.token_address,
            balances: self.balances@,
            goals: self.goals@,
            lock_times: self.lock_times@,
            owner: self.owner,
        }
    }
}

impl V6psp20piggybank {
    /// Creates an empty vault that `caller` owns, for the ledger at
    /// `token_address`.
    pub fn new(caller: AccountId, token_address: AccountId) -> (vault: V6psp20piggybank)
        ensures
            vault@ == VaultState::fresh(caller, token_address),
    {
        V6psp20piggybank {
            token_address,
            balances: Table::new(),
            goals: Table::new(),
            lock_times: Table::new(),
            owner: caller,
        }
    }

    /// The vault that `record` stands for.
    pub fn from_record(record: &VaultRecord) -> (vault: V6psp20piggybank)
        ensures
            vault@ == record.state(),
    {
        V6psp20piggybank {
            token_address: record.token_address,
            balances: Table::from_entries(&record.balances),
            goals: Table::from_entries(&record.goals),
            lock_times: Table::from_entries(&record.lock_times),
            owner: record.owner,
        }
    }

    /// The vault written out as plain values.
    pub fn to_record(&self) -> (record: VaultRecord)
        ensures
            record.state() == self@,
    {
        VaultRecord {
            token_address: self.token_address,
            balances: self.balances.entries(),
            goals: self.goals.entries(),
            lock_times: self.lock_times.entries(),
            owner: self.owner,
        }
    }

    /// Deposits `amount` of `caller`'s tokens. `vault` is the vault's own
    /// account on the ledger, and `caller` must have allowed it to move that
    /// much.
    ///
    /// A zero amount is refused with `ZeroAmount` and the ledger is not
    /// asked. Otherwise `invoke` is handed the call that moves the tokens
    /// in; unless the ledger answers `Done`, the deposit fails with
    /// `TokenTransferFailed`. What the deposit returns and leaves for each
    /// reply is what [`Self::settle_deposit`] does.
    pub fn deposit<F: FnOnce(LedgerCall) -> LedgerReply>(
        &mut self,
        caller: AccountId,
        vault: AccountId,
        amount: Balance,
        invoke: F,
    ) -> (res: Result<(Deposit, Option<GoalReached>), Error>)
        requires
            old(self)@.deposit_refusal(amount) is None ==> invoke.requires(
                (old(self)@.deposit_call(caller, vault, amount),),
            ),
        ensures
            old(self)@.deposit_refusal(amount) matches Some(e) ==> res == Err::<
                (Deposit, Option<GoalReached>),
                Error,
            >(e) && final(self)@ == old(self)@,
            old(self)@.deposit_refusal(amount) is None ==> exists|reply: LedgerReply|
                {
                    &&& #[trigger] invoke.ensures(
                        (old(self)@.deposit_call(caller, vault, amount),),
                        reply,
                    )
                    &&& res == old(self)@.deposit_result(caller, amount, reply)
                    &&& final(self)@ == old(self)@.deposit(caller, amount, reply)
                },
            res is Ok ==> final(self)@ == old(self)@.credited(caller, amount),
            res is Err ==> final(self)@ == old(self)@,
    {
        if amount == 0 {
            return Err(Error::ZeroAmount);
        }
        let call = LedgerCall {
            target: self.token_address,
            message: LedgerMessage::TransferFrom { from: caller, to: vault, value: amount },
        };
        let reply = invoke(call);
        self.settle_deposit(caller, amount, reply)
    }

    /// Completes a deposit of `amount` by `caller` to which the ledger has
    /// answered `reply`.
    ///
    /// On `Done` the account is credited with `amount`, held at the largest
    /// amount, and the notice of the deposit is returned, together with the
    /// notice of the goal where one is set and the new balance meets it. On
    /// any other reply the deposit fails with `TokenTransferFailed`. A zero
    /// amount is refused with `ZeroAmount` whatever the reply.
    pub fn settle_deposit(
        &mut self,
        caller: AccountId,
        amount: Balance,
        reply: LedgerReply,
    ) -> (res: Result<(Deposit, Option<GoalReached>), Error>)
        ensures
            res == old(self)@.deposit_result(caller, amount, reply),
            final(self)@ == old(self)@.deposit(caller, amount, reply),
            res is Err ==> final(self)@ == old(self)@,
    {
        if amount == 0 {
            return Err(Error::ZeroAmount);
        }
        match reply {
            LedgerReply::Done => {},
            _ => {
                return Err(Error::TokenTransferFailed);
            },
        }
        let current = self.balance_of(caller);
        let total = current.saturating_add(amount);
        let goal = self.goals.get(&caller);
        self.balances.insert(caller, total);
        let reached = match goal {
            Some(goal) => if total >= goal {
                Some(GoalReached { owner: caller, goal })
            } else {
                None
            },
            None => None,
        };
        Ok((Deposit { owner: caller, amount, total }, reached))
    }

    /// Sets `caller`'s goal to `goal`, whatever it was before.
    pub fn set_goal(&mut self, caller: AccountId, goal: Balance) -> (res: Result<(), Error>)
        ensures
            res is Ok,
            final(self)@ == (VaultState { goals: old(self)@.goals.insert(caller, goal), ..old(self)@ }),
            final(self)@.goal_of(caller) == goal,
    {
        self.goals.insert(caller, goal);
        Ok(())
    }

    /// Sets the time before which `caller` cannot withdraw to `lock_time`,
    /// whatever it was before.
    pub fn set_lock_time(
        &mut self,
        caller: AccountId,
        lock_time: Timestamp,
    ) -> (res: Result<(), Error>)
        ensures
            res is Ok,
            final(self)@ == (VaultState {
                lock_times: old(self)@.lock_times.insert(caller, lock_time),
                ..old(self)@
            }),
            final(self)@.lock_time_of(caller) == lock_time,
    {
        self.lock_times.insert(caller, lock_time);
        Ok(())
    }

    /// Why a withdrawal is refused before the ledger is asked, if it is.
    fn check_withdrawal(
        &self,
        caller: AccountId,
        now: Timestamp,
        amount: Balance,
    ) -> (refusal: Option<Error>)
        ensures
            refusal == self@.withdraw_refusal(caller, now, amount),
    {
        let current = self.balance_of(caller);
        if amount == 0 {
            return Some(Error::ZeroAmount);
        }
        if current < amount {
            return Some(Error::InsufficientBalance);
        }
        if self.locked(caller, now) {
            return Some(Error::WithdrawalTooEarly);
        }
        None
    }

    /// Whether a lock time is set for `who` that `now` has not reached.
    fn locked(&self, who: AccountId, now: Timestamp) -> (locked: bool)
        ensures
            locked == self@.is_locked(who, now),
    {
        match self.lock_times.get(&who) {
            Some(lock_time) => now < lock_time,
            None => false,
        }
    }

    /// Whether a goal is set for `who` that its balance does not meet.
    fn short_of_goal(&self, who: AccountId) -> (short: bool)
        ensures
            short == (self@.goals.contains_key(who) && self@.balance_of(who) < self@.goals[who]),
    {
        let current = self.balance_of(who);
        match self.goals.get(&who) {
            Some(goal) => current < goal,
            None => false,
        }
    }

    /// Withdraws `amount` of what `caller` has deposited; `now` is the
    /// current time.
    ///
    /// Refused with `ZeroAmount` for a zero amount, else with
    /// `InsufficientBalance` if `caller` holds less than `amount`, else with
    /// `WithdrawalTooEarly` if a lock time is set and `now` is before it; in
    /// these cases the ledger is not asked. Otherwise `invoke` is handed the
    /// call that pays the tokens out; unless the ledger answers `Done`, the
    /// withdrawal fails with `TokenTransferFailed` and the balance stays.
    pub fn withdraw<F: FnOnce(LedgerCall) -> LedgerReply>(
        &mut self,
        caller: AccountId,
        now: Timestamp,
        amount: Balance,
        invoke: F,
    ) -> (res: Result<Withdrawal, Error>)
        requires
            old(self)@.withdraw_refusal(caller, now, amount) is None ==> invoke.requires(
                (old(self)@.payout_call(caller, amount),),
            ),
        ensures
            old(self)@.withdraw_refusal(caller, now, amount) matches Some(e) ==> res == Err::<
                Withdrawal,
                Error,
            >(e) && final(self)@ == old(self)@,
            old(self)@.withdraw_refusal(caller, now, amount) is None ==> exists|reply: LedgerReply|
                {
                    &&& #[trigger] invoke.ensures((old(self)@.payout_call(caller, amount),), reply)
                    &&& res == old(self)@.withdraw_result(caller, now, amount, reply)
                    &&& final(self)@ == old(self)@.withdraw(caller, now, amount, reply)
                },
            res is Ok ==> final(self)@ == old(self)@.debited(caller, amount) && final(self)@.balance_of(caller) + amount == old(self)@.balance_of(caller),
            res is Err ==> final(self)@ == old(self)@,
    {
        match self.check_withdrawal(caller, now, amount) {
            Some(e) => {
                return Err(e);
            },
            None => {},
        }
        let call = LedgerCall {
            target: self.token_address,
            message: LedgerMessage::Transfer { to: caller, value: amount },
        };
        let reply = invoke(call);
        self.settle_withdrawal(caller, now, amount, reply)
    }

    /// Completes a withdrawal of `amount` by `caller` at `now` to which the
    /// ledger has answered `reply`.
    ///
    /// The withdrawal is refused as [`Self::withdraw`] refuses it, whatever
    /// the reply. Otherwise, on `Done` the account is debited by `amount`
    /// and the notice of the withdrawal is returned; on any other reply the
    /// withdrawal fails with `TokenTransferFailed`.
    pub fn settle_withdrawal(
        &mut self,
        caller: AccountId,
        now: Timestamp,
        amount: Balance,
        reply: LedgerReply,
    ) -> (res: Result<Withdrawal, Error>)
        ensures
            res == old(self)@.withdraw_result(caller, now, amount, reply),
            final(self)@ == old(self)@.withdraw(caller, now, amount, reply),
            res is Err ==> final(self)@ == old(self)@,
    {
        match self.check_withdrawal(caller, now, amount) {
            Some(e) => {
                return Err(e);
            },
            None => {},
        }
        match reply {
            LedgerReply::Done => {},
            _ => {
                return Err(Error::TokenTransferFailed);
            },
        }
        let current = self.balance_of(caller);
        let remaining = current.saturating_sub(amount);
        self.balances.insert(caller, remaining);
        Ok(Withdrawal { owner: caller, amount, remaining })
    }

    /// Why closing an account is refused before the ledger is asked, if it
    /// is.
    fn check_break(&self, caller: AccountId, now: Timestamp) -> (refusal: Option<Error>)
        ensures
            refusal == self@.break_refusal(caller, now),
    {
        let balance = self.balance_of(caller);
        if balance == 0 {
            return Some(Error::InsufficientBalance);
        }
        if self.locked(caller, now) {
            return Some(Error::WithdrawalTooEarly);
        }
        None
    }

    /// Withdraws all that `caller` has deposited and removes its balance,
    /// its goal and its lock time; `now` is the current time.
    ///
    /// Refused with `InsufficientBalance` if `caller` holds nothing, else
    /// with `WithdrawalTooEarly` if a lock time is set and `now` is before
    /// it; in these cases the ledger is not asked. Otherwise `invoke` is
    /// handed the call that pays the whole balance out; unless the ledger
    /// answers `Done`, the operation fails with `TokenTransferFailed` and the
    /// account stays as it was.
    pub fn break_piggy_bank<F: FnOnce(LedgerCall) -> LedgerReply>(
        &mut self,
        caller: AccountId,
        now: Timestamp,
        invoke: F,
    ) -> (res: Result<PiggyBankBroken, Error>)
        requires
            old(self)@.break_refusal(caller, now) is None ==> invoke.requires(
                (old(self)@.payout_call(caller, old(self)@.balance_of(caller)),),
            ),
        ensures
            old(self)@.break_refusal(caller, now) matches Some(e) ==> res == Err::<
                PiggyBankBroken,
                Error,
            >(e) && final(self)@ == old(self)@,
            old(self)@.break_refusal(caller, now) is None ==> exists|reply: LedgerReply|
                {
                    &&& #[trigger] invoke.ensures(
                        (old(self)@.payout_call(caller, old(self)@.balance_of(caller)),),
                        reply,
                    )
                    &&& res == old(self)@.break_result(caller, now, reply)
                    &&& final(self)@ == old(self)@.break_piggy_bank(caller, now, reply)
                },
            res is Ok ==> final(self)@ == old(self)@.closed(caller),
            res is Err ==> final(self)@ == old(self)@,
    {
        match self.check_break(caller, now) {
            Some(e) => {
                return Err(e);
            },
            None => {},
        }
        let balance = self.balance_of(caller);
        let call = LedgerCall {
            target: self.token_address,
            message: LedgerMessage::Transfer { to: caller, value: balance },
        };
        let reply = invoke(call);
        self.settle_break(caller, now, reply)
    }

    /// Completes the closing of `caller`'s account at `now` to which the
    /// ledger has answered `reply`.
    ///
    /// The operation is refused as [`Self::break_piggy_bank`] refuses it,
    /// whatever the reply. Otherwise, on `Done` the entries of `caller` are
    /// removed and the notice is returned with the balance that was paid
    /// out; on any other reply the operation fails with
    /// `TokenTransferFailed`.
    pub fn settle_break(
        &mut self,
        caller: AccountId,
        now: Timestamp,
        reply: LedgerReply,
    ) -> (res: Result<PiggyBankBroken, Error>)
        ensures
            res == old(self)@.break_result(caller, now, reply),
            final(self)@ == old(self)@.break_piggy_bank(caller, now, reply),
            res is Err ==> final(self)@ == old(self)@,
    {
        match self.check_break(caller, now) {
            Some(e) => {
                return Err(e);
            },
            None => {},
        }
        match reply {
            LedgerReply::Done => {},
            _ => {
                return Err(Error::TokenTransferFailed);
            },
        }
        let balance = self.balance_of(caller);
        self.balances.remove(&caller);
        self.goals.remove(&caller);
        self.lock_times.remove(&caller);
        Ok(PiggyBankBroken { owner: caller, amount: balance })
    }

    /// Withdraws `amount` as [`Self::withdraw`] does, unless `caller` has a
    /// goal that its balance does not meet: then the withdrawal is refused
    /// with `GoalNotReached` and the ledger is not asked.
    pub fn withdraw_if_goal_reached<F: FnOnce(LedgerCall) -> LedgerReply>(
        &mut self,
        caller: AccountId,
        now: Timestamp,
        amount: Balance,
        invoke: F,
    ) -> (res: Result<Withdrawal, Error>)
        requires
            old(self)@.goal_withdraw_refusal(caller, now, amount) is None ==> invoke.requires(
                (old(self)@.payout_call(caller, amount),),
            ),
        ensures
            old(self)@.goal_withdraw_refusal(caller, now, amount) matches Some(e) ==> res == Err::<
                Withdrawal,
                Error,
            >(e) && final(self)@ == old(self)@,
            old(self)@.goal_withdraw_refusal(caller, now, amount) is None ==> exists|
                reply: LedgerReply,
            |
                {
                    &&& #[trigger] invoke.ensures((old(self)@.payout_call(caller, amount),), reply)
                    &&& res == old(self)@.goal_withdraw_result(caller, now, amount, reply)
                    &&& final(self)@ == old(self)@.withdraw_if_goal_reached(
                        caller,
                        now,
                        amount,
                        reply,
                    )
                },
            res is Ok ==> final(self)@ == old(self)@.debited(caller, amount),
            res is Err ==> final(self)@ == old(self)@,
    {
        if self.short_of_goal(caller) {
            return Err(Error::GoalNotReached);
        }
        self.withdraw(caller, now, amount, invoke)
    }

    /// What `owner` has deposited; nothing where it has no entry.
    pub fn balance_of(&self, owner: AccountId) -> (balance: Balance)
        ensures
            balance == self@.balance_of(owner),
    {
        match self.balances.get(&owner) {
            Some(balance) => balance,
            None => 0,
        }
    }

    /// The goal of `owner`; zero where none is set.
    pub fn goal_of(&self, owner: AccountId) -> (goal: Balance)
        ensures
            goal == self@.goal_of(owner),
    {
        match self.goals.get(&owner) {
            Some(goal) => goal,
            None => 0,
        }
    }

    /// The lock time of `owner`; zero where none is set.
    pub fn lock_time_of(&self, owner: AccountId) -> (lock_time: Timestamp)
        ensures
            lock_time == self@.lock_time_of(owner),
    {
        match self.lock_times.get(&owner) {
            Some(lock_time) => lock_time,
            None => 0,
        }
    }

    /// Whether `owner` has a goal and holds at least that much. An account
    /// without a goal has not reached one.
    pub fn is_goal_reached(&self, owner: AccountId) -> (reached: bool)
        ensures
            reached == self@.is_goal_reached(owner),
            reached <==> self@.goals.contains_key(owner) && self@.balance_of(owner)
                >= self@.goals[owner],
    {
        let balance = self.balance_of(owner);
        match self.goals.get(&owner) {
            Some(goal) => balance >= goal,
            None => false,
        }
    }

    /// The account that created the vault.
    pub fn owner(&self) -> (owner: AccountId)
        ensures
            owner == self@.owner,
    {
        self.owner
    }

    /// The ledger whose tokens the vault holds.
    pub fn token_address(&self) -> (address: AccountId)
        ensures
            address == self@.token_address,
    {
        self.token_address
    }

    /// What the vault holds on the ledger, where `vault` is its own account
    /// there. The query is advisory: `invoke` is handed the call that asks
    /// the ledger, and any reply other than a balance reads as zero.
    pub fn token_balance<F: FnOnce(LedgerCall) -> LedgerReply>(
        &self,
        vault: AccountId,
        invoke: F,
    ) -> (balance: Balance)
        requires
            invoke.requires((self@.balance_call(vault),)),
        ensures
            exists|reply: LedgerReply|
                {
                    &&& #[trigger] invoke.ensures((self@.balance_call(vault),), reply)
                    &&& balance == reply.balance_or_zero()
                },
    {
        let call = LedgerCall {
            target: self.token_address,
            message: LedgerMessage::BalanceOf { owner: vault },
        };
        let reply = invoke(call);
        reported_balance(reply)
    }
}

} // verus!
