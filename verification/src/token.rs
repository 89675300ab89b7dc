//! The token ledger: supply, balances, allowances, the pause switch and the
//! blacklist.
//!
//! Every operation names the account that invokes it, `caller`; the host has
//! authenticated it before the ledger is reached. An operation that fails
//! leaves the ledger as it was.

use vstd::prelude::*;
use crate::account::{AccountId, Grant};
use crate::store::{Table, entries_map};
use crate::tally::{held, total, lemma_total_empty, lemma_total_insert, lemma_total_bounds_entry,
    lemma_total_bounds_pair};

verus! {

/// An amount of tokens.
pub type Balance = u128;

/// The supply that [`Token::default`] creates.
pub const DEFAULT_SUPPLY: Balance = 1000000;

/// Why a ledger operation was refused.
#[derive(Debug, Clone, Copy, PartialEq, Eq, Structural)]
pub enum Error {
    InsufficientBalance,
    InsufficientAllowance,
    Paused,
    Blacklisted,
    Unauthorized,
}

/// Notice of tokens moving; `from` is absent where they were created, `to`
/// where they were destroyed.
#[derive(Debug, Clone, Copy, PartialEq, Eq)]
pub struct Transfer {
    pub from: Option<AccountId>,
    pub to: Option<AccountId>,
    pub value: Balance,
}

/// Notice of an allowance being set.
#[derive(Debug, Clone, Copy, PartialEq, Eq)]
pub struct Approval {
    pub owner: AccountId,
    pub spender: AccountId,
    pub value: Balance,
}

/// Notice of tokens being destroyed.
#[derive(Debug, Clone, Copy, PartialEq, Eq)]
pub struct Burn {
    pub from: AccountId,
    pub value: Balance,
}

/// Notice of the ledger being paused.
#[derive(Debug, Clone, Copy, PartialEq, Eq)]
pub struct Paused {
    pub by: AccountId,
}

/// Notice of the ledger being resumed.
#[derive(Debug, Clone, Copy, PartialEq, Eq)]
pub struct Unpaused {
    pub by: AccountId,
}

/// Notice of an account being barred from transfers.
#[derive(Debug, Clone, Copy, PartialEq, Eq)]
pub struct Blacklisted {
    pub account: AccountId,
}

/// Notice of an account being admitted to transfers again.
#[derive(Debug, Clone, Copy, PartialEq, Eq)]
pub struct RemovedFromBlacklist {
    pub account: AccountId,
}

/// `a + b`, held at the largest amount where the sum would pass it.
pub open spec fn sat_add(a: Balance, b: Balance) -> Balance {
    if a + b > u128::MAX {
        u128::MAX
    } else {
        (a + b) as u128
    }
}

/// `a - b`, held at zero where the difference would fall below it.
pub open spec fn sat_sub(a: Balance, b: Balance) -> Balance {
    if a < b {
        0
    } else {
        (a - b) as u128
    }
}

/// The accounts that a map of flags marks.
pub open spec fn flagged(flags: Map<AccountId, bool>) -> Set<AccountId> {
    Set::new(|who: AccountId| flags.contains_key(who) && flags[who])
}

/// What a ledger is, as a mathematical value. An account without an entry
/// holds nothing, and a pair without an entry allows nothing.
#[verifier::ext_equal]
pub struct LedgerState {
    pub total_supply: Balance,
    pub balances: Map<AccountId, Balance>,
    pub allowances: Map<Grant, Balance>,
    pub owner: AccountId,
    pub paused: bool,
    pub blacklist: Set<AccountId>,
}

impl LedgerState {
    /// The ledger holds finitely many balance entries, as every ledger that
    /// was built by [`Token`]'s operations does.
    pub open spec fn finite(self) -> bool {
        self.balances.dom().finite()
    }

    pub open spec fn balance_of(self, who: AccountId) -> Balance {
        held(self.balances, who)
    }

    pub open spec fn allowance(self, owner: AccountId, spender: AccountId) -> Balance {
        held(self.allowances, Grant { owner, spender })
    }

    pub open spec fn is_blacklisted(self, who: AccountId) -> bool {
        self.blacklist.contains(who)
    }

    /// The tokens that accounts hold, added up.
    pub open spec fn circulating(self) -> nat {
        total(self.balances)
    }

    /// Conservation: the accounts hold the supply, no more and no less.
    pub open spec fn backed(self) -> bool {
        self.circulating() == self.total_supply
    }

    /// The ledger right after its creation by `caller`.
    pub open spec fn genesis(caller: AccountId, initial_supply: Balance) -> LedgerState {
        LedgerState {
            total_supply: initial_supply,
            balances: Map::empty().insert(caller, initial_supply),
            allowances: Map::empty(),
            owner: caller,
            paused: false,
            blacklist: Set::empty(),
        }
    }

    pub open spec fn with_balance(self, who: AccountId, amount: Balance) -> LedgerState {
        LedgerState { balances: self.balances.insert(who, amount), ..self }
    }

    pub open spec fn with_allowance(
        self,
        owner: AccountId,
        spender: AccountId,
        amount: Balance,
    ) -> LedgerState {
        LedgerState { allowances: self.allowances.insert(Grant { owner, spender }, amount), ..self }
    }

    /// `value` taken from `from` and then given to `to`. Meant for
    /// `value <= self.balance_of(from)`.
    pub open spec fn moved(self, from: AccountId, to: AccountId, value: Balance) -> LedgerState {
        let debited = self.with_balance(from, sat_sub(self.balance_of(from), value));
        debited.with_balance(to, sat_add(debited.balance_of(to), value))
    }

    /// Why moving `value` from `from` to `to` is refused, if it is: the pause
    /// switch is looked at first, then the blacklist, then the balance.
    pub open spec fn transfer_refusal(
        self,
        from: AccountId,
        to: AccountId,
        value: Balance,
    ) -> Option<Error> {
        if self.paused {
            Some(Error::Paused)
        } else if self.is_blacklisted(from) || self.is_blacklisted(to) {
            Some(Error::Blacklisted)
        } else if self.balance_of(from) < value {
            Some(Error::InsufficientBalance)
        } else {
            None
        }
    }

    /// Why `caller` moving `value` from `from` to `to` on `from`'s behalf is
    /// refused, if it is: the allowance is looked at before anything else.
    pub open spec fn transfer_from_refusal(
        self,
        caller: AccountId,
        from: AccountId,
        to: AccountId,
        value: Balance,
    ) -> Option<Error> {
        if self.allowance(from, caller) < value {
            Some(Error::InsufficientAllowance)
        } else {
            self.transfer_refusal(from, to, value)
        }
    }

    /// The ledger after `caller` asked to move `value` to `to`.
    pub open spec fn transfer(
        self,
        caller: AccountId,
        to: AccountId,
        value: Balance,
    ) -> LedgerState {
        if self.transfer_refusal(caller, to, value) is None {
            self.moved(caller, to, value)
        } else {
            self
        }
    }

    /// The ledger after `caller` asked to move `value` from `from` to `to`
    /// against its allowance.
    pub open spec fn transfer_from(
        self,
        caller: AccountId,
        from: AccountId,
        to: AccountId,
        value: Balance,
    ) -> LedgerState {
        if self.transfer_from_refusal(caller, from, to, value) is None {
            self.moved(from, to, value).with_allowance(
                from,
                caller,
                sat_sub(self.allowance(from, caller), value),
            )
        } else {
            self
        }
    }

    /// The ledger after `caller` created `value` new tokens for itself.
    pub open spec fn mint(self, caller: AccountId, value: Balance) -> LedgerState {
        LedgerState {
            total_supply: sat_add(self.total_supply, value),
            ..self.with_balance(caller, sat_add(self.balance_of(caller), value))
        }
    }

    /// The ledger after `caller` asked to destroy `value` of its tokens.
    pub open spec fn burn(self, caller: AccountId, value: Balance) -> LedgerState {
        if self.balance_of(caller) < value {
            self
        } else {
            LedgerState {
                total_supply: sat_sub(self.total_supply, value),
                ..self.with_balance(caller, sat_sub(self.balance_of(caller), value))
            }
        }
    }

    /// The ledger after `caller` set what `spender` may move out of its
    /// balance.
    pub open spec fn approve(
        self,
        caller: AccountId,
        spender: AccountId,
        value: Balance,
    ) -> LedgerState {
        self.with_allowance(caller, spender, value)
    }

    /// The ledger after `caller` raised what `spender` may move.
    pub open spec fn increase_allowance(
        self,
        caller: AccountId,
        spender: AccountId,
        delta_value: Balance,
    ) -> LedgerState {
        self.with_allowance(caller, spender, sat_add(self.allowance(caller, spender), delta_value))
    }

    /// The ledger after `caller` asked to lower what `spender` may move.
    pub open spec fn decrease_allowance(
        self,
        caller: AccountId,
        spender: AccountId,
        delta_value: Balance,
    ) -> LedgerState {
        if self.allowance(caller, spender) < delta_value {
            self
        } else {
            self.with_allowance(caller, spender, sat_sub(self.allowance(caller, spender), delta_value))
        }
    }

    /// Why an operation kept for the owner is refused to `caller`, if it is.
    pub open spec fn owner_refusal(self, caller: AccountId) -> Option<Error> {
        if caller == self.owner {
            None
        } else {
            Some(Error::Unauthorized)
        }
    }

    /// The ledger after `caller` asked to pause it.
    pub open spec fn pause(self, caller: AccountId) -> LedgerState {
        if caller == self.owner {
            LedgerState { paused: true, ..self }
        } else {
            self
        }
    }

    /// The ledger after `caller` asked to resume it.
    pub open spec fn unpause(self, caller: AccountId) -> LedgerState {
        if caller == self.owner {
            LedgerState { paused: false, ..self }
        } else {
            self
        }
    }

    /// The ledger after `caller` asked to bar `account`.
    pub open spec fn blacklist_address(self, caller: AccountId, account: AccountId) -> LedgerState {
        if caller == self.owner {
            LedgerState { blacklist: self.blacklist.insert(account), ..self }
        } else {
            self
        }
    }

    /// The ledger after `caller` asked to admit `account` again.
    pub open spec fn remove_from_blacklist(
        self,
        caller: AccountId,
        account: AccountId,
    ) -> LedgerState {
        if caller == self.owner {
            LedgerState { blacklist: self.blacklist.remove(account), ..self }
        } else {
            self
        }
    }

    /// The transfers of `list` made one after the other on `caller`'s
    /// account, up to the first that is refused: the ledger they leave, and
    /// that refusal.
    pub open spec fn batch_transfer(
        self,
        caller: AccountId,
        list: Seq<(AccountId, Balance)>,
    ) -> (LedgerState, Option<Error>)
        decreases list.len(),
    {
        if list.len() == 0 {
            (self, None)
        } else {
            match self.transfer_refusal(caller, list[0].0, list[0].1) {
                Some(e) => (self, Some(e)),
                None => self.moved(caller, list[0].0, list[0].1).batch_transfer(
                    caller,
                    list.skip(1),
                ),
            }
        }
    }
}

/// A request to the ledger, without the account that makes it.
pub enum Operation {
    Transfer { to: AccountId, value: Balance },
    Approve { spender: AccountId, value: Balance },
    TransferFrom { from: AccountId, to: AccountId, value: Balance },
    Mint { value: Balance },
    Burn { value: Balance },
    IncreaseAllowance { spender: AccountId, delta_value: Balance },
    DecreaseAllowance { spender: AccountId, delta_value: Balance },
    Pause,
    Unpause,
    BlacklistAddress { account: AccountId },
    RemoveFromBlacklist { account: AccountId },
    BatchTransfer { recipients: Seq<(AccountId, Balance)> },
}

/// A request together with the account that makes it.
pub struct Call {
    pub caller: AccountId,
    pub operation: Operation,
}

impl LedgerState {
    /// The ledger after `caller` made the request `operation`.
    pub open spec fn step(self, caller: AccountId, operation: Operation) -> LedgerState {
        match operation {
            Operation::Transfer { to, value } => self.transfer(caller, to, value),
            Operation::Approve { spender, value } => self.approve(caller, spender, value),
            Operation::TransferFrom { from, to, value } => self.transfer_from(caller, from, to, value),
            Operation::Mint { value } => self.mint(caller, value),
            Operation::Burn { value } => self.burn(caller, value),
            Operation::IncreaseAllowance { spender, delta_value } => self.increase_allowance(
                caller,
                spender,
                delta_value,
            ),
            Operation::DecreaseAllowance { spender, delta_value } => self.decrease_allowance(
                caller,
                spender,
                delta_value,
            ),
            Operation::Pause => self.pause(caller),
            Operation::Unpause => self.unpause(caller),
            Operation::BlacklistAddress { account } => self.blacklist_address(caller, account),
            Operation::RemoveFromBlacklist { account } => self.remove_from_blacklist(caller, account),
            Operation::BatchTransfer { recipients } => self.batch_transfer(caller, recipients).0,
        }
    }

    /// The ledger after the requests of `calls` were made in order.
    pub open spec fn run(self, calls: Seq<Call>) -> LedgerState
        decreases calls.len(),
    {
        if calls.len() == 0 {
            self
        } else {
            self.run(calls.drop_last()).step(calls.last().caller, calls.last().operation)
        }
    }
}

/// The result of an operation that is refused for `refusal`, or else done.
pub open spec fn outcome(refusal: Option<Error>) -> Result<(), Error> {
    match refusal {
        Some(e) => Err(e),
        None => Ok(()),
    }
}

/// Moving tokens between accounts of a finite ledger leaves their sum as it
/// was, unless the receiving balance is held at the largest amount.
pub proof fn lemma_moved_circulating(s: LedgerState, from: AccountId, to: AccountId, value: Balance)
    requires
        s.finite(),
        value <= s.balance_of(from),
    ensures
        s.moved(from, to, value).finite(),
        s.moved(from, to, value).total_supply == s.total_supply,
        from == to || s.balance_of(to) + value <= u128::MAX ==> s.moved(
            from,
            to,
            value,
        ).circulating() == s.circulating(),
        s.circulating() <= u128::MAX ==> s.moved(from, to, value).circulating() == s.circulating(),
{
    let debited = s.with_balance(from, sat_sub(s.balance_of(from), value));
    lemma_total_insert(s.balances, from, sat_sub(s.balance_of(from), value));
    lemma_total_insert(debited.balances, to, sat_add(debited.balance_of(to), value));
    if from != to {
        lemma_total_bounds_pair(s.balances, from, to);
    } else {
        lemma_total_bounds_entry(s.balances, from);
    }
}

/// A ledger written out as plain values, for keeping outside the program.
/// Each list holds the entries of one table; where a key occurs more than
/// once, its last entry counts.
#[derive(Debug, Clone)]
pub struct LedgerRecord {
    pub total_supply: Balance,
    pub balances: Vec<(AccountId, Balance)>,
    pub allowances: Vec<(Grant, Balance)>,
    pub owner: AccountId,
    pub paused: bool,
    pub blacklist: Vec<(AccountId, bool)>,
}

impl LedgerRecord {
    /// The ledger that the record stands for.
    pub open spec fn state(&self) -> LedgerState {
        LedgerState {
            total_supply: self.total_supply,
            balances: entries_map(self.balances@),
            allowances: entries_map(self.allowances@),
            owner: self.owner,
            paused: self.paused,
            blacklist: flagged(entries_map(self.blacklist@)),
        }
    }
}

/// A fungible-token ledger.
pub struct Token {
    total_supply: Balance,
    balances: Table<AccountId, Balance>,
    allowances: Table<Grant, Balance>,
    owner: AccountId,
    paused: bool,
    blacklist: Table<AccountId, bool>,
}

impl View for Token {
    type V = LedgerState;

    closed spec fn view(&self) -> LedgerState {
        LedgerState {
            total_supply: self.total_supply,
            balances: self.balances@,
            allowances: self.allowances@,
            owner: self.owner,
            paused: self.paused,
            blacklist: flagged(self.blacklist@),
        }
    }
}

impl Token {
    /// A ledger holds finitely many balance entries.
    pub proof fn lemma_finite(&self)
        ensures
            self@.finite(),
    {
        self.balances.lemma_finite();
    }

    /// Creates a ledger that `caller` owns, with the whole of
    /// `initial_supply` credited to `caller`.
    pub fn new(caller: AccountId, initial_supply: Balance) -> (token: Token)
        ensures
            token@ == LedgerState::genesis(caller, initial_supply),
            token@.backed(),
    {
        let mut balances: Table<AccountId, Balance> = Table::new();
        balances.insert(caller, initial_supply);
        proof {
            lemma_total_empty::<AccountId>();
            lemma_total_insert(Map::<AccountId, Balance>::empty(), caller, initial_supply);
        }
        Token {
            total_supply: initial_supply,
            balances,
            allowances: Table::new(),
            owner: caller,
            paused: false,
            blacklist: Table::new(),
        }
    }

    /// The ledger that `record` stands for.
    pub fn from_record(record: &LedgerRecord) -> (token: Token)
        ensures
            token@ == record.state(),
    {
        Token {
            total_supply: record.total_supply,
            balances: Table::from_entries(&record.balances),
            allowances: Table::from_entries(&record.allowances),
            owner: record.owner,
            paused: record.paused,
            blacklist: Table::from_entries(&record.blacklist),
        }
    }

    /// The ledger written out as plain values.
    pub fn to_record(&self) -> (record: LedgerRecord)
        ensures
            record.state() == self@,
    {
        LedgerRecord {
            total_supply: self.total_supply,
            balances: self.balances.entries(),
            allowances: self.allowances.entries(),
            owner: self.owner,
            paused: self.paused,
            blacklist: self.blacklist.entries(),
        }
    }

    /// Creates a ledger that `caller` owns, with a supply of one million.
    pub fn default(caller: AccountId) -> (token: Token)
        ensures
            token@ == LedgerState::genesis(caller, DEFAULT_SUPPLY),
            token@.backed(),
    {
        Token::new(caller, DEFAULT_SUPPLY)
    }

    /// The number of tokens in existence.
    pub fn total_supply(&self) -> (supply: Balance)
        ensures
            supply == self@.total_supply,
    {
        self.total_supply
    }

    /// What `owner` holds; nothing where it has no entry.
    pub fn balance_of(&self, owner: AccountId) -> (balance: Balance)
        ensures
            balance == self@.balance_of(owner),
    {
        match self.balances.get(&owner) {
            Some(balance) => balance,
            None => 0,
        }
    }

    /// What `spender` may still move out of `owner`'s balance.
    pub fn allowance(&self, owner: AccountId, spender: AccountId) -> (allowance: Balance)
        ensures
            allowance == self@.allowance(owner, spender),
    {
        match self.allowances.get(&Grant { owner, spender }) {
            Some(allowance) => allowance,
            None => 0,
        }
    }

    /// Moves `value` from `caller` to `to`.
    ///
    /// Refused with `Paused` while the ledger is paused, else with
    /// `Blacklisted` if either party is blacklisted, else with
    /// `InsufficientBalance` if `caller` holds less than `value`.
    pub fn transfer(
        &mut self,
        caller: AccountId,
        to: AccountId,
        value: Balance,
    ) -> (res: Result<(), Error>)
        ensures
            res == outcome(old(self)@.transfer_refusal(caller, to, value)),
            final(self)@ == old(self)@.transfer(caller, to, value),
            res is Err ==> final(self)@ == old(self)@,
            res is Ok && caller != to ==> final(self)@.balance_of(caller) + value == old(self)@.balance_of(caller),
            final(self)@.total_supply == old(self)@.total_supply,
            old(self)@.backed() ==> final(self)@.backed() && final(self)@.circulating() == old(self)@.circulating(),
    {
        self.transfer_from_to(&caller, &to, value)
    }

    /// Sets what `spender` may move out of `caller`'s balance to `value`,
    /// whatever it was before.
    pub fn approve(
        &mut self,
        caller: AccountId,
        spender: AccountId,
        value: Balance,
    ) -> (res: Result<(), Error>)
        ensures
            res is Ok,
            final(self)@ == old(self)@.approve(caller, spender, value),
            final(self)@.allowance(caller, spender) == value,
    {
        self.allowances.insert(Grant { owner: caller, spender }, value);
        Ok(())
    }

    /// Moves `value` from `from` to `to` on behalf of `from`, and takes
    /// `value` off what `caller` may still move.
    ///
    /// Refused with `InsufficientAllowance` if `caller` is allowed less than
    /// `value`; after that, refused as a transfer from `from` to `to` is.
    pub fn transfer_from(
        &mut self,
        caller: AccountId,
        from: AccountId,
        to: AccountId,
        value: Balance,
    ) -> (res: Result<(), Error>)
        ensures
            res == outcome(old(self)@.transfer_from_refusal(caller, from, to, value)),
            final(self)@ == old(self)@.transfer_from(caller, from, to, value),
            res is Err ==> final(self)@ == old(self)@,
            res is Ok ==> final(self)@.allowance(from, caller) + value == old(self)@.allowance(
                from,
                caller,
            ),
            res is Ok && from != to ==> final(self)@.balance_of(from) + value == old(self)@.balance_of(from),
            final(self)@.total_supply == old(self)@.total_supply,
            old(self)@.backed() ==> final(self)@.backed() && final(self)@.circulating() == old(self)@.circulating(),
    {
        let allowance = self.allowance(from, caller);
        if allowance < value {
            return Err(Error::InsufficientAllowance);
        }
        match self.transfer_from_to(&from, &to, value) {
            Ok(()) => {},
            Err(e) => {
                return Err(e);
            },
        }
        self.allowances.insert(Grant { owner: from, spender: caller }, allowance.saturating_sub(value));
        Ok(())
    }

    /// Creates `value` new tokens and credits them to `caller`. Any account
    /// may mint. Both the balance and the supply are held at the largest
    /// amount where the sum would pass it.
    pub fn mint(&mut self, caller: AccountId, value: Balance) -> (res: Result<(), Error>)
        ensures
            res is Ok,
            final(self)@ == old(self)@.mint(caller, value),
            old(self)@.backed() && old(self)@.total_supply + value <= u128::MAX ==> final(self)@.backed(),
    {
        proof {
            self.lemma_finite();
            lemma_total_insert(
                self@.balances,
                caller,
                sat_add(self@.balance_of(caller), value),
            );
            lemma_total_bounds_entry(self@.balances, caller);
        }
        let balance = self.balance_of(caller);
        self.balances.insert(caller, balance.saturating_add(value));
        self.total_supply = self.total_supply.saturating_add(value);
        Ok(())
    }

    /// Destroys `value` of `caller`'s tokens.
    ///
    /// Refused with `InsufficientBalance` if `caller` holds less than
    /// `value`.
    pub fn burn(&mut self, caller: AccountId, value: Balance) -> (res: Result<(), Error>)
        ensures
            res == (if old(self)@.balance_of(caller) < value {
                Err(Error::InsufficientBalance)
            } else {
                Ok(())
            }),
            final(self)@ == old(self)@.burn(caller, value),
            res is Ok ==> final(self)@.balance_of(caller) + value == old(self)@.balance_of(caller),
            old(self)@.backed() ==> final(self)@.backed(),
    {
        proof {
            self.lemma_finite();
            lemma_total_insert(
                self@.balances,
                caller,
                sat_sub(self@.balance_of(caller), value),
            );
            lemma_total_bounds_entry(self@.balances, caller);
        }
        let balance = self.balance_of(caller);
        if balance < value {
            return Err(Error::InsufficientBalance);
        }
        self.balances.insert(caller, balance.saturating_sub(value));
        self.total_supply = self.total_supply.saturating_sub(value);
        Ok(())
    }

    /// Raises what `spender` may move out of `caller`'s balance by
    /// `delta_value`, held at the largest amount.
    pub fn increase_allowance(
        &mut self,
        caller: AccountId,
        spender: AccountId,
        delta_value: Balance,
    ) -> (res: Result<(), Error>)
        ensures
            res is Ok,
            final(self)@ == old(self)@.increase_allowance(caller, spender, delta_value),
            final(self)@.allowance(caller, spender) == sat_add(
                old(self)@.allowance(caller, spender),
                delta_value,
            ),
    {
        let current = self.allowance(caller, spender);
        self.allowances.insert(
            Grant { owner: caller, spender },
            current.saturating_add(delta_value),
        );
        Ok(())
    }

    /// Lowers what `spender` may move out of `caller`'s balance by
    /// `delta_value`.
    ///
    /// Refused with `InsufficientAllowance` if less than `delta_value` is
    /// allowed.
    pub fn decrease_allowance(
        &mut self,
        caller: AccountId,
        spender: AccountId,
        delta_value: Balance,
    ) -> (res: Result<(), Error>)
        ensures
            res == (if old(self)@.allowance(caller, spender) < delta_value {
                Err(Error::InsufficientAllowance)
            } else {
                Ok(())
            }),
            final(self)@ == old(self)@.decrease_allowance(caller, spender, delta_value),
            res is Err ==> final(self)@ == old(self)@,
            res is Ok ==> final(self)@.allowance(caller, spender) + delta_value == old(
                self)@.allowance(caller, spender),
    {
        let current = self.allowance(caller, spender);
        if current < delta_value {
            return Err(Error::InsufficientAllowance);
        }
        self.allowances.insert(
            Grant { owner: caller, spender },
            current.saturating_sub(delta_value),
        );
        Ok(())
    }

    /// Pauses the ledger. Only the owner may.
    pub fn pause(&mut self, caller: AccountId) -> (res: Result<(), Error>)
        ensures
            res == outcome(old(self)@.owner_refusal(caller)),
            final(self)@ == old(self)@.pause(caller),
            res is Ok ==> final(self)@.paused,
            res is Err ==> final(self)@ == old(self)@,
    {
        if caller != self.owner {
            return Err(Error::Unauthorized);
        }
        self.paused = true;
        Ok(())
    }

    /// Resumes the ledger. Only the owner may.
    pub fn unpause(&mut self, caller: AccountId) -> (res: Result<(), Error>)
        ensures
            res == outcome(old(self)@.owner_refusal(caller)),
            final(self)@ == old(self)@.unpause(caller),
            res is Ok ==> !final(self)@.paused,
            res is Err ==> final(self)@ == old(self)@,
    {
        if caller != self.owner {
            return Err(Error::Unauthorized);
        }
        self.paused = false;
        Ok(())
    }

    /// Whether the ledger is paused.
    pub fn is_paused(&self) -> (paused: bool)
        ensures
            paused == self@.paused,
    {
        self.paused
    }

    /// Bars `account` from sending and receiving. Only the owner may.
    pub fn blacklist_address(
        &mut self,
        caller: AccountId,
        account: AccountId,
    ) -> (res: Result<(), Error>)
        ensures
            res == outcome(old(self)@.owner_refusal(caller)),
            final(self)@ == old(self)@.blacklist_address(caller, account),
            res is Ok ==> final(self)@.is_blacklisted(account),
            res is Err ==> final(self)@ == old(self)@,
    {
        if caller != self.owner {
            return Err(Error::Unauthorized);
        }
        self.blacklist.insert(account, true);
        Ok(())
    }

    /// Admits `account` to sending and receiving again. Only the owner may.
    pub fn remove_from_blacklist(
        &mut self,
        caller: AccountId,
        account: AccountId,
    ) -> (res: Result<(), Error>)
        ensures
            res == outcome(old(self)@.owner_refusal(caller)),
            final(self)@ == old(self)@.remove_from_blacklist(caller, account),
            res is Ok ==> !final(self)@.is_blacklisted(account),
            res is Err ==> final(self)@ == old(self)@,
    {
        if caller != self.owner {
            return Err(Error::Unauthorized);
        }
        self.blacklist.remove(&account);
        Ok(())
    }

    /// Whether `account` is barred from transfers.
    pub fn is_blacklisted(&self, account: AccountId) -> (barred: bool)
        ensures
            barred == self@.is_blacklisted(account),
    {
        match self.blacklist.get(&account) {
            Some(barred) => barred,
            None => false,
        }
    }

    /// Makes the transfers of `recipients` from `caller`'s account, in order,
    /// and stops at the first that is refused. The transfers made before it
    /// stay made.
    pub fn batch_transfer(
        &mut self,
        caller: AccountId,
        recipients: Vec<(AccountId, Balance)>,
    ) -> (res: Result<(), Error>)
        ensures
            res == outcome(old(self)@.batch_transfer(caller, recipients@).1),
            final(self)@ == old(self)@.batch_transfer(caller, recipients@).0,
            final(self)@.total_supply == old(self)@.total_supply,
            old(self)@.backed() ==> final(self)@.backed() && final(self)@.circulating() == old(self)@.circulating(),
    {
        let mut i: usize = 0;
        assert(recipients@.skip(0) =~= recipients@);
        while i < recipients.len()
            invariant
                i <= recipients@.len(),
                self@.batch_transfer(caller, recipients@.skip(i as int)) == old(self)@.batch_transfer(caller, recipients@),
                self@.total_supply == old(self)@.total_supply,
                old(self)@.backed() ==> self@.backed() && self@.circulating() == old(self)@.circulating(),
            decreases recipients@.len() - i,
        {
            let (to, value) = recipients[i];
            proof {
                let rest = recipients@.skip(i as int);
                assert(rest[0] == recipients@[i as int]);
                assert(rest.skip(1) =~= recipients@.skip(i + 1));
            }
            match self.transfer(caller, to, value) {
                Ok(()) => {},
                Err(e) => {
                    return Err(e);
                },
            }
            i += 1;
        }
        Ok(())
    }

    /// The account that may pause the ledger and edit the blacklist.
    pub fn owner(&self) -> (owner: AccountId)
        ensures
            owner == self@.owner,
    {
        self.owner
    }

    /// Moves `value` from `from` to `to`, unless the pause switch, the
    /// blacklist or the balance of `from` stands against it.
    fn transfer_from_to(
        &mut self,
        from: &AccountId,
        to: &AccountId,
        value: Balance,
    ) -> (res: Result<(), Error>)
        ensures
            res == outcome(old(self)@.transfer_refusal(*from, *to, value)),
            res is Ok ==> final(self)@ == old(self)@.moved(*from, *to, value),
            res is Err ==> final(self)@ == old(self)@,
            res is Ok && *from != *to ==> final(self)@.balance_of(*from) + value == old(self)@.balance_of(*from),
            final(self)@.total_supply == old(self)@.total_supply,
            old(self)@.backed() ==> final(self)@.backed() && final(self)@.circulating() == old(self)@.circulating(),
    {
        if self.paused {
            return Err(Error::Paused);
        }
        if self.is_blacklisted(*from) || self.is_blacklisted(*to) {
            return Err(Error::Blacklisted);
        }
        let from_balance = self.balance_of(*from);
        if from_balance < value {
            return Err(Error::InsufficientBalance);
        }
        proof {
            self.lemma_finite();
            lemma_moved_circulating(self@, *from, *to, value);
        }
        self.balances.insert(*from, from_balance.saturating_sub(value));
        let to_balance = self.balance_of(*to);
        self.balances.insert(*to, to_balance.saturating_add(value));
        Ok(())
    }
}

} // verus!
