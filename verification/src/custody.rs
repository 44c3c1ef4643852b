//! The value-custody model: an account book of plain balances, standing for
//! the external ledger the protocol delegates all fund movement to. Every
//! movement is all-or-nothing — a refused movement changes no balance.

use vstd::prelude::*;

use crate::errors::ErrorCode;

verus! {

/// The ledger of party balances, one account per registered identity. An
/// identity is its index in the book.
pub struct AccountBook {
    pub balances: Vec<u64>,
}

impl View for AccountBook {
    type V = Seq<u64>;

    open spec fn view(&self) -> Seq<u64> {
        self.balances@
    }
}

impl AccountBook {
    /// An empty book: no account registered yet.
    pub fn new() -> (r: AccountBook)
        ensures
            r@ =~= Seq::<u64>::empty(),
    {
        AccountBook { balances: Vec::new() }
    }

    /// Register a fresh account with an initial balance; its identity is the
    /// next free index.
    pub fn register(&mut self, initial: u64) -> (id: usize)
        ensures
            id == old(self)@.len(),
            final(self)@ == old(self)@.push(initial),
    {
        let id = self.balances.len();
        self.balances.push(initial);
        id
    }

    /// The balance of an account, or nothing for an unregistered identity.
    pub fn balance_of(&self, id: usize) -> (r: Option<u64>)
        ensures
            id < self@.len() ==> r == Some(self@[id as int]),
            id >= self@.len() ==> r is None,
    {
        if id < self.balances.len() {
            Some(self.balances[id])
        } else {
            None
        }
    }

    /// Whether a deposit of `amount` into `id` would be accepted: the
    /// account exists and its balance would not overflow.
    pub fn can_deposit(&self, id: usize, amount: u64) -> (r: bool)
        ensures
            r == (id < self@.len() && self@[id as int] + amount <= u64::MAX),
    {
        id < self.balances.len() && amount <= u64::MAX - self.balances[id]
    }

    /// Move `amount` out of an account whose cover was already checked.
    pub(crate) fn debit(&mut self, id: usize, amount: u64)
        requires
            id < old(self)@.len(),
            amount <= old(self)@[id as int],
        ensures
            final(self)@ == old(self)@.update(id as int, (old(self)@[id as int] - amount) as u64),
    {
        let b = self.balances[id];
        self.balances[id] = b - amount;
    }

    /// Move `amount` into an account that was already checked to accept it.
    pub(crate) fn credit(&mut self, id: usize, amount: u64)
        requires
            id < old(self)@.len(),
            old(self)@[id as int] + amount <= u64::MAX,
        ensures
            final(self)@ == old(self)@.update(id as int, (old(self)@[id as int] + amount) as u64),
    {
        let b = self.balances[id];
        self.balances[id] = b + amount;
    }

    /// Withdraw `amount` from an account: refused, with no balance changed,
    /// for an unregistered identity or an uncovered amount.
    pub fn withdraw(&mut self, id: usize, amount: u64) -> (r: Result<(), ErrorCode>)
        ensures
            id >= old(self)@.len() ==> r == Err::<(), ErrorCode>(ErrorCode::UnknownAccount)
                && *final(self) == *old(self),
            id < old(self)@.len() && old(self)@[id as int] < amount ==> r == Err::<(),
            ErrorCode>(ErrorCode::InsufficientFunds) && *final(self) == *old(self),
            id < old(self)@.len() && old(self)@[id as int] >= amount ==> r is Ok && final(self)@
                == old(self)@.update(id as int, (old(self)@[id as int] - amount) as u64),
    {
        if id >= self.balances.len() {
            return Err(ErrorCode::UnknownAccount);
        }
        if self.balances[id] < amount {
            return Err(ErrorCode::InsufficientFunds);
        }
        self.debit(id, amount);
        Ok(())
    }

    /// Deposit `amount` into an account: refused, with no balance changed,
    /// for an unregistered identity or an overflowing balance.
    pub fn deposit(&mut self, id: usize, amount: u64) -> (r: Result<(), ErrorCode>)
        ensures
            id >= old(self)@.len() ==> r == Err::<(), ErrorCode>(ErrorCode::UnknownAccount)
                && *final(self) == *old(self),
            id < old(self)@.len() && old(self)@[id as int] + amount > u64::MAX ==> r == Err::<(),
            ErrorCode>(ErrorCode::BalanceOverflow) && *final(self) == *old(self),
            id < old(self)@.len() && old(self)@[id as int] + amount <= u64::MAX ==> r is Ok
                && final(self)@ == old(self)@.update(id as int, (old(self)@[id as int]
                + amount) as u64),
    {
        if id >= self.balances.len() {
            return Err(ErrorCode::UnknownAccount);
        }
        if amount > u64::MAX - self.balances[id] {
            return Err(ErrorCode::BalanceOverflow);
        }
        self.credit(id, amount);
        Ok(())
    }
}

} // verus!
