//! A model of the fungible-value transfer service the engine settles
//! deposits and withdrawals against: a ledger of non-negative balances with
//! `balance_of` and an atomic `transfer` that fails without partial effect.
//!
//! The engine does not own this ledger; a host hands the operations that move
//! funds a handle to it, so an operation's storage mutation and its value
//! transfer commit as one all-or-nothing unit.

use vstd::prelude::*;
use std::collections::HashMap;
use crate::errors::Error;

verus! {

broadcast use vstd::std_specs::hash::group_hash_axioms;

/// What a principal holds on a balance map: the stored value, or zero for a
/// principal that was never credited.
pub open spec fn balance_in(m: Map<u64, i128>, p: u64) -> int {
    if m.contains_key(p) {
        m[p] as int
    } else {
        0
    }
}

/// Every stored balance is non-negative.
pub open spec fn balances_wf(m: Map<u64, i128>) -> bool {
    forall|p: u64| m.contains_key(p) ==> #[trigger] m[p] >= 0
}

/// The first reason a transfer must fail, if any: a negative amount, a payer
/// short of funds, or a payee whose balance would overflow.
pub open spec fn transfer_check(m: Map<u64, i128>, from: u64, to: u64, amount: i128) -> Option<
    Error,
> {
    if amount < 0 {
        Some(Error::AmountMustBePositive)
    } else if balance_in(m, from) < amount {
        Some(Error::InsufficientBalance)
    } else if from != to && balance_in(m, to) + amount > i128::MAX {
        Some(Error::OverflowError)
    } else {
        None
    }
}

/// The ledger after a successful transfer: the amount moves from payer to
/// payee; a self-transfer leaves every balance as it was.
pub open spec fn transfer_post(m: Map<u64, i128>, from: u64, to: u64, amount: i128) -> Map<
    u64,
    i128,
> {
    if from == to {
        m
    } else {
        m.insert(from, (balance_in(m, from) - amount) as i128).insert(
            to,
            (balance_in(m, to) + amount) as i128,
        )
    }
}

/// A fungible-balance ledger: one non-negative balance per principal.
pub struct TokenLedger {
    balances: HashMap<u64, i128>,
}

impl View for TokenLedger {
    type V = Map<u64, i128>;

    closed spec fn view(&self) -> Map<u64, i128> {
        self.balances@
    }
}

impl TokenLedger {
    /// Every balance this ledger stores is non-negative.
    pub open spec fn wf(self) -> bool {
        balances_wf(self@)
    }

    /// An empty ledger: every principal holds zero.
    pub fn new() -> (r: Self)
        ensures
            r@ == Map::<u64, i128>::empty(),
            r.wf(),
    {
        TokenLedger { balances: HashMap::new() }
    }

    /// How much a principal holds.
    pub fn balance_of(&self, p: u64) -> (r: i128)
        ensures
            r == balance_in(self@, p),
    {
        match self.balances.get(&p) {
            Some(v) => *v,
            None => 0,
        }
    }

    /// Credits a principal with new value, failing on a negative amount or on
    /// signed 128-bit overflow, with no effect in either failure case.
    pub fn mint(&mut self, to: u64, amount: i128) -> (r: Result<(), Error>)
        requires
            old(self).wf(),
        ensures
            final(self).wf(),
            r == (if amount < 0 {
                Err::<(), Error>(Error::AmountMustBePositive)
            } else if balance_in(old(self)@, to) + amount > i128::MAX {
                Err::<(), Error>(Error::OverflowError)
            } else {
                Ok::<(), Error>(())
            }),
            r is Ok ==> final(self)@ == old(self)@.insert(
                to,
                (balance_in(old(self)@, to) + amount) as i128,
            ),
            r is Err ==> final(self)@ == old(self)@,
    {
        if amount < 0 {
            return Err(Error::AmountMustBePositive);
        }
        let current: i128 = self.balance_of(to);
        if current > i128::MAX - amount {
            return Err(Error::OverflowError);
        }
        self.balances.insert(to, current + amount);
        Ok(())
    }

    /// Moves value between two principals as one atomic step: either both
    /// balances change, or neither does. Fails on a negative amount, a payer
    /// short of funds, or a payee balance that would overflow.
    pub fn transfer(&mut self, from: u64, to: u64, amount: i128) -> (r: Result<(), Error>)
        requires
            old(self).wf(),
        ensures
            final(self).wf(),
            match r {
                Ok(()) => transfer_check(old(self)@, from, to, amount) is None && final(self)@
                    == transfer_post(old(self)@, from, to, amount),
                Err(e) => transfer_check(old(self)@, from, to, amount) == Some(e) && final(self)@
                    == old(self)@,
            },
    {
        if amount < 0 {
            return Err(Error::AmountMustBePositive);
        }
        let from_bal: i128 = self.balance_of(from);
        if from_bal < amount {
            return Err(Error::InsufficientBalance);
        }
        if from != to {
            let to_bal: i128 = self.balance_of(to);
            if to_bal > i128::MAX - amount {
                return Err(Error::OverflowError);
            }
            self.balances.insert(from, from_bal - amount);
            self.balances.insert(to, to_bal + amount);
        }
        Ok(())
    }
}

} // verus!
