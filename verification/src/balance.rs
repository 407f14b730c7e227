//! The engine's two accounting surfaces: one scalar platform balance and one
//! per-owner balance map. Both only ever grow through overflow-checked
//! addition and are reset to zero atomically on withdrawal.

use vstd::prelude::*;
use std::collections::HashMap;
use crate::errors::Error;
use crate::token::{balance_in, balances_wf};

verus! {

broadcast use vstd::std_specs::hash::group_hash_axioms;

/// The mathematical content of a [`BalanceLedger`].
pub ghost struct BalanceLedgerV {
    /// Accumulated platform fees not yet withdrawn.
    pub admin: int,
    /// Rent proceeds owed to each owner, not yet withdrawn.
    pub owners: Map<u64, i128>,
}

/// Custodial balances held by the engine: the platform's own fee balance and
/// each owner's pending rent proceeds.
pub struct BalanceLedger {
    admin_balance: i128,
    owner_balances: HashMap<u64, i128>,
}

impl View for BalanceLedger {
    type V = BalanceLedgerV;

    closed spec fn view(&self) -> BalanceLedgerV {
        BalanceLedgerV { admin: self.admin_balance as int, owners: self.owner_balances@ }
    }
}

impl BalanceLedger {
    /// Every balance is non-negative, and the scalar one fits its width.
    pub open spec fn wf(self) -> bool {
        &&& 0 <= self@.admin <= i128::MAX
        &&& balances_wf(self@.owners)
    }

    /// All balances start at zero.
    pub fn new() -> (r: Self)
        ensures
            r@.admin == 0,
            r@.owners == Map::<u64, i128>::empty(),
            r.wf(),
    {
        BalanceLedger { admin_balance: 0, owner_balances: HashMap::new() }
    }

    /// The platform's accumulated fee balance.
    pub fn read_admin_balance(&self) -> (r: i128)
        ensures
            r == self@.admin,
    {
        self.admin_balance
    }

    /// Overwrites the platform balance.
    pub fn write_admin_balance(&mut self, value: i128)
        requires
            value >= 0,
        ensures
            final(self)@ == (BalanceLedgerV { admin: value as int, ..old(self)@ }),
            old(self).wf() ==> final(self).wf(),
    {
        self.admin_balance = value;
    }

    /// Adds to the platform balance with a checked addition; on overflow it
    /// fails and nothing changes.
    pub fn add_admin_balance(&mut self, amount: i128) -> (r: Result<(), Error>)
        requires
            old(self).wf(),
            amount >= 0,
        ensures
            final(self).wf(),
            r == (if old(self)@.admin + amount > i128::MAX {
                Err::<(), Error>(Error::OverflowError)
            } else {
                Ok::<(), Error>(())
            }),
            r is Ok ==> final(self)@ == (BalanceLedgerV {
                admin: old(self)@.admin + amount,
                ..old(self)@
            }),
            r is Err ==> final(self)@ == old(self)@,
    {
        if self.admin_balance > i128::MAX - amount {
            return Err(Error::OverflowError);
        }
        self.admin_balance = self.admin_balance + amount;
        Ok(())
    }

    /// Atomically reads the platform balance and resets it to zero,
    /// returning the prior value.
    pub fn take_admin_balance(&mut self) -> (r: i128)
        requires
            old(self).wf(),
        ensures
            final(self).wf(),
            r == old(self)@.admin,
            final(self)@ == (BalanceLedgerV { admin: 0, ..old(self)@ }),
    {
        let amount: i128 = self.admin_balance;
        self.admin_balance = 0;
        amount
    }

    /// Whether an owner has ever had a balance stored.
    pub fn has_owner_balance(&self, owner: u64) -> (r: bool)
        ensures
            r == self@.owners.contains_key(owner),
    {
        self.owner_balances.contains_key(&owner)
    }

    /// An owner's pending proceeds: the stored balance, or zero.
    pub fn read_owner_balance(&self, owner: u64) -> (r: i128)
        ensures
            r == balance_in(self@.owners, owner),
    {
        match self.owner_balances.get(&owner) {
            Some(v) => *v,
            None => 0,
        }
    }

    /// Overwrites one owner's balance.
    pub fn write_owner_balance(&mut self, owner: u64, value: i128)
        requires
            value >= 0,
        ensures
            final(self)@ == (BalanceLedgerV {
                owners: old(self)@.owners.insert(owner, value),
                ..old(self)@
            }),
            old(self).wf() ==> final(self).wf(),
    {
        self.owner_balances.insert(owner, value);
    }

    /// Adds to one owner's balance with a checked addition; on overflow it
    /// fails and nothing changes.
    pub fn add_owner_balance(&mut self, owner: u64, amount: i128) -> (r: Result<(), Error>)
        requires
            old(self).wf(),
            amount >= 0,
        ensures
            final(self).wf(),
            r == (if balance_in(old(self)@.owners, owner) + amount > i128::MAX {
                Err::<(), Error>(Error::OverflowError)
            } else {
                Ok::<(), Error>(())
            }),
            r is Ok ==> final(self)@ == (BalanceLedgerV {
                owners: old(self)@.owners.insert(
                    owner,
                    (balance_in(old(self)@.owners, owner) + amount) as i128,
                ),
                ..old(self)@
            }),
            r is Err ==> final(self)@ == old(self)@,
    {
        let current: i128 = self.read_owner_balance(owner);
        if current > i128::MAX - amount {
            return Err(Error::OverflowError);
        }
        self.owner_balances.insert(owner, current + amount);
        Ok(())
    }

    /// Atomically reads one owner's balance and resets it to zero, returning
    /// the prior value.
    pub fn take_owner_balance(&mut self, owner: u64) -> (r: i128)
        requires
            old(self).wf(),
        ensures
            final(self).wf(),
            r == balance_in(old(self)@.owners, owner),
            final(self)@ == (BalanceLedgerV {
                owners: old(self)@.owners.insert(owner, 0),
                ..old(self)@
            }),
    {
        let amount: i128 = self.read_owner_balance(owner);
        self.owner_balances.insert(owner, 0);
        amount
    }
}

} // verus!
