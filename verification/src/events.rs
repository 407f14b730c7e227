//! The engine's event schema.
//!
//! Events are structured records of state changes, appended to a log that the
//! engine never reads back; a host flushes them to its notification sink.

use vstd::prelude::*;
use crate::types::CarStatus;

verus! {

/// One record of the append-only event log.
#[derive(Clone, Copy, Debug, PartialEq, Eq, Structural)]
pub enum Event {
    /// The engine was constructed with this admin and payment token.
    ContractInitialized { admin: u64, token: u64 },
    /// A car was registered at this daily price.
    CarAdded { owner: u64, price_per_day: i128 },
    /// A car was removed from the registry.
    CarRemoved { owner: u64 },
    /// The admin replaced the flat fee.
    AdminFeeSet { admin: u64, new_fee: i128 },
    /// A rental was opened on these terms.
    Rented {
        renter: u64,
        owner: u64,
        total_days_to_rent: u32,
        amount: i128,
        fee_applied: i128,
        deposit_total: i128,
    },
    /// A rented car was returned.
    CarReturned { renter: u64, owner: u64 },
    /// The admin balance rose from zero: fees are ready to withdraw.
    AdminWithdrawReady { admin: u64, fee_balance: i128 },
    /// The admin withdrew the accumulated fees.
    AdminWithdrawExecuted { admin: u64, amount: i128 },
    /// An owner may withdraw: the car is back and proceeds are pending.
    OwnerWithdrawReady { owner: u64, balance: i128, car_status: CarStatus },
    /// An owner withdrew their proceeds.
    OwnerWithdrawExecuted { owner: u64, amount: i128 },
}

} // verus!
