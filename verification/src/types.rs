//! The records the engine stores: cars, rental agreements and the fee
//! configuration.

use vstd::prelude::*;

verus! {

/// Where a car stands in its rental cycle. `Maintenance` is a reserved third
/// state: no public operation reaches it yet, it is carried as an extension
/// point.
#[derive(Clone, Copy, Debug, PartialEq, Eq, Structural)]
pub enum CarStatus {
    Available,
    Rented,
    Maintenance,
}

/// One leasable car, identified by its owner's principal.
#[derive(Clone, Copy, Debug, PartialEq, Eq, Structural)]
pub struct Car {
    /// The daily price the owner asks. Positive at creation.
    pub price_per_day: i128,
    pub car_status: CarStatus,
}

/// The terms of one active rental agreement. Exists only while the car is
/// rented.
#[derive(Clone, Copy, Debug, PartialEq, Eq, Structural)]
pub struct Rental {
    /// How many days the car was rented for. Positive.
    pub total_days_to_rent: u32,
    /// The base rent, without the fee. Positive.
    pub amount: i128,
    /// The flat platform fee snapshotted when the rental was opened.
    pub fee_applied: i128,
    /// What the renter deposited: `amount + fee_applied`.
    pub deposit_total: i128,
}

/// An entry of the rental ledger: which renter holds the car, and on what
/// terms. The ledger is keyed by the car's owner, so a car can carry at most
/// one active rental at a time.
#[derive(Clone, Copy, Debug, PartialEq, Eq, Structural)]
pub struct RentalEntry {
    /// The renter's principal.
    pub renter: u64,
    /// The agreed terms.
    pub rental: Rental,
}

/// How the platform fee is computed. Only a flat surcharge is modeled.
#[derive(Clone, Copy, Debug, PartialEq, Eq, Structural)]
pub enum FeeMode {
    Flat(i128),
}

/// The process-wide fee configuration singleton.
#[derive(Clone, Copy, Debug, PartialEq, Eq, Structural)]
pub struct FeeConfig {
    pub mode: FeeMode,
}

impl FeeConfig {
    /// The flat fee this configuration charges per rental.
    pub open spec fn spec_fee(self) -> i128 {
        match self.mode {
            FeeMode::Flat(f) => f,
        }
    }

    /// Reads the flat fee out of the configuration.
    pub fn fee(&self) -> (r: i128)
        ensures
            r == self.spec_fee(),
    {
        match self.mode {
            FeeMode::Flat(f) => f,
        }
    }
}

} // verus!
