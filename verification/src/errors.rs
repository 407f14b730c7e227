//! The error taxonomy of the engine.

use vstd::prelude::*;

verus! {

/// Why an operation was refused. Every public operation either completes or
/// returns exactly one of these; a failed operation leaves no partial state
/// change behind.
#[derive(Clone, Copy, Debug, PartialEq, Eq, Structural)]
pub enum Error {
    /// A second construction attempt on an already-constructed engine.
    ContractInitialized,
    /// An operation ran before the engine was constructed.
    ContractNotInitialized,
    /// No car record exists for the given owner.
    CarNotFound,
    /// Construction was attempted with the admin equal to the payment token.
    AdminTokenConflict,
    /// A rental was requested for zero days.
    RentalDurationCannotBeZero,
    /// A car record already exists for the given owner.
    CarAlreadyExist,
    /// An amount or price that must be positive (or a fee that must be
    /// non-negative) was not.
    AmountMustBePositive,
    /// The payer does not hold the funds an operation needs to move.
    InsufficientBalance,
    /// A renter tried to rent their own car.
    SelfRentalNotAllowed,
    /// The car is not available for rental.
    CarAlreadyRented,
    /// No payment token is recorded (reserved; construction always records one).
    TokenNotFound,
    /// No admin is recorded (reserved; construction always records one).
    AdminNotFound,
    /// A checked signed 128-bit addition would overflow.
    OverflowError,
    /// Reserved: no current operation subtracts below zero.
    UnderFlowError,
    /// The car must be returned before this operation.
    CarStillRented,
    /// The car is not currently rented (or not by this renter).
    CarNotRented,
    /// The owner still has proceeds to withdraw, so the car cannot be removed.
    OwnerBalancePending,
    /// The caller is not the principal the operation requires.
    Unauthorized,
}

} // verus!
