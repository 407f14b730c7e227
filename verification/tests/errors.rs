//! Every validation failure surfaces exactly one error kind and leaves no
//! partial state change behind.

use rent_a_car::contract::RentACarContract;
use rent_a_car::errors::Error;
use rent_a_car::token::TokenLedger;

const ADMIN: u64 = 1;
const TOKEN: u64 = 2;
const CONTRACT: u64 = 3;

fn setup() -> (RentACarContract, TokenLedger) {
    let mut engine = RentACarContract::new(CONTRACT);
    engine.__constructor(ADMIN, TOKEN).unwrap();
    (engine, TokenLedger::new())
}

#[test]
pub fn error_set_admin_fee_negative() {
    let (mut engine, _ledger) = setup();

    let err = engine.set_admin_fee(ADMIN, -1).unwrap_err();
    assert_eq!(err, Error::AmountMustBePositive);
}

#[test]
pub fn error_add_car_price_non_positive() {
    let (mut engine, _ledger) = setup();
    let owner: u64 = 10;

    let err = engine.add_car(ADMIN, owner, 0).unwrap_err();
    assert_eq!(err, Error::AmountMustBePositive);
}

#[test]
pub fn error_rental_amount_non_positive() {
    let (mut engine, mut ledger) = setup();
    let owner: u64 = 10;
    let renter: u64 = 20;

    engine.add_car(ADMIN, owner, 1000).unwrap();
    ledger.mint(renter, 1000).unwrap();

    let err = engine.rental(&mut ledger, renter, renter, owner, 1, 0).unwrap_err();
    assert_eq!(err, Error::AmountMustBePositive);
}

#[test]
pub fn error_rental_duration_zero() {
    let (mut engine, mut ledger) = setup();
    let owner: u64 = 10;
    let renter: u64 = 20;

    engine.add_car(ADMIN, owner, 1000).unwrap();
    ledger.mint(renter, 2000).unwrap();

    let err = engine.rental(&mut ledger, renter, renter, owner, 0, 1000).unwrap_err();
    assert_eq!(err, Error::RentalDurationCannotBeZero);
}

#[test]
pub fn error_rental_self_rental() {
    let (mut engine, mut ledger) = setup();
    let owner: u64 = 10;

    engine.add_car(ADMIN, owner, 1000).unwrap();
    ledger.mint(owner, 2000).unwrap();

    let err = engine.rental(&mut ledger, owner, owner, owner, 1, 1000).unwrap_err();
    assert_eq!(err, Error::SelfRentalNotAllowed);
}

#[test]
pub fn error_rental_car_not_found() {
    let (mut engine, mut ledger) = setup();
    let owner: u64 = 10; // no add_car
    let renter: u64 = 20;

    ledger.mint(renter, 2000).unwrap();

    let err = engine.rental(&mut ledger, renter, renter, owner, 1, 1000).unwrap_err();
    assert_eq!(err, Error::CarNotFound);
}

#[test]
pub fn error_rental_car_already_rented() {
    let (mut engine, mut ledger) = setup();
    let owner: u64 = 10;
    let renter1: u64 = 20;
    let renter2: u64 = 21;

    engine.add_car(ADMIN, owner, 1000).unwrap();
    engine.set_admin_fee(ADMIN, 100).unwrap();

    let deposit: i128 = 1100;
    ledger.mint(renter1, deposit).unwrap();
    engine.rental(&mut ledger, renter1, renter1, owner, 1, 1000).unwrap(); // rent first time

    ledger.mint(renter2, deposit).unwrap();
    let err = engine.rental(&mut ledger, renter2, renter2, owner, 1, 1000).unwrap_err();
    assert_eq!(err, Error::CarAlreadyRented);
}

#[test]
pub fn error_rental_insufficient_balance() {
    let (mut engine, mut ledger) = setup();
    let owner: u64 = 10;
    let renter: u64 = 20;

    engine.add_car(ADMIN, owner, 1000).unwrap();
    engine.set_admin_fee(ADMIN, 100).unwrap();

    // Mint less than amount + fee (1000 + 100 = 1100)
    ledger.mint(renter, 1099).unwrap();

    let err = engine.rental(&mut ledger, renter, renter, owner, 1, 1000).unwrap_err();
    assert_eq!(err, Error::InsufficientBalance);
}

#[test]
pub fn error_return_car_not_rented() {
    let (mut engine, _ledger) = setup();
    let owner: u64 = 10;
    let renter: u64 = 20;

    engine.add_car(ADMIN, owner, 1000).unwrap();

    let err = engine.return_car(renter, renter, owner).unwrap_err();
    assert_eq!(err, Error::CarNotRented);
}

#[test]
pub fn error_remove_car_still_rented() {
    let (mut engine, mut ledger) = setup();
    let owner: u64 = 10;
    let renter: u64 = 20;

    engine.add_car(ADMIN, owner, 1000).unwrap();
    engine.set_admin_fee(ADMIN, 100).unwrap();
    ledger.mint(renter, 1100).unwrap();
    engine.rental(&mut ledger, renter, renter, owner, 1, 1000).unwrap();

    let err = engine.remove_car(ADMIN, owner).unwrap_err();
    assert_eq!(err, Error::CarStillRented);
}

#[test]
pub fn error_remove_car_not_found() {
    let (mut engine, _ledger) = setup();
    let owner: u64 = 10; // no add_car

    let err = engine.remove_car(ADMIN, owner).unwrap_err();
    assert_eq!(err, Error::CarNotFound);
}

#[test]
pub fn error_get_car_status_not_found() {
    let (engine, _ledger) = setup();
    let owner: u64 = 10; // no add_car

    let err = engine.get_car_status(owner).unwrap_err();
    assert_eq!(err, Error::CarNotFound);
}

#[test]
pub fn error_constructor_admin_token_conflict() {
    let mut engine = RentACarContract::new(CONTRACT);

    let err = engine.__constructor(ADMIN, ADMIN).unwrap_err();
    assert_eq!(err, Error::AdminTokenConflict);
}

#[test]
pub fn error_constructor_twice() {
    let (mut engine, _ledger) = setup();

    let err = engine.__constructor(ADMIN, TOKEN).unwrap_err();
    assert_eq!(err, Error::ContractInitialized);
}

#[test]
pub fn error_not_initialized() {
    let mut engine = RentACarContract::new(CONTRACT);

    let err = engine.add_car(ADMIN, 10, 1000).unwrap_err();
    assert_eq!(err, Error::ContractNotInitialized);
    let err = engine.get_car_status(10).unwrap_err();
    assert_eq!(err, Error::ContractNotInitialized);
}

#[test]
pub fn error_remove_car_owner_balance_pending() {
    let (mut engine, mut ledger) = setup();
    let owner: u64 = 10;
    let renter: u64 = 20;

    engine.add_car(ADMIN, owner, 1000).unwrap();
    ledger.mint(renter, 1000).unwrap();
    engine.rental(&mut ledger, renter, renter, owner, 1, 1000).unwrap();
    engine.return_car(renter, renter, owner).unwrap();

    let err = engine.remove_car(ADMIN, owner).unwrap_err();
    assert_eq!(err, Error::OwnerBalancePending);
}

#[test]
pub fn error_return_car_wrong_renter() {
    let (mut engine, mut ledger) = setup();
    let owner: u64 = 10;
    let renter: u64 = 20;
    let other: u64 = 21;

    engine.add_car(ADMIN, owner, 1000).unwrap();
    ledger.mint(renter, 1000).unwrap();
    engine.rental(&mut ledger, renter, renter, owner, 1, 1000).unwrap();

    let err = engine.return_car(other, other, owner).unwrap_err();
    assert_eq!(err, Error::CarNotRented);
}
