//! End-to-end scenarios, the token ledger on its own, and the unit
//! conversion helper.

use rent_a_car::balance::BalanceLedger;
use rent_a_car::contract::RentACarContract;
use rent_a_car::errors::Error;
use rent_a_car::token::TokenLedger;
use rent_a_car::types::CarStatus;
use rent_a_car::xlm::to_stroops;

const ADMIN: u64 = 1;
const TOKEN: u64 = 2;
const CONTRACT: u64 = 3;

fn setup() -> (RentACarContract, TokenLedger) {
    let mut engine = RentACarContract::new(CONTRACT);
    engine.__constructor(ADMIN, TOKEN).unwrap();
    (engine, TokenLedger::new())
}

#[test]
pub fn full_rental_cycle_scenario() {
    let (mut engine, mut ledger) = setup();
    let owner: u64 = 10;
    let renter: u64 = 20;

    engine.add_car(ADMIN, owner, 1000).unwrap();
    engine.set_admin_fee(ADMIN, 100).unwrap();
    ledger.mint(renter, 1100).unwrap();

    engine.rental(&mut ledger, renter, renter, owner, 2, 1000).unwrap();
    assert_eq!(engine.get_admin_balance(), 100);
    assert_eq!(engine.get_owner_balance(owner), 1000);
    assert_eq!(engine.get_car_status(owner).unwrap(), CarStatus::Rented);

    assert_eq!(engine.withdraw_admin(&mut ledger, ADMIN).unwrap(), 100);

    engine.return_car(renter, renter, owner).unwrap();
    assert_eq!(engine.get_car_status(owner).unwrap(), CarStatus::Available);

    assert_eq!(engine.withdraw_owner(&mut ledger, owner, owner).unwrap(), 1000);
    assert_eq!(engine.withdraw_owner(&mut ledger, owner, owner).unwrap(), 0);

    // Everyone ends where the money says they should.
    assert_eq!(ledger.balance_of(renter), 0);
    assert_eq!(ledger.balance_of(ADMIN), 100);
    assert_eq!(ledger.balance_of(owner), 1000);
    assert_eq!(ledger.balance_of(CONTRACT), 0);
}

#[test]
pub fn withdraw_admin_is_idempotent() {
    let (mut engine, mut ledger) = setup();
    let owner: u64 = 10;
    let renter: u64 = 20;

    engine.add_car(ADMIN, owner, 1000).unwrap();
    engine.set_admin_fee(ADMIN, 250).unwrap();
    ledger.mint(renter, 1250).unwrap();
    engine.rental(&mut ledger, renter, renter, owner, 1, 1000).unwrap();

    // Two takes in a row: (fee, 0).
    assert_eq!(engine.withdraw_admin(&mut ledger, ADMIN).unwrap(), 250);
    assert_eq!(engine.withdraw_admin(&mut ledger, ADMIN).unwrap(), 0);
    assert_eq!(ledger.balance_of(ADMIN), 250);
}

#[test]
pub fn rental_round_trip_restores_available() {
    let (mut engine, mut ledger) = setup();
    let owner: u64 = 10;
    let renter: u64 = 20;

    engine.add_car(ADMIN, owner, 700).unwrap();
    ledger.mint(renter, 700).unwrap();

    engine.rental(&mut ledger, renter, renter, owner, 1, 700).unwrap();
    engine.return_car(renter, renter, owner).unwrap();

    assert_eq!(engine.get_car_status(owner).unwrap(), CarStatus::Available);
    assert!(!engine.has_rental(renter, owner));
}

#[test]
pub fn deposit_equation_holds_for_stored_rental() {
    let (mut engine, mut ledger) = setup();
    let owner: u64 = 10;
    let renter: u64 = 20;

    engine.add_car(ADMIN, owner, 900).unwrap();
    engine.set_admin_fee(ADMIN, 33).unwrap();
    ledger.mint(renter, 933).unwrap();
    engine.rental(&mut ledger, renter, renter, owner, 4, 900).unwrap();

    let rental = engine.read_rental(renter, owner);
    assert_eq!(rental.deposit_total, rental.amount + rental.fee_applied);
    assert_eq!(rental.deposit_total, 933);
}

#[test]
pub fn token_ledger_transfer_moves_value() {
    let mut ledger = TokenLedger::new();
    let a: u64 = 5;
    let b: u64 = 6;

    ledger.mint(a, 400).unwrap();
    ledger.transfer(a, b, 150).unwrap();

    assert_eq!(ledger.balance_of(a), 250);
    assert_eq!(ledger.balance_of(b), 150);
}

#[test]
pub fn token_ledger_transfer_insufficient() {
    let mut ledger = TokenLedger::new();
    let a: u64 = 5;
    let b: u64 = 6;

    ledger.mint(a, 100).unwrap();
    let err = ledger.transfer(a, b, 101).unwrap_err();
    assert_eq!(err, Error::InsufficientBalance);
    assert_eq!(ledger.balance_of(a), 100);
    assert_eq!(ledger.balance_of(b), 0);
}

#[test]
pub fn token_ledger_mint_negative() {
    let mut ledger = TokenLedger::new();
    let a: u64 = 5;

    let err = ledger.mint(a, -1).unwrap_err();
    assert_eq!(err, Error::AmountMustBePositive);
    assert_eq!(ledger.balance_of(a), 0);
}

#[test]
pub fn balance_ledger_take_semantics() {
    let mut balances = BalanceLedger::new();
    let owner: u64 = 10;

    assert!(!balances.has_owner_balance(owner));
    assert_eq!(balances.read_owner_balance(owner), 0);

    balances.add_owner_balance(owner, 700).unwrap();
    balances.add_owner_balance(owner, 50).unwrap();
    assert!(balances.has_owner_balance(owner));
    assert_eq!(balances.read_owner_balance(owner), 750);

    // The take reads and clears as one step; a second take finds zero.
    assert_eq!(balances.take_owner_balance(owner), 750);
    assert_eq!(balances.read_owner_balance(owner), 0);
    assert_eq!(balances.take_owner_balance(owner), 0);

    balances.add_admin_balance(120).unwrap();
    assert_eq!(balances.read_admin_balance(), 120);
    assert_eq!(balances.take_admin_balance(), 120);
    assert_eq!(balances.read_admin_balance(), 0);

    // Checked addition refuses an overflowing credit and changes nothing.
    balances.add_admin_balance(i128::MAX).unwrap();
    let err = balances.add_admin_balance(1).unwrap_err();
    assert_eq!(err, Error::OverflowError);
    assert_eq!(balances.read_admin_balance(), i128::MAX);
}

#[test]
pub fn to_stroops_exact_value() {
    assert_eq!(to_stroops(0), 0);
    assert_eq!(to_stroops(1), 10_000_000);
    assert_eq!(to_stroops(10_000), 100_000_000_000);
}
