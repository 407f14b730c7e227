//! The event log: each state change appends the record the schema promises.

use rent_a_car::contract::RentACarContract;
use rent_a_car::events::Event;
use rent_a_car::token::TokenLedger;
use rent_a_car::types::CarStatus;

const ADMIN: u64 = 1;
const TOKEN: u64 = 2;
const CONTRACT: u64 = 3;

fn setup() -> (RentACarContract, TokenLedger) {
    let mut engine = RentACarContract::new(CONTRACT);
    engine.__constructor(ADMIN, TOKEN).unwrap();
    (engine, TokenLedger::new())
}

#[test]
pub fn event_admin_fee_set() {
    let (mut engine, _ledger) = setup();

    let fee: i128 = 123;
    engine.set_admin_fee(ADMIN, fee).unwrap();

    // Check admin_fee_set exists (don't assert full history).
    let found = engine.event_log().iter().any(
        |e| matches!(e, Event::AdminFeeSet { admin: ADMIN, new_fee } if *new_fee == fee),
    );
    assert!(found, "admin_fee_set not found");
}

#[test]
pub fn event_car_added() {
    let (mut engine, _ledger) = setup();

    let owner: u64 = 10;
    let price: i128 = 1500;
    engine.add_car(ADMIN, owner, price).unwrap();

    let found_added = engine.event_log().iter().any(|e| {
        matches!(e, Event::CarAdded { owner: o, price_per_day } if *o == owner && *price_per_day == price)
    });
    assert!(found_added, "car_added not found");
}

#[test]
pub fn events_rental_includes_admin_ready_and_rented() {
    let (mut engine, mut ledger) = setup();

    let owner: u64 = 10;
    let renter: u64 = 20;
    let price: i128 = 1500;
    let fee: i128 = 100;
    let days: u32 = 3;
    let amount: i128 = 4500;
    let deposit_total = amount + fee;

    engine.add_car(ADMIN, owner, price).unwrap();
    engine.set_admin_fee(ADMIN, fee).unwrap();
    ledger.mint(renter, deposit_total).unwrap();
    engine.rental(&mut ledger, renter, renter, owner, days, amount).unwrap();

    // admin_withdraw_ready: the platform balance rose from zero by the fee.
    let found_ready = engine.event_log().iter().any(
        |e| matches!(e, Event::AdminWithdrawReady { admin: ADMIN, fee_balance } if *fee_balance == fee),
    );
    assert!(found_ready, "admin_withdraw_ready not found");

    // rented, with the full payload.
    let found_rented = engine.event_log().contains(
        &Event::Rented {
            renter,
            owner,
            total_days_to_rent: days,
            amount,
            fee_applied: fee,
            deposit_total,
        },
    );
    assert!(found_rented, "rented not found");
}

#[test]
pub fn events_return_includes_owner_ready_and_car_returned() {
    let (mut engine, mut ledger) = setup();

    let owner: u64 = 10;
    let renter: u64 = 20;
    let price: i128 = 1500;
    let fee: i128 = 100;
    let days: u32 = 2;
    let amount: i128 = 3000;
    let deposit_total = amount + fee;

    engine.add_car(ADMIN, owner, price).unwrap();
    engine.set_admin_fee(ADMIN, fee).unwrap();
    ledger.mint(renter, deposit_total).unwrap();
    engine.rental(&mut ledger, renter, renter, owner, days, amount).unwrap();
    engine.return_car(renter, renter, owner).unwrap();

    // owner_withdraw_ready must carry the pending balance and the new status.
    let found_ready = engine.event_log().contains(
        &Event::OwnerWithdrawReady { owner, balance: amount, car_status: CarStatus::Available },
    );
    assert!(found_ready, "owner_withdraw_ready not found");

    // car_returned must exist for this renter and owner.
    let found_returned = engine.event_log().contains(&Event::CarReturned { renter, owner });
    assert!(found_returned, "car_returned not found");
}

#[test]
pub fn event_contract_initialized() {
    let (engine, _ledger) = setup();

    let found = engine.event_log().contains(
        &Event::ContractInitialized { admin: ADMIN, token: TOKEN },
    );
    assert!(found, "contract_initialized not found");
}

#[test]
pub fn event_car_removed() {
    let (mut engine, _ledger) = setup();

    let owner: u64 = 10;
    engine.add_car(ADMIN, owner, 1500).unwrap();
    engine.remove_car(ADMIN, owner).unwrap();

    let found = engine.event_log().contains(&Event::CarRemoved { owner });
    assert!(found, "car_removed not found");
}

#[test]
pub fn events_withdrawals_executed() {
    let (mut engine, mut ledger) = setup();

    let owner: u64 = 10;
    let renter: u64 = 20;
    engine.add_car(ADMIN, owner, 1500).unwrap();
    engine.set_admin_fee(ADMIN, 100).unwrap();
    ledger.mint(renter, 1600).unwrap();
    engine.rental(&mut ledger, renter, renter, owner, 1, 1500).unwrap();
    engine.return_car(renter, renter, owner).unwrap();

    engine.withdraw_admin(&mut ledger, ADMIN).unwrap();
    engine.withdraw_owner(&mut ledger, owner, owner).unwrap();

    let admin_done = engine.event_log().contains(
        &Event::AdminWithdrawExecuted { admin: ADMIN, amount: 100 },
    );
    assert!(admin_done, "admin_withdraw_executed not found");

    let owner_done = engine.event_log().contains(
        &Event::OwnerWithdrawExecuted { owner, amount: 1500 },
    );
    assert!(owner_done, "owner_withdraw_executed not found");

    // A zero take executes no transfer and logs nothing new.
    let log_len = engine.event_log().len();
    assert_eq!(engine.withdraw_admin(&mut ledger, ADMIN).unwrap(), 0);
    assert_eq!(engine.event_log().len(), log_len);
}

#[test]
pub fn event_admin_fee_set_emits_correct_topics_and_data() {
    let (mut engine, _ledger) = setup();

    let admin = engine.get_admin();
    let new_fee: i128 = 123;

    engine.set_admin_fee(admin, new_fee).unwrap();

    let found = engine.event_log().iter().find(
        |e| matches!(e, Event::AdminFeeSet { admin: a, new_fee: _ } if *a == admin),
    );

    assert!(found.is_some(), "admin_fee_set event not found");

    // Check the emitted payload is the fee value.
    match found.unwrap() {
        Event::AdminFeeSet { admin: _, new_fee: emitted_fee } => {
            assert_eq!(*emitted_fee, new_fee, "invalid fee payload");
        },
        _ => unreachable!(),
    }
}
