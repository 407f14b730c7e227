//! The engine's mathematical model: its abstract state, its well-formedness
//! invariant, and the meaning of each public operation as a function from
//! state (and, where funds move, the token ledger) to state.
//!
//! Each operation has a `..._check` function that names the first reason it
//! must fail, if any, and a `..._post` function that gives the state after a
//! successful run. The executable engine in [`crate::contract`] is proved to
//! return exactly the error the check names, to leave everything unchanged
//! when it fails, and to land exactly on the post state when it succeeds.

use vstd::prelude::*;
use crate::errors::Error;
use crate::events::Event;
use crate::token::{balance_in, balances_wf, transfer_post};
use crate::types::{Car, CarStatus, Rental, RentalEntry};

verus! {

/// The engine's abstract state.
pub ghost struct StateV {
    /// The engine's own principal: the custodian that deposits sit with.
    pub contract: u64,
    /// The platform admin, once constructed.
    pub admin: Option<u64>,
    /// The payment token's principal, once constructed.
    pub token: Option<u64>,
    /// The current flat fee added to every new rental's deposit.
    pub fee: int,
    /// Accumulated platform fees not yet withdrawn.
    pub admin_balance: int,
    /// The car registry, keyed by owner.
    pub cars: Map<u64, Car>,
    /// Pending rent proceeds per owner.
    pub balances: Map<u64, i128>,
    /// The active rentals, keyed by the car's owner.
    pub rentals: Map<u64, RentalEntry>,
    /// The append-only event log.
    pub events: Seq<Event>,
}

/// Whether the engine has been constructed.
pub open spec fn initialized(s: StateV) -> bool {
    s.admin is Some
}

/// The state of a freshly created, not yet constructed engine: nothing
/// recorded, every balance zero, the log empty.
pub open spec fn empty_state(contract: u64) -> StateV {
    StateV {
        contract,
        admin: None,
        token: None,
        fee: 0,
        admin_balance: 0,
        cars: Map::empty(),
        balances: Map::empty(),
        rentals: Map::empty(),
        events: Seq::empty(),
    }
}

/// The state invariant. Every operation requires it of the state it starts
/// from and re-establishes it in the state it leaves behind.
pub open spec fn wf(s: StateV) -> bool {
    &&& s.cars.dom().finite()
    &&& s.balances.dom().finite()
    &&& s.rentals.dom().finite()
    &&& s.admin is Some <==> s.token is Some
    &&& s.admin is Some ==> s.admin.unwrap() != s.token.unwrap()
    &&& 0 <= s.fee <= i128::MAX
    &&& 0 <= s.admin_balance <= i128::MAX
    &&& balances_wf(s.balances)
    &&& forall|o: u64| #[trigger]
        s.cars.contains_key(o) ==> s.cars[o].price_per_day > 0 && (s.cars[o].car_status is Rented
            ==> s.rentals.contains_key(o))
    &&& forall|o: u64| #[trigger] s.rentals.contains_key(o) ==> rental_entry_wf(s, o)
}

/// What holds of one active rental: its car exists and is marked rented, the
/// renter is not the owner, the terms are positive, and the deposit is
/// exactly the base rent plus the snapshotted fee.
pub open spec fn rental_entry_wf(s: StateV, o: u64) -> bool {
    let e = s.rentals[o];
    &&& s.cars.contains_key(o)
    &&& s.cars[o].car_status is Rented
    &&& e.renter != o
    &&& e.rental.total_days_to_rent > 0
    &&& e.rental.amount > 0
    &&& e.rental.fee_applied >= 0
    &&& e.rental.deposit_total == e.rental.amount + e.rental.fee_applied
}

/// Why an operation cannot run yet: the engine must hold an admin and a
/// payment token before anything else.
pub open spec fn ensure_initialized_err(s: StateV) -> Option<Error> {
    if s.admin is None {
        Some(Error::ContractNotInitialized)
    } else if s.token is None {
        Some(Error::TokenNotFound)
    } else {
        None
    }
}

/// Why construction fails, if it does.
pub open spec fn constructor_check(s: StateV, admin: u64, token: u64) -> Option<Error> {
    if admin == token {
        Some(Error::AdminTokenConflict)
    } else if s.admin is Some {
        Some(Error::ContractInitialized)
    } else {
        None
    }
}

/// The state after construction: admin and token recorded, fee and platform
/// balance at zero, and the construction event logged.
pub open spec fn constructor_post(s: StateV, admin: u64, token: u64) -> StateV {
    StateV {
        admin: Some(admin),
        token: Some(token),
        fee: 0,
        admin_balance: 0,
        events: s.events.push(Event::ContractInitialized { admin, token }),
        ..s
    }
}

/// Why registering a car fails, if it does.
pub open spec fn add_car_check(s: StateV, caller: u64, owner: u64, price_per_day: i128) -> Option<
    Error,
> {
    if ensure_initialized_err(s) is Some {
        ensure_initialized_err(s)
    } else if caller != s.admin.unwrap() {
        Some(Error::Unauthorized)
    } else if price_per_day <= 0 {
        Some(Error::AmountMustBePositive)
    } else if s.cars.contains_key(owner) {
        Some(Error::CarAlreadyExist)
    } else {
        None
    }
}

/// The state after a car was registered: a fresh available car, logged.
pub open spec fn add_car_post(s: StateV, owner: u64, price_per_day: i128) -> StateV {
    StateV {
        cars: s.cars.insert(owner, Car { price_per_day, car_status: CarStatus::Available }),
        events: s.events.push(Event::CarAdded { owner, price_per_day }),
        ..s
    }
}

/// What a status query returns: the car's status, or why there is none.
pub open spec fn car_status_result(s: StateV, owner: u64) -> Result<CarStatus, Error> {
    if ensure_initialized_err(s) is Some {
        Err(ensure_initialized_err(s).unwrap())
    } else if !s.cars.contains_key(owner) {
        Err(Error::CarNotFound)
    } else {
        Ok(s.cars[owner].car_status)
    }
}

/// Why replacing the flat fee fails, if it does.
pub open spec fn set_admin_fee_check(s: StateV, caller: u64, fee: i128) -> Option<Error> {
    if ensure_initialized_err(s) is Some {
        ensure_initialized_err(s)
    } else if caller != s.admin.unwrap() {
        Some(Error::Unauthorized)
    } else if fee < 0 {
        Some(Error::AmountMustBePositive)
    } else {
        None
    }
}

/// The state after the fee was replaced. Rentals already open keep the fee
/// they snapshotted; only later rentals see the new one.
pub open spec fn set_admin_fee_post(s: StateV, fee: i128) -> StateV {
    StateV {
        fee: fee as int,
        events: s.events.push(Event::AdminFeeSet { admin: s.admin.unwrap(), new_fee: fee }),
        ..s
    }
}

/// Why opening a rental fails, if it does: validation, car availability, the
/// checked deposit arithmetic, the renter's funds, the two checked balance
/// credits, and the custodian's own checked credit, in that order.
pub open spec fn rental_check(
    s: StateV,
    l: Map<u64, i128>,
    caller: u64,
    renter: u64,
    owner: u64,
    total_days_to_rent: u32,
    amount: i128,
) -> Option<Error> {
    if ensure_initialized_err(s) is Some {
        ensure_initialized_err(s)
    } else if caller != renter {
        Some(Error::Unauthorized)
    } else if amount <= 0 {
        Some(Error::AmountMustBePositive)
    } else if total_days_to_rent == 0 {
        Some(Error::RentalDurationCannotBeZero)
    } else if renter == owner {
        Some(Error::SelfRentalNotAllowed)
    } else if !s.cars.contains_key(owner) {
        Some(Error::CarNotFound)
    } else if !(s.cars[owner].car_status is Available) {
        Some(Error::CarAlreadyRented)
    } else if amount + s.fee > i128::MAX {
        Some(Error::OverflowError)
    } else if balance_in(l, renter) < amount + s.fee {
        Some(Error::InsufficientBalance)
    } else if s.fee > 0 && s.admin_balance + s.fee > i128::MAX {
        Some(Error::OverflowError)
    } else if balance_in(s.balances, owner) + amount > i128::MAX {
        Some(Error::OverflowError)
    } else if renter != s.contract && balance_in(l, s.contract) + amount + s.fee > i128::MAX {
        Some(Error::OverflowError)
    } else {
        None
    }
}

/// The engine state after a rental opened: the car is rented, the fee is
/// credited to the platform (announcing readiness if the balance rose from
/// zero), the base rent is credited to the owner, the agreement is recorded,
/// and the rental is logged.
pub open spec fn rental_post_state(
    s: StateV,
    renter: u64,
    owner: u64,
    total_days_to_rent: u32,
    amount: i128,
) -> StateV {
    let fee = s.fee as i128;
    let deposit_total = (amount + s.fee) as i128;
    let with_ready = if s.fee > 0 && s.admin_balance == 0 {
        s.events.push(Event::AdminWithdrawReady { admin: s.admin.unwrap(), fee_balance: fee })
    } else {
        s.events
    };
    StateV {
        admin_balance: if s.fee > 0 {
            s.admin_balance + s.fee
        } else {
            s.admin_balance
        },
        balances: s.balances.insert(owner, (balance_in(s.balances, owner) + amount) as i128),
        cars: s.cars.insert(
            owner,
            Car { price_per_day: s.cars[owner].price_per_day, car_status: CarStatus::Rented },
        ),
        rentals: s.rentals.insert(
            owner,
            RentalEntry {
                renter,
                rental: Rental { total_days_to_rent, amount, fee_applied: fee, deposit_total },
            },
        ),
        events: with_ready.push(
            Event::Rented {
                renter,
                owner,
                total_days_to_rent,
                amount,
                fee_applied: fee,
                deposit_total,
            },
        ),
        ..s
    }
}

/// The token ledger after a rental opened: the deposit moved from the renter
/// to the custodian.
pub open spec fn rental_post_ledger(
    s: StateV,
    l: Map<u64, i128>,
    renter: u64,
    amount: i128,
) -> Map<u64, i128> {
    transfer_post(l, renter, s.contract, (amount + s.fee) as i128)
}

/// Why returning a car fails, if it does. A car that is not rented, or is
/// rented but not by this renter, cannot be returned.
pub open spec fn return_car_check(s: StateV, caller: u64, renter: u64, owner: u64) -> Option<
    Error,
> {
    if ensure_initialized_err(s) is Some {
        ensure_initialized_err(s)
    } else if caller != renter {
        Some(Error::Unauthorized)
    } else if !s.cars.contains_key(owner) {
        Some(Error::CarNotFound)
    } else if !(s.cars[owner].car_status is Rented) {
        Some(Error::CarNotRented)
    } else if !(s.rentals.contains_key(owner) && s.rentals[owner].renter == renter) {
        Some(Error::CarNotRented)
    } else {
        None
    }
}

/// The state after a car came back: available again, the agreement erased,
/// the owner told their proceeds are ready if any are pending, the return
/// logged. No funds move; the owner withdraws separately.
pub open spec fn return_car_post(s: StateV, renter: u64, owner: u64) -> StateV {
    let bal = balance_in(s.balances, owner);
    let with_ready = if bal > 0 {
        s.events.push(
            Event::OwnerWithdrawReady {
                owner,
                balance: bal as i128,
                car_status: CarStatus::Available,
            },
        )
    } else {
        s.events
    };
    StateV {
        cars: s.cars.insert(
            owner,
            Car { price_per_day: s.cars[owner].price_per_day, car_status: CarStatus::Available },
        ),
        rentals: s.rentals.remove(owner),
        events: with_ready.push(Event::CarReturned { renter, owner }),
        ..s
    }
}

/// Why an admin withdrawal fails, if it does: only the transfer of a
/// positive balance out of the custodian can refuse it.
pub open spec fn withdraw_admin_check(s: StateV, l: Map<u64, i128>, caller: u64) -> Option<Error> {
    if ensure_initialized_err(s) is Some {
        ensure_initialized_err(s)
    } else if caller != s.admin.unwrap() {
        Some(Error::Unauthorized)
    } else if s.admin_balance > 0 && balance_in(l, s.contract) < s.admin_balance {
        Some(Error::InsufficientBalance)
    } else if s.admin_balance > 0 && s.contract != s.admin.unwrap() && balance_in(
        l,
        s.admin.unwrap(),
    ) + s.admin_balance > i128::MAX {
        Some(Error::OverflowError)
    } else {
        None
    }
}

/// The state after an admin withdrawal: the platform balance is zero, and if
/// it was positive the withdrawal is logged. Returns the prior balance.
pub open spec fn withdraw_admin_post_state(s: StateV) -> StateV {
    StateV {
        admin_balance: 0,
        events: if s.admin_balance > 0 {
            s.events.push(
                Event::AdminWithdrawExecuted {
                    admin: s.admin.unwrap(),
                    amount: s.admin_balance as i128,
                },
            )
        } else {
            s.events
        },
        ..s
    }
}

/// The token ledger after an admin withdrawal: a positive prior balance
/// moved from the custodian to the admin; zero moved nothing.
pub open spec fn withdraw_admin_post_ledger(s: StateV, l: Map<u64, i128>) -> Map<u64, i128> {
    if s.admin_balance > 0 {
        transfer_post(l, s.contract, s.admin.unwrap(), s.admin_balance as i128)
    } else {
        l
    }
}

/// Why an owner withdrawal fails, if it does. The car must be back first.
pub open spec fn withdraw_owner_check(
    s: StateV,
    l: Map<u64, i128>,
    caller: u64,
    owner: u64,
) -> Option<Error> {
    let bal = balance_in(s.balances, owner);
    if ensure_initialized_err(s) is Some {
        ensure_initialized_err(s)
    } else if caller != owner {
        Some(Error::Unauthorized)
    } else if !s.cars.contains_key(owner) {
        Some(Error::CarNotFound)
    } else if !(s.cars[owner].car_status is Available) {
        Some(Error::CarStillRented)
    } else if bal > 0 && balance_in(l, s.contract) < bal {
        Some(Error::InsufficientBalance)
    } else if bal > 0 && s.contract != owner && balance_in(l, owner) + bal > i128::MAX {
        Some(Error::OverflowError)
    } else {
        None
    }
}

/// The state after an owner withdrawal: the owner's balance is zero, and if
/// it was positive the withdrawal is logged. Returns the prior balance.
pub open spec fn withdraw_owner_post_state(s: StateV, owner: u64) -> StateV {
    let bal = balance_in(s.balances, owner);
    StateV {
        balances: s.balances.insert(owner, 0),
        events: if bal > 0 {
            s.events.push(Event::OwnerWithdrawExecuted { owner, amount: bal as i128 })
        } else {
            s.events
        },
        ..s
    }
}

/// The token ledger after an owner withdrawal: a positive prior balance
/// moved from the custodian to the owner; zero moved nothing.
pub open spec fn withdraw_owner_post_ledger(s: StateV, l: Map<u64, i128>, owner: u64) -> Map<
    u64,
    i128,
> {
    let bal = balance_in(s.balances, owner);
    if bal > 0 {
        transfer_post(l, s.contract, owner, bal as i128)
    } else {
        l
    }
}

/// Why removing a car fails, if it does: it must exist, be back in the lot,
/// and leave no proceeds behind.
pub open spec fn remove_car_check(s: StateV, caller: u64, owner: u64) -> Option<Error> {
    if ensure_initialized_err(s) is Some {
        ensure_initialized_err(s)
    } else if caller != s.admin.unwrap() {
        Some(Error::Unauthorized)
    } else if !s.cars.contains_key(owner) {
        Some(Error::CarNotFound)
    } else if !(s.cars[owner].car_status is Available) {
        Some(Error::CarStillRented)
    } else if balance_in(s.balances, owner) > 0 {
        Some(Error::OwnerBalancePending)
    } else {
        None
    }
}

/// The state after a car was removed: the record is gone, the removal logged.
pub open spec fn remove_car_post(s: StateV, owner: u64) -> StateV {
    StateV {
        cars: s.cars.remove(owner),
        events: s.events.push(Event::CarRemoved { owner }),
        ..s
    }
}

/// An owner's pending proceeds as a query: the stored balance, or zero.
pub open spec fn owner_balance_of(s: StateV, owner: u64) -> int {
    balance_in(s.balances, owner)
}

/// Whether an owner could withdraw right now: their car exists, is back in
/// the lot, and proceeds are pending.
pub open spec fn can_owner_withdraw_at(s: StateV, owner: u64) -> bool {
    &&& s.cars.contains_key(owner)
    &&& s.cars[owner].car_status is Available
    &&& balance_in(s.balances, owner) > 0
}

/// Whether the admin could withdraw right now: fees are pending.
pub open spec fn can_admin_withdraw_at(s: StateV) -> bool {
    s.admin_balance > 0
}

/// Adding an available car preserves the state invariant: the new car is
/// well-formed and carries no rental, and every other record is untouched.
pub proof fn lemma_add_car_keeps_wf(s: StateV, owner: u64, price_per_day: i128)
    requires
        wf(s),
        !s.cars.contains_key(owner),
        price_per_day > 0,
    ensures
        wf(add_car_post(s, owner, price_per_day)),
{
    let s1 = add_car_post(s, owner, price_per_day);
    assert forall|o: u64| #[trigger]
        s1.cars.contains_key(o) implies s1.cars[o].price_per_day > 0 && (s1.cars[o].car_status
        is Rented ==> s1.rentals.contains_key(o)) by {
        if o != owner {
            assert(s.cars.contains_key(o));
        }
    }
    assert forall|o: u64| #[trigger] s1.rentals.contains_key(o) implies rental_entry_wf(s1, o) by {
        assert(s.rentals.contains_key(o));
        assert(rental_entry_wf(s, o));
        assert(o != owner);
    }
}

/// Opening a rental on an available car preserves the state invariant: the
/// new agreement is well-formed, both credited balances stay in range, and
/// every other record is untouched.
pub proof fn lemma_rental_keeps_wf(
    s: StateV,
    renter: u64,
    owner: u64,
    total_days_to_rent: u32,
    amount: i128,
)
    requires
        wf(s),
        initialized(s),
        renter != owner,
        s.cars.contains_key(owner),
        s.cars[owner].car_status is Available,
        amount > 0,
        total_days_to_rent > 0,
        amount + s.fee <= i128::MAX,
        s.fee > 0 ==> s.admin_balance + s.fee <= i128::MAX,
        balance_in(s.balances, owner) + amount <= i128::MAX,
    ensures
        wf(rental_post_state(s, renter, owner, total_days_to_rent, amount)),
{
    let s1 = rental_post_state(s, renter, owner, total_days_to_rent, amount);
    assert forall|p: u64| s1.balances.contains_key(p) implies #[trigger] s1.balances[p] >= 0 by {
        if p != owner {
            assert(s.balances.contains_key(p));
        }
    }
    assert forall|o: u64| #[trigger]
        s1.cars.contains_key(o) implies s1.cars[o].price_per_day > 0 && (s1.cars[o].car_status
        is Rented ==> s1.rentals.contains_key(o)) by {
        if o != owner {
            assert(s.cars.contains_key(o));
        }
    }
    assert forall|o: u64| #[trigger] s1.rentals.contains_key(o) implies rental_entry_wf(s1, o) by {
        if o != owner {
            assert(s.rentals.contains_key(o));
            assert(rental_entry_wf(s, o));
        }
    }
}

/// Returning a car preserves the state invariant: the car goes back to
/// available with its agreement erased, and every other record is untouched.
pub proof fn lemma_return_car_keeps_wf(s: StateV, renter: u64, owner: u64)
    requires
        wf(s),
        s.cars.contains_key(owner),
        s.cars[owner].car_status is Rented,
    ensures
        wf(return_car_post(s, renter, owner)),
{
    let s1 = return_car_post(s, renter, owner);
    assert forall|o: u64| #[trigger]
        s1.cars.contains_key(o) implies s1.cars[o].price_per_day > 0 && (s1.cars[o].car_status
        is Rented ==> s1.rentals.contains_key(o)) by {
        if o != owner {
            assert(s.cars.contains_key(o));
        }
    }
    assert forall|o: u64| #[trigger] s1.rentals.contains_key(o) implies rental_entry_wf(s1, o) by {
        assert(s.rentals.contains_key(o));
        assert(rental_entry_wf(s, o));
    }
}

/// Removing an available car preserves the state invariant: no rental can
/// reference it, and every other record is untouched.
pub proof fn lemma_remove_car_keeps_wf(s: StateV, owner: u64)
    requires
        wf(s),
        s.cars.contains_key(owner),
        s.cars[owner].car_status is Available,
    ensures
        wf(remove_car_post(s, owner)),
{
    let s1 = remove_car_post(s, owner);
    assert forall|o: u64| #[trigger]
        s1.cars.contains_key(o) implies s1.cars[o].price_per_day > 0 && (s1.cars[o].car_status
        is Rented ==> s1.rentals.contains_key(o)) by {
        assert(s.cars.contains_key(o));
    }
    assert forall|o: u64| #[trigger] s1.rentals.contains_key(o) implies rental_entry_wf(s1, o) by {
        assert(s.rentals.contains_key(o));
        assert(rental_entry_wf(s, o));
        assert(o != owner);
    }
}

} // verus!
