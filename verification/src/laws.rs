//! Laws of the engine: properties that relate several operations, proved
//! once and for all over the model in [`crate::state`]. Each executable
//! operation is pinned to that model by its own contract, so these laws
//! carry over to every run of the engine.

use vstd::prelude::*;
use crate::errors::Error;
use crate::state::StateV;
use crate::state::add_car_check;
use crate::state::add_car_post;
use crate::state::car_status_result;
use crate::state::ensure_initialized_err;
use crate::state::rental_check;
use crate::state::rental_post_ledger;
use crate::state::rental_post_state;
use crate::state::return_car_check;
use crate::state::return_car_post;
use crate::state::constructor_post;
use crate::state::remove_car_post;
use crate::state::set_admin_fee_post;
use crate::state::withdraw_owner_check;
use crate::state::withdraw_owner_post_ledger;
use crate::state::withdraw_owner_post_state;
use crate::state::wf;
use crate::state::withdraw_admin_check;
use crate::state::withdraw_admin_post_ledger;
use crate::state::withdraw_admin_post_state;
use crate::token::balance_in;
use crate::token::transfer_check;
use crate::token::transfer_post;
use crate::types::CarStatus;
use crate::events::Event;

verus! {

/// Registering a car leaves it available, and a second registration for the
/// same owner (by the same admin, at a positive price) is refused because
/// the car already exists.
pub proof fn lemma_add_car_available_then_duplicate_refused(
    s: StateV,
    caller: u64,
    owner: u64,
    price_per_day: i128,
)
    requires
        wf(s),
        add_car_check(s, caller, owner, price_per_day) is None,
    ensures
        car_status_result(add_car_post(s, owner, price_per_day), owner) == Ok::<
            CarStatus,
            Error,
        >(CarStatus::Available),
        add_car_check(add_car_post(s, owner, price_per_day), caller, owner, price_per_day)
            == Some(Error::CarAlreadyExist),
{
}

/// Every stored rental deposits exactly its base rent plus the fee it
/// snapshotted: the invariant carries the equation at all times.
pub proof fn lemma_rental_deposit_consistent(s: StateV, owner: u64)
    requires
        wf(s),
        s.rentals.contains_key(owner),
    ensures
        s.rentals[owner].rental.deposit_total == s.rentals[owner].rental.amount
            + s.rentals[owner].rental.fee_applied,
{
}

/// A successful rental moves the books by exactly its amounts: the platform
/// balance grows by the fee, the owner's balance by the base rent, and the
/// car becomes rented.
pub proof fn lemma_rental_accounting(
    s: StateV,
    l: Map<u64, i128>,
    caller: u64,
    renter: u64,
    owner: u64,
    total_days_to_rent: u32,
    amount: i128,
)
    requires
        wf(s),
        rental_check(s, l, caller, renter, owner, total_days_to_rent, amount) is None,
    ensures
        ({
            let s1 = rental_post_state(s, renter, owner, total_days_to_rent, amount);
            &&& s1.admin_balance == s.admin_balance + s.fee
            &&& balance_in(s1.balances, owner) == balance_in(s.balances, owner) + amount
            &&& s1.cars.contains_key(owner) && s1.cars[owner].car_status is Rented
        }),
{
}

/// Taking the platform balance is idempotent: a second withdrawal with no
/// rental in between also succeeds, returns zero, and changes nothing.
pub proof fn lemma_withdraw_admin_idempotent(s: StateV, l: Map<u64, i128>, caller: u64)
    requires
        wf(s),
        withdraw_admin_check(s, l, caller) is None,
    ensures
        ({
            let s1 = withdraw_admin_post_state(s);
            let l1 = withdraw_admin_post_ledger(s, l);
            &&& withdraw_admin_check(s1, l1, caller) is None
            &&& s1.admin_balance == 0
            &&& withdraw_admin_post_state(s1) == s1
            &&& withdraw_admin_post_ledger(s1, l1) == l1
        }),
{
}

/// A rental followed by its return restores the car to available and erases
/// the agreement, so a status query reads available again.
pub proof fn lemma_rental_round_trip(
    s: StateV,
    l: Map<u64, i128>,
    caller: u64,
    renter: u64,
    owner: u64,
    total_days_to_rent: u32,
    amount: i128,
)
    requires
        wf(s),
        rental_check(s, l, caller, renter, owner, total_days_to_rent, amount) is None,
    ensures
        ({
            let s1 = rental_post_state(s, renter, owner, total_days_to_rent, amount);
            &&& return_car_check(s1, renter, renter, owner) is None
            &&& ({
                let s2 = return_car_post(s1, renter, owner);
                &&& s2.cars.contains_key(owner)
                &&& s2.cars[owner].car_status is Available
                &&& !s2.rentals.contains_key(owner)
                &&& car_status_result(s2, owner) == Ok::<CarStatus, Error>(CarStatus::Available)
            })
        }),
{
}

/// The overflow boundary: when an owner's balance already sits at the
/// largest representable value, a further rental crediting that owner is
/// refused with the overflow error. (That the refusal leaves every ledger
/// unchanged is part of the rental operation's own contract.)
pub proof fn lemma_rental_overflow_boundary(
    s: StateV,
    l: Map<u64, i128>,
    caller: u64,
    renter: u64,
    owner: u64,
    total_days_to_rent: u32,
    amount: i128,
)
    requires
        wf(s),
        balance_in(s.balances, owner) == i128::MAX,
        ensure_initialized_err(s) is None,
        caller == renter,
        amount > 0,
        total_days_to_rent > 0,
        renter != owner,
        s.cars.contains_key(owner),
        s.cars[owner].car_status is Available,
        amount + s.fee <= i128::MAX,
        balance_in(l, renter) >= amount + s.fee,
    ensures
        rental_check(s, l, caller, renter, owner, total_days_to_rent, amount) == Some(
            Error::OverflowError,
        ),
{
}

/// Replacing the fee touches no open rental: an agreement keeps the fee it
/// snapshotted when it was opened, and no balance moves.
pub proof fn lemma_set_admin_fee_leaves_rentals_alone(s: StateV, fee: i128)
    ensures
        set_admin_fee_post(s, fee).rentals == s.rentals,
        set_admin_fee_post(s, fee).balances == s.balances,
        set_admin_fee_post(s, fee).admin_balance == s.admin_balance,
        set_admin_fee_post(s, fee).cars == s.cars,
{
}

/// A transfer conserves value: the payer and payee balances move by the same
/// amount in opposite directions, and nobody else's balance moves at all.
pub proof fn lemma_transfer_conserves_value(l: Map<u64, i128>, from: u64, to: u64, amount: i128)
    requires
        transfer_check(l, from, to, amount) is None,
    ensures
        ({
            let l1 = transfer_post(l, from, to, amount);
            &&& balance_in(l1, from) + balance_in(l1, to) == balance_in(l, from) + balance_in(
                l,
                to,
            )
            &&& forall|p: u64|
                p != from && p != to ==> balance_in(l1, p) == #[trigger] balance_in(l, p)
        }),
{
}

/// A rental moves exactly the deposit: the renter pays `amount + fee`, the
/// custodian receives it, and the engine's books grow their liability toward
/// the platform and the owner by the same total, so no value appears or
/// disappears.
pub proof fn lemma_rental_moves_exact_deposit(
    s: StateV,
    l: Map<u64, i128>,
    caller: u64,
    renter: u64,
    owner: u64,
    total_days_to_rent: u32,
    amount: i128,
)
    requires
        wf(s),
        rental_check(s, l, caller, renter, owner, total_days_to_rent, amount) is None,
        renter != s.contract,
    ensures
        ({
            let s1 = rental_post_state(s, renter, owner, total_days_to_rent, amount);
            let l1 = rental_post_ledger(s, l, renter, amount);
            &&& balance_in(l1, s.contract) == balance_in(l, s.contract) + amount + s.fee
            &&& balance_in(l1, renter) == balance_in(l, renter) - (amount + s.fee)
            &&& s1.admin_balance + balance_in(s1.balances, owner) == s.admin_balance + balance_in(
                s.balances,
                owner,
            ) + amount + s.fee
        }),
{
}

/// An admin withdrawal moves exactly the taken balance: the custodian pays
/// it out, the admin receives it, and the platform's liability drops to
/// zero by the same amount.
pub proof fn lemma_withdraw_admin_moves_exact_balance(s: StateV, l: Map<u64, i128>, caller: u64)
    requires
        wf(s),
        withdraw_admin_check(s, l, caller) is None,
        s.contract != s.admin.unwrap(),
    ensures
        ({
            let s1 = withdraw_admin_post_state(s);
            let l1 = withdraw_admin_post_ledger(s, l);
            &&& balance_in(l1, s.admin.unwrap()) == balance_in(l, s.admin.unwrap())
                + s.admin_balance
            &&& balance_in(l1, s.contract) == balance_in(l, s.contract) - s.admin_balance
            &&& s1.admin_balance == 0
        }),
{
}

/// An owner withdrawal moves exactly the taken balance: the custodian pays
/// it out, the owner receives it, and the owner's pending proceeds drop to
/// zero by the same amount.
pub proof fn lemma_withdraw_owner_moves_exact_balance(
    s: StateV,
    l: Map<u64, i128>,
    caller: u64,
    owner: u64,
)
    requires
        wf(s),
        withdraw_owner_check(s, l, caller, owner) is None,
        s.contract != owner,
    ensures
        ({
            let s1 = withdraw_owner_post_state(s, owner);
            let l1 = withdraw_owner_post_ledger(s, l, owner);
            &&& balance_in(l1, owner) == balance_in(l, owner) + balance_in(s.balances, owner)
            &&& balance_in(l1, s.contract) == balance_in(l, s.contract) - balance_in(
                s.balances,
                owner,
            )
            &&& balance_in(s1.balances, owner) == 0
        }),
{
}

/// Pushing onto a log keeps everything already in it: the old log is a
/// prefix of the new one.
proof fn lemma_push_keeps_prefix(s: Seq<Event>, e: Event)
    ensures
        s.is_prefix_of(s.push(e)),
{
    assert(s.push(e).subrange(0, s.len() as int) =~= s);
}

/// The event log is append-only: no operation rewrites history, each only
/// adds its own records at the end.
pub proof fn lemma_event_log_append_only(
    s: StateV,
    admin: u64,
    token: u64,
    renter: u64,
    owner: u64,
    total_days_to_rent: u32,
    amount: i128,
    price_per_day: i128,
    fee: i128,
)
    ensures
        s.events.is_prefix_of(constructor_post(s, admin, token).events),
        s.events.is_prefix_of(add_car_post(s, owner, price_per_day).events),
        s.events.is_prefix_of(set_admin_fee_post(s, fee).events),
        s.events.is_prefix_of(rental_post_state(s, renter, owner, total_days_to_rent, amount).events),
        s.events.is_prefix_of(return_car_post(s, renter, owner).events),
        s.events.is_prefix_of(withdraw_admin_post_state(s).events),
        s.events.is_prefix_of(withdraw_owner_post_state(s, owner).events),
        s.events.is_prefix_of(remove_car_post(s, owner).events),
{
    assert forall|e: Event| s.events.is_prefix_of(#[trigger] s.events.push(e)) by {
        lemma_push_keeps_prefix(s.events, e);
    }
    assert forall|e1: Event, e2: Event|
        s.events.is_prefix_of(#[trigger] s.events.push(e1).push(e2)) by {
        assert(s.events.push(e1).push(e2).subrange(0, s.events.len() as int) =~= s.events);
    }
}

} // verus!
