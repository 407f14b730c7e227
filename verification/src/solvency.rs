//! Solvency of the custodian: the engine never owes more than it holds.
//!
//! The engine's liabilities are the platform's pending fees plus every
//! owner's pending proceeds. Each operation that moves funds moves the
//! custodian's token balance and the liabilities in step, so a custodian
//! that covers its liabilities still covers them afterwards — the deposits
//! of others can never be paid out to the wrong party. The laws here prove
//! that preservation for every operation, and also against foreign ledger
//! activity (minting, and transfers that do not spend from the custodian's
//! own account; only the engine's withdrawals do that).

use vstd::prelude::*;
use vstd::set::fold::is_fun_commutative;
use vstd::set::fold::lemma_fold_empty;
use vstd::set::fold::lemma_fold_insert;
use crate::state::StateV;
use crate::state::add_car_post;
use crate::state::constructor_post;
use crate::state::remove_car_post;
use crate::state::rental_check;
use crate::state::rental_post_ledger;
use crate::state::rental_post_state;
use crate::state::return_car_post;
use crate::state::set_admin_fee_post;
use crate::state::wf;
use crate::state::withdraw_admin_check;
use crate::state::withdraw_admin_post_ledger;
use crate::state::withdraw_admin_post_state;
use crate::state::withdraw_owner_check;
use crate::state::withdraw_owner_post_ledger;
use crate::state::withdraw_owner_post_state;
use crate::token::balance_in;
use crate::token::transfer_check;
use crate::token::transfer_post;

verus! {

/// The folding step that adds one key's stored balance to a running sum.
pub open spec fn add_entry(m: Map<u64, i128>) -> spec_fn(int, u64) -> int {
    |acc: int, k: u64| acc + m[k]
}

/// The sum of every balance a map stores.
pub open spec fn sum_balances(m: Map<u64, i128>) -> int {
    m.dom().fold(0, add_entry(m))
}

/// What the engine owes out of custody: the platform's pending fees plus
/// every owner's pending proceeds.
pub open spec fn liabilities(s: StateV) -> int {
    s.admin_balance + sum_balances(s.balances)
}

/// The custodian's token balance covers the engine's liabilities.
pub open spec fn custody_ok(s: StateV, l: Map<u64, i128>) -> bool {
    balance_in(l, s.contract) >= liabilities(s)
}

/// Summing is insensitive to the order the keys are folded in.
proof fn lemma_add_entry_commutative(m: Map<u64, i128>)
    ensures
        is_fun_commutative(add_entry(m)),
{
}

/// Folding one set with two step functions that agree on it gives the same
/// result.
proof fn lemma_fold_congruent(
    s: Set<u64>,
    z: int,
    f: spec_fn(int, u64) -> int,
    g: spec_fn(int, u64) -> int,
)
    requires
        s.finite(),
        is_fun_commutative(f),
        is_fun_commutative(g),
        forall|b: int, k: u64| s.contains(k) ==> #[trigger] f(b, k) == g(b, k),
    ensures
        s.fold(z, f) == s.fold(z, g),
    decreases s.len(),
{
    if s.is_empty() {
        assert(s =~= Set::empty());
        lemma_fold_empty(z, f);
        lemma_fold_empty(z, g);
    } else {
        let k = s.choose();
        assert(s.contains(k));
        let s0 = s.remove(k);
        lemma_fold_congruent(s0, z, f, g);
        lemma_fold_insert(s0, z, f, k);
        lemma_fold_insert(s0, z, g, k);
        assert(s0.insert(k) =~= s);
    }
}

/// Storing a key that was absent raises the sum by exactly its value.
proof fn lemma_sum_insert_fresh(m: Map<u64, i128>, k: u64, v: i128)
    requires
        m.dom().finite(),
        !m.contains_key(k),
    ensures
        sum_balances(m.insert(k, v)) == sum_balances(m) + v,
{
    let m1 = m.insert(k, v);
    assert(m1.dom() =~= m.dom().insert(k));
    lemma_add_entry_commutative(m1);
    lemma_add_entry_commutative(m);
    lemma_fold_insert(m.dom(), 0, add_entry(m1), k);
    assert forall|b: int, j: u64| m.dom().contains(j) implies #[trigger] add_entry(m1)(b, j)
        == add_entry(m)(b, j) by {
        assert(j != k);
        assert(m1[j] == m[j]);
    }
    lemma_fold_congruent(m.dom(), 0, add_entry(m1), add_entry(m));
    assert(add_entry(m1)(m.dom().fold(0, add_entry(m1)), k) == m.dom().fold(0, add_entry(m1))
        + v);
}

/// Storing a key moves the sum by the difference between the new value and
/// what the key contributed before (its stored balance, or zero).
proof fn lemma_sum_store(m: Map<u64, i128>, k: u64, v: i128)
    requires
        m.dom().finite(),
    ensures
        sum_balances(m.insert(k, v)) == sum_balances(m) + v - balance_in(m, k),
{
    if m.contains_key(k) {
        let m0 = m.remove(k);
        assert(m0.dom() =~= m.dom().remove(k));
        assert(m =~= m0.insert(k, m[k]));
        assert(m.insert(k, v) =~= m0.insert(k, v));
        lemma_sum_insert_fresh(m0, k, m[k]);
        lemma_sum_insert_fresh(m0, k, v);
    } else {
        lemma_sum_insert_fresh(m, k, v);
    }
}

/// A rental keeps the custodian solvent: the deposit it receives is exactly
/// the two liabilities it takes on. (The custodian renting for itself is the
/// one case with no deposit to receive, so it is left out.)
pub proof fn lemma_rental_preserves_custody(
    s: StateV,
    l: Map<u64, i128>,
    caller: u64,
    renter: u64,
    owner: u64,
    total_days_to_rent: u32,
    amount: i128,
)
    requires
        wf(s),
        rental_check(s, l, caller, renter, owner, total_days_to_rent, amount) is None,
        renter != s.contract,
        custody_ok(s, l),
    ensures
        ({
            let s1 = rental_post_state(s, renter, owner, total_days_to_rent, amount);
            let l1 = rental_post_ledger(s, l, renter, amount);
            &&& custody_ok(s1, l1)
            &&& s1.balances.dom().finite()
        }),
{
    let s1 = rental_post_state(s, renter, owner, total_days_to_rent, amount);
    lemma_sum_store(s.balances, owner, (balance_in(s.balances, owner) + amount) as i128);
    assert(s1.balances.dom() =~= s.balances.dom().insert(owner));
}

/// An admin withdrawal keeps the custodian solvent: what leaves custody is
/// exactly the liability that is cleared.
pub proof fn lemma_withdraw_admin_preserves_custody(s: StateV, l: Map<u64, i128>, caller: u64)
    requires
        wf(s),
        withdraw_admin_check(s, l, caller) is None,
        custody_ok(s, l),
    ensures
        custody_ok(withdraw_admin_post_state(s), withdraw_admin_post_ledger(s, l)),
{
}

/// An owner withdrawal keeps the custodian solvent: what leaves custody is
/// exactly the liability that is cleared.
pub proof fn lemma_withdraw_owner_preserves_custody(
    s: StateV,
    l: Map<u64, i128>,
    caller: u64,
    owner: u64,
)
    requires
        wf(s),
        withdraw_owner_check(s, l, caller, owner) is None,
        custody_ok(s, l),
    ensures
        ({
            let s1 = withdraw_owner_post_state(s, owner);
            let l1 = withdraw_owner_post_ledger(s, l, owner);
            &&& custody_ok(s1, l1)
            &&& s1.balances.dom().finite()
        }),
{
    let s1 = withdraw_owner_post_state(s, owner);
    lemma_sum_store(s.balances, owner, 0);
    assert(s1.balances.dom() =~= s.balances.dom().insert(owner));
}

/// Every operation that moves no funds keeps the custodian solvent: neither
/// the ledger nor the liabilities change (construction clears a
/// non-negative platform balance, which can only help).
pub proof fn lemma_quiet_ops_preserve_custody(
    s: StateV,
    l: Map<u64, i128>,
    admin: u64,
    token: u64,
    renter: u64,
    owner: u64,
    price_per_day: i128,
    fee: i128,
)
    requires
        wf(s),
        custody_ok(s, l),
    ensures
        custody_ok(constructor_post(s, admin, token), l),
        custody_ok(add_car_post(s, owner, price_per_day), l),
        custody_ok(set_admin_fee_post(s, fee), l),
        custody_ok(return_car_post(s, renter, owner), l),
        custody_ok(remove_car_post(s, owner), l),
{
}

/// Foreign ledger activity keeps the custodian solvent: minting adds value
/// somewhere, and a transfer that does not spend from the custodian's own
/// account can only leave it with as much or more. Only the engine's
/// withdrawals spend from that account.
pub proof fn lemma_foreign_activity_preserves_custody(
    s: StateV,
    l: Map<u64, i128>,
    from: u64,
    to: u64,
    amount: i128,
)
    requires
        custody_ok(s, l),
        transfer_check(l, from, to, amount) is None,
        from != s.contract,
    ensures
        custody_ok(s, transfer_post(l, from, to, amount)),
        amount >= 0 && balance_in(l, to) + amount <= i128::MAX ==> custody_ok(
            s,
            l.insert(to, (balance_in(l, to) + amount) as i128),
        ),
{
}

} // verus!
