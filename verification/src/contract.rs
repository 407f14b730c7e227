//! The rental engine: the public operations over the car registry, the
//! rental ledger, the custodial balances and the fee configuration.
//!
//! Every operation is proved against the model in [`crate::state`]: it
//! returns exactly the error the model names for its inputs, it leaves all
//! state untouched when it fails, and it lands exactly on the model's post
//! state when it succeeds. Operations that move funds take the token ledger
//! as an explicit handle and commit storage mutation and value transfer as
//! one all-or-nothing unit: every reason to fail is ruled out before the
//! first write.

use vstd::prelude::*;
use std::collections::HashMap;
use crate::balance::BalanceLedger;
use crate::errors::Error;
use crate::events::Event;
use crate::state::StateV;
use crate::state::add_car_check;
use crate::state::add_car_post;
use crate::state::can_admin_withdraw_at;
use crate::state::can_owner_withdraw_at;
use crate::state::car_status_result;
use crate::state::constructor_check;
use crate::state::constructor_post;
use crate::state::empty_state;
use crate::state::ensure_initialized_err;
use crate::state::initialized;
use crate::state::lemma_add_car_keeps_wf;
use crate::state::lemma_remove_car_keeps_wf;
use crate::state::lemma_rental_keeps_wf;
use crate::state::lemma_return_car_keeps_wf;
use crate::state::owner_balance_of;
use crate::state::rental_check;
use crate::state::rental_post_ledger;
use crate::state::rental_post_state;
use crate::state::remove_car_check;
use crate::state::remove_car_post;
use crate::state::return_car_check;
use crate::state::return_car_post;
use crate::state::set_admin_fee_check;
use crate::state::set_admin_fee_post;
use crate::state::wf;
use crate::state::withdraw_admin_check;
use crate::state::withdraw_admin_post_ledger;
use crate::state::withdraw_admin_post_state;
use crate::state::withdraw_owner_check;
use crate::state::withdraw_owner_post_ledger;
use crate::state::withdraw_owner_post_state;
use crate::token::TokenLedger;
use crate::token::balance_in;
use crate::types::Car;
use crate::types::CarStatus;
use crate::types::FeeConfig;
use crate::types::FeeMode;
use crate::types::Rental;
use crate::types::RentalEntry;

verus! {

broadcast use vstd::std_specs::hash::group_hash_axioms;

/// The escrow-and-accounting engine. It exclusively owns the car registry,
/// the rental ledger, the custodial balances and the fee configuration; no
/// other component mutates them.
pub struct RentACarContract {
    contract_id: u64,
    admin: Option<u64>,
    token: Option<u64>,
    fee_config: FeeConfig,
    balances: BalanceLedger,
    cars: HashMap<u64, Car>,
    rentals: HashMap<u64, RentalEntry>,
    events: Vec<Event>,
}

impl View for RentACarContract {
    type V = StateV;

    closed spec fn view(&self) -> StateV {
        StateV {
            contract: self.contract_id,
            admin: self.admin,
            token: self.token,
            fee: self.fee_config.spec_fee() as int,
            admin_balance: self.balances@.admin,
            cars: self.cars@,
            balances: self.balances@.owners,
            rentals: self.rentals@,
            events: self.events@,
        }
    }
}

impl RentACarContract {
    /// A fresh, unconstructed engine that will hold deposits in custody
    /// under the principal `contract_id`.
    pub fn new(contract_id: u64) -> (r: Self)
        ensures
            r@ == empty_state(contract_id),
            wf(r@),
    {
        RentACarContract {
            contract_id,
            admin: None,
            token: None,
            fee_config: FeeConfig { mode: FeeMode::Flat(0) },
            balances: BalanceLedger::new(),
            cars: HashMap::new(),
            rentals: HashMap::new(),
            events: Vec::new(),
        }
    }

    /// Constructs the engine: records the admin and the payment token and
    /// zeroes the fee and the platform balance. Fails if admin and token
    /// coincide, or on a second construction attempt.
    pub fn __constructor(&mut self, admin: u64, token: u64) -> (r: Result<(), Error>)
        requires
            wf(old(self)@),
        ensures
            wf(final(self)@),
            match r {
                Ok(()) => constructor_check(old(self)@, admin, token) is None && final(self)@
                    == constructor_post(old(self)@, admin, token),
                Err(e) => constructor_check(old(self)@, admin, token) == Some(e) && final(self)@
                    == old(self)@,
            },
    {
        if admin == token {
            return Err(Error::AdminTokenConflict);
        }
        if self.admin.is_some() {
            return Err(Error::ContractInitialized);
        }
        self.admin = Some(admin);
        self.token = Some(token);
        self.fee_config = FeeConfig { mode: FeeMode::Flat(0) };
        self.balances.write_admin_balance(0);
        self.events.push(Event::ContractInitialized { admin, token });
        Ok(())
    }

    /// Fails unless the engine has been constructed.
    fn ensure_initialized(&self) -> (r: Result<(), Error>)
        ensures
            match r {
                Ok(()) => ensure_initialized_err(self@) is None,
                Err(e) => ensure_initialized_err(self@) == Some(e),
            },
    {
        if self.admin.is_none() {
            return Err(Error::ContractNotInitialized);
        }
        if self.token.is_none() {
            return Err(Error::TokenNotFound);
        }
        Ok(())
    }

    /// The platform admin.
    pub fn get_admin(&self) -> (r: u64)
        requires
            initialized(self@),
        ensures
            r == self@.admin.unwrap(),
    {
        self.admin.unwrap()
    }

    /// The current flat fee (zero if never set).
    pub fn get_admin_fee(&self) -> (r: i128)
        ensures
            r == self@.fee,
    {
        self.fee_config.fee()
    }

    /// An owner's pending rent proceeds (zero if unset).
    pub fn get_owner_balance(&self, owner: u64) -> (r: i128)
        ensures
            r == owner_balance_of(self@, owner),
    {
        self.balances.read_owner_balance(owner)
    }

    /// The platform's accumulated fee balance.
    pub fn get_admin_balance(&self) -> (r: i128)
        ensures
            r == self@.admin_balance,
    {
        self.balances.read_admin_balance()
    }

    /// Whether an owner could withdraw right now: their car exists, is
    /// available, and proceeds are pending.
    pub fn can_owner_withdraw(&self, owner: u64) -> (r: bool)
        ensures
            r == can_owner_withdraw_at(self@, owner),
    {
        match self.cars.get(&owner) {
            None => false,
            Some(car) => {
                if !(matches!(car.car_status, CarStatus::Available)) {
                    false
                } else {
                    self.balances.read_owner_balance(owner) > 0
                }
            },
        }
    }

    /// Whether the admin could withdraw right now: fees are pending.
    pub fn can_admin_withdraw(&self) -> (r: bool)
        ensures
            r == can_admin_withdraw_at(self@),
    {
        self.balances.read_admin_balance() > 0
    }

    /// How much the custodian itself holds on the token ledger.
    pub fn get_contract_balance(&self, ledger: &TokenLedger) -> (r: i128)
        requires
            initialized(self@),
        ensures
            r == balance_in(ledger@, self@.contract),
    {
        ledger.balance_of(self.contract_id)
    }

    /// The event log so far.
    pub fn event_log(&self) -> (r: &Vec<Event>)
        ensures
            r@ == self@.events,
    {
        &self.events
    }

    /// Whether a car is registered for this owner.
    pub fn has_car(&self, owner: u64) -> (r: bool)
        ensures
            r == self@.cars.contains_key(owner),
    {
        self.cars.contains_key(&owner)
    }

    /// The stored car record of an owner that has one.
    pub fn read_car(&self, owner: u64) -> (r: Car)
        requires
            self@.cars.contains_key(owner),
        ensures
            r == self@.cars[owner],
    {
        *self.cars.get(&owner).unwrap()
    }

    /// Whether this renter currently holds this owner's car.
    pub fn has_rental(&self, renter: u64, owner: u64) -> (r: bool)
        ensures
            r == (self@.rentals.contains_key(owner) && self@.rentals[owner].renter == renter),
    {
        match self.rentals.get(&owner) {
            Some(entry) => entry.renter == renter,
            None => false,
        }
    }

    /// The stored terms of an active rental.
    pub fn read_rental(&self, renter: u64, owner: u64) -> (r: Rental)
        requires
            self@.rentals.contains_key(owner),
            self@.rentals[owner].renter == renter,
        ensures
            r == self@.rentals[owner].rental,
    {
        self.rentals.get(&owner).unwrap().rental
    }

    /// A car's status, or why none could be read.
    pub fn get_car_status(&self, owner: u64) -> (r: Result<CarStatus, Error>)
        ensures
            r == car_status_result(self@, owner),
    {
        match self.ensure_initialized() {
            Err(e) => return Err(e),
            Ok(()) => {},
        }
        match self.cars.get(&owner) {
            None => Err(Error::CarNotFound),
            Some(car) => Ok(car.car_status),
        }
    }

    /// Registers a car for `owner` at a positive daily price. Only the admin
    /// may do this, and only once per owner.
    pub fn add_car(&mut self, caller: u64, owner: u64, price_per_day: i128) -> (r: Result<
        (),
        Error,
    >)
        requires
            wf(old(self)@),
        ensures
            wf(final(self)@),
            match r {
                Ok(()) => add_car_check(old(self)@, caller, owner, price_per_day) is None
                    && final(self)@ == add_car_post(old(self)@, owner, price_per_day),
                Err(e) => add_car_check(old(self)@, caller, owner, price_per_day) == Some(e)
                    && final(self)@ == old(self)@,
            },
    {
        match self.ensure_initialized() {
            Err(e) => return Err(e),
            Ok(()) => {},
        }
        let admin: u64 = self.get_admin();
        if caller != admin {
            return Err(Error::Unauthorized);
        }
        if price_per_day <= 0 {
            return Err(Error::AmountMustBePositive);
        }
        if self.cars.contains_key(&owner) {
            return Err(Error::CarAlreadyExist);
        }
        self.cars.insert(owner, Car { price_per_day, car_status: CarStatus::Available });
        self.events.push(Event::CarAdded { owner, price_per_day });
        proof {
            lemma_add_car_keeps_wf(old(self)@, owner, price_per_day);
        }
        Ok(())
    }

    /// Replaces the flat fee. Only the admin may do this; the fee must not
    /// be negative. Rentals already open keep their snapshotted fee.
    pub fn set_admin_fee(&mut self, caller: u64, fee: i128) -> (r: Result<(), Error>)
        requires
            wf(old(self)@),
        ensures
            wf(final(self)@),
            match r {
                Ok(()) => set_admin_fee_check(old(self)@, caller, fee) is None && final(self)@
                    == set_admin_fee_post(old(self)@, fee),
                Err(e) => set_admin_fee_check(old(self)@, caller, fee) == Some(e) && final(self)@
                    == old(self)@,
            },
    {
        match self.ensure_initialized() {
            Err(e) => return Err(e),
            Ok(()) => {},
        }
        let admin: u64 = self.get_admin();
        if caller != admin {
            return Err(Error::Unauthorized);
        }
        if fee < 0 {
            return Err(Error::AmountMustBePositive);
        }
        self.fee_config = FeeConfig { mode: FeeMode::Flat(fee) };
        self.events.push(Event::AdminFeeSet { admin, new_fee: fee });
        Ok(())
    }

    /// Opens a rental: the renter takes the owner's available car for
    /// `total_days_to_rent` days at base rent `amount`, depositing
    /// `amount + fee` with the custodian. The fee is credited to the
    /// platform, the base rent to the owner, both overflow-checked. Every
    /// reason to fail is ruled out before the first write, so a failure
    /// leaves engine and ledger exactly as they were.
    pub fn rental(
        &mut self,
        ledger: &mut TokenLedger,
        caller: u64,
        renter: u64,
        owner: u64,
        total_days_to_rent: u32,
        amount: i128,
    ) -> (r: Result<(), Error>)
        requires
            wf(old(self)@),
            old(ledger).wf(),
        ensures
            wf(final(self)@),
            final(ledger).wf(),
            match r {
                Ok(()) => {
                    &&& rental_check(
                        old(self)@,
                        old(ledger)@,
                        caller,
                        renter,
                        owner,
                        total_days_to_rent,
                        amount,
                    ) is None
                    &&& final(self)@ == rental_post_state(
                        old(self)@,
                        renter,
                        owner,
                        total_days_to_rent,
                        amount,
                    )
                    &&& final(ledger)@ == rental_post_ledger(
                        old(self)@,
                        old(ledger)@,
                        renter,
                        amount,
                    )
                },
                Err(e) => {
                    &&& rental_check(
                        old(self)@,
                        old(ledger)@,
                        caller,
                        renter,
                        owner,
                        total_days_to_rent,
                        amount,
                    ) == Some(e)
                    &&& final(self)@ == old(self)@
                    &&& final(ledger)@ == old(ledger)@
                },
            },
    {
        match self.ensure_initialized() {
            Err(e) => return Err(e),
            Ok(()) => {},
        }
        if caller != renter {
            return Err(Error::Unauthorized);
        }
        if amount <= 0 {
            return Err(Error::AmountMustBePositive);
        }
        if total_days_to_rent == 0 {
            return Err(Error::RentalDurationCannotBeZero);
        }
        if renter == owner {
            return Err(Error::SelfRentalNotAllowed);
        }
        let price_per_day: i128 = match self.cars.get(&owner) {
            None => {
                return Err(Error::CarNotFound);
            },
            Some(car) => {
                if !(matches!(car.car_status, CarStatus::Available)) {
                    return Err(Error::CarAlreadyRented);
                }
                car.price_per_day
            },
        };
        let admin: u64 = self.get_admin();
        let fee: i128 = self.fee_config.fee();
        if amount > i128::MAX - fee {
            return Err(Error::OverflowError);
        }
        let deposit_total: i128 = amount + fee;
        if ledger.balance_of(renter) < deposit_total {
            return Err(Error::InsufficientBalance);
        }
        let prev_admin_bal: i128 = self.balances.read_admin_balance();
        if fee > 0 && prev_admin_bal > i128::MAX - fee {
            return Err(Error::OverflowError);
        }
        if self.balances.read_owner_balance(owner) > i128::MAX - amount {
            return Err(Error::OverflowError);
        }
        if renter != self.contract_id && ledger.balance_of(self.contract_id) > i128::MAX
            - deposit_total {
            return Err(Error::OverflowError);
        }
        // Nothing can fail from here on: commit.
        if fee > 0 {
            match self.balances.add_admin_balance(fee) {
                Err(e) => return Err(e),
                Ok(()) => {},
            }
            if prev_admin_bal == 0 {
                self.events.push(Event::AdminWithdrawReady { admin, fee_balance: fee });
            }
        }
        match self.balances.add_owner_balance(owner, amount) {
            Err(e) => return Err(e),
            Ok(()) => {},
        }
        self.cars.insert(owner, Car { price_per_day, car_status: CarStatus::Rented });
        self.rentals.insert(
            owner,
            RentalEntry {
                renter,
                rental: Rental { total_days_to_rent, amount, fee_applied: fee, deposit_total },
            },
        );
        match ledger.transfer(renter, self.contract_id, deposit_total) {
            Err(e) => return Err(e),
            Ok(()) => {},
        }
        self.events.push(
            Event::Rented {
                renter,
                owner,
                total_days_to_rent,
                amount,
                fee_applied: fee,
                deposit_total,
            },
        );
        proof {
            lemma_rental_keeps_wf(old(self)@, renter, owner, total_days_to_rent, amount);
        }
        Ok(())
    }

    /// Returns a rented car: the car becomes available again and the
    /// agreement is erased. Only the renter who holds the car may return it.
    /// No funds move; the owner withdraws their proceeds separately.
    pub fn return_car(&mut self, caller: u64, renter: u64, owner: u64) -> (r: Result<(), Error>)
        requires
            wf(old(self)@),
        ensures
            wf(final(self)@),
            match r {
                Ok(()) => return_car_check(old(self)@, caller, renter, owner) is None && final(self)@ == return_car_post(old(self)@, renter, owner),
                Err(e) => return_car_check(old(self)@, caller, renter, owner) == Some(e) && final(self)@ == old(self)@,
            },
    {
        match self.ensure_initialized() {
            Err(e) => return Err(e),
            Ok(()) => {},
        }
        if caller != renter {
            return Err(Error::Unauthorized);
        }
        let price_per_day: i128 = match self.cars.get(&owner) {
            None => {
                return Err(Error::CarNotFound);
            },
            Some(car) => {
                if !(matches!(car.car_status, CarStatus::Rented)) {
                    return Err(Error::CarNotRented);
                }
                car.price_per_day
            },
        };
        match self.rentals.get(&owner) {
            Some(entry) if entry.renter == renter => {},
            _ => {
                return Err(Error::CarNotRented);
            },
        }
        self.cars.insert(owner, Car { price_per_day, car_status: CarStatus::Available });
        self.rentals.remove(&owner);
        let bal: i128 = self.balances.read_owner_balance(owner);
        if bal > 0 {
            self.events.push(
                Event::OwnerWithdrawReady { owner, balance: bal, car_status: CarStatus::Available },
            );
        }
        self.events.push(Event::CarReturned { renter, owner });
        proof {
            lemma_return_car_keeps_wf(old(self)@, renter, owner);
        }
        Ok(())
    }

    /// Atomically takes the platform's fee balance: zeroes it, moves it from
    /// the custodian to the admin if it was positive, and returns it. A zero
    /// balance is a valid result, not an error, so repeating the call simply
    /// returns zero.
    pub fn withdraw_admin(&mut self, ledger: &mut TokenLedger, caller: u64) -> (r: Result<
        i128,
        Error,
    >)
        requires
            wf(old(self)@),
            old(ledger).wf(),
        ensures
            wf(final(self)@),
            final(ledger).wf(),
            match r {
                Ok(amount) => {
                    &&& withdraw_admin_check(old(self)@, old(ledger)@, caller) is None
                    &&& amount == old(self)@.admin_balance
                    &&& final(self)@ == withdraw_admin_post_state(old(self)@)
                    &&& final(ledger)@ == withdraw_admin_post_ledger(old(self)@, old(ledger)@)
                },
                Err(e) => {
                    &&& withdraw_admin_check(old(self)@, old(ledger)@, caller) == Some(e)
                    &&& final(self)@ == old(self)@
                    &&& final(ledger)@ == old(ledger)@
                },
            },
    {
        match self.ensure_initialized() {
            Err(e) => return Err(e),
            Ok(()) => {},
        }
        let admin: u64 = self.get_admin();
        if caller != admin {
            return Err(Error::Unauthorized);
        }
        let amount: i128 = self.balances.read_admin_balance();
        if amount > 0 {
            match ledger.transfer(self.contract_id, admin, amount) {
                Err(e) => return Err(e),
                Ok(()) => {},
            }
            self.balances.write_admin_balance(0);
            self.events.push(Event::AdminWithdrawExecuted { admin, amount });
        } else {
            self.balances.write_admin_balance(0);
        }
        Ok(amount)
    }

    /// Atomically takes an owner's pending proceeds: zeroes them, moves them
    /// from the custodian to the owner if they were positive, and returns
    /// them. Only the owner may withdraw, and only while their car is back
    /// in the lot.
    pub fn withdraw_owner(&mut self, ledger: &mut TokenLedger, caller: u64, owner: u64) -> (r:
        Result<i128, Error>)
        requires
            wf(old(self)@),
            old(ledger).wf(),
        ensures
            wf(final(self)@),
            final(ledger).wf(),
            match r {
                Ok(amount) => {
                    &&& withdraw_owner_check(old(self)@, old(ledger)@, caller, owner) is None
                    &&& amount == owner_balance_of(old(self)@, owner)
                    &&& final(self)@ == withdraw_owner_post_state(old(self)@, owner)
                    &&& final(ledger)@ == withdraw_owner_post_ledger(
                        old(self)@,
                        old(ledger)@,
                        owner,
                    )
                },
                Err(e) => {
                    &&& withdraw_owner_check(old(self)@, old(ledger)@, caller, owner) == Some(e)
                    &&& final(self)@ == old(self)@
                    &&& final(ledger)@ == old(ledger)@
                },
            },
    {
        match self.ensure_initialized() {
            Err(e) => return Err(e),
            Ok(()) => {},
        }
        if caller != owner {
            return Err(Error::Unauthorized);
        }
        match self.cars.get(&owner) {
            None => {
                return Err(Error::CarNotFound);
            },
            Some(car) => {
                if !(matches!(car.car_status, CarStatus::Available)) {
                    return Err(Error::CarStillRented);
                }
            },
        }
        let amount: i128 = self.balances.read_owner_balance(owner);
        if amount > 0 {
            match ledger.transfer(self.contract_id, owner, amount) {
                Err(e) => return Err(e),
                Ok(()) => {},
            }
            self.balances.write_owner_balance(owner, 0);
            self.events.push(Event::OwnerWithdrawExecuted { owner, amount });
        } else {
            self.balances.write_owner_balance(owner, 0);
        }
        Ok(amount)
    }

    /// Removes a car from the registry. Only the admin may do this, and only
    /// while the car is available and its owner has no proceeds pending.
    pub fn remove_car(&mut self, caller: u64, owner: u64) -> (r: Result<(), Error>)
        requires
            wf(old(self)@),
        ensures
            wf(final(self)@),
            match r {
                Ok(()) => remove_car_check(old(self)@, caller, owner) is None && final(self)@
                    == remove_car_post(old(self)@, owner),
                Err(e) => remove_car_check(old(self)@, caller, owner) == Some(e) && final(self)@
                    == old(self)@,
            },
    {
        match self.ensure_initialized() {
            Err(e) => return Err(e),
            Ok(()) => {},
        }
        let admin: u64 = self.get_admin();
        if caller != admin {
            return Err(Error::Unauthorized);
        }
        match self.cars.get(&owner) {
            None => {
                return Err(Error::CarNotFound);
            },
            Some(car) => {
                if !(matches!(car.car_status, CarStatus::Available)) {
                    return Err(Error::CarStillRented);
                }
            },
        }
        if self.balances.read_owner_balance(owner) > 0 {
            return Err(Error::OwnerBalancePending);
        }
        self.cars.remove(&owner);
        self.events.push(Event::CarRemoved { owner });
        proof {
            lemma_remove_car_keeps_wf(old(self)@, owner);
        }
        Ok(())
    }

    /// Alias of [`Self::rental`], kept for external API compatibility.
    pub fn deposit(
        &mut self,
        ledger: &mut TokenLedger,
        caller: u64,
        renter: u64,
        owner: u64,
        total_days_to_rent: u32,
        amount: i128,
    ) -> (r: Result<(), Error>)
        requires
            wf(old(self)@),
            old(ledger).wf(),
        ensures
            wf(final(self)@),
            final(ledger).wf(),
            match r {
                Ok(()) => {
                    &&& rental_check(
                        old(self)@,
                        old(ledger)@,
                        caller,
                        renter,
                        owner,
                        total_days_to_rent,
                        amount,
                    ) is None
                    &&& final(self)@ == rental_post_state(
                        old(self)@,
                        renter,
                        owner,
                        total_days_to_rent,
                        amount,
                    )
                    &&& final(ledger)@ == rental_post_ledger(
                        old(self)@,
                        old(ledger)@,
                        renter,
                        amount,
                    )
                },
                Err(e) => {
                    &&& rental_check(
                        old(self)@,
                        old(ledger)@,
                        caller,
                        renter,
                        owner,
                        total_days_to_rent,
                        amount,
                    ) == Some(e)
                    &&& final(self)@ == old(self)@
                    &&& final(ledger)@ == old(ledger)@
                },
            },
    {
        self.rental(ledger, caller, renter, owner, total_days_to_rent, amount)
    }

    /// Alias of [`Self::withdraw_owner`], kept for external API
    /// compatibility.
    pub fn withdraw(&mut self, ledger: &mut TokenLedger, caller: u64, owner: u64) -> (r: Result<
        i128,
        Error,
    >)
        requires
            wf(old(self)@),
            old(ledger).wf(),
        ensures
            wf(final(self)@),
            final(ledger).wf(),
            match r {
                Ok(amount) => {
                    &&& withdraw_owner_check(old(self)@, old(ledger)@, caller, owner) is None
                    &&& amount == owner_balance_of(old(self)@, owner)
                    &&& final(self)@ == withdraw_owner_post_state(old(self)@, owner)
                    &&& final(ledger)@ == withdraw_owner_post_ledger(
                        old(self)@,
                        old(ledger)@,
                        owner,
                    )
                },
                Err(e) => {
                    &&& withdraw_owner_check(old(self)@, old(ledger)@, caller, owner) == Some(e)
                    &&& final(self)@ == old(self)@
                    &&& final(ledger)@ == old(ledger)@
                },
            },
    {
        self.withdraw_owner(ledger, caller, owner)
    }

    /// Alias of [`Self::withdraw_owner`], kept for external API
    /// compatibility.
    pub fn payout_owner(&mut self, ledger: &mut TokenLedger, caller: u64, owner: u64) -> (r:
        Result<i128, Error>)
        requires
            wf(old(self)@),
            old(ledger).wf(),
        ensures
            wf(final(self)@),
            final(ledger).wf(),
            match r {
                Ok(amount) => {
                    &&& withdraw_owner_check(old(self)@, old(ledger)@, caller, owner) is None
                    &&& amount == owner_balance_of(old(self)@, owner)
                    &&& final(self)@ == withdraw_owner_post_state(old(self)@, owner)
                    &&& final(ledger)@ == withdraw_owner_post_ledger(
                        old(self)@,
                        old(ledger)@,
                        owner,
                    )
                },
                Err(e) => {
                    &&& withdraw_owner_check(old(self)@, old(ledger)@, caller, owner) == Some(e)
                    &&& final(self)@ == old(self)@
                    &&& final(ledger)@ == old(ledger)@
                },
            },
    {
        self.withdraw_owner(ledger, caller, owner)
    }

    /// Overwrites one owner's stored balance. This is the raw storage
    /// accessor under the checked arithmetic: it bypasses no invariant, but
    /// it does bypass the bookkeeping, so it is meant for preparing states,
    /// not for moving funds.
    pub fn write_owner_balance(&mut self, owner: u64, value: i128)
        requires
            wf(old(self)@),
            value >= 0,
        ensures
            wf(final(self)@),
            final(self)@ == (StateV {
                balances: old(self)@.balances.insert(owner, value),
                ..old(self)@
            }),
    {
        self.balances.write_owner_balance(owner, value);
    }

    /// Overwrites the platform's stored balance. The raw storage accessor,
    /// like [`Self::write_owner_balance`].
    pub fn write_admin_balance(&mut self, value: i128)
        requires
            wf(old(self)@),
            value >= 0,
        ensures
            wf(final(self)@),
            final(self)@ == (StateV { admin_balance: value as int, ..old(self)@ }),
    {
        self.balances.write_admin_balance(value);
    }
}

} // verus!
