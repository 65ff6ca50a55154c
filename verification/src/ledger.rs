//! The meal-service ledger: an in-memory model of the contract's instance
//! storage (the aggregate slot, the latest-donation slot, and the remaining
//! lease), with the three operations the contract exposes.

use vstd::prelude::*;

verus! {

/// Host time units that every mutating call extends the storage lease to:
/// a sliding window, refreshed on each touch.
pub const LEASE_WINDOW: u64 = 5000;

/// The persistent aggregate record: running totals over the contract's
/// whole lifetime.
#[derive(Clone, Copy, PartialEq, Eq, Structural, Debug)]
pub struct MealService {
    pub meals_served: u64,
    pub funds_collected: u64,
}

/// One donation record. Only the most recent donation is retained: every
/// `donate` call overwrites this record entirely.
#[derive(Clone, Debug)]
pub struct Donation {
    pub donor: String,
    pub amount: u64,
    pub message: String,
}

/// Mathematical image of a [`Donation`].
pub ghost struct DonationView {
    pub donor: Seq<char>,
    pub amount: u64,
    pub message: Seq<char>,
}

impl View for Donation {
    type V = DonationView;

    open spec fn view(&self) -> DonationView {
        DonationView { donor: self.donor@, amount: self.amount, message: self.message@ }
    }
}

/// The image of an optional donation slot.
pub open spec fn log_view(d: Option<Donation>) -> Option<DonationView> {
    match d {
        Some(d) => Some(d@),
        None => None,
    }
}

/// Mathematical image of the whole stored state: the two keyed slots and the
/// lease remaining on the storage entry.
pub ghost struct ContractView {
    pub service: Option<MealService>,
    pub donation_log: Option<DonationView>,
    pub lease: u64,
}

/// The zero-valued aggregate reported while no record exists yet.
pub open spec fn default_status() -> MealService {
    MealService { meals_served: 0, funds_collected: 0 }
}

/// What a read reports: the stored aggregate, or the zero default when the
/// slot is absent.
pub open spec fn status_of(v: ContractView) -> MealService {
    match v.service {
        Some(s) => s,
        None => default_status(),
    }
}

/// The state after `donate(donor, amount, message)`: funds grow by `amount`,
/// the meal count is untouched, the donation slot is overwritten, and the
/// lease is reset to the full window.
pub open spec fn donate_transition(
    v: ContractView,
    donor: Seq<char>,
    amount: u64,
    message: Seq<char>,
) -> ContractView {
    ContractView {
        service: Some(
            MealService {
                meals_served: status_of(v).meals_served,
                funds_collected: (status_of(v).funds_collected + amount) as u64,
            },
        ),
        donation_log: Some(DonationView { donor, amount, message }),
        lease: LEASE_WINDOW,
    }
}

/// The state after `serve_meals(count)`: the meal count grows by `count`,
/// funds and the donation slot are untouched, and the lease is reset.
pub open spec fn serve_transition(v: ContractView, count: u64) -> ContractView {
    ContractView {
        service: Some(
            MealService {
                meals_served: (status_of(v).meals_served + count) as u64,
                funds_collected: status_of(v).funds_collected,
            },
        ),
        donation_log: v.donation_log,
        lease: LEASE_WINDOW,
    }
}

/// The meal-service contract state: what the host keeps in instance storage,
/// held here as plain values so the operations on it can be verified. The
/// host environment around it loads this state before a call and persists it
/// afterwards.
pub struct DonationMealServiceContract {
    service: Option<MealService>,
    donation_log: Option<Donation>,
    lease: u64,
}

impl View for DonationMealServiceContract {
    type V = ContractView;

    closed spec fn view(&self) -> ContractView {
        ContractView {
            service: self.service,
            donation_log: log_view(self.donation_log),
            lease: self.lease,
        }
    }
}

impl DonationMealServiceContract {
    /// A freshly deployed contract: both slots absent, no lease.
    pub fn new() -> (c: Self)
        ensures
            c@.service is None,
            c@.donation_log is None,
            c@.lease == 0,
    {
        DonationMealServiceContract { service: None, donation_log: None, lease: 0 }
    }

    /// Rebuilds the state from persisted slots, as the host hands them back
    /// at the start of an invocation.
    pub fn from_storage(
        service: Option<MealService>,
        donation_log: Option<Donation>,
        lease: u64,
    ) -> (c: Self)
        ensures
            c@.service == service,
            c@.donation_log == log_view(donation_log),
            c@.lease == lease,
    {
        DonationMealServiceContract { service, donation_log, lease }
    }

    /// Records a donation: adds `amount` to the collected funds, overwrites
    /// the donation record with this call's arguments, and slides the lease
    /// back out to the full window. The meal count is untouched.
    pub fn donate(&mut self, donor: String, amount: u64, message: String)
        requires
            status_of(old(self)@).funds_collected + amount <= u64::MAX,
        ensures
            final(self)@ == donate_transition(old(self)@, donor@, amount, message@),
    {
        let mut service = self.get_service_status();
        let donation = Donation { donor, amount, message };
        service.funds_collected = service.funds_collected + amount;
        self.donation_log = Some(donation);
        self.service = Some(service);
        self.lease = LEASE_WINDOW;
    }

    /// Records meals served: adds `count` to the running meal count and
    /// slides the lease back out to the full window. The collected funds and
    /// the donation record are untouched.
    pub fn serve_meals(&mut self, count: u64)
        requires
            status_of(old(self)@).meals_served + count <= u64::MAX,
        ensures
            final(self)@ == serve_transition(old(self)@, count),
    {
        let mut service = self.get_service_status();
        service.meals_served = service.meals_served + count;
        self.service = Some(service);
        self.lease = LEASE_WINDOW;
    }

    /// Reads the current aggregate: the stored record, or the zero default
    /// when none exists yet. A pure read through a shared reference — it
    /// mutates nothing and does not refresh the lease.
    pub fn get_service_status(&self) -> (r: MealService)
        ensures
            r == status_of(self@),
    {
        match self.service {
            Some(s) => s,
            None => MealService { meals_served: 0, funds_collected: 0 },
        }
    }

    /// The most recent donation record, if any donation was ever made.
    pub fn latest_donation(&self) -> (r: &Option<Donation>)
        ensures
            log_view(*r) == self@.donation_log,
    {
        &self.donation_log
    }

    /// The lease remaining on the storage entry, in host time units.
    pub fn lease(&self) -> (r: u64)
        ensures
            r == self@.lease,
    {
        self.lease
    }
}

} // verus!
