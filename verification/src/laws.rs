//! Properties of the ledger that span whole sequences of calls, stated over
//! the transition functions that the operations' contracts pin down.

use vstd::prelude::*;

use crate::ledger::ContractView;
use crate::ledger::DonationView;
use crate::ledger::default_status;
use crate::ledger::donate_transition;
use crate::ledger::serve_transition;
use crate::ledger::status_of;

verus! {

/// The state after a sequence of `donate` calls, applied left to right; each
/// element carries one call's arguments.
pub open spec fn apply_donations(v: ContractView, calls: Seq<DonationView>) -> ContractView
    decreases calls.len(),
{
    if calls.len() == 0 {
        v
    } else {
        donate_transition(
            apply_donations(v, calls.drop_last()),
            calls.last().donor,
            calls.last().amount,
            calls.last().message,
        )
    }
}

/// The total amount donated over a sequence of calls.
pub open spec fn sum_amounts(calls: Seq<DonationView>) -> int
    decreases calls.len(),
{
    if calls.len() == 0 {
        0
    } else {
        sum_amounts(calls.drop_last()) + calls.last().amount
    }
}

/// The state after a sequence of `serve_meals` calls, applied left to right.
pub open spec fn apply_servings(v: ContractView, counts: Seq<u64>) -> ContractView
    decreases counts.len(),
{
    if counts.len() == 0 {
        v
    } else {
        serve_transition(apply_servings(v, counts.drop_last()), counts.last())
    }
}

/// The total meal count over a sequence of calls.
pub open spec fn sum_counts(counts: Seq<u64>) -> int
    decreases counts.len(),
{
    if counts.len() == 0 {
        0
    } else {
        sum_counts(counts.drop_last()) + counts.last()
    }
}

/// Every amount weighs in non-negatively, so the running sum only grows as a
/// sequence of donations is extended.
pub proof fn lemma_sum_amounts_nonneg(calls: Seq<DonationView>)
    ensures
        sum_amounts(calls) >= 0,
    decreases calls.len(),
{
    if calls.len() > 0 {
        lemma_sum_amounts_nonneg(calls.drop_last());
    }
}

/// Counterpart of [`lemma_sum_amounts_nonneg`] for meal counts.
pub proof fn lemma_sum_counts_nonneg(counts: Seq<u64>)
    ensures
        sum_counts(counts) >= 0,
    decreases counts.len(),
{
    if counts.len() > 0 {
        lemma_sum_counts_nonneg(counts.drop_last());
    }
}

/// Accumulation: after any sequence of `donate` calls, the collected funds
/// equal the starting funds plus the sum of all donated amounts (absent
/// overflow), and the meal count is exactly what it was at the start.
pub proof fn lemma_donate_accumulation(v: ContractView, calls: Seq<DonationView>)
    requires
        status_of(v).funds_collected + sum_amounts(calls) <= u64::MAX,
    ensures
        status_of(apply_donations(v, calls)).funds_collected == status_of(
            v,
        ).funds_collected + sum_amounts(calls),
        status_of(apply_donations(v, calls)).meals_served == status_of(v).meals_served,
    decreases calls.len(),
{
    if calls.len() > 0 {
        lemma_sum_amounts_nonneg(calls.drop_last());
        lemma_donate_accumulation(v, calls.drop_last());
    }
}

/// Meal accumulation: after any sequence of `serve_meals` calls, the meal
/// count equals the starting count plus the sum of all served counts (absent
/// overflow), and the collected funds are exactly what they were at the
/// start.
pub proof fn lemma_serve_accumulation(v: ContractView, counts: Seq<u64>)
    requires
        status_of(v).meals_served + sum_counts(counts) <= u64::MAX,
    ensures
        status_of(apply_servings(v, counts)).meals_served == status_of(v).meals_served
            + sum_counts(counts),
        status_of(apply_servings(v, counts)).funds_collected == status_of(v).funds_collected,
    decreases counts.len(),
{
    if counts.len() > 0 {
        lemma_sum_counts_nonneg(counts.drop_last());
        lemma_serve_accumulation(v, counts.drop_last());
    }
}

/// Independence, one step at a time: a `serve_meals` transition never alters
/// the collected funds or the donation record, and a `donate` transition
/// never alters the meal count.
pub proof fn lemma_independence(
    v: ContractView,
    count: u64,
    donor: Seq<char>,
    amount: u64,
    message: Seq<char>,
)
    ensures
        status_of(serve_transition(v, count)).funds_collected == status_of(v).funds_collected,
        serve_transition(v, count).donation_log == v.donation_log,
        status_of(donate_transition(v, donor, amount, message)).meals_served == status_of(
            v,
        ).meals_served,
{
}

/// Monotonicity: neither transition ever decreases a running total (absent
/// overflow), so both aggregates are non-decreasing over the contract's
/// whole lifetime.
pub proof fn lemma_totals_monotonic(
    v: ContractView,
    donor: Seq<char>,
    amount: u64,
    message: Seq<char>,
    count: u64,
)
    requires
        status_of(v).funds_collected + amount <= u64::MAX,
        status_of(v).meals_served + count <= u64::MAX,
    ensures
        status_of(donate_transition(v, donor, amount, message)).funds_collected >= status_of(
            v,
        ).funds_collected,
        status_of(donate_transition(v, donor, amount, message)).meals_served >= status_of(
            v,
        ).meals_served,
        status_of(serve_transition(v, count)).meals_served >= status_of(v).meals_served,
        status_of(serve_transition(v, count)).funds_collected >= status_of(v).funds_collected,
{
}

/// Donation overwrite: after a nonempty sequence of `donate` calls, the
/// stored donation record is exactly the last call's donor, amount, and
/// message — earlier donations leave no trace in it.
pub proof fn lemma_donation_overwrite(v: ContractView, calls: Seq<DonationView>)
    requires
        calls.len() > 0,
    ensures
        apply_donations(v, calls).donation_log == Some(calls.last()),
{
}

/// Default state: while no aggregate record exists, the reported status is
/// the zero default.
pub proof fn lemma_default_status(v: ContractView)
    requires
        v.service is None,
    ensures
        status_of(v) == default_status(),
{
}

/// Idempotent reads: what a read reports is a pure function of the stored
/// state, so reads with no intervening mutation agree. That a read changes
/// nothing — the lease included — is carried by `get_service_status` taking
/// its receiver by shared reference.
pub proof fn lemma_read_idempotent(v1: ContractView, v2: ContractView)
    requires
        v1 == v2,
    ensures
        status_of(v1) == status_of(v2),
{
}

} // verus!
