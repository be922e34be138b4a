//! The verification job: what the network has on record is held against the
//! subscriptions that were reported to it.

use crate::cj::{order_id_of, order_id_text, record_views, CommissionRecord, CommissionRecordView};
use crate::models::status_history::{DateRange, Status, UpdateStatus};
use crate::models::subscriptions::{
    has_status, lemma_filter_keeps_unique_keys, moved, spans_status_times,
    unique_keys, views, with_status, BillingFacts, Subscription, SubscriptionModel,
    SubscriptionView,
};
use crate::timestamp::Timestamp;
use vstd::prelude::*;

verus! {

/// How long the network is given to take a report in before a report that it
/// does not show counts as not received: 36 hours, in seconds. A policy, not
/// a fact; the job takes the period to apply as an argument.
pub const GRACE_PERIOD_SECONDS: u64 = 129_600;

/// What the job is to do first.
#[derive(Clone, Copy, Debug, PartialEq, Eq, Structural)]
pub enum VerifyPlan {
    /// No subscription awaits verification: the network is not asked.
    NothingToVerify,
    /// Ask the network for the commissions posted between `min` and `max`.
    Query { min: Timestamp, max: Timestamp },
}

/// What the job found for one reported subscription.
#[derive(Clone, Copy, Debug, PartialEq, Eq, Structural)]
pub enum Verdict {
    /// The network has a matching record.
    Received,
    /// The network has no matching record, and has had time enough.
    NotReceived,
    /// The network has no matching record yet; the subscription is left as
    /// it is, to be looked at again.
    Pending,
}

/// One line of the job's report: a subscription and the verdict on it.
#[derive(Clone, Copy, Debug, PartialEq, Eq, Structural)]
pub struct Verification {
    pub id: u128,
    pub verdict: Verdict,
}

/// Whether a commission record is the record of a subscription: the order
/// id is the subscription's id, the amount is the plan's amount, and one of
/// the items is the plan. All three must hold.
pub open spec fn record_matches(
    record: CommissionRecordView,
    order_id: Seq<char>,
    plan_amount: i32,
    plan_id: Seq<char>,
) -> bool {
    &&& record.order_id == order_id
    &&& record.sale_amount == plan_amount
    &&& record.skus.contains(plan_id)
}

/// Whether one of the records matches a subscription with these facts.
pub open spec fn has_match(records: Seq<CommissionRecordView>, facts: BillingFacts) -> bool {
    exists|j: int|
        0 <= j < records.len() && record_matches(
            #[trigger] records[j],
            order_id_text(facts.id),
            facts.plan_amount,
            facts.plan_id,
        )
}

/// Whether a report made at `reported_at` is, at `now`, at least
/// `grace_seconds` old.
pub open spec fn old_enough(reported_at: Timestamp, now: Timestamp, grace_seconds: u64) -> bool {
    now.as_nanos() - reported_at.as_nanos() >= grace_seconds * 1_000_000_000
}

/// The verdict on a report: received where a record matches, whatever its
/// age; without a match, not received once the grace period is over, and
/// pending before.
pub open spec fn verdict(
    matched: bool,
    reported_at: Timestamp,
    now: Timestamp,
    grace_seconds: u64,
) -> Verdict {
    if matched {
        Verdict::Received
    } else if old_enough(reported_at, now, grace_seconds) {
        Verdict::NotReceived
    } else {
        Verdict::Pending
    }
}

/// The verdict on a reported row.
pub open spec fn verdict_of(
    row: SubscriptionView,
    records: Seq<CommissionRecordView>,
    now: Timestamp,
    grace_seconds: u64,
) -> Verdict
    recommends
        has_status(row, Status::Reported),
{
    verdict(has_match(records, row.facts), row.ledger.status_t->0, now, grace_seconds)
}

/// A row after verification: a reported row moves to `CJReceived` or to
/// `CJNotReceived` as the verdict says, and stays untouched while the
/// verdict is pending; a row that is not reported stays untouched.
pub open spec fn verified_row(
    row: SubscriptionView,
    records: Seq<CommissionRecordView>,
    now: Timestamp,
    grace_seconds: u64,
) -> SubscriptionView {
    if has_status(row, Status::Reported) {
        match verdict_of(row, records, now, grace_seconds) {
            Verdict::Received => moved(row, Status::CJReceived, now),
            Verdict::NotReceived => moved(row, Status::CJNotReceived, now),
            Verdict::Pending => row,
        }
    } else {
        row
    }
}

/// The rows after verification.
pub open spec fn verified_rows(
    rows: Seq<SubscriptionView>,
    records: Seq<CommissionRecordView>,
    now: Timestamp,
    grace_seconds: u64,
) -> Seq<SubscriptionView> {
    Seq::new(rows.len(), |i: int| verified_row(rows[i], records, now, grace_seconds))
}

/// The job's report: one line for each reported row, oldest first.
pub open spec fn verifications(
    rows: Seq<SubscriptionView>,
    records: Seq<CommissionRecordView>,
    now: Timestamp,
    grace_seconds: u64,
) -> Seq<Verification> {
    let reported = rows.filter(with_status(Status::Reported));
    Seq::new(
        reported.len(),
        |j: int|
            Verification {
                id: reported[j].facts.id,
                verdict: verdict_of(reported[j], records, now, grace_seconds),
            },
    )
}

/// A record matches only if all three of its parts agree: one with the right
/// order id and another amount, or another plan, is no match, and neither is
/// one with the right amount and plan and another order id.
pub proof fn lemma_match_needs_all_three(
    record: CommissionRecordView,
    order_id: Seq<char>,
    plan_amount: i32,
    plan_id: Seq<char>,
)
    ensures
        record.order_id != order_id ==> !record_matches(record, order_id, plan_amount, plan_id),
        record.sale_amount != plan_amount ==> !record_matches(
            record,
            order_id,
            plan_amount,
            plan_id,
        ),
        !record.skus.contains(plan_id) ==> !record_matches(record, order_id, plan_amount, plan_id),
{
}

/// A reported subscription for which every record fails in at least one of
/// the three parts is never taken as received: it moves to `CJNotReceived`
/// once the grace period is over, and is left untouched before.
pub proof fn lemma_partial_matches_are_not_received(
    row: SubscriptionView,
    records: Seq<CommissionRecordView>,
    now: Timestamp,
    grace_seconds: u64,
)
    requires
        has_status(row, Status::Reported),
        forall|j: int|
            0 <= j < records.len() ==> {
                ||| (#[trigger] records[j]).order_id != order_id_text(row.facts.id)
                ||| records[j].sale_amount != row.facts.plan_amount
                ||| !records[j].skus.contains(row.facts.plan_id)
            },
    ensures
        !has_match(records, row.facts),
        verdict_of(row, records, now, grace_seconds) != Verdict::Received,
        old_enough(row.ledger.status_t->0, now, grace_seconds) ==> verified_row(
            row,
            records,
            now,
            grace_seconds,
        ) == moved(row, Status::CJNotReceived, now),
        !old_enough(row.ledger.status_t->0, now, grace_seconds) ==> verified_row(
            row,
            records,
            now,
            grace_seconds,
        ) == row,
{
}

/// The grace period ends exactly at its length: without a match, a report
/// whose age is the grace period is not received, and one that is younger by
/// a single nanosecond is still pending.
pub proof fn lemma_grace_boundary(reported_at: Timestamp, now: Timestamp, grace_seconds: u64)
    ensures
        now.as_nanos() - reported_at.as_nanos() == grace_seconds * 1_000_000_000 ==> verdict(
            false,
            reported_at,
            now,
            grace_seconds,
        ) == Verdict::NotReceived,
        now.as_nanos() - reported_at.as_nanos() == grace_seconds * 1_000_000_000 - 1 ==> verdict(
            false,
            reported_at,
            now,
            grace_seconds,
        ) == Verdict::Pending,
        verdict(false, reported_at, now, grace_seconds) == Verdict::NotReceived <==> now.as_nanos()
            - reported_at.as_nanos() >= grace_seconds * 1_000_000_000,
        verdict(true, reported_at, now, grace_seconds) == Verdict::Received,
{
}

/// The grace period at work on a reported subscription that no record
/// matches: aged exactly the grace period it moves to `CJNotReceived`; one
/// nanosecond younger it stays `Reported`, with its history as it was.
pub proof fn lemma_grace_boundary_of_row(
    row: SubscriptionView,
    records: Seq<CommissionRecordView>,
    now: Timestamp,
    grace_seconds: u64,
)
    requires
        has_status(row, Status::Reported),
        !has_match(records, row.facts),
    ensures
        now.as_nanos() - row.ledger.status_t->0.as_nanos() == grace_seconds * 1_000_000_000
            ==> verified_row(row, records, now, grace_seconds).ledger.status == Some(
            Status::CJNotReceived,
        ),
        now.as_nanos() - row.ledger.status_t->0.as_nanos() == grace_seconds * 1_000_000_000 - 1
            ==> verified_row(row, records, now, grace_seconds) == row,
{
}

/// Verification writes to the history exactly when it moves a
/// subscription: a row that is moved gains one entry, for the move, and a row
/// that is left untouched gains none.
pub proof fn lemma_verified_row_history(
    row: SubscriptionView,
    records: Seq<CommissionRecordView>,
    now: Timestamp,
    grace_seconds: u64,
)
    ensures
        verified_row(row, records, now, grace_seconds).facts == row.facts,
        verified_row(row, records, now, grace_seconds) == row || {
            &&& has_status(row, Status::Reported)
            &&& verified_row(row, records, now, grace_seconds).ledger.entries().len()
                == row.ledger.entries().len() + 1
            &&& verified_row(row, records, now, grace_seconds).ledger.in_step()
            &&& verified_row(row, records, now, grace_seconds).ledger.status_t == Some(now)
        },
{
}

/// Decides whether the network is to be asked at all, and for which window:
/// from the earliest to the latest time at which a subscription that is
/// still `Reported` was reported.
pub fn plan_verification(store: &SubscriptionModel) -> (plan: VerifyPlan)
    ensures
        match plan {
            VerifyPlan::NothingToVerify => forall|i: int|
                0 <= i < store@.len() ==> !has_status(#[trigger] store@[i], Status::Reported),
            VerifyPlan::Query { min, max } => spans_status_times(
                DateRange { min: Some(min), max: Some(max) },
                store@,
                Status::Reported,
            ),
        },
{
    let range = store.get_reported_date_range();
    match (range.min, range.max) {
        (Some(min), Some(max)) => VerifyPlan::Query { min, max },
        _ => VerifyPlan::NothingToVerify,
    }
}

/// Whether a commission record is the record of the subscription with this
/// order id, plan amount and plan.
pub fn commission_matches(
    record: &CommissionRecord,
    order_id: &String,
    plan_amount: i32,
    plan_id: &String,
) -> (matched: bool)
    ensures
        matched == record_matches(record@, order_id@, plan_amount, plan_id@),
{
    if !(record.order_id == *order_id) {
        return false;
    }
    if record.sale_amount != plan_amount as i64 {
        return false;
    }
    let mut k: usize = 0;
    while k < record.items.len()
        invariant
            k <= record.items.len(),
            record@.order_id == order_id@,
            record@.sale_amount == plan_amount,
            forall|m: int| 0 <= m < k ==> record@.skus[m] != plan_id@,
        decreases record.items.len() - k,
    {
        if record.items[k].sku == *plan_id {
            assert(record@.skus[k as int] == plan_id@);
            assert(record@.skus.contains(plan_id@));
            return true;
        }
        k += 1;
    }
    false
}

/// Whether one of the records is the record of the subscription.
pub fn find_commission(records: &Vec<CommissionRecord>, sub: &Subscription) -> (found: bool)
    ensures
        found == has_match(record_views(records@), sub@.facts),
{
    let order_id = order_id_of(sub.id);
    let mut j: usize = 0;
    while j < records.len()
        invariant
            j <= records.len(),
            order_id@ == order_id_text(sub.id),
            forall|m: int|
                0 <= m < j ==> !record_matches(
                    #[trigger] record_views(records@)[m],
                    order_id_text(sub@.facts.id),
                    sub@.facts.plan_amount,
                    sub@.facts.plan_id,
                ),
        decreases records.len() - j,
    {
        if commission_matches(&records[j], &order_id, sub.plan_amount, &sub.plan_id) {
            assert(record_matches(
                record_views(records@)[j as int],
                order_id_text(sub@.facts.id),
                sub@.facts.plan_amount,
                sub@.facts.plan_id,
            ));
            return true;
        }
        j += 1;
    }
    false
}

/// The verdict on a report made at `reported_at`, as of `now`.
pub fn classify(matched: bool, reported_at: Timestamp, now: Timestamp, grace_seconds: u64) -> (v:
    Verdict)
    ensures
        v == verdict(matched, reported_at, now, grace_seconds),
{
    if matched {
        Verdict::Received
    } else {
        let age: i128 = now.unix_timestamp_nanos() - reported_at.unix_timestamp_nanos();
        let grace: i128 = grace_seconds as i128 * 1_000_000_000;
        if age >= grace {
            Verdict::NotReceived
        } else {
            Verdict::Pending
        }
    }
}

/// Runs the verification over the store, given what the network returned
/// for the window of `plan_verification`. Every subscription that is
/// `Reported` gets its verdict as of `now`: with a matching record it moves to
/// `CJReceived`; without one it moves to `CJNotReceived` once
/// `grace_seconds` have passed since it was reported, and is left untouched
/// before. Each move is logged in the subscription's history; a subscription
/// left untouched gets no entry.
pub fn verify_reports_with_cj(
    store: &mut SubscriptionModel,
    records: &Vec<CommissionRecord>,
    now: Timestamp,
    grace_seconds: u64,
) -> (report: Vec<Verification>)
    ensures
        final(store)@ == verified_rows(old(store)@, record_views(records@), now, grace_seconds),
        report@ == verifications(old(store)@, record_views(records@), now, grace_seconds),
{
    let ghost before = store@;
    let ghost recs = record_views(records@);
    let reported = store.fetch_all_by_status(Status::Reported);
    let mut report: Vec<Verification> = Vec::new();
    proof {
        lemma_filter_keeps_unique_keys(before, with_status(Status::Reported));
    }
    let mut k: usize = 0;
    while k < reported.len()
        invariant
            k <= reported.len(),
            unique_keys(before),
            recs == record_views(records@),
            views(reported@) == before.filter(with_status(Status::Reported)),
            unique_keys(views(reported@)),
            forall|j: int|
                0 <= j < reported@.len() ==> before.contains(#[trigger] views(reported@)[j])
                    && has_status(views(reported@)[j], Status::Reported),
            store@.len() == before.len(),
            forall|i: int|
                0 <= i < before.len() ==> #[trigger] store@[i] == if exists|j: int|
                    0 <= j < k && #[trigger] views(reported@)[j].facts.id == before[i].facts.id {
                    verified_row(before[i], recs, now, grace_seconds)
                } else {
                    before[i]
                },
            report@.len() == k,
            forall|j: int|
                0 <= j < k ==> #[trigger] report@[j] == verifications(
                    before,
                    recs,
                    now,
                    grace_seconds,
                )[j],
        decreases reported.len() - k,
    {
        let sub = &reported[k];
        let ghost row = views(reported@)[k as int];
        let ghost rows = store@;
        assert(row == sub@);
        assert(has_status(row, Status::Reported));
        let matched = find_commission(records, sub);
        let reported_at = match sub.get_status_t() {
            Some(t) => t,
            // Only subscriptions with the time on record were fetched.
            None => unreached(),
        };
        let v = classify(matched, reported_at, now, grace_seconds);
        assert(v == verdict_of(row, recs, now, grace_seconds));
        proof {
            // The subscription is one row of the store, the only one with its
            // id, and no earlier step has touched it.
            assert(before.contains(row));
            let at = choose|at: int| 0 <= at < before.len() && before[at] == row;
            assert forall|i: int| 0 <= i < before.len() && i != at implies before[i].facts.id
                != row.facts.id by {
                assert(before[i].facts.id != before[at].facts.id);
            }
            assert forall|j: int| 0 <= j < k implies views(reported@)[j].facts.id
                != row.facts.id by {
                assert(views(reported@)[j].facts.id != views(reported@)[k as int].facts.id);
            }
            assert(rows[at] == before[at]);
            assert forall|i: int| 0 <= i < before.len() implies rows[i].facts
                == before[i].facts by {}
        }
        match v {
            Verdict::Received => {
                let _ = store.update_sub_status_at(&sub.id, Status::CJReceived, now);
            },
            Verdict::NotReceived => {
                let _ = store.update_sub_status_at(&sub.id, Status::CJNotReceived, now);
            },
            Verdict::Pending => {},
        }
        report.push(Verification { id: sub.id, verdict: v });
        proof {
            // That row now holds its verdict; every other row is as the step
            // found it.
            let at = choose|at: int| 0 <= at < before.len() && before[at] == row;
            assert(store@[at] == verified_row(before[at], recs, now, grace_seconds));
            assert forall|i: int| 0 <= i < before.len() implies #[trigger] store@[i] == if exists|
                j: int,
            |
                0 <= j < k + 1 && #[trigger] views(reported@)[j].facts.id == before[i].facts.id {
                verified_row(before[i], recs, now, grace_seconds)
            } else {
                before[i]
            } by {
                if i == at {
                    assert(views(reported@)[k as int].facts.id == before[i].facts.id);
                } else {
                    assert(store@[i] == rows[i]);
                    assert(views(reported@)[k as int].facts.id != before[i].facts.id);
                }
            }
        }
        k += 1;
    }
    proof {
        // Every reported row had its step, and the steps were those of
        // reported rows only.
        assert forall|i: int| 0 <= i < before.len() implies store@[i] == verified_row(
            before[i],
            recs,
            now,
            grace_seconds,
        ) by {
            if has_status(before[i], Status::Reported) {
                let picked = before.filter(with_status(Status::Reported));
                assert(picked.contains(before[i]));
                let j = choose|j: int| 0 <= j < picked.len() && picked[j] == before[i];
                assert(views(reported@)[j].facts.id == before[i].facts.id);
            } else {
                if exists|j: int|
                    0 <= j < k && #[trigger] views(reported@)[j].facts.id == before[i].facts.id {
                    let j = choose|j: int|
                        0 <= j < k && #[trigger] views(reported@)[j].facts.id
                            == before[i].facts.id;
                    assert(before.contains(views(reported@)[j]));
                    let at = choose|at: int|
                        0 <= at < before.len() && before[at] == views(reported@)[j];
                    assert(at == i);
                }
            }
        }
        assert(store@ =~= verified_rows(before, recs, now, grace_seconds));
        assert(report@ =~= verifications(before, recs, now, grace_seconds));
    }
    report
}

} // verus!
