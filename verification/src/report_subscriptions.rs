//! The reporting job: every subscription that is not reported yet is
//! submitted to the network, once, and the outcome is written to its ledger.

use crate::cj::ReportOutcome;
use crate::models::status_history::Status;
use crate::models::subscriptions::{
    after_transition, find_by_id, has_status, lemma_filter_keeps_unique_keys, moved, unique_keys,
    views, with_status, SubscriptionModel, SubscriptionView,
};
use crate::timestamp::Timestamp;
use vstd::prelude::*;

verus! {

/// What became of one attempt to report a subscription.
#[derive(Clone, Copy, Debug, PartialEq, Eq, Structural)]
pub enum ReportResult {
    /// The network accepted the report, and the subscription is `Reported`.
    Reported,
    /// The network refused the report. The subscription is `NotReported`
    /// again, with a new entry in its history for the attempt.
    Refused,
    /// No answer came back. The subscription is as it was.
    TransportFailure,
    /// The network accepted the report, but the subscription could not be
    /// marked: it still reads `NotReported`, so a later run will submit it
    /// again, to a network that may already have it. This is accepted, and
    /// told apart from the other failures because of it.
    InconsistentWrite,
    /// The network refused the report, and the attempt could not be
    /// logged. The subscription is as it was.
    RefusalNotRecorded,
}

/// One line of the job's report: a subscription and what became of the
/// attempt to report it.
#[derive(Clone, Copy, Debug, PartialEq, Eq, Structural)]
pub struct ReportLog {
    pub id: u128,
    pub result: ReportResult,
}

/// The status that a subscription takes after an attempt: `Reported` on an
/// answer with status code 200, `NotReported` on any other answer, and none,
/// which leaves the subscription untouched, when no answer came back.
pub open spec fn transition_for(outcome: ReportOutcome) -> Option<Status> {
    match outcome {
        ReportOutcome::Responded { status_code } => if status_code == 200 {
            Some(Status::Reported)
        } else {
            Some(Status::NotReported)
        },
        ReportOutcome::TransportFailure => None,
    }
}

/// What is reported of an attempt, given whether the subscription was
/// on record when the outcome was written.
pub open spec fn result_for(outcome: ReportOutcome, on_record: bool) -> ReportResult {
    match outcome {
        ReportOutcome::Responded { status_code } => if status_code == 200 {
            if on_record {
                ReportResult::Reported
            } else {
                ReportResult::InconsistentWrite
            }
        } else {
            if on_record {
                ReportResult::Refused
            } else {
                ReportResult::RefusalNotRecorded
            }
        },
        ReportOutcome::TransportFailure => ReportResult::TransportFailure,
    }
}

/// The rows after the outcome of the attempt for the subscription `id` was
/// written.
pub open spec fn after_report(
    rows: Seq<SubscriptionView>,
    id: u128,
    outcome: ReportOutcome,
    now: Timestamp,
) -> Seq<SubscriptionView> {
    match transition_for(outcome) {
        Some(status) => after_transition(rows, id, status, now),
        None => rows,
    }
}

/// The place of row `i` among the rows that are in `status`, counted from 0.
pub open spec fn turn(rows: Seq<SubscriptionView>, status: Status, i: int) -> int {
    rows.take(i).filter(with_status(status)).len() as int
}

/// Row `i` after a run of the job with these outcomes. The outcomes are
/// those of the rows that were `NotReported`, oldest first, one for each. A
/// row that was `NotReported` and has an outcome takes the status that its
/// outcome calls for. Every other row is untouched: one that was not
/// `NotReported`, and one whose attempt was never made.
pub open spec fn reported_row(
    rows: Seq<SubscriptionView>,
    i: int,
    outcomes: Seq<ReportOutcome>,
    now: Timestamp,
) -> SubscriptionView {
    let place = turn(rows, Status::NotReported, i);
    if has_status(rows[i], Status::NotReported) && place < outcomes.len() {
        match transition_for(outcomes[place]) {
            Some(status) => moved(rows[i], status, now),
            None => rows[i],
        }
    } else {
        rows[i]
    }
}

/// The rows after a run of the job with these outcomes.
pub open spec fn reported_rows(
    rows: Seq<SubscriptionView>,
    outcomes: Seq<ReportOutcome>,
    now: Timestamp,
) -> Seq<SubscriptionView> {
    Seq::new(rows.len(), |i: int| reported_row(rows, i, outcomes, now))
}

/// The report of a run of the job: one line for each attempt, in order.
pub open spec fn report_log(rows: Seq<SubscriptionView>, outcomes: Seq<ReportOutcome>) -> Seq<
    ReportLog,
> {
    let pending = rows.filter(with_status(Status::NotReported));
    Seq::new(
        if pending.len() <= outcomes.len() {
            pending.len()
        } else {
            outcomes.len()
        },
        |k: int| ReportLog { id: pending[k].facts.id, result: result_for(outcomes[k], true) },
    )
}

/// What a run does to one row: the billing facts stay; a row that is
/// touched was `NotReported`, its attempt got an answer, and its history has
/// grown by exactly one entry, for that attempt; a row that was not
/// `NotReported`, or whose attempt got no answer, is as it was.
pub proof fn lemma_reported_row(
    rows: Seq<SubscriptionView>,
    i: int,
    outcomes: Seq<ReportOutcome>,
    now: Timestamp,
)
    requires
        0 <= i < rows.len(),
    ensures
        reported_row(rows, i, outcomes, now).facts == rows[i].facts,
        !has_status(rows[i], Status::NotReported) ==> reported_row(rows, i, outcomes, now)
            == rows[i],
        reported_row(rows, i, outcomes, now) == rows[i] || {
            let place = turn(rows, Status::NotReported, i);
            &&& has_status(rows[i], Status::NotReported)
            &&& 0 <= place < outcomes.len()
            &&& outcomes[place] is Responded
            &&& reported_row(rows, i, outcomes, now).ledger.entries().len()
                == rows[i].ledger.entries().len() + 1
            &&& reported_row(rows, i, outcomes, now).ledger.in_step()
            &&& reported_row(rows, i, outcomes, now).ledger.status_t == Some(now)
        },
        has_status(rows[i], Status::NotReported) && turn(rows, Status::NotReported, i)
            < outcomes.len() ==> match outcomes[turn(rows, Status::NotReported, i)] {
            ReportOutcome::Responded { status_code } => reported_row(
                rows,
                i,
                outcomes,
                now,
            ).ledger.status == Some(
                if status_code == 200 {
                    Status::Reported
                } else {
                    Status::NotReported
                },
            ),
            ReportOutcome::TransportFailure => reported_row(rows, i, outcomes, now) == rows[i],
        },
{
}

/// The status that an attempt's outcome calls for.
pub fn report_transition(outcome: ReportOutcome) -> (status: Option<Status>)
    ensures
        status == transition_for(outcome),
{
    match outcome {
        ReportOutcome::Responded { status_code } => {
            if status_code == 200 {
                Some(Status::Reported)
            } else {
                Some(Status::NotReported)
            }
        },
        ReportOutcome::TransportFailure => None,
    }
}

/// Writes the outcome of the attempt to report the subscription `id`, as
/// of `now`, and says what became of the attempt. An answer moves the
/// subscription: to `Reported` on status code 200, to `NotReported` on any
/// other, each with an entry in its history. Without an answer nothing is
/// written. Where the subscription is not on record when the outcome is to
/// be written, nothing is written either, and the result says so.
pub fn record_report_outcome(
    store: &mut SubscriptionModel,
    id: &u128,
    outcome: ReportOutcome,
    now: Timestamp,
) -> (result: ReportResult)
    ensures
        final(store)@ == after_report(old(store)@, *id, outcome, now),
        result == result_for(outcome, find_by_id(old(store)@, *id) is Ok),
{
    match report_transition(outcome) {
        Some(Status::Reported) => {
            match store.update_sub_status_at(id, Status::Reported, now) {
                Ok(_) => ReportResult::Reported,
                Err(_) => ReportResult::InconsistentWrite,
            }
        },
        Some(status) => {
            match store.update_sub_status_at(id, status, now) {
                Ok(_) => ReportResult::Refused,
                Err(_) => ReportResult::RefusalNotRecorded,
            }
        },
        None => ReportResult::TransportFailure,
    }
}

/// A row that meets a condition is found, among the rows that meet it, at
/// the place that `turn` gives.
pub proof fn lemma_turn(rows: Seq<SubscriptionView>, status: Status, i: int)
    requires
        0 <= i < rows.len(),
        has_status(rows[i], status),
    ensures
        0 <= turn(rows, status, i) < rows.filter(with_status(status)).len(),
        rows.filter(with_status(status))[turn(rows, status, i)] == rows[i],
{
    let pred = with_status(status);
    let upto = rows.take(i + 1);
    let rest = rows.skip(i + 1);
    assert(upto.drop_last() =~= rows.take(i));
    assert(upto.last() == rows[i]);
    assert(upto.filter(pred) == rows.take(i).filter(pred).push(rows[i])) by {
        reveal(Seq::filter);
    }
    assert(rows =~= upto + rest);
    Seq::filter_distributes_over_add(upto, rest, pred);
}

/// Runs the job over the store, given the outcome of submitting each
/// subscription that is `NotReported`, oldest first: `outcomes[k]` is the
/// outcome for the `k`-th of them. Each outcome is written as of `now`, to its
/// own subscription and to no other, so that no subscription is attempted
/// twice in a run. A subscription for which there is no outcome was not
/// attempted, and stays as it is.
pub fn report_subscriptions_to_cj(
    store: &mut SubscriptionModel,
    outcomes: &Vec<ReportOutcome>,
    now: Timestamp,
) -> (log: Vec<ReportLog>)
    ensures
        final(store)@ == reported_rows(old(store)@, outcomes@, now),
        log@ == report_log(old(store)@, outcomes@),
{
    let ghost before = store@;
    let pending = store.fetch_all_by_status(Status::NotReported);
    let mut log: Vec<ReportLog> = Vec::new();
    proof {
        lemma_filter_keeps_unique_keys(before, with_status(Status::NotReported));
    }
    let mut k: usize = 0;
    while k < pending.len() && k < outcomes.len()
        invariant
            k <= pending.len(),
            k <= outcomes.len(),
            unique_keys(before),
            views(pending@) == before.filter(with_status(Status::NotReported)),
            unique_keys(views(pending@)),
            forall|j: int|
                0 <= j < pending@.len() ==> before.contains(#[trigger] views(pending@)[j])
                    && has_status(views(pending@)[j], Status::NotReported),
            store@.len() == before.len(),
            forall|i: int|
                0 <= i < before.len() ==> #[trigger] store@[i] == if turn(
                    before,
                    Status::NotReported,
                    i,
                ) < k {
                    reported_row(before, i, outcomes@, now)
                } else {
                    before[i]
                },
            log@.len() == k,
            forall|j: int| 0 <= j < k ==> #[trigger] log@[j] == report_log(before, outcomes@)[j],
        decreases pending.len() - k,
    {
        let id = pending[k].id;
        let outcome = outcomes[k];
        let ghost row = views(pending@)[k as int];
        let ghost rows = store@;
        proof {
            // The subscription is one row of the store, the only one with its
            // id, and its place among the pending rows is `k`.
            assert(row == pending@[k as int]@);
            assert(before.contains(row));
            let at = choose|at: int| 0 <= at < before.len() && before[at] == row;
            lemma_turn(before, Status::NotReported, at);
            let place = turn(before, Status::NotReported, at);
            if place != k {
                assert(views(pending@)[place].facts.id != views(pending@)[k as int].facts.id);
            }
            assert forall|i: int| 0 <= i < before.len() implies rows[i].facts
                == before[i].facts by {}
            assert forall|i: int| 0 <= i < before.len() && i != at implies before[i].facts.id
                != id by {
                assert(before[i].facts.id != before[at].facts.id);
            }
            assert(rows[at] == before[at]);
            assert(rows[at].facts.id == id);
            assert(find_by_id(rows, id) is Ok);
        }
        let result = record_report_outcome(store, &id, outcome, now);
        log.push(ReportLog { id, result });
        proof {
            // That row now holds its outcome; every other row is as the step
            // found it.
            let at = choose|at: int| 0 <= at < before.len() && before[at] == row;
            assert forall|i: int| 0 <= i < before.len() implies #[trigger] store@[i] == if turn(
                before,
                Status::NotReported,
                i,
            ) < k + 1 {
                reported_row(before, i, outcomes@, now)
            } else {
                before[i]
            } by {
                if i == at {
                } else {
                    assert(store@[i] == rows[i]);
                    if turn(before, Status::NotReported, i) == k {
                        if has_status(before[i], Status::NotReported) {
                            lemma_turn(before, Status::NotReported, i);
                            assert(views(pending@)[k as int] == before[i]);
                        }
                    }
                }
            }
        }
        k += 1;
    }
    proof {
        assert forall|i: int| 0 <= i < before.len() implies store@[i] == reported_row(
            before,
            i,
            outcomes@,
            now,
        ) by {
            if has_status(before[i], Status::NotReported) {
                lemma_turn(before, Status::NotReported, i);
            }
        }
        assert(store@ =~= reported_rows(before, outcomes@, now));
        assert(log@ =~= report_log(before, outcomes@));
    }
    log
}

} // verus!
