//! Subscriptions and the store that holds them.

use crate::models::status_history::{
    DateRange, LedgerView, Status, StatusHistory, StatusHistoryEntry, StatusLedger, UpdateStatus,
};
use crate::timestamp::{now_utc, Timestamp};
use vstd::prelude::*;
use vstd::std_specs::cmp::PartialEqSpecImpl;

verus! {

/// The view of a text that may be absent.
pub open spec fn text_view(text: Option<String>) -> Option<Seq<char>> {
    match text {
        Some(t) => Some(t@),
        None => None,
    }
}

/// The identifier of a user after hashing. A value of this type is never made
/// from an identifier as the user's account has it: whoever makes one says,
/// by calling `from_hash`, that what is handed over is the hash.
#[derive(Debug)]
pub struct HashedUid {
    hash: String,
}

impl View for HashedUid {
    type V = Seq<char>;

    closed spec fn view(&self) -> Seq<char> {
        self.hash@
    }
}

impl HashedUid {
    /// Takes a hash for what it is.
    pub fn from_hash(hash: String) -> (uid: HashedUid)
        ensures
            uid@ == hash@,
    {
        HashedUid { hash }
    }

    /// The hash as text.
    pub fn as_str(&self) -> (hash: &str)
        ensures
            hash@ == self@,
    {
        self.hash.as_str()
    }
}

impl Clone for HashedUid {
    fn clone(&self) -> (copy: Self)
        ensures
            copy@ == self@,
    {
        HashedUid { hash: self.hash.clone() }
    }
}

impl PartialEq for HashedUid {
    fn eq(&self, other: &Self) -> (equal: bool) {
        self.hash == other.hash
    }
}

impl PartialEqSpecImpl for HashedUid {
    open spec fn obeys_eq_spec() -> bool {
        true
    }

    open spec fn eq_spec(&self, other: &HashedUid) -> bool {
        self@ == other@
    }
}

impl Eq for HashedUid {

}

/// What is known of a purchase when it is first recorded. None of it
/// changes afterwards.
pub struct BillingFacts {
    pub id: u128,
    pub flow_id: Seq<char>,
    pub subscription_id: Seq<char>,
    pub report_timestamp: Timestamp,
    pub subscription_created: Timestamp,
    pub fxa_uid: Seq<char>,
    pub quantity: i32,
    pub plan_id: Seq<char>,
    pub plan_currency: Seq<char>,
    pub plan_amount: i32,
    pub country: Option<Seq<char>>,
    pub coupons: Option<Seq<char>>,
    pub aic_id: Option<u128>,
    pub aic_expires: Option<Timestamp>,
    pub cj_event_value: Option<Seq<char>>,
}

/// A subscription as the contracts see it: its billing facts and its ledger.
pub struct SubscriptionView {
    pub facts: BillingFacts,
    pub ledger: LedgerView,
}

/// All the public fields of a subscription, for construction.
pub struct PartialSubscription {
    pub id: u128,
    pub flow_id: String,
    pub subscription_id: String,
    pub report_timestamp: Timestamp,
    pub subscription_created: Timestamp,
    pub fxa_uid: HashedUid,
    pub quantity: i32,
    pub plan_id: String,
    pub plan_currency: String,
    pub plan_amount: i32,
    pub country: Option<String>,
    pub coupons: Option<String>,
    pub aic_id: Option<u128>,
    pub aic_expires: Option<Timestamp>,
    pub cj_event_value: Option<String>,
}

impl View for PartialSubscription {
    type V = BillingFacts;

    open spec fn view(&self) -> BillingFacts {
        BillingFacts {
            id: self.id,
            flow_id: self.flow_id@,
            subscription_id: self.subscription_id@,
            report_timestamp: self.report_timestamp,
            subscription_created: self.subscription_created,
            fxa_uid: self.fxa_uid@,
            quantity: self.quantity,
            plan_id: self.plan_id@,
            plan_currency: self.plan_currency@,
            plan_amount: self.plan_amount,
            country: text_view(self.country),
            coupons: text_view(self.coupons),
            aic_id: self.aic_id,
            aic_expires: self.aic_expires,
            cj_event_value: text_view(self.cj_event_value),
        }
    }
}

/// One purchase that is reported to the network, with the ledger of what
/// became of the report.
#[derive(Debug)]
pub struct Subscription {
    pub id: u128,
    pub flow_id: String,
    pub subscription_id: String,
    pub report_timestamp: Timestamp,
    pub subscription_created: Timestamp,
    pub fxa_uid: HashedUid,
    pub quantity: i32,
    pub plan_id: String,
    pub plan_currency: String,
    pub plan_amount: i32,
    pub country: Option<String>,
    pub coupons: Option<String>,
    pub aic_id: Option<u128>,
    pub aic_expires: Option<Timestamp>,
    pub cj_event_value: Option<String>,
    /// The status, its time and its history.
    pub ledger: StatusLedger,
}

impl Subscription {
    /// The billing facts of the subscription.
    pub open spec fn facts(&self) -> BillingFacts {
        BillingFacts {
            id: self.id,
            flow_id: self.flow_id@,
            subscription_id: self.subscription_id@,
            report_timestamp: self.report_timestamp,
            subscription_created: self.subscription_created,
            fxa_uid: self.fxa_uid@,
            quantity: self.quantity,
            plan_id: self.plan_id@,
            plan_currency: self.plan_currency@,
            plan_amount: self.plan_amount,
            country: text_view(self.country),
            coupons: text_view(self.coupons),
            aic_id: self.aic_id,
            aic_expires: self.aic_expires,
            cj_event_value: text_view(self.cj_event_value),
        }
    }
}

impl View for Subscription {
    type V = SubscriptionView;

    open spec fn view(&self) -> SubscriptionView {
        SubscriptionView { facts: self.facts(), ledger: self.ledger() }
    }
}

impl Subscription {
    /// A new subscription with the given billing facts. Its ledger records
    /// one transition, to `NotReported`, at the system clock's reading.
    pub fn new(partial_sub: PartialSubscription) -> (sub: Self)
        ensures
            sub@.facts == partial_sub@,
            exists|now: Timestamp|
                sub@.ledger == LedgerView::absent().record(Status::NotReported, now),
            sub@.ledger.status == Some(Status::NotReported),
            sub@.ledger.entries().len() == 1,
            sub@.ledger.entries()[0].status == Status::NotReported,
            sub@.ledger.in_step(),
    {
        let now = now_utc();
        Subscription::new_at(partial_sub, now)
    }

    /// A new subscription with the given billing facts, whose ledger records
    /// one transition, to `NotReported` at `now`.
    pub fn new_at(partial_sub: PartialSubscription, now: Timestamp) -> (sub: Self)
        ensures
            sub@.facts == partial_sub@,
            sub@.ledger == LedgerView::absent().record(Status::NotReported, now),
            sub@.ledger.status == Some(Status::NotReported),
            sub@.ledger.status_t == Some(now),
            sub@.ledger.entries() == seq![
                StatusHistoryEntry { t: now, status: Status::NotReported },
            ],
            sub@.ledger.entries().len() == 1,
            sub@.ledger.entries()[0].status == Status::NotReported,
            sub@.ledger.in_step(),
    {
        let mut sub = Subscription {
            id: partial_sub.id,
            flow_id: partial_sub.flow_id,
            subscription_id: partial_sub.subscription_id,
            report_timestamp: partial_sub.report_timestamp,
            subscription_created: partial_sub.subscription_created,
            fxa_uid: partial_sub.fxa_uid,
            quantity: partial_sub.quantity,
            plan_id: partial_sub.plan_id,
            plan_currency: partial_sub.plan_currency,
            plan_amount: partial_sub.plan_amount,
            country: partial_sub.country,
            coupons: partial_sub.coupons,
            aic_id: partial_sub.aic_id,
            aic_expires: partial_sub.aic_expires,
            cj_event_value: partial_sub.cj_event_value,
            ledger: StatusLedger::absent(),
        };
        sub.update_status_at(Status::NotReported, now);
        sub
    }
}

fn clone_text(text: &Option<String>) -> (copy: Option<String>)
    ensures
        copy == *text,
{
    match text {
        Some(t) => Some(t.clone()),
        None => None,
    }
}

impl Clone for Subscription {
    fn clone(&self) -> (copy: Self)
        ensures
            copy@ == self@,
    {
        Subscription {
            id: self.id,
            flow_id: self.flow_id.clone(),
            subscription_id: self.subscription_id.clone(),
            report_timestamp: self.report_timestamp,
            subscription_created: self.subscription_created,
            fxa_uid: self.fxa_uid.clone(),
            quantity: self.quantity,
            plan_id: self.plan_id.clone(),
            plan_currency: self.plan_currency.clone(),
            plan_amount: self.plan_amount,
            country: clone_text(&self.country),
            coupons: clone_text(&self.coupons),
            aic_id: self.aic_id,
            aic_expires: self.aic_expires,
            cj_event_value: clone_text(&self.cj_event_value),
            ledger: self.ledger.clone(),
        }
    }
}

/// Whether two instants fall into the same second. Fractions of a second do
/// not survive persistence, so no comparison of records looks at them.
pub open spec fn same_second(a: Timestamp, b: Timestamp) -> bool {
    a.unix_timestamp() == b.unix_timestamp()
}

/// `same_second` of two instants that may be absent: both absent, or both
/// present and in the same second.
pub open spec fn same_second_if_present(a: Option<Timestamp>, b: Option<Timestamp>) -> bool {
    match (a, b) {
        (Some(x), Some(y)) => same_second(x, y),
        (None, None) => true,
        _ => false,
    }
}

/// The equality of subscriptions: the same billing facts and the same
/// status, with every instant compared by its second. The history is not
/// compared.
pub open spec fn semantically_equal(a: SubscriptionView, b: SubscriptionView) -> bool {
    &&& a.facts.id == b.facts.id
    &&& a.facts.flow_id == b.facts.flow_id
    &&& a.facts.subscription_id == b.facts.subscription_id
    &&& same_second(a.facts.report_timestamp, b.facts.report_timestamp)
    &&& same_second(a.facts.subscription_created, b.facts.subscription_created)
    &&& a.facts.fxa_uid == b.facts.fxa_uid
    &&& a.facts.quantity == b.facts.quantity
    &&& a.facts.plan_id == b.facts.plan_id
    &&& a.facts.plan_currency == b.facts.plan_currency
    &&& a.facts.plan_amount == b.facts.plan_amount
    &&& a.facts.country == b.facts.country
    &&& a.facts.coupons == b.facts.coupons
    &&& a.facts.aic_id == b.facts.aic_id
    &&& same_second_if_present(a.facts.aic_expires, b.facts.aic_expires)
    &&& a.facts.cj_event_value == b.facts.cj_event_value
    &&& a.ledger.status == b.ledger.status
    &&& same_second_if_present(a.ledger.status_t, b.ledger.status_t)
}

fn same_text(a: &Option<String>, b: &Option<String>) -> (same: bool)
    ensures
        same == (text_view(*a) == text_view(*b)),
{
    match (a, b) {
        (Some(x), Some(y)) => *x == *y,
        (None, None) => true,
        _ => false,
    }
}

fn same_second_or_absent(a: Option<Timestamp>, b: Option<Timestamp>) -> (same: bool)
    ensures
        same == same_second_if_present(a, b),
{
    match (a, b) {
        (Some(x), Some(y)) => x.unix_timestamp() == y.unix_timestamp(),
        (None, None) => true,
        _ => false,
    }
}

fn same_id(a: Option<u128>, b: Option<u128>) -> (same: bool)
    ensures
        same == (a == b),
{
    match (a, b) {
        (Some(x), Some(y)) => x == y,
        (None, None) => true,
        _ => false,
    }
}

fn same_status(a: Option<Status>, b: Option<Status>) -> (same: bool)
    ensures
        same == (a == b),
{
    match (a, b) {
        (Some(x), Some(y)) => x == y,
        (None, None) => true,
        _ => false,
    }
}

impl PartialEq for Subscription {
    fn eq(&self, other: &Self) -> (equal: bool) {
        let simple_match = self.id == other.id && self.flow_id == other.flow_id
            && self.subscription_id == other.subscription_id
            && self.report_timestamp.unix_timestamp() == other.report_timestamp.unix_timestamp()
            && self.subscription_created.unix_timestamp()
            == other.subscription_created.unix_timestamp() && self.fxa_uid == other.fxa_uid
            && self.quantity == other.quantity && self.plan_id == other.plan_id
            && self.plan_currency == other.plan_currency && self.plan_amount == other.plan_amount
            && same_text(&self.country, &other.country) && same_text(&self.coupons, &other.coupons)
            && same_id(self.aic_id, other.aic_id) && same_text(
            &self.cj_event_value,
            &other.cj_event_value,
        ) && same_status(self.get_status(), other.get_status());
        let aic_expires_match = same_second_or_absent(self.aic_expires, other.aic_expires);
        let status_t_match = same_second_or_absent(self.get_status_t(), other.get_status_t());
        status_t_match && aic_expires_match && simple_match
    }
}

impl PartialEqSpecImpl for Subscription {
    open spec fn obeys_eq_spec() -> bool {
        true
    }

    open spec fn eq_spec(&self, other: &Subscription) -> bool {
        semantically_equal(self@, other@)
    }
}

impl Eq for Subscription {

}

/// The equality of subscriptions is an equivalence, and it does not look at
/// the history or at fractions of a second.
pub proof fn lemma_semantically_equal(
    a: SubscriptionView,
    b: SubscriptionView,
    c: SubscriptionView,
)
    ensures
        semantically_equal(a, a),
        semantically_equal(a, b) == semantically_equal(b, a),
        semantically_equal(a, b) && semantically_equal(b, c) ==> semantically_equal(a, c),
        a.facts == b.facts && a.ledger.status == b.ledger.status && a.ledger.status_t
            == b.ledger.status_t ==> semantically_equal(a, b),
{
}

impl UpdateStatus for Subscription {
    type Carried = BillingFacts;

    open spec fn ledger(&self) -> LedgerView {
        self.ledger@
    }

    open spec fn carried(&self) -> BillingFacts {
        self.facts()
    }

    fn get_status(&self) -> (status: Option<Status>) {
        self.ledger.get_status()
    }

    fn get_status_t(&self) -> (status_t: Option<Timestamp>) {
        self.ledger.get_status_t()
    }

    fn get_status_history(&self) -> (history: Option<StatusHistory>) {
        self.ledger.get_status_history()
    }

    fn set_status(&mut self, v: Option<Status>) {
        self.ledger.set_status(v);
    }

    fn set_status_t(&mut self, v: Option<Timestamp>) {
        self.ledger.set_status_t(v);
    }

    fn set_status_history(&mut self, v: Option<StatusHistory>) {
        self.ledger.set_status_history(v);
    }
}

/// Why the store refused an operation.
#[derive(Clone, Copy, Debug, PartialEq, Eq, Structural)]
pub enum StoreError {
    /// No record has the key that was asked for.
    NotFound,
    /// A record with the same id, flow id or subscription id is already held.
    Conflict,
}

/// The views of a list of subscriptions, in order.
pub open spec fn views(subs: Seq<Subscription>) -> Seq<SubscriptionView> {
    Seq::new(subs.len(), |i: int| subs[i]@)
}

/// What a fetch of one record returned, with the record taken by its view.
pub open spec fn fetched(r: Result<Subscription, StoreError>) -> Result<
    SubscriptionView,
    StoreError,
> {
    match r {
        Ok(sub) => Ok(sub@),
        Err(e) => Err(e),
    }
}

/// No two rows share an id, a flow id or a subscription id.
pub open spec fn unique_keys(rows: Seq<SubscriptionView>) -> bool {
    forall|i: int, j: int|
        #![trigger rows[i], rows[j]]
        0 <= i < rows.len() && 0 <= j < rows.len() && i != j ==> {
            &&& rows[i].facts.id != rows[j].facts.id
            &&& rows[i].facts.flow_id != rows[j].facts.flow_id
            &&& rows[i].facts.subscription_id != rows[j].facts.subscription_id
        }
}

/// Whether two records would share an id, a flow id or a subscription id.
pub open spec fn same_identity(a: BillingFacts, b: BillingFacts) -> bool {
    a.id == b.id || a.flow_id == b.flow_id || a.subscription_id == b.subscription_id
}

/// Whether a record with these facts would share an id, a flow id or a
/// subscription id with a row.
pub open spec fn conflicts(rows: Seq<SubscriptionView>, facts: BillingFacts) -> bool {
    exists|i: int| 0 <= i < rows.len() && same_identity(#[trigger] rows[i].facts, facts)
}

/// The row whose id is `id`, or `NotFound`.
pub open spec fn find_by_id(rows: Seq<SubscriptionView>, id: u128) -> Result<
    SubscriptionView,
    StoreError,
> {
    if exists|i: int| 0 <= i < rows.len() && #[trigger] rows[i].facts.id == id {
        Ok(rows[choose|i: int| 0 <= i < rows.len() && #[trigger] rows[i].facts.id == id])
    } else {
        Err(StoreError::NotFound)
    }
}

/// The row whose flow id is `flow_id`, or `NotFound`.
pub open spec fn find_by_flow_id(rows: Seq<SubscriptionView>, flow_id: Seq<char>) -> Result<
    SubscriptionView,
    StoreError,
> {
    if exists|i: int| 0 <= i < rows.len() && #[trigger] rows[i].facts.flow_id == flow_id {
        Ok(
            rows[choose|i: int| 0 <= i < rows.len() && #[trigger] rows[i].facts.flow_id == flow_id],
        )
    } else {
        Err(StoreError::NotFound)
    }
}

/// The row whose subscription id is `subscription_id`, or `NotFound`.
pub open spec fn find_by_subscription_id(
    rows: Seq<SubscriptionView>,
    subscription_id: Seq<char>,
) -> Result<SubscriptionView, StoreError> {
    if exists|i: int|
        0 <= i < rows.len() && #[trigger] rows[i].facts.subscription_id == subscription_id {
        Ok(
            rows[choose|i: int|
                0 <= i < rows.len() && #[trigger] rows[i].facts.subscription_id
                    == subscription_id],
        )
    } else {
        Err(StoreError::NotFound)
    }
}

/// Whether a row counts as being in `status`: it is, and the time at which
/// it took the status is on record. A row whose status was set without a
/// time is in no status as far as the jobs are concerned.
pub open spec fn has_status(row: SubscriptionView, status: Status) -> bool {
    row.ledger.status == Some(status) && row.ledger.status_t is Some
}

/// `has_status` as a predicate on rows.
pub open spec fn with_status(status: Status) -> spec_fn(SubscriptionView) -> bool {
    |row: SubscriptionView| has_status(row, status)
}

/// A row after a transition to `status` at `at`: the billing facts stay, the
/// ledger records the transition.
pub open spec fn moved(row: SubscriptionView, status: Status, at: Timestamp) -> SubscriptionView {
    SubscriptionView { facts: row.facts, ledger: row.ledger.record(status, at) }
}

/// The rows after the row with id `id`, if there is one, was moved to
/// `status` at `at`. Every other row is as it was.
pub open spec fn after_transition(
    rows: Seq<SubscriptionView>,
    id: u128,
    status: Status,
    at: Timestamp,
) -> Seq<SubscriptionView> {
    Seq::new(
        rows.len(),
        |i: int|
            if rows[i].facts.id == id {
                moved(rows[i], status, at)
            } else {
                rows[i]
            },
    )
}

/// Whether `range` spans the times at which the rows in `status` took it:
/// both ends absent where no row is in `status`; otherwise each end is the
/// time of such a row, none of them earlier than `min` or later than `max`.
pub open spec fn spans_status_times(
    range: DateRange,
    rows: Seq<SubscriptionView>,
    status: Status,
) -> bool {
    let none_in_status = forall|i: int|
        0 <= i < rows.len() ==> !has_status(#[trigger] rows[i], status);
    &&& range.min is None <==> none_in_status
    &&& range.max is None <==> none_in_status
    &&& range.min matches Some(min) ==> {
        &&& exists|i: int|
            0 <= i < rows.len() && has_status(#[trigger] rows[i], status) && rows[i].ledger.status_t
                == Some(min)
        &&& forall|i: int|
            0 <= i < rows.len() && has_status(#[trigger] rows[i], status) ==> min.as_nanos()
                <= rows[i].ledger.status_t->0.as_nanos()
    }
    &&& range.max matches Some(max) ==> {
        &&& exists|i: int|
            0 <= i < rows.len() && has_status(#[trigger] rows[i], status) && rows[i].ledger.status_t
                == Some(max)
        &&& forall|i: int|
            0 <= i < rows.len() && has_status(#[trigger] rows[i], status) ==> max.as_nanos()
                >= rows[i].ledger.status_t->0.as_nanos()
    }
}

/// Picking rows out of rows with distinct keys leaves distinct keys, and
/// every row picked is one of the rows and meets the condition.
pub proof fn lemma_filter_keeps_unique_keys(
    rows: Seq<SubscriptionView>,
    pred: spec_fn(SubscriptionView) -> bool,
)
    requires
        unique_keys(rows),
    ensures
        unique_keys(rows.filter(pred)),
        forall|j: int|
            0 <= j < rows.filter(pred).len() ==> rows.contains(#[trigger] rows.filter(pred)[j])
                && pred(rows.filter(pred)[j]),
        forall|i: int|
            0 <= i < rows.len() && pred(rows[i]) ==> rows.filter(pred).contains(
                #[trigger] rows[i],
            ),
    decreases rows.len(),
{
    broadcast use vstd::seq_lib::group_filter_ensures;
    reveal(Seq::filter);

    if rows.len() > 0 {
        let front = rows.drop_last();
        lemma_filter_keeps_unique_keys(front, pred);
    }
}

/// A record that the store accepts is fetched back as it went in, by its id,
/// by its flow id and by its subscription id alike; so what is fetched is
/// equal to what was created under the equality of subscriptions.
pub proof fn lemma_create_then_fetch(rows: Seq<SubscriptionView>, sub: SubscriptionView)
    requires
        unique_keys(rows),
        !conflicts(rows, sub.facts),
    ensures
        unique_keys(rows.push(sub)),
        find_by_id(rows.push(sub), sub.facts.id) == Ok::<_, StoreError>(sub),
        find_by_flow_id(rows.push(sub), sub.facts.flow_id) == Ok::<_, StoreError>(sub),
        find_by_subscription_id(rows.push(sub), sub.facts.subscription_id) == Ok::<_, StoreError>(
            sub,
        ),
        find_by_id(rows.push(sub), sub.facts.id) matches Ok(found) && semantically_equal(
            found,
            sub,
        ),
        find_by_flow_id(rows.push(sub), sub.facts.flow_id) matches Ok(found) && semantically_equal(
            found,
            sub,
        ),
        find_by_subscription_id(rows.push(sub), sub.facts.subscription_id) matches Ok(found)
            && semantically_equal(found, sub),
{
    let after = rows.push(sub);
    assert(after[rows.len() as int] == sub);
}

/// A transition moves no record in or out of the store and changes no
/// billing fact: only the ledger of the record with the given id changes,
/// and it grows by one entry.
pub proof fn lemma_after_transition(
    rows: Seq<SubscriptionView>,
    id: u128,
    status: Status,
    at: Timestamp,
)
    ensures
        after_transition(rows, id, status, at).len() == rows.len(),
        forall|i: int|
            0 <= i < rows.len() ==> (#[trigger] after_transition(rows, id, status, at)[i]).facts
                == rows[i].facts,
        forall|i: int|
            0 <= i < rows.len() && rows[i].facts.id != id ==> #[trigger] after_transition(
                rows,
                id,
                status,
                at,
            )[i] == rows[i],
        forall|i: int|
            0 <= i < rows.len() && rows[i].facts.id == id ==> {
                let row = #[trigger] after_transition(rows, id, status, at)[i];
                &&& row.ledger.status == Some(status)
                &&& row.ledger.status_t == Some(at)
                &&& row.ledger.entries() == rows[i].ledger.entries().push(
                    StatusHistoryEntry { t: at, status },
                )
            },
        unique_keys(rows) ==> unique_keys(after_transition(rows, id, status, at)),
{
}

/// The range of the times of the rows in a status can only widen while every
/// row in that status stays as it is: its earliest time moves no later and
/// its latest time no earlier, whatever rows are added and whichever other
/// rows come to be in the status.
pub proof fn lemma_range_widens(
    rows: Seq<SubscriptionView>,
    later: Seq<SubscriptionView>,
    status: Status,
    range: DateRange,
    later_range: DateRange,
)
    requires
        spans_status_times(range, rows, status),
        spans_status_times(later_range, later, status),
        forall|i: int|
            0 <= i < rows.len() && has_status(#[trigger] rows[i], status) ==> later.contains(
                rows[i],
            ),
    ensures
        range.min matches Some(min) ==> later_range.min matches Some(later_min)
            && later_min.as_nanos() <= min.as_nanos(),
        range.max matches Some(max) ==> later_range.max matches Some(later_max)
            && later_max.as_nanos() >= max.as_nanos(),
{
    if range.min is Some {
        let min = range.min->0;
        let i = choose|i: int|
            0 <= i < rows.len() && has_status(#[trigger] rows[i], status) && rows[i].ledger.status_t
                == Some(min);
        assert(later.contains(rows[i]));
        let j = choose|j: int| 0 <= j < later.len() && later[j] == rows[i];
        assert(has_status(later[j], status));
    }
    if range.max is Some {
        let max = range.max->0;
        let i = choose|i: int|
            0 <= i < rows.len() && has_status(#[trigger] rows[i], status) && rows[i].ledger.status_t
                == Some(max);
        assert(later.contains(rows[i]));
        let j = choose|j: int| 0 <= j < later.len() && later[j] == rows[i];
        assert(has_status(later[j], status));
    }
}

/// Of two transitions of one record the later one decides the status, and
/// the history keeps both, in the order in which they were made.
pub proof fn lemma_two_transitions(
    rows: Seq<SubscriptionView>,
    id: u128,
    first: StatusHistoryEntry,
    second: StatusHistoryEntry,
)
    ensures
        forall|i: int|
            0 <= i < rows.len() && rows[i].facts.id == id ==> {
                let row = #[trigger] after_transition(
                    after_transition(rows, id, first.status, first.t),
                    id,
                    second.status,
                    second.t,
                )[i];
                &&& row.ledger.status == Some(second.status)
                &&& row.ledger.status_t == Some(second.t)
                &&& row.ledger.entries() == rows[i].ledger.entries().push(first).push(second)
            },
{
}

/// The subscriptions on record, oldest first. No two of them share an id, a
/// flow id or a subscription id. Records are added and updated, never
/// removed.
pub struct SubscriptionModel {
    rows: Vec<Subscription>,
}

impl View for SubscriptionModel {
    type V = Seq<SubscriptionView>;

    closed spec fn view(&self) -> Seq<SubscriptionView> {
        views(self.rows@)
    }
}

impl SubscriptionModel {
    #[verifier::type_invariant]
    spec fn keys_are_unique(self) -> bool {
        unique_keys(self@)
    }

    /// A store with no records.
    pub fn new() -> (store: Self)
        ensures
            store@ == Seq::<SubscriptionView>::empty(),
    {
        SubscriptionModel { rows: Vec::new() }
    }

    /// The number of records.
    pub fn len(&self) -> (n: usize)
        ensures
            n == self@.len(),
    {
        self.rows.len()
    }

    fn position_of_id(&self, id: u128) -> (found: Option<usize>)
        ensures
            unique_keys(self@),
            match found {
                Some(k) => k < self@.len() && self@[k as int].facts.id == id,
                None => forall|i: int| 0 <= i < self@.len() ==> self@[i].facts.id != id,
            },
    {
        proof {
            use_type_invariant(self);
        }
        let mut i: usize = 0;
        while i < self.rows.len()
            invariant
                i <= self.rows.len(),
                unique_keys(self@),
                forall|j: int| 0 <= j < i ==> self@[j].facts.id != id,
            decreases self.rows.len() - i,
        {
            if self.rows[i].id == id {
                return Some(i);
            }
            i += 1;
        }
        None
    }

    fn position_of_flow_id(&self, flow_id: &String) -> (found: Option<usize>)
        ensures
            unique_keys(self@),
            match found {
                Some(k) => k < self@.len() && self@[k as int].facts.flow_id == flow_id@,
                None => forall|i: int| 0 <= i < self@.len() ==> self@[i].facts.flow_id != flow_id@,
            },
    {
        proof {
            use_type_invariant(self);
        }
        let mut i: usize = 0;
        while i < self.rows.len()
            invariant
                i <= self.rows.len(),
                unique_keys(self@),
                forall|j: int| 0 <= j < i ==> self@[j].facts.flow_id != flow_id@,
            decreases self.rows.len() - i,
        {
            if self.rows[i].flow_id == *flow_id {
                return Some(i);
            }
            i += 1;
        }
        None
    }

    fn position_of_subscription_id(&self, subscription_id: &String) -> (found: Option<usize>)
        ensures
            unique_keys(self@),
            match found {
                Some(k) => k < self@.len() && self@[k as int].facts.subscription_id
                    == subscription_id@,
                None => forall|i: int|
                    0 <= i < self@.len() ==> self@[i].facts.subscription_id != subscription_id@,
            },
    {
        proof {
            use_type_invariant(self);
        }
        let mut i: usize = 0;
        while i < self.rows.len()
            invariant
                i <= self.rows.len(),
                unique_keys(self@),
                forall|j: int| 0 <= j < i ==> self@[j].facts.subscription_id != subscription_id@,
            decreases self.rows.len() - i,
        {
            if self.rows[i].subscription_id == *subscription_id {
                return Some(i);
            }
            i += 1;
        }
        None
    }

    /// Adds a record with all its fields, its ledger included, and hands
    /// back what was stored. A record that would share an id, a flow id or a
    /// subscription id with one already held is refused with `Conflict`, and
    /// the store stays as it was.
    pub fn create_from_sub(&mut self, sub: &Subscription) -> (r: Result<Subscription, StoreError>)
        ensures
            unique_keys(old(self)@),
            unique_keys(final(self)@),
            conflicts(old(self)@, sub@.facts) ==> fetched(r) == Err::<SubscriptionView, _>(
                StoreError::Conflict,
            ) && final(self)@ == old(self)@,
            !conflicts(old(self)@, sub@.facts) ==> fetched(r) == Ok::<_, StoreError>(sub@)
                && final(self)@ == old(self)@.push(sub@),
    {
        proof {
            use_type_invariant(&*self);
        }
        if self.position_of_id(sub.id).is_some() || self.position_of_flow_id(&sub.flow_id).is_some()
            || self.position_of_subscription_id(&sub.subscription_id).is_some() {
            return Err(StoreError::Conflict);
        }
        let stored = sub.clone();
        let returned = sub.clone();
        let ghost before = self@;
        let mut rows: Vec<Subscription> = Vec::new();
        core::mem::swap(&mut self.rows, &mut rows);
        proof {
            assert(views(rows@.push(stored)) =~= before.push(sub@));
            lemma_create_then_fetch(before, sub@);
        }
        rows.push(stored);
        core::mem::swap(&mut self.rows, &mut rows);
        Ok(returned)
    }

    /// The record with the given id.
    pub fn fetch_one_by_id(&self, id: &u128) -> (r: Result<Subscription, StoreError>)
        ensures
            unique_keys(self@),
            fetched(r) == find_by_id(self@, *id),
    {
        proof {
            use_type_invariant(self);
        }
        match self.position_of_id(*id) {
            Some(k) => Ok(self.rows[k].clone()),
            None => Err(StoreError::NotFound),
        }
    }

    /// The record with the given flow id.
    pub fn fetch_one_by_flow_id(&self, flow_id: &str) -> (r: Result<Subscription, StoreError>)
        ensures
            unique_keys(self@),
            fetched(r) == find_by_flow_id(self@, flow_id@),
    {
        proof {
            use_type_invariant(self);
        }
        let wanted = flow_id.to_owned();
        match self.position_of_flow_id(&wanted) {
            Some(k) => Ok(self.rows[k].clone()),
            None => Err(StoreError::NotFound),
        }
    }

    /// The record with the given subscription id.
    pub fn fetch_one_by_subscription_id(&self, subscription_id: &str) -> (r: Result<
        Subscription,
        StoreError,
    >)
        ensures
            unique_keys(self@),
            fetched(r) == find_by_subscription_id(self@, subscription_id@),
    {
        proof {
            use_type_invariant(self);
        }
        let wanted = subscription_id.to_owned();
        match self.position_of_subscription_id(&wanted) {
            Some(k) => Ok(self.rows[k].clone()),
            None => Err(StoreError::NotFound),
        }
    }

    /// Every record, oldest first.
    pub fn fetch_all(&self) -> (all: Vec<Subscription>)
        ensures
            unique_keys(self@),
            views(all@) == self@,
    {
        proof {
            use_type_invariant(self);
        }
        let mut all: Vec<Subscription> = Vec::new();
        let mut i: usize = 0;
        while i < self.rows.len()
            invariant
                i <= self.rows.len(),
                all@.len() == i,
                views(all@) == self@.take(i as int),
            decreases self.rows.len() - i,
        {
            let copy = self.rows[i].clone();
            all.push(copy);
            i += 1;
        }
        all
    }

    /// The records in `status`, oldest first. A record whose status has no
    /// time on record is left out: callers rely on the time being there.
    pub fn fetch_all_by_status(&self, status: Status) -> (found: Vec<Subscription>)
        ensures
            unique_keys(self@),
            views(found@) == self@.filter(with_status(status)),
            forall|k: int|
                0 <= k < found@.len() ==> {
                    &&& (#[trigger] found@[k])@.ledger.status == Some(status)
                    &&& found@[k]@.ledger.status_t is Some
                },
            unique_keys(views(found@)),
    {
        proof {
            use_type_invariant(self);
        }
        let mut found: Vec<Subscription> = Vec::new();
        let mut i: usize = 0;
        while i < self.rows.len()
            invariant
                i <= self.rows.len(),
                views(found@) == self@.take(i as int).filter(with_status(status)),
                forall|k: int|
                    0 <= k < found@.len() ==> {
                        &&& (#[trigger] found@[k])@.ledger.status == Some(status)
                        &&& found@[k]@.ledger.status_t is Some
                    },
            decreases self.rows.len() - i,
        {
            let row = &self.rows[i];
            proof {
                reveal(Seq::filter);
                assert(self@.take(i + 1).drop_last() =~= self@.take(i as int));
            }
            let in_status = match (row.get_status(), row.get_status_t()) {
                (Some(current), Some(_)) => current == status,
                _ => false,
            };
            if in_status {
                found.push(row.clone());
            }
            i += 1;
        }
        proof {
            assert(self@.take(i as int) =~= self@);
            lemma_filter_keeps_unique_keys(self@, with_status(status));
        }
        found
    }

    /// Moves the record with the given id to `new_status` as of the system
    /// clock's reading, and hands back the record as it now stands.
    pub fn update_sub_status(&mut self, id: &u128, new_status: Status) -> (r: Result<
        Subscription,
        StoreError,
    >)
        ensures
            unique_keys(old(self)@),
            unique_keys(final(self)@),
            exists|now: Timestamp|
                {
                    &&& final(self)@ == #[trigger] after_transition(
                        old(self)@,
                        *id,
                        new_status,
                        now,
                    )
                    &&& fetched(r) == find_by_id(final(self)@, *id)
                },
            r is Ok <==> find_by_id(old(self)@, *id) is Ok,
    {
        proof {
            use_type_invariant(&*self);
        }
        let now = now_utc();
        self.update_sub_status_at(id, new_status, now)
    }

    /// Moves the record with the given id to `new_status` as of `now`, and
    /// hands back the record as it now stands: the stored record is read, its
    /// ledger records the transition, and the record is written back in one
    /// step. Without such a record nothing changes and the answer is
    /// `NotFound`.
    pub fn update_sub_status_at(&mut self, id: &u128, new_status: Status, now: Timestamp) -> (r:
        Result<Subscription, StoreError>)
        ensures
            unique_keys(old(self)@),
            unique_keys(final(self)@),
            final(self)@ == after_transition(old(self)@, *id, new_status, now),
            fetched(r) == find_by_id(final(self)@, *id),
            r is Ok <==> find_by_id(old(self)@, *id) is Ok,
            r matches Ok(sub) ==> find_by_id(old(self)@, *id) matches Ok(before) && sub@ == moved(
                before,
                new_status,
                now,
            ),
    {
        proof {
            use_type_invariant(&*self);
        }
        match self.position_of_id(*id) {
            Some(k) => {
                let mut sub = self.rows[k].clone();
                sub.update_status_at(new_status, now);
                let returned = sub.clone();
                let ghost before = self@;
                let mut rows: Vec<Subscription> = Vec::new();
                core::mem::swap(&mut self.rows, &mut rows);
                proof {
                    assert(views(rows@.update(k as int, sub)) =~= after_transition(
                        before,
                        *id,
                        new_status,
                        now,
                    ));
                    assert(after_transition(before, *id, new_status, now)[k as int].facts.id
                        == *id);
                }
                rows.set(k, sub);
                core::mem::swap(&mut self.rows, &mut rows);
                Ok(returned)
            },
            None => Err(StoreError::NotFound),
        }
    }

    /// The earliest and the latest time at which a record now `Reported` was
    /// reported.
    pub fn get_reported_date_range(&self) -> (range: DateRange)
        ensures
            unique_keys(self@),
            spans_status_times(range, self@, Status::Reported),
    {
        proof {
            use_type_invariant(self);
        }
        let mut range = DateRange { min: None, max: None };
        let mut i: usize = 0;
        while i < self.rows.len()
            invariant
                i <= self.rows.len(),
                spans_status_times(range, self@.take(i as int), Status::Reported),
            decreases self.rows.len() - i,
        {
            let row = &self.rows[i];
            match (row.get_status(), row.get_status_t()) {
                (Some(Status::Reported), Some(t)) => {
                    let min = match range.min {
                        Some(m) => if t.unix_timestamp_nanos() < m.unix_timestamp_nanos() {
                            t
                        } else {
                            m
                        },
                        None => t,
                    };
                    let max = match range.max {
                        Some(m) => if t.unix_timestamp_nanos() > m.unix_timestamp_nanos() {
                            t
                        } else {
                            m
                        },
                        None => t,
                    };
                    range = DateRange { min: Some(min), max: Some(max) };
                    proof {
                        assert(has_status(self@.take(i + 1)[i as int], Status::Reported));
                    }
                },
                _ => {},
            }
            i += 1;
        }
        proof {
            assert(self@.take(i as int) =~= self@);
        }
        range
    }
}

} // verus!
