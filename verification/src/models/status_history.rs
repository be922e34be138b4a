//! The status of a record, the log of the statuses it has held, and the
//! capability of a record to carry both.

use crate::timestamp::{now_utc, Timestamp};
use vstd::prelude::*;

verus! {

/// Where a record stands in the cycle of reporting and verification.
#[derive(Clone, Copy, Debug, PartialEq, Eq, Structural)]
pub enum Status {
    NotReported,
    Reported,
    CJReceived,
    CJNotReceived,
}

impl Status {
    /// The text under which a status is persisted.
    pub open spec fn name(self) -> Seq<char> {
        match self {
            Status::NotReported => "NotReported"@,
            Status::Reported => "Reported"@,
            Status::CJReceived => "CJReceived"@,
            Status::CJNotReceived => "CJNotReceived"@,
        }
    }

    /// The status that a persisted text stands for, if it stands for one.
    pub open spec fn parse(text: Seq<char>) -> Option<Status> {
        if text == Status::NotReported.name() {
            Some(Status::NotReported)
        } else if text == Status::Reported.name() {
            Some(Status::Reported)
        } else if text == Status::CJReceived.name() {
            Some(Status::CJReceived)
        } else if text == Status::CJNotReceived.name() {
            Some(Status::CJNotReceived)
        } else {
            None
        }
    }

    /// Writes a status as it is persisted.
    pub fn to_string(&self) -> (text: String)
        ensures
            text@ == self.name(),
    {
        match self {
            Status::NotReported => "NotReported".to_owned(),
            Status::Reported => "Reported".to_owned(),
            Status::CJReceived => "CJReceived".to_owned(),
            Status::CJNotReceived => "CJNotReceived".to_owned(),
        }
    }

    /// Reads a persisted status. A text that names no status gives nothing,
    /// so that a damaged record reads as one without a status.
    pub fn from_str(text: &str) -> (status: Option<Status>)
        ensures
            status == Status::parse(text@),
    {
        let text = text.to_owned();
        if text == Status::NotReported.to_string() {
            Some(Status::NotReported)
        } else if text == Status::Reported.to_string() {
            Some(Status::Reported)
        } else if text == Status::CJReceived.to_string() {
            Some(Status::CJReceived)
        } else if text == Status::CJNotReceived.to_string() {
            Some(Status::CJNotReceived)
        } else {
            None
        }
    }
}

/// Every status is read back from its own name.
pub proof fn lemma_status_name_round_trip(status: Status)
    ensures
        Status::parse(status.name()) == Some(status),
{
    reveal_strlit("NotReported");
    reveal_strlit("Reported");
    reveal_strlit("CJReceived");
    reveal_strlit("CJNotReceived");
    assert("NotReported"@.len() == 11);
    assert("Reported"@.len() == 8);
    assert("CJReceived"@.len() == 10);
    assert("CJNotReceived"@.len() == 13);
}

/// One transition: the status that was taken and when.
#[derive(Clone, Copy, Debug, PartialEq, Eq, Structural)]
pub struct StatusHistoryEntry {
    pub t: Timestamp,
    pub status: Status,
}

/// The transitions of one record, oldest first.
#[derive(Debug)]
pub struct StatusHistory {
    pub entries: Vec<StatusHistoryEntry>,
}

impl View for StatusHistory {
    type V = Seq<StatusHistoryEntry>;

    open spec fn view(&self) -> Seq<StatusHistoryEntry> {
        self.entries@
    }
}

impl Clone for StatusHistory {
    fn clone(&self) -> (copy: Self)
        ensures
            copy@ == self@,
    {
        let mut entries: Vec<StatusHistoryEntry> = Vec::new();
        let mut i: usize = 0;
        while i < self.entries.len()
            invariant
                i <= self.entries.len(),
                entries@ == self.entries@.take(i as int),
            decreases self.entries.len() - i,
        {
            entries.push(self.entries[i]);
            i += 1;
        }
        StatusHistory { entries }
    }
}

/// The view of a history that may be absent.
pub open spec fn history_view(history: Option<StatusHistory>) -> Option<Seq<StatusHistoryEntry>> {
    match history {
        Some(h) => Some(h@),
        None => None,
    }
}

/// The three things a record's ledger holds, as the contracts see them. Each
/// may be absent, as in a record that was never initialised.
#[verifier::ext_equal]
pub struct LedgerView {
    pub status: Option<Status>,
    pub status_t: Option<Timestamp>,
    pub history: Option<Seq<StatusHistoryEntry>>,
}

impl LedgerView {
    /// The ledger of a record that was never initialised.
    pub open spec fn absent() -> LedgerView {
        LedgerView { status: None, status_t: None, history: None }
    }

    /// The transitions logged so far; none where the history is absent.
    pub open spec fn entries(self) -> Seq<StatusHistoryEntry> {
        match self.history {
            Some(entries) => entries,
            None => Seq::empty(),
        }
    }

    /// The ledger after a transition to `status` at `at`: the status and its
    /// time are replaced, and the transition is appended to the history.
    pub open spec fn record(self, status: Status, at: Timestamp) -> LedgerView {
        LedgerView {
            status: Some(status),
            status_t: Some(at),
            history: Some(self.entries().push(StatusHistoryEntry { t: at, status })),
        }
    }

    /// Whether the status and its time are those of the newest entry of the
    /// history.
    pub open spec fn in_step(self) -> bool {
        &&& self.entries().len() > 0
        &&& self.status == Some(self.entries().last().status)
        &&& self.status_t == Some(self.entries().last().t)
    }

    /// The ledger after the transitions `calls`, taken in order.
    pub open spec fn record_all(self, calls: Seq<StatusHistoryEntry>) -> LedgerView
        decreases calls.len(),
    {
        if calls.len() == 0 {
            self
        } else {
            self.record_all(calls.drop_last()).record(calls.last().status, calls.last().t)
        }
    }
}

/// After a transition the status and its time are those of the newest entry
/// of the history, whatever the ledger held before.
pub proof fn lemma_record_in_step(ledger: LedgerView, status: Status, at: Timestamp)
    ensures
        ledger.record(status, at).in_step(),
        ledger.record(status, at).entries() == ledger.entries().push(
            StatusHistoryEntry { t: at, status },
        ),
{
}

/// Transitions only ever append: after any run of them the history is the
/// old history followed by one entry for each, in order, so that it has
/// grown by exactly their number; and the status and its time are those of
/// the last one.
pub proof fn lemma_record_all_appends(ledger: LedgerView, calls: Seq<StatusHistoryEntry>)
    ensures
        ledger.record_all(calls).entries() == ledger.entries() + calls,
        ledger.record_all(calls).entries().len() == ledger.entries().len() + calls.len(),
        calls.len() > 0 ==> ledger.record_all(calls).status == Some(calls.last().status),
        calls.len() > 0 ==> ledger.record_all(calls).status_t == Some(calls.last().t),
        calls.len() > 0 ==> ledger.record_all(calls).in_step(),
        calls.len() == 0 ==> ledger.record_all(calls) == ledger,
    decreases calls.len(),
{
    if calls.len() > 0 {
        lemma_record_all_appends(ledger, calls.drop_last());
    }
}

/// The earliest and the latest of a set of instants; both absent when the
/// set is empty.
#[derive(Clone, Copy, Debug, PartialEq, Eq, Structural)]
pub struct DateRange {
    pub min: Option<Timestamp>,
    pub max: Option<Timestamp>,
}

/// A record that carries a status ledger. The transition is written once,
/// here, for every such record.
pub trait UpdateStatus: Sized {
    /// What the record holds besides its ledger.
    type Carried;

    /// The ledger of the record.
    spec fn ledger(&self) -> LedgerView;

    /// Everything else in the record. No operation on the ledger changes
    /// it.
    spec fn carried(&self) -> Self::Carried;

    /// The current status; nothing where the record has none.
    fn get_status(&self) -> (status: Option<Status>)
        ensures
            status == self.ledger().status,
    ;

    /// When the current status was taken; nothing where that is not on
    /// record.
    fn get_status_t(&self) -> (status_t: Option<Timestamp>)
        ensures
            status_t == self.ledger().status_t,
    ;

    /// The history of the record; nothing where the record has none.
    fn get_status_history(&self) -> (history: Option<StatusHistory>)
        ensures
            history_view(history) == self.ledger().history,
    ;

    /// Replaces the status, and nothing else.
    fn set_status(&mut self, v: Option<Status>)
        ensures
            final(self).ledger() == (LedgerView { status: v, ..old(self).ledger() }),
            final(self).carried() == old(self).carried(),
    ;

    /// Replaces the time of the status, and nothing else.
    fn set_status_t(&mut self, v: Option<Timestamp>)
        ensures
            final(self).ledger() == (LedgerView { status_t: v, ..old(self).ledger() }),
            final(self).carried() == old(self).carried(),
    ;

    /// Replaces the history, and nothing else.
    fn set_status_history(&mut self, v: Option<StatusHistory>)
        ensures
            final(self).ledger() == (LedgerView { history: history_view(v), ..old(self).ledger() }),
            final(self).carried() == old(self).carried(),
    ;

    /// Moves the record to `new_status` as of `now`: the status is
    /// `new_status`, its time is `now`, and the history has one more entry,
    /// which says so. Nothing else in the record changes.
    fn update_status_at(&mut self, new_status: Status, now: Timestamp)
        ensures
            final(self).ledger() == old(self).ledger().record(new_status, now),
            final(self).carried() == old(self).carried(),
    {
        let mut history = match self.get_status_history() {
            Some(history) => history,
            None => StatusHistory { entries: Vec::new() },
        };
        self.set_status_t(Some(now));
        history.entries.push(StatusHistoryEntry { t: now, status: new_status });
        self.set_status(Some(new_status));
        self.set_status_history(Some(history));
    }

    /// Moves the record to `new_status` as of the system clock's reading,
    /// whatever that is.
    fn update_status(&mut self, new_status: Status)
        ensures
            exists|now: Timestamp|
                final(self).ledger() == old(self).ledger().record(new_status, now),
            final(self).carried() == old(self).carried(),
    {
        let now = now_utc();
        self.update_status_at(new_status, now);
    }
}

/// The ledger itself: the current status, when it was taken, and the log of
/// every status taken so far. Its fields are set through `UpdateStatus`.
#[derive(Debug)]
pub struct StatusLedger {
    status: Option<Status>,
    status_t: Option<Timestamp>,
    status_history: Option<StatusHistory>,
}

impl View for StatusLedger {
    type V = LedgerView;

    closed spec fn view(&self) -> LedgerView {
        LedgerView {
            status: self.status,
            status_t: self.status_t,
            history: history_view(self.status_history),
        }
    }
}

impl StatusLedger {
    /// A ledger with nothing in it.
    pub(crate) fn absent() -> (ledger: StatusLedger)
        ensures
            ledger@ == LedgerView::absent(),
    {
        StatusLedger { status: None, status_t: None, status_history: None }
    }
}

impl Clone for StatusLedger {
    fn clone(&self) -> (copy: Self)
        ensures
            copy@ == self@,
    {
        StatusLedger {
            status: self.status,
            status_t: self.status_t,
            status_history: self.get_status_history(),
        }
    }
}

impl UpdateStatus for StatusLedger {
    type Carried = ();

    open spec fn ledger(&self) -> LedgerView {
        self@
    }

    open spec fn carried(&self) -> () {
        ()
    }

    fn get_status(&self) -> (status: Option<Status>) {
        self.status
    }

    fn get_status_t(&self) -> (status_t: Option<Timestamp>) {
        self.status_t
    }

    fn get_status_history(&self) -> (history: Option<StatusHistory>) {
        match &self.status_history {
            Some(history) => Some(history.clone()),
            None => None,
        }
    }

    fn set_status(&mut self, v: Option<Status>) {
        self.status = v;
    }

    fn set_status_t(&mut self, v: Option<Timestamp>) {
        self.status_t = v;
    }

    fn set_status_history(&mut self, v: Option<StatusHistory>) {
        self.status_history = v;
    }
}

} // verus!
