//! What is exchanged with the affiliate network: the outcome of a report,
//! and the commission records that the network returns for a time window.

use vstd::arithmetic::power::pow;
use vstd::prelude::*;

verus! {

/// How an attempt to report one subscription ended.
#[derive(Clone, Copy, Debug, PartialEq, Eq, Structural)]
pub enum ReportOutcome {
    /// The network answered, with this HTTP status code.
    Responded { status_code: u16 },
    /// No answer came back.
    TransportFailure,
}

/// One line item of a commission record.
#[derive(Debug)]
pub struct CommissionItem {
    pub sku: String,
}

/// One commission as the network has it on record.
#[derive(Debug)]
pub struct CommissionRecord {
    pub order_id: String,
    pub sale_amount: i64,
    pub items: Vec<CommissionItem>,
}

/// A commission record as the contracts see it.
pub struct CommissionRecordView {
    pub order_id: Seq<char>,
    pub sale_amount: i64,
    pub skus: Seq<Seq<char>>,
}

impl View for CommissionRecord {
    type V = CommissionRecordView;

    open spec fn view(&self) -> CommissionRecordView {
        CommissionRecordView {
            order_id: self.order_id@,
            sale_amount: self.sale_amount,
            skus: Seq::new(self.items@.len(), |k: int| self.items@[k].sku@),
        }
    }
}

/// The views of a list of commission records, in order.
pub open spec fn record_views(records: Seq<CommissionRecord>) -> Seq<CommissionRecordView> {
    Seq::new(records.len(), |j: int| records[j]@)
}

/// The character for a hexadecimal digit, in lower case.
pub open spec fn hex_digit(digit: int) -> char {
    seq!['0', '1', '2', '3', '4', '5', '6', '7', '8', '9', 'a', 'b', 'c', 'd', 'e', 'f'][digit]
}

/// The `k`-th of the 32 hexadecimal digits of `id`, the most significant
/// being digit 0.
pub open spec fn id_digit(id: u128, k: int) -> int {
    (id as int / pow(16, (31 - k) as nat)) % 16
}

/// An id as the network quotes it: its 32 hexadecimal digits in lower case,
/// most significant first, in groups of 8, 4, 4, 4 and 12 with a hyphen
/// between groups.
pub open spec fn order_id_text(id: u128) -> Seq<char> {
    Seq::new(
        36,
        |i: int|
            if i == 8 || i == 13 || i == 18 || i == 23 {
                '-'
            } else if i < 8 {
                hex_digit(id_digit(id, i))
            } else if i < 13 {
                hex_digit(id_digit(id, i - 1))
            } else if i < 18 {
                hex_digit(id_digit(id, i - 2))
            } else if i < 23 {
                hex_digit(id_digit(id, i - 3))
            } else {
                hex_digit(id_digit(id, i - 4))
            },
    )
}

/// Writes an id out with `uuid::Uuid::from_u128(id).to_string()`. The
/// contract is what the `uuid` crate documents of the two: the UUID has the
/// bytes of `id`, most significant first, and is displayed hyphenated in
/// lower case.
#[verifier::external_body]
pub(crate) fn order_id_of(id: u128) -> (text: String)
    ensures
        text@ == order_id_text(id),
{
    uuid::Uuid::from_u128(id).to_string()
}

} // verus!
