//! Turning an exported transaction list into ledger records, and finding the
//! records a ledger does not hold yet.

use vstd::prelude::*;

use chrono::Datelike;
use chrono::Timelike;

use crate::microsoft::{DateTime, Record, RecordView};

verus! {

/// How the export writes a transaction's date and time, e.g. `03/10/2021 2:05 PM`.
pub const DATE_TIME_FORMAT: &'static str = "%m/%d/%Y %I:%M %p";

/// What `chrono` makes of a date-time text in a given format: year, month,
/// day, hour, minute and second, or nothing when the text does not match.
pub uninterp spec fn parse_naive_date_time(text: Seq<char>, format: Seq<char>) -> Option<
    (i32, u32, u32, u32, u32, u32),
>;

/// Calls `chrono::NaiveDateTime::parse_from_str` and reads the fields of the
/// result through `Datelike` and `Timelike`. Claimed: the outcome is
/// `parse_naive_date_time` of the two texts.
#[verifier::external_body]
fn chrono_parse_date_time(text: &str, format: &str) -> (res: Option<(i32, u32, u32, u32, u32, u32)>)
    ensures
        res == parse_naive_date_time(text@, format@),
{
    match chrono::NaiveDateTime::parse_from_str(text, format) {
        Ok(t) => Some((t.year(), t.month(), t.day(), t.hour(), t.minute(), t.second())),
        Err(_) => None,
    }
}

/// One row of the transaction export, as the export spells it.
#[derive(Debug, Clone)]
pub struct TastyworksRecord {
    pub date_time: String,
    pub transaction_code: String,
    pub transaction_subcode: String,
    pub symbol: Option<String>,
    pub buy_sell: Option<String>,
    pub open_close: Option<String>,
    pub quantity: i64,
    pub expiration_date: Option<String>,
    pub strike: Option<String>,
    pub call_put: Option<String>,
    pub price: Option<String>,
    /// The fees as decimal text.
    pub fees: String,
    pub amount: String,
    pub description: String,
    pub account_reference: String,
}

/// The date and time a row's text stands for, when it has the export's format.
pub open spec fn row_date_time(row: &TastyworksRecord) -> Option<DateTime> {
    match parse_naive_date_time(row.date_time@, DATE_TIME_FORMAT@) {
        Some(t) => Some(
            DateTime { year: t.0, month: t.1, day: t.2, hour: t.3, minute: t.4, second: t.5 },
        ),
        None => None,
    }
}

/// The ledger record of a row, given the date and time it stands for: every
/// field but the option columns (expiration, strike, call/put) carries over.
pub open spec fn row_record(row: &TastyworksRecord, date_time: DateTime) -> RecordView {
    RecordView {
        date_time: date_time,
        transaction_code: row.transaction_code@,
        transaction_subcode: row.transaction_subcode@,
        symbol: row.symbol.deep_view(),
        buy_sell: row.buy_sell.deep_view(),
        open_close: row.open_close.deep_view(),
        quantity: row.quantity,
        price: row.price.deep_view(),
        fees: row.fees@,
        amount: row.amount@,
        description: row.description@,
        account_reference: row.account_reference@,
    }
}

/// A row's record carries every field over unchanged, whatever the others
/// hold: the date is the one given, and the option columns (expiration,
/// strike, call/put) are left out.
pub proof fn lemma_row_record_carries_fields(row: &TastyworksRecord, date_time: DateTime)
    ensures
        row_record(row, date_time).date_time == date_time,
        row_record(row, date_time).transaction_code == row.transaction_code@,
        row_record(row, date_time).transaction_subcode == row.transaction_subcode@,
        row_record(row, date_time).symbol == row.symbol.deep_view(),
        row_record(row, date_time).buy_sell == row.buy_sell.deep_view(),
        row_record(row, date_time).open_close == row.open_close.deep_view(),
        row_record(row, date_time).quantity == row.quantity,
        row_record(row, date_time).price == row.price.deep_view(),
        row_record(row, date_time).fees == row.fees@,
        row_record(row, date_time).amount == row.amount@,
        row_record(row, date_time).description == row.description@,
        row_record(row, date_time).account_reference == row.account_reference@,
{
}

/// Two rows that agree in every carried field give the same record, and two
/// rows that differ only in their symbol give records that differ only in
/// their symbol.
pub proof fn lemma_row_record_depends_on_each_field(
    a: &TastyworksRecord,
    b: &TastyworksRecord,
    date_time: DateTime,
)
    ensures
        (a.transaction_code@ == b.transaction_code@ && a.transaction_subcode@
            == b.transaction_subcode@ && a.symbol.deep_view() == b.symbol.deep_view()
            && a.buy_sell.deep_view() == b.buy_sell.deep_view() && a.open_close.deep_view()
            == b.open_close.deep_view() && a.quantity == b.quantity && a.price.deep_view()
            == b.price.deep_view() && a.fees@ == b.fees@ && a.amount@ == b.amount@
            && a.description@ == b.description@ && a.account_reference@ == b.account_reference@)
            ==> row_record(a, date_time) == row_record(b, date_time),
        (a.transaction_code@ == b.transaction_code@ && a.transaction_subcode@
            == b.transaction_subcode@ && a.buy_sell.deep_view() == b.buy_sell.deep_view()
            && a.open_close.deep_view() == b.open_close.deep_view() && a.quantity == b.quantity
            && a.price.deep_view() == b.price.deep_view() && a.fees@ == b.fees@ && a.amount@
            == b.amount@ && a.description@ == b.description@ && a.account_reference@
            == b.account_reference@) ==> row_record(a, date_time) == (RecordView {
            symbol: a.symbol.deep_view(),
            ..row_record(b, date_time)
        }) && row_record(b, date_time).amount == a.amount@,
{
}

fn parse_row_date_time(row: &TastyworksRecord) -> (res: Option<DateTime>)
    ensures
        res == row_date_time(row),
{
    match chrono_parse_date_time(row.date_time.as_str(), DATE_TIME_FORMAT) {
        Some(t) => Some(
            DateTime { year: t.0, month: t.1, day: t.2, hour: t.3, minute: t.4, second: t.5 },
        ),
        None => None,
    }
}

impl TastyworksRecord {
    /// The ledger record of a row whose date and time have the export's format.
    pub fn to_record(self) -> (res: Record)
        requires
            row_date_time(&self) is Some,
        ensures
            res@ == row_record(&self, row_date_time(&self).unwrap()),
    {
        let date_time = parse_row_date_time(&self).unwrap();
        Record {
            date_time,
            transaction_code: self.transaction_code,
            transaction_subcode: self.transaction_subcode,
            symbol: self.symbol,
            buy_sell: self.buy_sell,
            open_close: self.open_close,
            quantity: self.quantity,
            price: self.price,
            fees: self.fees,
            amount: self.amount,
            description: self.description,
            account_reference: self.account_reference,
        }
    }

    /// The ledger record of a row, or nothing when its date and time do not
    /// have the export's format.
    pub fn try_to_record(self) -> (res: Option<Record>)
        ensures
            res is None <==> row_date_time(&self) is None,
            res matches Some(r) ==> r@ == row_record(&self, row_date_time(&self).unwrap()),
    {
        match parse_row_date_time(&self) {
            Some(_) => Some(self.to_record()),
            None => None,
        }
    }
}

/// Every row of the export has a date and time in the export's format.
pub open spec fn all_rows_dated(rows: Seq<TastyworksRecord>) -> bool {
    forall|i: int| 0 <= i < rows.len() ==> (#[trigger] row_date_time(&rows[i])) is Some
}

/// The ledger records of an export's rows, in the same order; nothing when
/// some row's date and time do not have the export's format.
pub fn build_records(rows: Vec<TastyworksRecord>) -> (res: Option<Vec<Record>>)
    ensures
        res is Some <==> all_rows_dated(rows@),
        res matches Some(records) ==> {
            &&& records@.len() == rows@.len()
            &&& forall|i: int|
                0 <= i < rows@.len() ==> (#[trigger] records@[i])@ == row_record(
                    &rows@[i],
                    row_date_time(&rows@[i]).unwrap(),
                )
        },
{
    let ghost all_rows = rows@;
    let mut records: Vec<Record> = Vec::new();
    for row in it: rows.into_iter()
        invariant
            it.seq() == all_rows,
            records@.len() == it.index(),
            forall|j: int|
                0 <= j < it.index() ==> (#[trigger] row_date_time(&all_rows[j])) is Some
                    && records@[j]@ == row_record(&all_rows[j], row_date_time(&all_rows[j]).unwrap()),
    {
        let ghost i = it.index();
        match row.try_to_record() {
            Some(record) => {
                records.push(record);
            },
            None => {
                assert(row_date_time(&all_rows[i]) is None);
                return None;
            },
        }
    }
    Some(records)
}

/// The records of `incoming` that `known` does not hold, in their order in
/// `incoming` (a repeated record is kept each time it occurs).
pub open spec fn records_missing_from(known: Seq<RecordView>, incoming: Seq<RecordView>) -> Seq<
    RecordView,
> {
    incoming.filter(|r: RecordView| !known.contains(r))
}

fn holds_record(records: &Vec<Record>, record: &Record) -> (res: bool)
    ensures
        res == records.deep_view().contains(record@),
{
    let n = records.len();
    for i in 0..n
        invariant
            n == records@.len(),
            forall|j: int| 0 <= j < i ==> records.deep_view()[j] != record@,
    {
        if records[i].same_as(record) {
            assert(records.deep_view()[i as int] == record@);
            return true;
        }
    }
    false
}

/// The records of `new_records` that `old_records` does not hold, in their
/// order in `new_records`.
pub fn diff_records(old_records: Vec<Record>, new_records: Vec<Record>) -> (res: Vec<Record>)
    ensures
        res.deep_view() == records_missing_from(old_records.deep_view(), new_records.deep_view()),
{
    let ghost known = old_records.deep_view();
    let ghost incoming = new_records.deep_view();
    let ghost all_new = new_records@;
    let mut result: Vec<Record> = Vec::new();
    for record in it: new_records.into_iter()
        invariant
            it.seq() == all_new,
            incoming == all_new.map_values(|r: Record| r.deep_view()),
            known == old_records.deep_view(),
            result.deep_view() == records_missing_from(known, incoming.take(it.index())),
    {
        let ghost i = it.index();
        let ghost before = result.deep_view();
        let is_old = holds_record(&old_records, &record);
        proof {
            assert(incoming.take(i + 1) =~= incoming.take(i).push(record@));
            incoming.take(i).lemma_filter_push(record@, |r: RecordView| !known.contains(r));
        }
        if !is_old {
            result.push(record);
            assert(result.deep_view() =~= before.push(record@));
        }
    }
    assert(incoming.take(incoming.len() as int) =~= incoming);
    result
}

/// A record is reported missing exactly when `incoming` holds it and `known`
/// does not.
pub proof fn lemma_missing_exactly(known: Seq<RecordView>, incoming: Seq<RecordView>, r: RecordView)
    ensures
        records_missing_from(known, incoming).contains(r) <==> (incoming.contains(r)
            && !known.contains(r)),
{
    let pred = |x: RecordView| !known.contains(x);
    let out = incoming.filter(pred);
    if out.contains(r) {
        incoming.lemma_filter_contains_rev(pred, r);
        let k = choose|k: int| 0 <= k < out.len() && out[k] == r;
        incoming.lemma_filter_pred(pred, k);
    }
    if incoming.contains(r) && !known.contains(r) {
        let k = choose|k: int| 0 <= k < incoming.len() && incoming[k] == r;
        incoming.lemma_filter_contains(pred, k);
    }
}

/// Records kept are those whose test passes: filtering what passed already
/// changes nothing.
proof fn lemma_filter_twice(s: Seq<RecordView>, pred: spec_fn(RecordView) -> bool)
    ensures
        s.filter(pred).filter(pred) == s.filter(pred),
    decreases s.len(),
{
    if s.len() > 0 {
        let rest = s.drop_last();
        let x = s.last();
        lemma_filter_twice(rest, pred);
        assert(s =~= rest.push(x));
        rest.lemma_filter_push(x, pred);
        if pred(x) {
            rest.filter(pred).lemma_filter_push(x, pred);
        }
    } else {
        reveal(Seq::filter);
    }
}

/// Asking again with the same known records reports the same records.
pub proof fn lemma_missing_idempotent(known: Seq<RecordView>, incoming: Seq<RecordView>)
    ensures
        records_missing_from(known, records_missing_from(known, incoming))
            == records_missing_from(known, incoming),
{
    lemma_filter_twice(incoming, |r: RecordView| !known.contains(r));
}

/// When every incoming record is known, none is missing.
pub proof fn lemma_all_known(known: Seq<RecordView>, incoming: Seq<RecordView>)
    requires
        forall|i: int| 0 <= i < incoming.len() ==> known.contains(#[trigger] incoming[i]),
    ensures
        records_missing_from(known, incoming) == Seq::<RecordView>::empty(),
    decreases incoming.len(),
{
    reveal(Seq::filter);
    if incoming.len() > 0 {
        let rest = incoming.drop_last();
        assert(known.contains(incoming[incoming.len() - 1]));
        assert forall|i: int| 0 <= i < rest.len() implies known.contains(#[trigger] rest[i]) by {
            assert(rest[i] == incoming[i]);
        }
        lemma_all_known(known, rest);
    }
    assert(records_missing_from(known, incoming) =~= Seq::<RecordView>::empty());
}

/// A list of records compared with itself has nothing missing.
pub proof fn lemma_nothing_missing_from_itself(records: Seq<RecordView>)
    ensures
        records_missing_from(records, records) == Seq::<RecordView>::empty(),
{
    assert forall|i: int| 0 <= i < records.len() implies records.contains(#[trigger] records[i]) by {}
    lemma_all_known(records, records);
}

/// With no incoming records, nothing is missing.
pub proof fn lemma_nothing_incoming(known: Seq<RecordView>)
    ensures
        records_missing_from(known, Seq::<RecordView>::empty()) == Seq::<RecordView>::empty(),
{
    reveal(Seq::filter);
}

/// With no known records, every incoming record is missing, in order.
pub proof fn lemma_nothing_known(incoming: Seq<RecordView>)
    ensures
        records_missing_from(Seq::<RecordView>::empty(), incoming) == incoming,
    decreases incoming.len(),
{
    reveal(Seq::filter);
    if incoming.len() > 0 {
        lemma_nothing_known(incoming.drop_last());
        assert(incoming.drop_last().push(incoming.last()) =~= incoming);
    }
}

/// Once the missing records are added to the known ones, a second comparison
/// with the same incoming records finds nothing missing.
pub proof fn lemma_nothing_missing_after_adding(known: Seq<RecordView>, incoming: Seq<RecordView>)
    ensures
        records_missing_from(known + records_missing_from(known, incoming), incoming)
            == Seq::<RecordView>::empty(),
{
    let added = records_missing_from(known, incoming);
    let merged = known + added;
    assert forall|i: int| 0 <= i < incoming.len() implies merged.contains(#[trigger] incoming[i]) by {
        let r = incoming[i];
        if known.contains(r) {
            let k = choose|k: int| 0 <= k < known.len() && known[k] == r;
            assert(merged[k] == r);
        } else {
            assert(incoming.contains(r));
            lemma_missing_exactly(known, incoming, r);
            let k = choose|k: int| 0 <= k < added.len() && added[k] == r;
            assert(merged[known.len() + k] == r);
        }
    }
    lemma_all_known(merged, incoming);
}

/// Comparing two batches of incoming records one after the other reports
/// what comparing them together reports.
pub proof fn lemma_missing_concat(known: Seq<RecordView>, first: Seq<RecordView>, second: Seq<RecordView>)
    ensures
        records_missing_from(known, first + second) == records_missing_from(known, first)
            + records_missing_from(known, second),
{
    Seq::filter_distributes_over_add(first, second, |r: RecordView| !known.contains(r));
}

} // verus!
