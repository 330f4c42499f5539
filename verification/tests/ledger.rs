use org::ledger::{build_records, diff_records, TastyworksRecord, DATE_TIME_FORMAT};
use org::microsoft::graph_client::create_row_request;
use org::microsoft::{upload_records, DateTime, Record};

fn row(date_time: &str, symbol: Option<&str>, quantity: i64) -> TastyworksRecord {
    TastyworksRecord {
        date_time: date_time.to_string(),
        transaction_code: "Trade".to_string(),
        transaction_subcode: "Buy to Open".to_string(),
        symbol: symbol.map(|s| s.to_string()),
        buy_sell: Some("Buy".to_string()),
        open_close: Some("Open".to_string()),
        quantity,
        expiration_date: Some("3/19/21".to_string()),
        strike: Some("20".to_string()),
        call_put: Some("CALL".to_string()),
        price: Some("1.25".to_string()),
        fees: "-1.14".to_string(),
        amount: "-125.00".to_string(),
        description: "Bought 1 contract".to_string(),
        account_reference: "ACCT".to_string(),
    }
}

fn record(minute: u32, symbol: &str, quantity: i64) -> Record {
    Record {
        date_time: DateTime { year: 2021, month: 3, day: 10, hour: 14, minute, second: 0 },
        transaction_code: "Trade".to_string(),
        transaction_subcode: "Buy to Open".to_string(),
        symbol: Some(symbol.to_string()),
        buy_sell: Some("Buy".to_string()),
        open_close: Some("Open".to_string()),
        quantity,
        price: Some("1.25".to_string()),
        fees: "-1.14".to_string(),
        amount: "-125.00".to_string(),
        description: "Bought 1 contract".to_string(),
        account_reference: "ACCT".to_string(),
    }
}

#[test]
fn date_time_format_is_month_day_year_twelve_hour() {
    assert_eq!(DATE_TIME_FORMAT, "%m/%d/%Y %I:%M %p");
}

#[test]
fn to_record_parses_the_date_and_keeps_the_fields() {
    let converted = row("03/10/2021 2:05 PM", Some("SPY"), 1).to_record();
    assert_eq!(converted, record(5, "SPY", 1));
}

#[test]
fn to_record_reads_morning_hours() {
    let converted = row("12/31/2020 09:30 AM", None, -2).to_record();
    assert_eq!(
        converted.date_time,
        DateTime { year: 2020, month: 12, day: 31, hour: 9, minute: 30, second: 0 }
    );
    assert_eq!(converted.symbol, None);
    assert_eq!(converted.quantity, -2);
}

#[test]
fn try_to_record_refuses_a_date_in_another_format() {
    assert!(row("2021-03-10 14:05", Some("SPY"), 1).try_to_record().is_none());
    assert_eq!(
        row("03/10/2021 2:05 PM", Some("SPY"), 1).try_to_record(),
        Some(record(5, "SPY", 1))
    );
}

#[test]
fn build_records_keeps_the_order_of_rows() {
    let rows = vec![
        row("03/10/2021 2:05 PM", Some("SPY"), 1),
        row("03/10/2021 2:07 PM", Some("QQQ"), 3),
    ];
    assert_eq!(
        build_records(rows),
        Some(vec![record(5, "SPY", 1), record(7, "QQQ", 3)])
    );
}

#[test]
fn build_records_fails_on_one_undated_row() {
    let rows = vec![row("03/10/2021 2:05 PM", Some("SPY"), 1), row("yesterday", Some("QQQ"), 3)];
    assert_eq!(build_records(rows), None);
}

#[test]
fn build_records_of_no_rows_is_empty() {
    assert_eq!(build_records(Vec::new()), Some(Vec::new()));
}

#[test]
fn diff_records_keeps_only_unknown_records_in_order() {
    let old = vec![record(1, "SPY", 1), record(2, "QQQ", 1)];
    let new = vec![record(3, "IWM", 1), record(1, "SPY", 1), record(4, "TLT", 2)];
    assert_eq!(diff_records(old, new), vec![record(3, "IWM", 1), record(4, "TLT", 2)]);
}

#[test]
fn diff_records_keeps_repeated_unknown_records() {
    let old = vec![record(1, "SPY", 1)];
    let new = vec![record(3, "IWM", 1), record(3, "IWM", 1)];
    assert_eq!(diff_records(old, new), vec![record(3, "IWM", 1), record(3, "IWM", 1)]);
}

#[test]
fn diff_records_tells_records_apart_by_any_field() {
    let old = vec![record(1, "SPY", 1)];
    let new = vec![record(1, "SPY", 2)];
    assert_eq!(diff_records(old, new), vec![record(1, "SPY", 2)]);
}

#[test]
fn diff_records_with_nothing_known_keeps_everything() {
    let new = vec![record(1, "SPY", 1), record(2, "QQQ", 1)];
    assert_eq!(diff_records(Vec::new(), new.clone()), new);
}

#[test]
fn diff_records_with_nothing_new_is_empty() {
    assert_eq!(diff_records(vec![record(1, "SPY", 1)], Vec::new()), Vec::new());
}

#[test]
fn diff_records_of_a_list_with_itself_is_empty() {
    let records = vec![record(1, "SPY", 1), record(2, "QQQ", 1)];
    assert_eq!(diff_records(records.clone(), records), Vec::new());
}

#[test]
fn diff_records_twice_is_diff_records_once() {
    let old = vec![record(1, "SPY", 1)];
    let new = vec![record(3, "IWM", 1), record(1, "SPY", 1)];
    let once = diff_records(old.clone(), new);
    assert_eq!(diff_records(old, once.clone()), once);
}

#[test]
fn diff_records_after_adding_the_missing_ones_is_empty() {
    let old = vec![record(1, "SPY", 1)];
    let new = vec![record(3, "IWM", 1), record(1, "SPY", 1), record(4, "TLT", 2)];
    let missing = diff_records(old.clone(), new.clone());
    let mut merged = old;
    merged.extend(missing);
    assert_eq!(diff_records(merged, new), Vec::new());
}

#[test]
fn diff_records_of_two_batches_is_the_two_diffs() {
    let old = vec![record(1, "SPY", 1)];
    let first = vec![record(3, "IWM", 1), record(1, "SPY", 1)];
    let second = vec![record(1, "SPY", 1), record(4, "TLT", 2)];
    let mut both = first.clone();
    both.extend(second.clone());
    let mut separately = diff_records(old.clone(), first);
    separately.extend(diff_records(old.clone(), second));
    assert_eq!(diff_records(old, both), separately);
}

#[test]
fn same_as_compares_every_field() {
    assert!(record(1, "SPY", 1).same_as(&record(1, "SPY", 1)));
    assert!(!record(1, "SPY", 1).same_as(&record(2, "SPY", 1)));
    let mut other = record(1, "SPY", 1);
    other.price = None;
    assert!(!record(1, "SPY", 1).same_as(&other));
}

#[test]
fn row_values_lists_the_fields_separated_by_tabs() {
    assert_eq!(
        record(5, "SPY", 1).row_values(),
        "2021-03-10 14:05:00\tTrade\tBuy to Open\tSPY\tBuy\tOpen\t1\t1.25\t-1.14\t-125.00\tBought 1 contract\tACCT"
    );
}

#[test]
fn row_values_writes_absent_fields_empty_and_negative_numbers_signed() {
    let mut r = record(0, "SPY", -12);
    r.symbol = None;
    r.price = None;
    r.date_time = DateTime { year: 987, month: 1, day: 2, hour: 3, minute: 0, second: 59 };
    assert_eq!(
        r.row_values(),
        "987-01-02 03:00:59\tTrade\tBuy to Open\t\tBuy\tOpen\t-12\t\t-1.14\t-125.00\tBought 1 contract\tACCT"
    );
    r.quantity = i64::MIN;
    assert!(r.row_values().contains("\t-9223372036854775808\t"));
}

#[test]
fn upload_records_writes_one_row_per_record_in_order() {
    let records = vec![record(5, "SPY", 1), record(7, "QQQ", 3)];
    let requests = upload_records(&"s-1".to_string(), &records);
    assert_eq!(
        requests,
        vec![
            create_row_request("s-1", &records[0].row_values()),
            create_row_request("s-1", &records[1].row_values()),
        ]
    );
}
