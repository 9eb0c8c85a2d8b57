//! The entry-collection operations: find, latest, latest_n.

use alpha_vantage::crypto::{CryptoHelper, Entry, EntryHelper, MetaData, VecEntry};
use alpha_vantage::decimal::Decimal;
use alpha_vantage::error::Error;

fn plain_record(value: &str) -> EntryHelper {
    EntryHelper {
        open_usd: value.to_string(),
        high_usd: value.to_string(),
        low_usd: value.to_string(),
        close_usd: value.to_string(),
        volume: value.to_string(),
        market_cap: value.to_string(),
        market_data: Vec::new(),
    }
}

fn entries_with_times(times: &[&str]) -> Vec<Entry> {
    let meta = MetaData {
        information: "i".to_string(),
        digital_code: "BTC".to_string(),
        digital_name: "Bitcoin".to_string(),
        market_code: "EUR".to_string(),
        market_name: "Euro".to_string(),
        last_refreshed: "now".to_string(),
        time_zone: "UTC".to_string(),
    };
    let mut records = Vec::new();
    for (i, t) in times.iter().enumerate() {
        records.push((t.to_string(), plain_record(&format!("{}.5", i + 1))));
    }
    let helper = CryptoHelper {
        information: None,
        error_message: None,
        note: None,
        meta_data: Some(meta),
        entry: Some(records),
    };
    helper.convert().unwrap().entry().clone()
}

#[test]
fn find_returns_first_match_or_nothing() {
    let entries = entries_with_times(&["2020-01-01", "2020-01-02", "2020-01-01"]);
    let hit = entries.find("2020-01-01").unwrap();
    assert_eq!(hit.time(), "2020-01-01");
    // the first of the two records with that timestamp
    assert_eq!(hit.volume(), Decimal { mantissa: 15, scale: 1, neg: false });
    assert!(entries.find("1999-12-31").is_none());
}

#[test]
fn latest_on_empty_collection_is_the_zero_record() {
    let entries: Vec<Entry> = Vec::new();
    let latest = entries.latest();
    assert_eq!(latest.time(), "");
    assert_eq!(latest.usd_open(), Decimal { mantissa: 0, scale: 0, neg: false });
    assert_eq!(latest.market_cap(), Decimal { mantissa: 0, scale: 0, neg: false });
}

#[test]
fn latest_returns_lexicographically_maximal_timestamp() {
    let entries = entries_with_times(&["2020-01-02", "2020-01-10", "2020-01-09"]);
    let latest = entries.latest();
    assert_eq!(latest.time(), "2020-01-10");
    assert_eq!(latest.volume(), Decimal { mantissa: 25, scale: 1, neg: false });
}

#[test]
fn latest_n_returns_descending_prefix() {
    let entries = entries_with_times(&["2020-01-02", "2020-01-10", "2020-01-09", "2020-01-03"]);
    let top = entries.latest_n(3).unwrap();
    assert_eq!(top.len(), 3);
    assert_eq!(top[0].time(), "2020-01-10");
    assert_eq!(top[1].time(), "2020-01-09");
    assert_eq!(top[2].time(), "2020-01-03");
    let all = entries.latest_n(4).unwrap();
    assert_eq!(all.len(), 4);
    assert_eq!(all[3].time(), "2020-01-02");
    let none = entries.latest_n(0).unwrap();
    assert_eq!(none.len(), 0);
}

#[test]
fn latest_n_reports_size_when_too_many_are_asked() {
    let entries = entries_with_times(&["2020-01-02", "2020-01-10"]);
    assert_eq!(entries.latest_n(3).unwrap_err(), Error::DesiredNumberOfEntryNotPresent(2));
    let empty: Vec<Entry> = Vec::new();
    assert_eq!(empty.latest_n(1).unwrap_err(), Error::DesiredNumberOfEntryNotPresent(0));
}

#[test]
fn latest_n_returns_distinct_records_for_duplicate_timestamps() {
    // two distinct records share the maximal timestamp: both are returned
    let entries = entries_with_times(&["2020-01-05", "2020-01-01", "2020-01-05"]);
    let top = entries.latest_n(2).unwrap();
    assert_eq!(top.len(), 2);
    assert_eq!(top[0].time(), "2020-01-05");
    assert_eq!(top[1].time(), "2020-01-05");
    assert_eq!(top[0].volume(), Decimal { mantissa: 15, scale: 1, neg: false });
    assert_eq!(top[1].volume(), Decimal { mantissa: 35, scale: 1, neg: false });
}

#[test]
fn latest_keeps_the_first_of_equal_maximal_timestamps() {
    let entries = entries_with_times(&["2020-01-05", "2020-01-01", "2020-01-05"]);
    let latest = entries.latest();
    assert_eq!(latest.time(), "2020-01-05");
    assert_eq!(latest.volume(), Decimal { mantissa: 15, scale: 1, neg: false });
}
