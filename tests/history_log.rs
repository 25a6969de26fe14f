use idsmith_web::history::{HistoryEntry, HistoryLog, Persist, HISTORY_LIMIT};

fn entry(n: u64) -> HistoryEntry {
    HistoryEntry {
        id: format!("id{}", n),
        timestamp: 1_700_000_000_000 + n,
        category: "IBAN".to_string(),
        country: "DE".to_string(),
        count: 1,
        results: vec![format!("value{}", n)],
    }
}

#[test]
fn append_puts_newest_first() {
    let mut log = HistoryLog::new();
    log.append(entry(1));
    log.append(entry(2));
    assert_eq!(log.len(), 2);
    assert_eq!(log.entries[0].id, "id2");
    assert_eq!(log.entries[1].id, "id1");
}

#[test]
fn fifty_one_appends_keep_fifty() {
    let mut log = HistoryLog::new();
    for n in 1..=51 {
        log.append(entry(n));
        assert!(log.len() <= HISTORY_LIMIT);
        assert_eq!(log.entries[0].id, format!("id{}", n));
    }
    assert_eq!(log.len(), 50);
    assert!(log.entries.iter().all(|e| e.id != "id1"));
    assert_eq!(log.entries[49].id, "id2");
}

#[test]
fn clear_then_load_is_empty() {
    let mut log = HistoryLog::new();
    log.append(entry(1));
    let op = log.clear();
    assert!(matches!(op, Persist::Remove));
    assert_eq!(log.len(), 0);
    // The key was removed, so the store has nothing to decode.
    let reloaded = HistoryLog::load(None);
    assert_eq!(reloaded.len(), 0);
}

#[test]
fn load_of_missing_or_malformed_blob_is_empty() {
    let log = HistoryLog::load(None);
    assert!(log.entries.is_empty());
}

#[test]
fn load_keeps_a_stored_log_whole_and_append_cuts_it() {
    let many: Vec<HistoryEntry> = (0..60).map(entry).collect();
    let mut log = HistoryLog::load(Some(many));
    assert_eq!(log.len(), 60);
    assert_eq!(log.entries[59].id, "id59");
    log.append(entry(100));
    assert_eq!(log.len(), 50);
    assert_eq!(log.entries[0].id, "id100");
    assert_eq!(log.entries[49].id, "id48");
}

#[test]
fn entry_json_is_compact_and_ordered() {
    let e = HistoryEntry {
        id: "42".to_string(),
        timestamp: 1700000000123,
        category: "Tax ID".to_string(),
        country: "Random".to_string(),
        count: 5,
        results: vec!["A1".to_string(), "B\"2".to_string()],
    };
    assert_eq!(
        e.to_json(),
        "{\"id\":\"42\",\"timestamp\":1700000000123,\"category\":\"Tax ID\",\"country\":\"Random\",\"count\":5,\"results\":[\"A1\",\"B\\\"2\"]}"
    );
}

#[test]
fn log_json_round_trips_through_serde_json() {
    let mut log = HistoryLog::new();
    log.append(entry(1));
    log.append(HistoryEntry { results: vec![], ..entry(2) });
    let text = match log.persist() {
        Persist::Write(t) => t,
        Persist::Remove => panic!("a write was expected"),
    };
    let v: serde_json::Value = serde_json::from_str(&text).unwrap();
    let arr = v.as_array().unwrap();
    assert_eq!(arr.len(), 2);
    assert_eq!(arr[0]["id"], "id2");
    assert_eq!(arr[0]["results"].as_array().unwrap().len(), 0);
    assert_eq!(arr[1]["timestamp"], 1_700_000_000_001u64);
    assert_eq!(arr[1]["results"][0], "value1");
    assert_eq!(arr[1]["count"], 1);
}

#[test]
fn empty_log_json_is_an_empty_array() {
    let log = HistoryLog::new();
    assert_eq!(log.to_json(), "[]");
}
