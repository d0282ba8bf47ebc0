use vault_cli::history::{append_history, history_to_json, load_history, record_from_json, record_to_json};
use vault_cli::transaction::StoredTransaction;

fn record(to: Option<&str>, value: &str, token_value: Option<&str>) -> StoredTransaction {
    StoredTransaction {
        tx_type: "Legacy".to_string(),
        from: "0xaaaaaaaaaaaaaaaaaaaaaaaaaaaaaaaaaaaaaaaa".to_string(),
        to: to.map(|s| s.to_string()),
        gas: "0x5208".to_string(),
        gas_price: "0x4a817c800".to_string(),
        value: value.to_string(),
        token_value: token_value.map(|s| s.to_string()),
    }
}

fn same(a: &StoredTransaction, b: &StoredTransaction) -> bool {
    a.tx_type == b.tx_type
        && a.from == b.from
        && a.to == b.to
        && a.gas == b.gas
        && a.gas_price == b.gas_price
        && a.value == b.value
        && a.token_value == b.token_value
}

#[test]
fn missing_or_corrupt_log_is_an_empty_history() {
    assert!(load_history(None).is_empty());
    assert!(load_history(Some("")).is_empty());
    assert!(load_history(Some("not json")).is_empty());
    assert!(load_history(Some("{}")).is_empty());
    assert!(load_history(Some("[]")).is_empty());
    assert!(load_history(Some("[1]")).is_empty());
    assert!(load_history(Some("[{\"type\":\"Legacy\"}]")).is_empty());
}

#[test]
fn one_unreadable_record_empties_the_history() {
    let good = record_to_json(&record(Some("0xbb"), "0x1", None));
    assert_eq!(load_history(Some(&format!("[{}]", good))).len(), 1);
    assert!(load_history(Some(&format!("[{},{{\"type\":5}}]", good))).is_empty());
    assert!(load_history(Some(&format!("[{{}},{}]", good))).is_empty());
}

#[test]
fn history_after_one_send_holds_that_record() {
    let sent = record(Some("0xbbbbbbbbbbbbbbbbbbbbbbbbbbbbbbbbbbbbbbbb"), "0xde0b6b3a7640000", None);
    let stored = append_history(None, sent.clone());
    let history = load_history(Some(&stored));
    assert_eq!(history.len(), 1);
    assert!(same(&history[0], &sent));
    assert_eq!(history[0].to.as_deref(), Some("0xbbbbbbbbbbbbbbbbbbbbbbbbbbbbbbbbbbbbbbbb"));
    assert_eq!(history[0].value, "0xde0b6b3a7640000");
    assert_eq!(history[0].gas, "0x5208");
}

#[test]
fn append_keeps_the_older_records_first() {
    let first = record(Some("0x01"), "0x1", None);
    let second = record(None, "0x2", Some("77"));
    let third = record(Some("0x03"), "0x3", None);
    let mut stored = append_history(None, first.clone());
    stored = append_history(Some(&stored), second.clone());
    stored = append_history(Some(&stored), third.clone());
    let history = load_history(Some(&stored));
    assert_eq!(history.len(), 3);
    assert!(same(&history[0], &first));
    assert!(same(&history[1], &second));
    assert!(same(&history[2], &third));
}

#[test]
fn append_to_a_corrupt_log_starts_anew() {
    let sent = record(Some("0x01"), "0x1", None);
    let stored = append_history(Some("garbage"), sent.clone());
    let history = load_history(Some(&stored));
    assert_eq!(history.len(), 1);
    assert!(same(&history[0], &sent));
}

#[test]
fn record_is_stored_under_the_names_of_its_fields() {
    let text = record_to_json(&record(Some("0xbb"), "0x1", Some("42")));
    let value: serde_json::Value = serde_json::from_str(&text).unwrap();
    assert_eq!(value["type"], "Legacy");
    assert_eq!(value["from"], "0xaaaaaaaaaaaaaaaaaaaaaaaaaaaaaaaaaaaaaaaa");
    assert_eq!(value["to"], "0xbb");
    assert_eq!(value["gas"], "0x5208");
    assert_eq!(value["gas_price"], "0x4a817c800");
    assert_eq!(value["value"], "0x1");
    assert_eq!(value["token_value"], "42");
    assert_eq!(value.as_object().unwrap().len(), 7);
    let bare = record_to_json(&record(None, "0x1", None));
    let value: serde_json::Value = serde_json::from_str(&bare).unwrap();
    assert!(value["to"].is_null());
    assert!(value["token_value"].is_null());
}

#[test]
fn record_reads_with_optional_members_absent_or_null() {
    let text = "{\"type\":\"Eip1559\",\"from\":\"f\",\"gas\":\"g\",\"gas_price\":\"p\",\"value\":\"v\"}";
    let read = record_from_json(text).unwrap();
    assert_eq!(read.tx_type, "Eip1559");
    assert_eq!((read.to, read.token_value), (None, None));
    let text = "{\"type\":\"Eip1559\",\"from\":\"f\",\"gas\":\"g\",\"gas_price\":\"p\",\"value\":\"v\",\"to\":null,\"token_value\":\"9\"}";
    let read = record_from_json(text).unwrap();
    assert_eq!((read.to, read.token_value), (None, Some("9".to_string())));
    let text = "{\"type\":\"Eip1559\",\"from\":\"f\",\"gas\":\"g\",\"gas_price\":\"p\",\"value\":\"v\",\"to\":7}";
    assert!(record_from_json(text).is_none());
    let text = "{\"type\":\"Eip1559\",\"from\":\"f\",\"gas\":\"g\",\"gas_price\":\"p\"}";
    assert!(record_from_json(text).is_none());
    assert!(record_from_json("[]").is_none());
    assert!(record_from_json("").is_none());
}

#[test]
fn history_is_stored_as_an_array() {
    assert_eq!(history_to_json(&Vec::new()), "[]");
    let text = history_to_json(&vec![record(None, "0x1", None), record(None, "0x2", None)]);
    let value: serde_json::Value = serde_json::from_str(&text).unwrap();
    assert_eq!(value.as_array().unwrap().len(), 2);
    assert_eq!(value[1]["value"], "0x2");
}
