use opsgenie_notifier::alert::{Alert, AlertRecord};
use opsgenie_notifier::store::AlertStore;
use opsgenie_notifier::sync::merge;
use opsgenie_notifier::time::Timestamp;

fn alert(status: &str, updated_secs: i64) -> Alert {
    Alert {
        tiny_id: None,
        alias: None,
        message: Some("m".to_string()),
        status: Some(status.to_string()),
        acknowledged: Some(false),
        tags: None,
        created_at: None,
        updated_at: Some(Timestamp { secs: updated_secs, nanos: 0 }),
        priority: None,
    }
}

fn record(id: &str, status: &str, updated_secs: i64) -> AlertRecord {
    AlertRecord { id: id.to_string(), alert: alert(status, updated_secs) }
}

#[test]
fn new_store_is_empty() {
    let store = AlertStore::new();
    assert!(store.is_empty());
    assert_eq!(store.len(), 0);
    assert!(!store.contains(&"A1".to_string()));
    assert_eq!(store.get(&"A1".to_string()), None);
}

#[test]
fn insert_reports_new_identities_and_replaces_known_ones() {
    let mut store = AlertStore::new();
    assert!(store.insert("A1".to_string(), alert("open", 1)));
    assert!(store.insert("A2".to_string(), alert("open", 2)));
    assert!(!store.insert("A1".to_string(), alert("closed", 3)));
    assert_eq!(store.len(), 2);
    assert!(!store.is_empty());
    assert!(store.contains(&"A1".to_string()));
    assert_eq!(store.get(&"A1".to_string()), Some(&alert("closed", 3)));
    assert_eq!(store.get(&"A2".to_string()), Some(&alert("open", 2)));
    assert_eq!(store.get(&"A3".to_string()), None);
}

#[test]
fn identities_differ_by_case_and_length() {
    let mut store = AlertStore::new();
    assert!(store.insert("a".to_string(), alert("open", 1)));
    assert!(store.insert("A".to_string(), alert("open", 2)));
    assert!(store.insert("".to_string(), alert("open", 3)));
    assert!(store.insert("aa".to_string(), alert("open", 4)));
    assert_eq!(store.len(), 4);
    assert_eq!(store.get(&"".to_string()), Some(&alert("open", 3)));
}

#[test]
fn merge_twice_yields_new_ids_then_none() {
    let mut store = AlertStore::new();
    let batch = vec![record("A1", "open", 10), record("A2", "open", 20)];
    let first = merge(&mut store, batch.clone());
    assert_eq!(first, vec!["A1".to_string(), "A2".to_string()]);
    let second = merge(&mut store, batch);
    assert_eq!(second, Vec::<String>::new());
    assert_eq!(store.len(), 2);
    assert_eq!(store.get(&"A2".to_string()), Some(&alert("open", 20)));
}

#[test]
fn merge_updates_known_alert_without_reporting_it() {
    let mut store = AlertStore::new();
    merge(&mut store, vec![record("A1", "open", 10)]);
    let fresh = merge(&mut store, vec![record("A1", "closed", 99), record("B7", "open", 5)]);
    assert_eq!(fresh, vec!["B7".to_string()]);
    assert_eq!(store.get(&"A1".to_string()), Some(&alert("closed", 99)));
    assert_eq!(store.len(), 2);
}

#[test]
fn merge_keeps_the_last_version_of_a_repeated_identity() {
    let mut store = AlertStore::new();
    let fresh = merge(
        &mut store,
        vec![record("A1", "open", 1), record("A2", "open", 2), record("A1", "closed", 3)],
    );
    assert_eq!(fresh, vec!["A1".to_string(), "A2".to_string()]);
    assert_eq!(store.len(), 2);
    assert_eq!(store.get(&"A1".to_string()), Some(&alert("closed", 3)));
}

#[test]
fn merge_of_empty_batch_changes_nothing() {
    let mut store = AlertStore::new();
    merge(&mut store, vec![record("A1", "open", 1)]);
    assert_eq!(merge(&mut store, Vec::new()), Vec::<String>::new());
    assert_eq!(store.len(), 1);
}

#[test]
fn merge_reports_new_ids_in_batch_order() {
    let mut store = AlertStore::new();
    merge(&mut store, vec![record("m", "open", 1)]);
    let fresh = merge(
        &mut store,
        vec![record("z", "open", 1), record("m", "open", 2), record("a", "open", 3)],
    );
    assert_eq!(fresh, vec!["z".to_string(), "a".to_string()]);
}
