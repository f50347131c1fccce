use ocpp_server::logs::LogStore;

#[test]
fn add_charger_is_idempotent() {
    let mut store = LogStore::new();
    store.add_charger(&String::from("STN-1"));
    store.add_charger(&String::from("STN-1"));
    assert_eq!(store.chargers, vec![String::from("STN-1")]);
}

#[test]
fn add_log_requires_known_station() {
    let mut store = LogStore::new();
    assert!(!store.add_log(
        &String::from("ghost"),
        None,
        String::from("hello"),
        1_000,
        String::from("t1"),
    ));
    store.add_charger(&String::from("STN-1"));
    assert!(store.add_log(
        &String::from("STN-1"),
        None,
        String::from("hello"),
        1_000,
        String::from("t1"),
    ));
    assert_eq!(store.events.len(), 1);
    assert_eq!(store.events[0].level, "info");
}

#[test]
fn get_logs_filters_by_station_and_range() {
    let mut store = LogStore::new();
    store.add_charger(&String::from("A"));
    store.add_charger(&String::from("B"));
    store.add_log(&String::from("A"), None, String::from("one"), 1_000, String::from("t1"));
    store.add_log(&String::from("B"), None, String::from("other"), 2_000, String::from("t2"));
    store.add_log(
        &String::from("A"),
        Some(String::from("error")),
        String::from("two"),
        3_000,
        String::from("t3"),
    );
    store.add_log(&String::from("A"), None, String::from("late"), 9_000, String::from("t9"));
    let (filename, lines) = store.get_logs(&String::from("A"), 1_000, 3_000);
    assert_eq!(filename, "A_1.log");
    assert_eq!(lines, vec![String::from("[t1] one"), String::from("[t3] two")]);
}

#[test]
fn get_logs_filename_encodes_begin_seconds() {
    let store = LogStore::new();
    let (filename, lines) = store.get_logs(&String::from("STN-1"), 1_704_067_200_000, 1_704_070_800_000);
    assert_eq!(filename, "STN-1_1704067200.log");
    assert!(lines.is_empty());
}

#[test]
fn clear_logs_deletes_old_rows_only() {
    let mut store = LogStore::new();
    store.add_charger(&String::from("A"));
    store.add_log(&String::from("A"), None, String::from("old"), 1_000, String::from("t1"));
    store.add_log(&String::from("A"), None, String::from("new"), 5_000, String::from("t5"));
    let removed = store.clear_logs(2_000);
    assert_eq!(removed, 1);
    assert_eq!(store.events.len(), 1);
    assert_eq!(store.events[0].message, "new");
}
