use backend::sessions::SessionTable;

#[test]
fn lookup_after_register() {
    let mut table = SessionTable::new();
    assert_eq!(table.get("kiosk"), None);
    table.insert("kiosk".to_string(), 1, "first");
    assert_eq!(table.get("kiosk"), Some(&"first"));
    assert_eq!(table.get("other"), None);
}

#[test]
fn register_replaces_the_clients_session() {
    let mut table = SessionTable::new();
    table.insert("kiosk".to_string(), 1, "first");
    table.insert("other".to_string(), 2, "other");
    table.insert("kiosk".to_string(), 3, "second");
    assert_eq!(table.get("kiosk"), Some(&"second"));
    assert_eq!(table.get("other"), Some(&"other"));
}

#[test]
fn own_connection_removes_its_session() {
    let mut table = SessionTable::new();
    table.insert("kiosk".to_string(), 7, "s");
    assert!(table.remove("kiosk", 7));
    assert_eq!(table.get("kiosk"), None);
    assert!(!table.remove("kiosk", 7));
}

#[test]
fn stale_connection_keeps_newer_session() {
    let mut table = SessionTable::new();
    table.insert("kiosk".to_string(), 1, "old");
    table.insert("kiosk".to_string(), 2, "new");
    assert!(!table.remove("kiosk", 1));
    assert_eq!(table.get("kiosk"), Some(&"new"));
    assert!(table.remove("kiosk", 2));
    assert_eq!(table.get("kiosk"), None);
}

#[test]
fn removing_one_client_keeps_the_others() {
    let mut table = SessionTable::new();
    table.insert("a".to_string(), 1, 10);
    table.insert("b".to_string(), 2, 20);
    table.insert("c".to_string(), 3, 30);
    assert!(table.remove("b", 2));
    assert_eq!(table.get("a"), Some(&10));
    assert_eq!(table.get("b"), None);
    assert_eq!(table.get("c"), Some(&30));
    assert!(!table.remove("missing", 1));
}
