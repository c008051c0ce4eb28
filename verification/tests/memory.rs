use voicepipe::memory::SessionMemory;

#[test]
fn empty_store_has_nothing() {
    let m = SessionMemory::new();
    assert!(m.get("current").is_none());
}

#[test]
fn insert_stores_and_replaces() {
    let mut m = SessionMemory::new();
    m.insert("current", "first".to_string());
    assert_eq!(m.get("current").unwrap(), "first");
    m.insert("current", "second".to_string());
    assert_eq!(m.get("current").unwrap(), "second");
    assert!(m.get("other").is_none());
}

#[test]
fn keys_are_independent() {
    let mut m = SessionMemory::new();
    m.insert("current", "a".to_string());
    m.insert("draft", "b".to_string());
    assert_eq!(m.get("current").unwrap(), "a");
    assert_eq!(m.get("draft").unwrap(), "b");
}
