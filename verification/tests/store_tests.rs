use diag_capture::store::{EntryType, RecordingStore, RecordingStoreError};

#[test]
fn new_store_is_empty() {
    let store = RecordingStore::new();
    assert_eq!(store.len(), 0);
    assert!(store.get_current_entry().is_none());
}

#[test]
fn new_entry_becomes_current_with_size_zero() {
    let mut store = RecordingStore::new();
    let idx = store.new_entry("1715000000".to_string());
    assert_eq!(idx, 0);
    let (i, entry) = store.get_current_entry().expect("an entry should be current");
    assert_eq!(i, 0);
    assert_eq!(entry.name, "1715000000");
    assert_eq!(entry.size_bytes, 0);
    assert_eq!(entry.entry_type, EntryType::Current);
}

#[test]
fn update_entry_size_succeeds_on_current() {
    let mut store = RecordingStore::new();
    let idx = store.new_entry("a".to_string());
    assert_eq!(store.update_entry_size(idx, 42), Ok(()));
    assert_eq!(store.entry_at(idx).size_bytes, 42);
}

#[test]
fn update_entry_size_rejects_non_current() {
    let mut store = RecordingStore::new();
    let old = store.new_entry("a".to_string());
    store.close_current_entry();
    let newer = store.new_entry("b".to_string());
    // A stale writer addressing the superseded entry must be turned away.
    assert_eq!(
        store.update_entry_size(old, 10),
        Err(RecordingStoreError::NotCurrentError)
    );
    assert_eq!(store.entry_at(old).size_bytes, 0);
    assert_eq!(store.update_entry_size(newer, 10), Ok(()));
}

#[test]
fn close_current_entry_twice_is_a_no_op() {
    let mut store = RecordingStore::new();
    let idx = store.new_entry("a".to_string());
    store.update_entry_size(idx, 7).unwrap();
    store.close_current_entry();
    assert!(store.get_current_entry().is_none());
    assert_eq!(store.entry_at(idx).size_bytes, 7);
    assert_eq!(store.entry_at(idx).entry_type, EntryType::Closed);
    let len_before = store.len();
    store.close_current_entry();
    assert!(store.get_current_entry().is_none());
    assert_eq!(store.len(), len_before);
    assert_eq!(store.entry_at(idx).size_bytes, 7);
    assert_eq!(store.entry_at(idx).entry_type, EntryType::Closed);
}

#[test]
fn entry_for_name_finds_only_existing_names() {
    let mut store = RecordingStore::new();
    store.new_entry("a".to_string());
    store.close_current_entry();
    store.new_entry("b".to_string());
    assert_eq!(store.entry_for_name(&"a".to_string()), Some(0));
    assert_eq!(store.entry_for_name(&"b".to_string()), Some(1));
    assert_eq!(store.entry_for_name(&"c".to_string()), None);
}

#[test]
fn delete_entry_unknown_name_leaves_manifest_unchanged() {
    let mut store = RecordingStore::new();
    store.new_entry("a".to_string());
    let r = store.delete_entry(&"ghost".to_string());
    assert_eq!(r, Err(RecordingStoreError::NoSuchEntryError));
    assert_eq!(store.len(), 1);
    assert_eq!(store.entry_at(0).name, "a");
}

#[test]
fn delete_entry_reports_whether_it_was_current() {
    let mut store = RecordingStore::new();
    store.new_entry("a".to_string());
    store.close_current_entry();
    store.new_entry("b".to_string());
    assert_eq!(store.delete_entry(&"a".to_string()), Ok(EntryType::Closed));
    // The later entry shifted down but stays current under its name.
    let (i, entry) = store.get_current_entry().expect("b should still be current");
    assert_eq!(i, 0);
    assert_eq!(entry.name, "b");
    assert_eq!(store.delete_entry(&"b".to_string()), Ok(EntryType::Current));
    assert!(store.get_current_entry().is_none());
    assert_eq!(store.len(), 0);
}

#[test]
fn delete_all_entries_empties_the_manifest() {
    let mut store = RecordingStore::new();
    store.new_entry("a".to_string());
    store.close_current_entry();
    store.new_entry("b".to_string());
    store.close_current_entry();
    store.delete_all_entries();
    assert_eq!(store.len(), 0);
    assert!(store.get_current_entry().is_none());
}
