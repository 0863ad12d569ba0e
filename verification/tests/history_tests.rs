use simple_comics_viewer::history::{FileHistory, HistoryStore};

#[test]
fn empty_history_answers_nothing() {
    let store = HistoryStore::new();
    assert!(store.get_history().is_empty());
    assert!(!store.is_exists_file_path(&String::from("/tmp/a.zip")));
}

#[test]
fn recorded_path_exists() {
    let mut store = HistoryStore::new();
    store.record_opened(&String::from("/comics/a.zip"), 100);
    assert!(store.is_exists_file_path(&String::from("/comics/a.zip")));
    assert!(!store.is_exists_file_path(&String::from("/comics/b.zip")));
}

#[test]
fn history_is_ordered_by_recency_descending() {
    let mut store = HistoryStore::new();
    store.record_opened(&String::from("/one"), 100);
    store.record_opened(&String::from("/two"), 300);
    store.record_opened(&String::from("/three"), 200);
    let history = store.get_history();
    let paths: Vec<&str> = history.iter().map(|h| h.path.as_str()).collect();
    assert_eq!(paths, vec!["/two", "/three", "/one"]);
    assert_eq!(history[0].unixtime, 300);
}

#[test]
fn reopening_a_path_updates_instead_of_duplicating() {
    let mut store = HistoryStore::new();
    store.record_opened(&String::from("/one"), 100);
    store.record_opened(&String::from("/two"), 200);
    store.record_opened(&String::from("/one"), 400);
    assert_eq!(store.entries.len(), 2);
    let history = store.get_history();
    assert_eq!(history[0].path, "/one");
    assert_eq!(history[0].unixtime, 400);
    assert_eq!(history[1].path, "/two");
}

#[test]
fn history_is_capped_to_the_ten_most_recent() {
    let mut store = HistoryStore::new();
    for i in 0..12u64 {
        store.record_opened(&format!("/book-{}", i), 1000 + i);
    }
    let history = store.get_history();
    assert_eq!(history.len(), 10);
    assert_eq!(history[0].path, "/book-11");
    assert_eq!(history[9].path, "/book-2");
    for pair in history.windows(2) {
        assert!(pair[0].unixtime >= pair[1].unixtime);
    }
}

#[test]
fn add_and_update_keep_separate_records_apart() {
    let mut store = HistoryStore::new();
    store.add_history(String::from("/a"), 10);
    store.add_history(String::from("/b"), 20);
    store.update_history(&String::from("/a"), 30);
    assert_eq!(store.entries.len(), 2);
    assert_eq!(store.entries[0].unixtime, 30);
    assert_eq!(store.entries[1].unixtime, 20);
    // ids mirror insertion order
    assert_eq!(store.entries[0].id, 1);
    assert_eq!(store.entries[1].id, 2);
}

#[test]
fn updating_an_unknown_path_changes_nothing() {
    let mut store = HistoryStore::new();
    store.add_history(String::from("/a"), 10);
    store.update_history(&String::from("/missing"), 99);
    assert_eq!(store.entries.len(), 1);
    assert_eq!(store.entries[0].unixtime, 10);
}

#[test]
fn file_history_record_is_plain_data() {
    let record = FileHistory { id: 7, path: String::from("/x"), unixtime: 123 };
    assert_eq!(record.id, 7);
    assert_eq!(record.path, "/x");
    assert_eq!(record.unixtime, 123);
}
