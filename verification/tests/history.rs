use wellium::history::HistoryStore;
use wellium::history::WidgetEntry;

fn ts(n: u32) -> String {
    format!("2024-01-01T00:00:{:02}.000Z", n)
}

#[test]
fn round_trip_first_entry() {
    let mut store = HistoryStore::open(Vec::new());
    store.add_entry("w7", ts(1), "hello");
    let got = store.get_entries("w7");
    assert_eq!(got.len(), 1);
    assert_eq!(got[0].content, "hello");
    assert_eq!(got[0].widget_id, "w7");
}

#[test]
fn entries_never_leak_across_widgets() {
    let mut store = HistoryStore::open(Vec::new());
    store.add_entry("w7", ts(1), "hello");
    store.add_entry("w11", ts(2), "other");
    let w7 = store.get_entries("w7");
    assert_eq!(w7.len(), 1);
    assert!(w7.iter().all(|e| e.widget_id == "w7"));
    let w11 = store.get_entries("w11");
    assert_eq!(w11.len(), 1);
    assert!(w11.iter().all(|e| e.widget_id == "w11"));
}

#[test]
fn exact_match_filter_not_prefix() {
    let mut store = HistoryStore::open(Vec::new());
    store.add_entry("w7", ts(1), "seven");
    store.add_entry("w77", ts(2), "seventy-seven");
    let got = store.get_entries("w7");
    assert_eq!(got.len(), 1);
    assert_eq!(got[0].content, "seven");
}

#[test]
fn ordering_newest_first() {
    let mut store = HistoryStore::open(Vec::new());
    store.add_entry("w7", ts(1), "a");
    store.add_entry("w7", ts(2), "b");
    store.add_entry("w7", ts(3), "c");
    let got = store.get_entries("w7");
    let contents: Vec<&str> = got.iter().map(|e| e.content.as_str()).collect();
    assert_eq!(contents, vec!["c", "b", "a"]);
}

#[test]
fn unknown_widget_reads_empty() {
    let mut store = HistoryStore::open(Vec::new());
    store.add_entry("w7", ts(1), "hello");
    let got = store.get_entries("unknown-widget");
    assert!(got.is_empty());
}

#[test]
fn open_twice_is_idempotent() {
    let mut store = HistoryStore::open(Vec::new());
    store.add_entry("w7", ts(1), "a");
    store.add_entry("w11", ts(2), "b");
    store.add_entry("w7", ts(3), "c");
    let reopened = HistoryStore::open(store.snapshot().clone());
    let reopened_again = HistoryStore::open(reopened.snapshot().clone());
    for id in ["w7", "w11", "unknown-widget"] {
        let once = store.get_entries(id);
        let twice = reopened_again.get_entries(id);
        assert_eq!(once.len(), twice.len());
        for (a, b) in once.iter().zip(twice.iter()) {
            assert_eq!(a.widget_id, b.widget_id);
            assert_eq!(a.timestamp, b.timestamp);
            assert_eq!(a.content, b.content);
        }
    }
}

#[test]
fn open_adopts_persisted_journal() {
    let persisted = vec![
        WidgetEntry {
            widget_id: String::from("w7"),
            timestamp: ts(1),
            content: String::from("restored"),
        },
    ];
    let store = HistoryStore::open(persisted);
    let got = store.get_entries("w7");
    assert_eq!(got.len(), 1);
    assert_eq!(got[0].content, "restored");
}

#[test]
fn add_entry_returns_written_value() {
    let mut store = HistoryStore::open(Vec::new());
    let written = store.add_entry("w7", ts(9), "typed text");
    assert_eq!(written.widget_id, "w7");
    assert_eq!(written.timestamp, ts(9));
    assert_eq!(written.content, "typed text");
}

#[test]
fn snapshot_holds_journal_in_write_order() {
    let mut store = HistoryStore::open(Vec::new());
    store.add_entry("w7", ts(1), "a");
    store.add_entry("w11", ts(2), "b");
    let snap = store.snapshot();
    assert_eq!(snap.len(), 2);
    assert_eq!(snap[0].content, "a");
    assert_eq!(snap[1].content, "b");
}

#[test]
fn duplicate_copies_every_field() {
    let e = WidgetEntry {
        widget_id: String::from("w7"),
        timestamp: ts(4),
        content: String::from("text"),
    };
    let d = e.duplicate();
    assert_eq!(d.widget_id, e.widget_id);
    assert_eq!(d.timestamp, e.timestamp);
    assert_eq!(d.content, e.content);
}
