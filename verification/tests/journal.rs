use wasm_math::journal::Journal;

#[test]
fn new_journal_is_empty() {
    let log = Journal::new();
    assert_eq!(log.len(), 0);
    assert_eq!(log.line(0), None);
    assert!(log.into_lines().is_empty());
}

#[test]
fn record_appends_in_order() {
    let mut log = Journal::new();
    log.record("one".to_string());
    log.record("two".to_string());
    log.record("one".to_string());
    assert_eq!(log.len(), 3);
    assert_eq!(log.line(0), Some("one"));
    assert_eq!(log.line(1), Some("two"));
    assert_eq!(log.line(2), Some("one"));
    assert_eq!(log.line(3), None);
    assert_eq!(log.line(usize::MAX), None);
    assert_eq!(
        log.into_lines(),
        vec!["one".to_string(), "two".to_string(), "one".to_string()]
    );
}

#[test]
fn record_keeps_empty_lines() {
    let mut log = Journal::new();
    log.record(String::new());
    assert_eq!(log.len(), 1);
    assert_eq!(log.line(0), Some(""));
}
