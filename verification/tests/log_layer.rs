use arbor::log_layer::{
    event_entry, FieldVisitor, InMemoryLayer, LogBuffer, LogEntry, LogHistory, MAX_LOG_ENTRIES,
};
use std::time::SystemTime;

fn entry(message: &str) -> LogEntry {
    LogEntry {
        timestamp: SystemTime::UNIX_EPOCH,
        level: tracing::Level::INFO,
        target: "arbor".to_owned(),
        message: message.to_owned(),
        fields: vec![("key".to_owned(), "value".to_owned())],
    }
}

#[test]
fn history_keeps_most_recent_entries() {
    let mut history = LogHistory::new();
    assert_eq!(history.generation(), 0);
    assert!(history.snapshot().is_empty());
    for i in 0..MAX_LOG_ENTRIES + 5 {
        history.push(entry(&i.to_string()));
    }
    let snapshot = history.snapshot();
    assert_eq!(snapshot.len(), MAX_LOG_ENTRIES);
    assert_eq!(snapshot[0].message, "5");
    assert_eq!(snapshot[MAX_LOG_ENTRIES - 1].message, (MAX_LOG_ENTRIES + 4).to_string());
    assert_eq!(history.generation(), (MAX_LOG_ENTRIES + 5) as u64);
}

#[test]
fn history_keeps_arrival_order() {
    let mut history = LogHistory::new();
    history.push(entry("a"));
    history.push(entry("b"));
    let snapshot = history.snapshot();
    let messages: Vec<&str> = snapshot.iter().map(|e| e.message.as_str()).collect();
    assert_eq!(messages, vec!["a", "b"]);
    assert_eq!(snapshot[1].fields, vec![("key".to_owned(), "value".to_owned())]);
    assert_eq!(snapshot[1].level, tracing::Level::INFO);
}

#[test]
fn duplicate_copies_every_field() {
    let e = entry("hello");
    let d = e.duplicate();
    assert_eq!(d.timestamp, e.timestamp);
    assert_eq!(d.level, e.level);
    assert_eq!(d.target, e.target);
    assert_eq!(d.message, e.message);
    assert_eq!(d.fields, e.fields);
}

#[test]
fn buffer_clones_share_the_log() {
    let buffer = LogBuffer::new();
    let layer = InMemoryLayer::new(buffer.clone());
    assert_eq!(buffer.generation(), 0);
    let mut visitor = FieldVisitor::new();
    visitor.record_str("message", "started");
    visitor.record_debug("count", "3".to_owned());
    layer.record_event(SystemTime::UNIX_EPOCH, tracing::Level::WARN, "arbor::gui".to_owned(), visitor);
    assert_eq!(buffer.generation(), 1);
    let snapshot = buffer.snapshot();
    assert_eq!(snapshot.len(), 1);
    assert_eq!(snapshot[0].message, "started");
    assert_eq!(snapshot[0].target, "arbor::gui");
    assert_eq!(snapshot[0].level, tracing::Level::WARN);
    assert_eq!(snapshot[0].fields, vec![("count".to_owned(), "3".to_owned())]);
}

#[test]
fn buffer_stays_bounded() {
    let buffer = LogBuffer::new();
    for i in 0..MAX_LOG_ENTRIES + 1 {
        buffer.push(entry(&i.to_string()));
    }
    let snapshot = buffer.snapshot();
    assert_eq!(snapshot.len(), MAX_LOG_ENTRIES);
    assert_eq!(snapshot[0].message, "1");
    assert_eq!(buffer.generation(), (MAX_LOG_ENTRIES + 1) as u64);
}

#[test]
fn visitor_separates_message_from_fields() {
    let mut v = FieldVisitor::new();
    assert_eq!(v.message, "");
    v.record_str("user", "alice");
    v.record_debug("message", "\"hi\"".to_owned());
    v.record_field("id", "7".to_owned());
    v.record_str("message", "bye");
    assert_eq!(v.message, "bye");
    assert_eq!(v.fields, vec![("user".to_owned(), "alice".to_owned()), ("id".to_owned(), "7".to_owned())]);
    let e = event_entry(SystemTime::UNIX_EPOCH, tracing::Level::DEBUG, "t".to_owned(), v);
    assert_eq!(e.message, "bye");
    assert_eq!(e.fields.len(), 2);
}

#[test]
fn clone_and_default() {
    let e = entry("cloned");
    let c = e.clone();
    assert_eq!(c.message, "cloned");
    assert_eq!(c.fields, e.fields);
    let v = FieldVisitor::default();
    assert_eq!(v.message, "");
    assert!(v.fields.is_empty());
}
