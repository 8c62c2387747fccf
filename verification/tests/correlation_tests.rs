use base::correlation::multi::{CorrelationDelegate, MultiCorrelationProvider};
use base::correlation::originator::OriginatorCorrelationProvider;
use base::correlation::simple::SimpleCorrelationProvider;
use base::correlation::CorrelationProvider;
use base::ddd::metadata::Value;
use base::message::generic::EventMessage;

const TRACE_ID_KEY: &str = "bor:trace:id";
const CORRELATION_ID_KEY: &str = "bor:correlation:id";

fn text(s: &str) -> Value {
    Value::Text(s.to_owned())
}

#[test]
fn test_simple_correlation() {
    let message = EventMessage::new("SomethingHappened".to_owned(), text("event-content"))
        .add_meta("key1".to_owned(), text("value1"))
        .add_meta("key2".to_owned(), text("value2"));
    let correlation = SimpleCorrelationProvider::new(vec!["key1".to_owned()]);

    let data = correlation.correlation_for(message);

    assert_eq!(data.len(), 1);
    assert!(data.get("key1").is_some());
}

#[test]
fn test_origin_correlation() {
    let message = EventMessage::new("SomethingHappened".to_owned(), text("event-content"))
        .add_meta("key1".to_owned(), text("value1"))
        .add_meta(TRACE_ID_KEY.to_owned(), text("message-trace-id"));
    let correlation = OriginatorCorrelationProvider::new("cor-1".to_owned(), "trace-id".to_owned());

    let data = correlation.correlation_for(message);

    assert!(data.get(TRACE_ID_KEY).is_some());
    assert_eq!(data.get(TRACE_ID_KEY).unwrap(), text("message-trace-id"));
}

#[test]
fn test_origin_correlation_no_trace() {
    // message has no trace id
    let message = EventMessage::new("SomethingHappened".to_owned(), text("event-content"))
        .add_meta("key1".to_owned(), text("value1"));
    let correlation = OriginatorCorrelationProvider::new("cor-1".to_owned(), "trace-id".to_owned());

    let data = correlation.correlation_for(message);

    assert!(data.get(TRACE_ID_KEY).is_some());
    assert_eq!(data.get(TRACE_ID_KEY).unwrap(), text("trace-id"));
}

#[test]
fn test_multi_correlation() {
    let message = EventMessage::new("SomethingHappened".to_owned(), text("event-content"))
        .add_meta(TRACE_ID_KEY.to_owned(), text("message-trace-id"))
        .add_meta("key1".to_owned(), text("value1"))
        .add_meta("key2".to_owned(), text("value2"))
        .add_meta("key3".to_owned(), text("value3"))
        .add_meta("key4".to_owned(), text("value4"));

    let simple_1 = SimpleCorrelationProvider::new(vec!["key1".to_owned()]);
    let simple_2 = SimpleCorrelationProvider::new(vec!["key2".to_owned()]);
    let originator = OriginatorCorrelationProvider::new("cor-1".to_owned(), "trace-id".to_owned());
    let delegates: Vec<CorrelationDelegate> = vec![
        CorrelationDelegate::Simple(simple_1),
        CorrelationDelegate::Simple(simple_2),
        CorrelationDelegate::Originator(originator),
    ];

    let multi = MultiCorrelationProvider::new(delegates);

    let data = multi.correlation_for(message);

    assert_eq!(data.get(TRACE_ID_KEY).unwrap(), text("message-trace-id"));
    assert_eq!(data.get(CORRELATION_ID_KEY).unwrap(), text("cor-1"));
    assert!(data.get("key1").is_some());
    assert!(data.get("key2").is_some());
}

#[test]
fn multi_last_delegate_wins() {
    // Both delegates bind the trace id; the message itself has none, so
    // each originator stamps its own fallback, and the later one must win.
    let message = EventMessage::new("SomethingHappened".to_owned(), text("event-content"));
    let first = OriginatorCorrelationProvider::new("cor-a".to_owned(), "trace-a".to_owned());
    let second = OriginatorCorrelationProvider::new("cor-b".to_owned(), "trace-b".to_owned());
    let multi = MultiCorrelationProvider::new(vec![
        CorrelationDelegate::Originator(first),
        CorrelationDelegate::Originator(second),
    ]);

    let data = multi.correlation_for(message);

    assert_eq!(data.get(TRACE_ID_KEY).unwrap(), text("trace-b"));
    assert_eq!(data.get(CORRELATION_ID_KEY).unwrap(), text("cor-b"));
}

#[test]
fn simple_correlation_skips_absent_headers() {
    let message = EventMessage::new("SomethingHappened".to_owned(), text("event-content"))
        .add_meta("present".to_owned(), text("value"));
    let correlation = SimpleCorrelationProvider::new(vec![
        "present".to_owned(),
        "absent".to_owned(),
    ]);

    let data = correlation.correlation_for(message);

    assert_eq!(data.len(), 1);
    assert_eq!(data.get("present").unwrap(), text("value"));
    assert!(data.get("absent").is_none());
}
