use opentelemetry::evicted::{EvictedHashMap, EvictedQueue};
use opentelemetry::span::{dispatch, fan_out};
use opentelemetry::trace::{
    KeyValue, SpanContext, SpanId, SpanKind, StatusCode, TraceId, Value, TRACE_FLAG_NOT_SAMPLED,
};
use opentelemetry::{
    InstrumentationLibrary, Resource, Span, SpanData, SpanProcessor, Tracer, TracerProvider,
};
use std::cell::RefCell;
use std::time::{SystemTime, UNIX_EPOCH};

fn now_nanos() -> u64 {
    SystemTime::now().duration_since(UNIX_EPOCH).unwrap().as_nanos() as u64
}

fn init() -> (Tracer, SpanData) {
    let tracer = Tracer::new(InstrumentationLibrary::new("opentelemetry", Some("0.1.0")));
    let data = SpanData {
        span_context: SpanContext::new(
            TraceId::from_u128(0),
            SpanId::from_u64(0),
            TRACE_FLAG_NOT_SAMPLED,
            false,
        ),
        parent_span_id: SpanId::from_u64(0),
        span_kind: SpanKind::Internal,
        name: "opentelemetry".to_string(),
        start_time: now_nanos(),
        end_time: now_nanos(),
        attributes: EvictedHashMap::new(128),
        message_events: EvictedQueue::new(128),
        links: EvictedQueue::new(128),
        status_code: StatusCode::Unset,
        status_message: "".to_string(),
        resource: Resource::empty(),
        instrumentation_lib: tracer.instrumentation_library().clone(),
    };
    (tracer, data)
}

fn create_span() -> Span {
    let (tracer, data) = init();
    Span::new(SpanId::from_u64(0), Some(data), tracer)
}

#[derive(Debug, Default)]
struct Recorder {
    received: RefCell<Vec<SpanData>>,
}

impl SpanProcessor for Recorder {
    fn on_end(&self, span: SpanData) {
        self.received.borrow_mut().push(span);
    }
}

fn provider_of(n: usize) -> TracerProvider<Recorder> {
    let mut processors = Vec::new();
    for _ in 0..n {
        processors.push(Recorder::default());
    }
    TracerProvider::new(processors)
}

#[test]
fn create_span_without_data() {
    let (tracer, _) = init();
    let span = Span::new(SpanId::from_u64(0), None, tracer);
    span.with_data(|_data| panic!("there are data"));
}

#[test]
fn create_span_with_data() {
    let (tracer, data) = init();
    let span = Span::new(SpanId::from_u64(0), Some(data.clone()), tracer);
    span.with_data(|d| assert_eq!(*d, data));
}

#[test]
fn add_event() {
    let mut span = create_span();
    let name = "some_event".to_string();
    let attributes = vec![KeyValue::string("k", "v")];
    span.add_event(name.clone(), attributes.clone());
    span.with_data(|data| {
        if let Some(event) = data.message_events.iter().next() {
            assert_eq!(event.name, name);
            assert_eq!(event.attributes, attributes);
        } else {
            panic!("no event");
        }
    });
}

#[test]
fn add_event_with_timestamp() {
    let mut span = create_span();
    let name = "some_event".to_string();
    let attributes = vec![KeyValue::string("k", "v")];
    let timestamp = now_nanos();
    span.add_event_with_timestamp(name.clone(), timestamp, attributes.clone());
    span.with_data(|data| {
        if let Some(event) = data.message_events.iter().next() {
            assert_eq!(event.timestamp, timestamp);
            assert_eq!(event.name, name);
            assert_eq!(event.attributes, attributes);
        } else {
            panic!("no event");
        }
    });
}

#[test]
fn record_exception() {
    let mut span = create_span();
    let err = std::io::Error::from(std::io::ErrorKind::Other);
    span.record_exception(err.to_string());
    span.with_data(|data| {
        if let Some(event) = data.message_events.iter().next() {
            assert_eq!(event.name, "exception");
            assert_eq!(
                event.attributes,
                vec![KeyValue::string("exception.message", &err.to_string())]
            );
        } else {
            panic!("no event");
        }
    });
}

#[test]
fn record_exception_with_stacktrace() {
    let mut span = create_span();
    let err = std::io::Error::from(std::io::ErrorKind::Other);
    let stacktrace = "stacktrace...".to_string();
    span.record_exception_with_stacktrace(err.to_string(), stacktrace.clone());
    span.with_data(|data| {
        if let Some(event) = data.message_events.iter().next() {
            assert_eq!(event.name, "exception");
            assert_eq!(
                event.attributes,
                vec![
                    KeyValue::string("exception.message", &err.to_string()),
                    KeyValue::string("exception.stacktrace", &stacktrace),
                ]
            );
        } else {
            panic!("no event");
        }
    });
}

#[test]
fn set_attribute() {
    let mut span = create_span();
    let attributes = KeyValue::string("k", "v");
    span.set_attribute(attributes.clone());
    span.with_data(|data| {
        if let Some(val) = data.attributes.get(&attributes.key) {
            assert_eq!(*val, attributes.value);
        } else {
            panic!("no attribute");
        }
    });
}

#[test]
fn set_status() {
    let mut span = create_span();
    let status = StatusCode::Okay;
    let message = "OK".to_string();
    span.set_status(status, message.clone());
    span.with_data(|data| {
        assert_eq!(data.status_code, status);
        assert_eq!(data.status_message, message);
    });
}

#[test]
fn update_name() {
    let mut span = create_span();
    let name = "new_name".to_string();
    span.update_name(name.clone());
    span.with_data(|data| {
        assert_eq!(data.name, name);
    });
}

#[test]
fn end() {
    let mut span = create_span();
    span.end();
}

#[test]
fn end_with_timestamp() {
    let mut span = create_span();
    let timestamp = now_nanos();
    span.end_with_timestamp(timestamp);
    span.with_data(|data| assert_eq!(data.end_time, timestamp));
}

#[test]
fn is_recording_true_when_not_ended() {
    let span = create_span();
    assert!(span.is_recording());
}

#[test]
fn with_data_mut_changes_data() {
    let mut span = create_span();
    let r = span.with_data_mut(|d| {
        d.name = "changed".to_string();
        7
    });
    assert_eq!(r, Some(7));
    span.with_data(|d| assert_eq!(d.name, "changed"));
    let (tracer, _) = init();
    let mut quiet = Span::new(SpanId::from_u64(1), None, tracer);
    assert_eq!(quiet.with_data_mut(|_| 7), None);
}

#[test]
fn span_context_of_recording_and_non_recording() {
    let (tracer, mut data) = init();
    data.span_context = SpanContext::new(TraceId::from_u128(7), SpanId::from_u64(99), 1, false);
    let span = Span::new(SpanId::from_u64(99), Some(data), tracer.clone());
    assert_eq!(span.span_context().span_id, SpanId::from_u64(99));
    assert!(span.span_context().is_valid());
    let quiet = Span::new(SpanId::from_u64(99), None, tracer);
    assert_eq!(quiet.span_context().trace_id, TraceId::invalid());
    assert_eq!(quiet.span_context().span_id, SpanId::invalid());
    assert!(!quiet.span_context().is_valid());
}

#[test]
fn basic_lifecycle_delivers_once() {
    let (tracer, mut data) = init();
    data.name = "op".to_string();
    data.start_time = now_nanos() - 1_000_000;
    data.end_time = data.start_time;
    let start = data.start_time;
    let mut span = Span::new(SpanId::from_u64(1), Some(data), tracer);
    span.set_attribute(KeyValue::new("retries", Value::I64(2)));
    span.set_status(StatusCode::Okay, "".to_string());
    let provider = provider_of(1);
    span.release(Some(&provider));
    let got = provider.span_processors()[0].received.borrow();
    assert_eq!(got.len(), 1);
    assert_eq!(got[0].name, "op");
    assert_eq!(got[0].attributes.get(&"retries".to_string()), Some(&Value::I64(2)));
    assert_eq!(got[0].status_code, StatusCode::Okay);
    assert!(got[0].end_time > start);
    assert_eq!(got[0].start_time, start);
    assert!(!span.is_recording());
}

#[test]
fn explicit_end_is_kept() {
    let (tracer, data) = init();
    let t = data.start_time + 5_000_000_000;
    let mut span = Span::new(SpanId::from_u64(1), Some(data), tracer);
    span.end_with_timestamp(t);
    let provider = provider_of(1);
    span.release(Some(&provider));
    let got = provider.span_processors()[0].received.borrow();
    assert_eq!(got.len(), 1);
    assert_eq!(got[0].end_time, t);
}

#[test]
fn end_not_after_start_is_replaced_by_now() {
    let (tracer, data) = init();
    let start = data.start_time;
    let mut span = Span::new(SpanId::from_u64(1), Some(data), tracer);
    span.end_with_timestamp(start - 10);
    let got = span.release_at(Some(1), start + 42);
    assert_eq!(got.len(), 1);
    assert_eq!(got[0].end_time, start + 42);
    assert_eq!(got[0].start_time, start);
}

#[test]
fn two_processors_receive_equal_data() {
    let mut span = create_span();
    span.update_name("two".to_string());
    span.set_status(StatusCode::Error, "bad".to_string());
    span.set_attribute(KeyValue::string("k", "v"));
    let provider = provider_of(2);
    span.release(Some(&provider));
    let first = provider.span_processors()[0].received.borrow();
    let second = provider.span_processors()[1].received.borrow();
    assert_eq!(first.len(), 1);
    assert_eq!(second.len(), 1);
    assert_eq!(first[0], second[0]);
    assert_eq!(first[0].name, "two");
    assert_eq!(first[0].status_code, StatusCode::Error);
    assert_eq!(first[0].status_message, "bad");
}

#[test]
fn non_recording_span_delivers_nothing() {
    let (tracer, _) = init();
    let mut span = Span::new(SpanId::from_u64(0), None, tracer);
    span.set_attribute(KeyValue::string("k", "v"));
    span.update_name("new_name".to_string());
    span.add_event("e".to_string(), vec![]);
    span.end();
    assert!(!span.is_recording());
    span.with_data(|_data| panic!("there are data"));
    let provider = provider_of(2);
    span.release(Some(&provider));
    assert!(provider.span_processors()[0].received.borrow().is_empty());
    assert!(provider.span_processors()[1].received.borrow().is_empty());
}

#[test]
fn duplicated_handles_finalize_once() {
    let mut span = create_span();
    span.acquire();
    span.acquire();
    let provider = provider_of(2);
    span.release(Some(&provider));
    assert!(span.is_recording());
    assert!(provider.span_processors()[0].received.borrow().is_empty());
    span.release(Some(&provider));
    assert!(provider.span_processors()[1].received.borrow().is_empty());
    span.release(Some(&provider));
    assert!(!span.is_recording());
    assert_eq!(provider.span_processors()[0].received.borrow().len(), 1);
    assert_eq!(provider.span_processors()[1].received.borrow().len(), 1);
}

#[test]
fn empty_chain_completes() {
    let mut span = create_span();
    let provider = provider_of(0);
    span.release(Some(&provider));
    assert!(!span.is_recording());
}

#[test]
fn provider_gone_drops_data() {
    let mut span = create_span();
    span.release::<Recorder>(None);
    assert!(!span.is_recording());
}

#[test]
fn release_at_fans_out_to_each_processor() {
    let mut span = create_span();
    let got = span.release_at(Some(3), 0);
    assert_eq!(got.len(), 3);
    assert_eq!(got[0], got[1]);
    assert_eq!(got[1], got[2]);
    let mut none = create_span();
    assert!(none.release_at(None, 0).is_empty());
}

#[test]
fn fan_out_copies() {
    let (_, data) = init();
    let copies = fan_out(data.clone(), 3);
    assert_eq!(copies.len(), 3);
    for c in &copies {
        assert_eq!(*c, data);
    }
    assert!(fan_out(data, 0).is_empty());
}

#[test]
fn dispatch_in_order() {
    let (_, mut a) = init();
    let (_, mut b) = init();
    a.name = "a".to_string();
    b.name = "b".to_string();
    let processors = vec![Recorder::default(), Recorder::default()];
    dispatch(&processors, vec![a, b]);
    assert_eq!(processors[0].received.borrow()[0].name, "a");
    assert_eq!(processors[1].received.borrow()[0].name, "b");
}
