//! Export results and the interface that trace exporters implement.
use crate::evicted::{EvictedHashMap, EvictedQueue};
use crate::trace::{clone_key_values, Event, KeyValue, Link, SpanContext, SpanId, SpanKind, StatusCode};
use vstd::prelude::*;

verus! {

/// Describes the result of an export.
#[derive(Clone, Copy, Debug, PartialEq, Eq, Structural)]
pub enum ExportResult {
    /// Batch is successfully exported.
    Success,
    /// Batch export failed. Caller must not retry.
    FailedNotRetryable,
    /// Batch export failed transiently. Caller should record error and may retry.
    FailedRetryable,
}

/// A transport reported a number that is not an HTTP status code (outside 100..=999).
#[derive(Clone, Copy, Debug, PartialEq, Eq, Structural)]
pub struct InvalidStatusCode {
    pub code: u16,
}

/// A status code that HTTP accepts.
pub open spec fn valid_status(code: u16) -> bool {
    100 <= code <= 999
}

/// A status code of the 2xx class.
pub open spec fn success_status(code: u16) -> bool {
    200 <= code < 300
}

/// Relies on `http::StatusCode::from_u16`, which accepts exactly 100..=999, and on
/// `http::StatusCode::is_success`, which holds exactly for 200..=299.
#[verifier::external_body]
fn classify_status(code: u16) -> (r: Option<bool>)
    ensures
        r == (if valid_status(code) { Some(success_status(code)) } else { None::<bool> }),
{
    match http::StatusCode::from_u16(code) {
        Ok(status) => Some(status.is_success()),
        Err(_) => None,
    }
}

/// Maps the status code of a transport's response to an export result: a
/// success status means `Success`, any other status `FailedNotRetryable`.
pub fn export_result_for_status(code: u16) -> (r: Result<ExportResult, InvalidStatusCode>)
    ensures
        !valid_status(code) <==> r == Err::<ExportResult, InvalidStatusCode>(
            (InvalidStatusCode { code }),
        ),
        valid_status(code) && success_status(code) <==> r == Ok::<
            ExportResult,
            InvalidStatusCode,
        >(ExportResult::Success),
        valid_status(code) && !success_status(code) <==> r == Ok::<
            ExportResult,
            InvalidStatusCode,
        >(ExportResult::FailedNotRetryable),
{
    match classify_status(code) {
        Some(true) => Ok(ExportResult::Success),
        Some(false) => Ok(ExportResult::FailedNotRetryable),
        None => Err(InvalidStatusCode { code }),
    }
}

/// The interface that protocol-specific exporters implement.
///
/// `export` is never called concurrently on one exporter, and must time out
/// rather than block indefinitely. `shutdown` is called at most once, after which
/// `export` must not be called.
pub trait SpanExporter {
    /// Exports a batch of finished spans.
    fn export(&mut self, batch: Vec<SpanData>) -> ExportResult;

    /// Shuts the exporter down, giving it a chance to clean up.
    fn shutdown(&mut self) {
    }
}

/// Attributes describing the entity that produced the spans of a process.
#[derive(Debug, PartialEq)]
pub struct Resource {
    pub attributes: Vec<KeyValue>,
}

impl Resource {
    pub fn new(attributes: Vec<KeyValue>) -> (r: Resource)
        ensures
            r.attributes == attributes,
    {
        Resource { attributes }
    }

    pub fn empty() -> (r: Resource)
        ensures
            r.attributes@ == Seq::<KeyValue>::empty(),
    {
        Resource { attributes: Vec::new() }
    }
}

impl Clone for Resource {
    fn clone(&self) -> (r: Self)
        ensures
            r.attributes@ == self.attributes@,
    {
        Resource { attributes: clone_key_values(&self.attributes) }
    }
}

/// The name and version of the library that produced a span.
#[derive(Debug, PartialEq)]
pub struct InstrumentationLibrary {
    pub name: String,
    pub version: Option<String>,
}

impl InstrumentationLibrary {
    pub fn new(name: &str, version: Option<&str>) -> (r: InstrumentationLibrary)
        ensures
            r.name@ == name@,
            r.version is Some <==> version is Some,
            version matches Some(v) ==> r.version.unwrap()@ == v@,
    {
        let version = match version {
            Some(v) => Some(v.to_string()),
            None => None,
        };
        InstrumentationLibrary { name: name.to_string(), version }
    }
}

impl Clone for InstrumentationLibrary {
    fn clone(&self) -> (r: Self)
        ensures
            r == *self,
    {
        let version = match &self.version {
            Some(v) => Some(v.clone()),
            None => None,
        };
        InstrumentationLibrary { name: self.name.clone(), version }
    }
}

/// Everything a span collected, as exporters receive it.
#[derive(Debug, PartialEq)]
pub struct SpanData {
    pub span_context: SpanContext,
    pub parent_span_id: SpanId,
    pub span_kind: SpanKind,
    pub name: String,
    /// Nanoseconds since the Unix epoch.
    pub start_time: u64,
    /// Nanoseconds since the Unix epoch.
    pub end_time: u64,
    pub attributes: EvictedHashMap,
    pub message_events: EvictedQueue<Event>,
    pub links: EvictedQueue<Link>,
    pub status_code: StatusCode,
    pub status_message: String,
    pub resource: Resource,
    pub instrumentation_lib: InstrumentationLibrary,
}

/// The content of a bounded queue: its capacity, the views of its items, and
/// how many it dropped.
pub struct QueueView<V> {
    pub capacity: nat,
    pub items: Seq<V>,
    pub dropped: nat,
}

/// The content of a span's data, field by field.
pub struct SpanDataView {
    pub span_context: SpanContext,
    pub parent_span_id: SpanId,
    pub span_kind: SpanKind,
    pub name: Seq<char>,
    pub start_time: u64,
    pub end_time: u64,
    pub attributes: QueueView<KeyValue>,
    pub message_events: QueueView<(Seq<char>, u64, Seq<KeyValue>)>,
    pub links: QueueView<(SpanContext, Seq<KeyValue>)>,
    pub status_code: StatusCode,
    pub status_message: Seq<char>,
    pub resource: Seq<KeyValue>,
    pub instrumentation_lib: InstrumentationLibrary,
}

pub open spec fn queue_view<T: View>(q: EvictedQueue<T>) -> QueueView<T::V> {
    QueueView {
        capacity: q.spec_capacity(),
        items: q.spec_items().map_values(|t: T| t@),
        dropped: q.spec_dropped(),
    }
}

pub open spec fn map_view(m: EvictedHashMap) -> QueueView<KeyValue> {
    QueueView { capacity: m.spec_capacity(), items: m.spec_entries(), dropped: m.spec_dropped() }
}

impl View for SpanData {
    type V = SpanDataView;

    open spec fn view(&self) -> SpanDataView {
        SpanDataView {
            span_context: self.span_context,
            parent_span_id: self.parent_span_id,
            span_kind: self.span_kind,
            name: self.name@,
            start_time: self.start_time,
            end_time: self.end_time,
            attributes: map_view(self.attributes),
            message_events: queue_view(self.message_events),
            links: queue_view(self.links),
            status_code: self.status_code,
            status_message: self.status_message@,
            resource: self.resource.attributes@,
            instrumentation_lib: self.instrumentation_lib,
        }
    }
}

impl Clone for SpanData {
    /// An independent copy with the same content.
    fn clone(&self) -> (r: Self)
        ensures
            r@ == self@,
    {
        let message_events = self.message_events.clone();
        let links = self.links.clone();
        assert(message_events.spec_items().map_values(|t: Event| t@) =~= self.message_events.spec_items().map_values(|t: Event| t@));
        assert(links.spec_items().map_values(|t: Link| t@) =~= self.links.spec_items().map_values(|t: Link| t@));
        SpanData {
            span_context: self.span_context,
            parent_span_id: self.parent_span_id,
            span_kind: self.span_kind,
            name: self.name.clone(),
            start_time: self.start_time,
            end_time: self.end_time,
            attributes: self.attributes.clone(),
            message_events,
            links,
            status_code: self.status_code,
            status_message: self.status_message.clone(),
            resource: self.resource.clone(),
            instrumentation_lib: self.instrumentation_lib.clone(),
        }
    }
}

} // verus!
