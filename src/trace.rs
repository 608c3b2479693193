//! Identity, attribute and event types carried by a span.
use vstd::prelude::*;

verus! {

/// Trace flag: the trace was not sampled.
pub const TRACE_FLAG_NOT_SAMPLED: u8 = 0;

/// Trace flag: the trace was sampled.
pub const TRACE_FLAG_SAMPLED: u8 = 1;

/// A 16-byte trace identity; zero is the invalid identity.
#[derive(Clone, Copy, Debug, PartialEq, Eq, Structural)]
pub struct TraceId(pub u128);

impl TraceId {
    pub fn from_u128(id: u128) -> (r: TraceId)
        ensures
            r.0 == id,
    {
        TraceId(id)
    }

    pub fn invalid() -> (r: TraceId)
        ensures
            r.0 == 0,
    {
        TraceId(0)
    }
}

/// An 8-byte span identity; zero is the invalid identity.
#[derive(Clone, Copy, Debug, PartialEq, Eq, Structural)]
pub struct SpanId(pub u64);

impl SpanId {
    pub fn from_u64(id: u64) -> (r: SpanId)
        ensures
            r.0 == id,
    {
        SpanId(id)
    }

    pub fn invalid() -> (r: SpanId)
        ensures
            r.0 == 0,
    {
        SpanId(0)
    }
}

/// The addressing of a span within a trace.
#[derive(Clone, Copy, Debug, PartialEq, Eq, Structural)]
pub struct SpanContext {
    pub trace_id: TraceId,
    pub span_id: SpanId,
    pub trace_flags: u8,
    pub is_remote: bool,
}

/// The context that stands for "no span".
pub open spec fn invalid_context() -> SpanContext {
    SpanContext { trace_id: TraceId(0), span_id: SpanId(0), trace_flags: 0, is_remote: false }
}

impl SpanContext {
    pub fn new(trace_id: TraceId, span_id: SpanId, trace_flags: u8, is_remote: bool) -> (r:
        SpanContext)
        ensures
            r == (SpanContext { trace_id, span_id, trace_flags, is_remote }),
    {
        SpanContext { trace_id, span_id, trace_flags, is_remote }
    }

    /// The invalid context, returned where no span is recorded.
    pub fn empty_context() -> (r: SpanContext)
        ensures
            r == invalid_context(),
    {
        SpanContext::new(TraceId::invalid(), SpanId::invalid(), 0, false)
    }

    pub fn is_valid(&self) -> (r: bool)
        ensures
            r == (self.trace_id.0 != 0 && self.span_id.0 != 0),
    {
        self.trace_id.0 != 0 && self.span_id.0 != 0
    }
}

/// The role of a span in a trace.
#[derive(Clone, Copy, Debug, PartialEq, Eq, Structural)]
pub enum SpanKind {
    Client,
    Server,
    Producer,
    Consumer,
    Internal,
}

/// The status of a span; `Unset` until someone sets it.
#[derive(Clone, Copy, Debug, PartialEq, Eq, Structural)]
pub enum StatusCode {
    Unset,
    Okay,
    Error,
}

/// The value of an attribute.
#[derive(Debug, PartialEq)]
pub enum Value {
    Bool(bool),
    I64(i64),
    String(String),
}

impl Clone for Value {
    fn clone(&self) -> (r: Self)
        ensures
            r == *self,
    {
        match self {
            Value::Bool(b) => Value::Bool(*b),
            Value::I64(i) => Value::I64(*i),
            Value::String(s) => Value::String(s.clone()),
        }
    }
}

/// A key and its value.
#[derive(Debug, PartialEq)]
pub struct KeyValue {
    pub key: String,
    pub value: Value,
}

impl Clone for KeyValue {
    fn clone(&self) -> (r: Self)
        ensures
            r == *self,
    {
        KeyValue { key: self.key.clone(), value: self.value.clone() }
    }
}

impl KeyValue {
    pub fn new(key: &str, value: Value) -> (r: KeyValue)
        ensures
            r.key@ == key@,
            r.value == value,
    {
        KeyValue { key: key.to_string(), value }
    }

    /// A key with a string value.
    pub fn string(key: &str, value: &str) -> (r: KeyValue)
        ensures
            r.key@ == key@,
            r.value matches Value::String(s) && s@ == value@,
    {
        KeyValue { key: key.to_string(), value: Value::String(value.to_string()) }
    }
}

/// Clones each key-value of a list.
pub fn clone_key_values(v: &Vec<KeyValue>) -> (r: Vec<KeyValue>)
    ensures
        r@ == v@,
{
    let mut r: Vec<KeyValue> = Vec::new();
    let mut i: usize = 0;
    while i < v.len()
        invariant
            i <= v.len(),
            r@ == v@.subrange(0, i as int),
        decreases v.len() - i,
    {
        r.push(v[i].clone());
        i = i + 1;
    }
    assert(r@ =~= v@);
    r
}

/// Something that happened at a point in time during a span.
#[derive(Debug, PartialEq)]
pub struct Event {
    pub name: String,
    /// Nanoseconds since the Unix epoch.
    pub timestamp: u64,
    pub attributes: Vec<KeyValue>,
}

impl View for Event {
    type V = (Seq<char>, u64, Seq<KeyValue>);

    open spec fn view(&self) -> Self::V {
        (self.name@, self.timestamp, self.attributes@)
    }
}

impl Clone for Event {
    fn clone(&self) -> (r: Self)
        ensures
            r@ == self@,
    {
        Event {
            name: self.name.clone(),
            timestamp: self.timestamp,
            attributes: clone_key_values(&self.attributes),
        }
    }
}

impl Event {
    pub fn new(name: String, timestamp: u64, attributes: Vec<KeyValue>) -> (r: Event)
        ensures
            r.name == name,
            r.timestamp == timestamp,
            r.attributes == attributes,
    {
        Event { name, timestamp, attributes }
    }
}

/// A reference from a span to another span's context.
#[derive(Debug, PartialEq)]
pub struct Link {
    pub span_context: SpanContext,
    pub attributes: Vec<KeyValue>,
}

impl View for Link {
    type V = (SpanContext, Seq<KeyValue>);

    open spec fn view(&self) -> Self::V {
        (self.span_context, self.attributes@)
    }
}

impl Clone for Link {
    fn clone(&self) -> (r: Self)
        ensures
            r@ == self@,
    {
        Link { span_context: self.span_context, attributes: clone_key_values(&self.attributes) }
    }
}

impl Link {
    pub fn new(span_context: SpanContext, attributes: Vec<KeyValue>) -> (r: Link)
        ensures
            r.span_context == span_context,
            r.attributes == attributes,
    {
        Link { span_context, attributes }
    }
}

} // verus!
