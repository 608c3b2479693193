//! The span handle, its finalization on last release, and dispatch of the
//! finished data to the processor chain.
//!
//! A span counts its live handles. Duplicating a handle is `acquire`; dropping
//! one is `release`. The release that brings the count to zero takes the span's
//! data out, fixes its end time, and hands one copy to each processor, the
//! last processor receiving the original.
use crate::evicted::{inserted_bounded, pushed_bounded, saturating_count};
use crate::export::{InstrumentationLibrary, QueueView, SpanData, SpanDataView};
use crate::trace::{invalid_context, Event, KeyValue, SpanContext, SpanId, StatusCode, Value};
use vstd::prelude::*;

verus! {

/// A consumer of finished spans.
pub trait SpanProcessor {
    /// Receives one finished span.
    fn on_end(&self, span: SpanData);
}

/// Holds the processor chain that finished spans are handed to.
pub struct TracerProvider<P> {
    processors: Vec<P>,
}

impl<P> TracerProvider<P> {
    pub closed spec fn spec_processors(&self) -> Seq<P> {
        self.processors@
    }

    pub fn new(processors: Vec<P>) -> (r: TracerProvider<P>)
        ensures
            r.spec_processors() == processors@,
    {
        TracerProvider { processors }
    }

    /// The processors, in the order they receive spans.
    pub fn span_processors(&self) -> (r: &Vec<P>)
        ensures
            r@ == self.spec_processors(),
    {
        &self.processors
    }
}

/// Creates spans for one instrumentation library.
#[derive(Debug)]
pub struct Tracer {
    instrumentation_lib: InstrumentationLibrary,
}

impl Clone for Tracer {
    fn clone(&self) -> (r: Self)
        ensures
            r == *self,
    {
        Tracer { instrumentation_lib: self.instrumentation_lib.clone() }
    }
}

impl Tracer {
    pub closed spec fn spec_library(&self) -> InstrumentationLibrary {
        self.instrumentation_lib
    }

    pub fn new(instrumentation_lib: InstrumentationLibrary) -> (r: Tracer)
        ensures
            r.spec_library() == instrumentation_lib,
    {
        Tracer { instrumentation_lib }
    }

    pub fn instrumentation_library(&self) -> (r: &InstrumentationLibrary)
        ensures
            *r == self.spec_library(),
    {
        &self.instrumentation_lib
    }
}

/// Single operation within a trace, shared by a counted number of handles.
#[derive(Debug)]
pub struct Span {
    id: SpanId,
    data: Option<SpanData>,
    handles: usize,
    tracer: Tracer,
}

/// The data as the chain receives it: an end time that does not come after
/// the start time is replaced by `now`.
pub open spec fn finalized(d: SpanDataView, now: u64) -> SpanDataView {
    if d.end_time <= d.start_time {
        SpanDataView { end_time: now, ..d }
    } else {
        d
    }
}

/// What one release delivers, one entry per processor: nothing unless it is
/// the last handle, the span records, and the provider still exists.
pub open spec fn release_deliveries(
    data: Option<SpanDataView>,
    handles: nat,
    chain: Option<usize>,
    now: u64,
) -> Seq<SpanDataView> {
    if handles == 1 && data is Some && chain is Some {
        Seq::new(chain.unwrap() as nat, |i: int| finalized(data.unwrap(), now))
    } else {
        Seq::empty()
    }
}

/// The data a span holds after one release.
pub open spec fn data_after_release(data: Option<SpanDataView>, handles: nat) -> Option<
    SpanDataView,
> {
    if handles == 1 {
        None
    } else {
        data
    }
}

pub open spec fn view_of(d: Option<SpanData>) -> Option<SpanDataView> {
    match d {
        Some(x) => Some(x@),
        None => None,
    }
}

pub open spec fn views(s: Seq<SpanData>) -> Seq<SpanDataView> {
    s.map_values(|d: SpanData| d@)
}

/// `n` independent copies of `data`, the last being `data` itself.
pub fn fan_out(data: SpanData, n: usize) -> (r: Vec<SpanData>)
    ensures
        r.len() == n,
        forall|i: int| 0 <= i < n ==> (#[trigger] r[i])@ == data@,
{
    let mut r: Vec<SpanData> = Vec::new();
    if n == 0 {
        return r;
    }
    let mut i: usize = 0;
    while i + 1 < n
        invariant
            i < n,
            r.len() == i,
            forall|j: int| 0 <= j < i ==> (#[trigger] r[j])@ == data@,
        decreases n - i,
    {
        r.push(data.clone());
        i = i + 1;
    }
    r.push(data);
    r
}

/// Relies on `std::time::SystemTime::elapsed`, applied to the Unix epoch: the
/// current time in nanoseconds since then, zero for a clock set before it.
/// Nothing is known of the value: clocks may go backwards.
#[verifier::external_body]
fn now() -> u64 {
    match std::time::UNIX_EPOCH.elapsed() {
        Ok(d) => d.as_nanos() as u64,
        Err(_) => 0,
    }
}

impl Span {
    pub closed spec fn spec_id(&self) -> SpanId {
        self.id
    }

    pub closed spec fn spec_data(&self) -> Option<SpanData> {
        self.data
    }

    pub closed spec fn spec_handles(&self) -> nat {
        self.handles as nat
    }

    pub closed spec fn spec_tracer(&self) -> Tracer {
        self.tracer
    }

    /// A span with one handle; `None` makes it non-recording.
    pub fn new(id: SpanId, data: Option<SpanData>, tracer: Tracer) -> (r: Span)
        ensures
            r.spec_id() == id,
            r.spec_data() == data,
            r.spec_handles() == 1,
            r.spec_tracer() == tracer,
    {
        Span { id, data, handles: 1, tracer }
    }

    /// Applies `f` to the span's data, if it records.
    pub fn with_data<T, F: FnOnce(&SpanData) -> T>(&self, f: F) -> (r: Option<T>)
        requires
            self.spec_data() matches Some(d) ==> f.requires((&d,)),
        ensures
            self.spec_data() is None ==> r is None,
            self.spec_data() matches Some(d) ==> (r matches Some(v) && f.ensures((&d,), v)),
    {
        match &self.data {
            Some(d) => Some(f(d)),
            None => None,
        }
    }

    /// Applies `f` to the span's data, which it may change, if the span records.
    pub fn with_data_mut<T, F: FnOnce(&mut SpanData) -> T>(&mut self, f: F) -> (r: Option<T>)
        requires
            old(self).spec_data() matches Some(d) ==> forall|x: &mut SpanData| *x == d ==> f.requires((x,)),
        ensures
            final(self).spec_id() == old(self).spec_id(),
            final(self).spec_handles() == old(self).spec_handles(),
            final(self).spec_tracer() == old(self).spec_tracer(),
            old(self).spec_data() is None ==> r is None && final(self).spec_data() is None,
            old(self).spec_data() is Some ==> r is Some && final(self).spec_data() is Some,
    {
        match self.data.take() {
            Some(mut d) => {
                let v = f(&mut d);
                self.data = Some(d);
                Some(v)
            },
            None => None,
        }
    }

    /// Records an event at the given time.
    pub fn add_event_with_timestamp(
        &mut self,
        name: String,
        timestamp: u64,
        attributes: Vec<KeyValue>,
    )
        ensures
            final(self).spec_id() == old(self).spec_id(),
            final(self).spec_handles() == old(self).spec_handles(),
            final(self).spec_tracer() == old(self).spec_tracer(),
            old(self).spec_data() is None ==> final(self).spec_data() is None,
            old(self).spec_data() matches Some(d) ==> (final(self).spec_data() matches Some(e)
                && e@ == with_event(d@, (name@, timestamp, attributes@))),
    {
        let ghost event_view = (name@, timestamp, attributes@);
        match self.data.take() {
            Some(mut d) => {
                let ghost before = d.message_events.spec_items();
                d.message_events.push_back(Event::new(name, timestamp, attributes));
                proof {
                    lemma_pushed_views(before, Event { name, timestamp, attributes }, d.message_events.spec_capacity());
                }
                self.data = Some(d);
            },
            None => {},
        }
    }

    /// Records an event at the current time.
    pub fn add_event(&mut self, name: String, attributes: Vec<KeyValue>)
        ensures
            final(self).spec_id() == old(self).spec_id(),
            final(self).spec_handles() == old(self).spec_handles(),
            final(self).spec_tracer() == old(self).spec_tracer(),
            old(self).spec_data() is None ==> final(self).spec_data() is None,
            old(self).spec_data() matches Some(d) ==> exists|t: u64| (final(self).spec_data() matches Some(e)
                && e@ == #[trigger] with_event(d@, (name@, t, attributes@))),
    {
        let t = now();
        self.add_event_with_timestamp(name, t, attributes);
    }

    /// Records an error as an event named `exception` at the current time.
    pub fn record_exception(&mut self, message: String)
        ensures
            final(self).spec_id() == old(self).spec_id(),
            final(self).spec_handles() == old(self).spec_handles(),
            final(self).spec_tracer() == old(self).spec_tracer(),
            old(self).spec_data() is None ==> final(self).spec_data() is None,
            old(self).spec_data() matches Some(d) ==> exists|t: u64, a: Seq<KeyValue>|
                (final(self).spec_data() matches Some(e) && e@ == #[trigger] with_event(
                    d@,
                    ("exception"@, t, a),
                ) && a.len() == 1 && a[0].key@ == "exception.message"@ && a[0].value
                    == Value::String(message)),
    {
        let attributes = vec![KeyValue { key: "exception.message".to_string(), value: Value::String(message) }];
        self.add_event("exception".to_string(), attributes);
    }

    /// Records an error and its stack trace as an event named `exception` at
    /// the current time.
    pub fn record_exception_with_stacktrace(&mut self, message: String, stacktrace: String)
        ensures
            final(self).spec_id() == old(self).spec_id(),
            final(self).spec_handles() == old(self).spec_handles(),
            final(self).spec_tracer() == old(self).spec_tracer(),
            old(self).spec_data() is None ==> final(self).spec_data() is None,
            old(self).spec_data() matches Some(d) ==> exists|t: u64, a: Seq<KeyValue>|
                (final(self).spec_data() matches Some(e) && e@ == #[trigger] with_event(
                    d@,
                    ("exception"@, t, a),
                ) && a.len() == 2 && a[0].key@ == "exception.message"@ && a[0].value
                    == Value::String(message) && a[1].key@ == "exception.stacktrace"@
                    && a[1].value == Value::String(stacktrace)),
    {
        let attributes = vec![
            KeyValue { key: "exception.message".to_string(), value: Value::String(message) },
            KeyValue { key: "exception.stacktrace".to_string(), value: Value::String(stacktrace) },
        ];
        self.add_event("exception".to_string(), attributes);
    }

    /// The span's context, or the invalid context if it does not record.
    pub fn span_context(&self) -> (r: SpanContext)
        ensures
            self.spec_data() matches Some(d) ==> r == d.span_context,
            self.spec_data() is None ==> r == invalid_context(),
    {
        match &self.data {
            Some(d) => d.span_context,
            None => SpanContext::empty_context(),
        }
    }

    /// Whether the span records its operations.
    pub fn is_recording(&self) -> (r: bool)
        ensures
            r == self.spec_data() is Some,
    {
        self.data.is_some()
    }

    /// Sets one attribute, overwriting one with the same key.
    pub fn set_attribute(&mut self, attribute: KeyValue)
        ensures
            final(self).spec_id() == old(self).spec_id(),
            final(self).spec_handles() == old(self).spec_handles(),
            final(self).spec_tracer() == old(self).spec_tracer(),
            old(self).spec_data() is None ==> final(self).spec_data() is None,
            old(self).spec_data() matches Some(d) ==> (final(self).spec_data() matches Some(e)
                && e@ == (SpanDataView { attributes: map_inserted(d@.attributes, attribute), ..d@ })),
    {
        match self.data.take() {
            Some(mut d) => {
                d.attributes.insert(attribute);
                self.data = Some(d);
            },
            None => {},
        }
    }

    /// Sets the status, replacing the previous one.
    pub fn set_status(&mut self, code: StatusCode, message: String)
        ensures
            final(self).spec_id() == old(self).spec_id(),
            final(self).spec_handles() == old(self).spec_handles(),
            final(self).spec_tracer() == old(self).spec_tracer(),
            old(self).spec_data() is None ==> final(self).spec_data() is None,
            old(self).spec_data() matches Some(d) ==> (final(self).spec_data() matches Some(e)
                && e@ == (SpanDataView { status_code: code, status_message: message@, ..d@ })),
    {
        match self.data.take() {
            Some(mut d) => {
                d.status_code = code;
                d.status_message = message;
                self.data = Some(d);
            },
            None => {},
        }
    }

    /// Replaces the span's name.
    pub fn update_name(&mut self, new_name: String)
        ensures
            final(self).spec_id() == old(self).spec_id(),
            final(self).spec_handles() == old(self).spec_handles(),
            final(self).spec_tracer() == old(self).spec_tracer(),
            old(self).spec_data() is None ==> final(self).spec_data() is None,
            old(self).spec_data() matches Some(d) ==> (final(self).spec_data() matches Some(e)
                && e@ == (SpanDataView { name: new_name@, ..d@ })),
    {
        match self.data.take() {
            Some(mut d) => {
                d.name = new_name;
                self.data = Some(d);
            },
            None => {},
        }
    }

    /// Records the end time; the span is exported only when its last handle
    /// is released.
    pub fn end_with_timestamp(&mut self, timestamp: u64)
        ensures
            final(self).spec_id() == old(self).spec_id(),
            final(self).spec_handles() == old(self).spec_handles(),
            final(self).spec_tracer() == old(self).spec_tracer(),
            old(self).spec_data() is None ==> final(self).spec_data() is None,
            old(self).spec_data() matches Some(d) ==> (final(self).spec_data() matches Some(e)
                && e@ == ended_at(d@, timestamp)),
    {
        match self.data.take() {
            Some(mut d) => {
                d.end_time = timestamp;
                self.data = Some(d);
            },
            None => {},
        }
    }

    /// Records the current time as the end time.
    pub fn end(&mut self)
        ensures
            final(self).spec_id() == old(self).spec_id(),
            final(self).spec_handles() == old(self).spec_handles(),
            final(self).spec_tracer() == old(self).spec_tracer(),
            old(self).spec_data() is None ==> final(self).spec_data() is None,
            old(self).spec_data() matches Some(d) ==> exists|t: u64| (final(self).spec_data() matches Some(e)
                && e@ == #[trigger] ended_at(d@, t)),
    {
        let t = now();
        self.end_with_timestamp(t);
    }

    /// Takes one more handle on the span.
    pub fn acquire(&mut self)
        requires
            old(self).spec_handles() >= 1,
            old(self).spec_handles() < usize::MAX,
        ensures
            final(self).spec_id() == old(self).spec_id(),
            final(self).spec_data() == old(self).spec_data(),
            final(self).spec_tracer() == old(self).spec_tracer(),
            final(self).spec_handles() == old(self).spec_handles() + 1,
    {
        self.handles = self.handles + 1;
    }

    /// Gives up one handle. `chain` is the length of the provider's processor
    /// chain, `None` when the provider is gone; `now` is the current time. The
    /// result holds what each processor receives, in order.
    pub fn release_at(&mut self, chain: Option<usize>, now: u64) -> (r: Vec<SpanData>)
        requires
            old(self).spec_handles() >= 1,
        ensures
            final(self).spec_id() == old(self).spec_id(),
            final(self).spec_tracer() == old(self).spec_tracer(),
            final(self).spec_handles() == old(self).spec_handles() - 1,
            view_of(final(self).spec_data()) == data_after_release(
                view_of(old(self).spec_data()),
                old(self).spec_handles(),
            ),
            old(self).spec_handles() > 1 ==> final(self).spec_data() == old(self).spec_data(),
            views(r@) == release_deliveries(
                view_of(old(self).spec_data()),
                old(self).spec_handles(),
                chain,
                now,
            ),
    {
        self.handles = self.handles - 1;
        if self.handles > 0 {
            assert(views(Seq::<SpanData>::empty()) =~= Seq::<SpanDataView>::empty());
            return Vec::new();
        }
        match (self.data.take(), chain) {
            (Some(mut d), Some(n)) => {
                if d.end_time <= d.start_time {
                    d.end_time = now;
                }
                let r = fan_out(d, n);
                assert(views(r@) =~= release_deliveries(
                    view_of(old(self).spec_data()),
                    old(self).spec_handles(),
                    chain,
                    now,
                ));
                r
            },
            _ => {
                assert(views(Seq::<SpanData>::empty()) =~= Seq::<SpanDataView>::empty());
                Vec::new()
            },
        }
    }

    /// Gives up one handle; the last release hands the finished data to every
    /// processor of `provider`, in order.
    pub fn release<P: SpanProcessor>(&mut self, provider: Option<&TracerProvider<P>>)
        requires
            old(self).spec_handles() >= 1,
        ensures
            final(self).spec_id() == old(self).spec_id(),
            final(self).spec_tracer() == old(self).spec_tracer(),
            final(self).spec_handles() == old(self).spec_handles() - 1,
            view_of(final(self).spec_data()) == data_after_release(
                view_of(old(self).spec_data()),
                old(self).spec_handles(),
            ),
    {
        let chain = match provider {
            Some(p) => Some(p.processors.len()),
            None => None,
        };
        let t = now();
        let deliveries = self.release_at(chain, t);
        assert(views(deliveries@).len() == deliveries@.len());
        match provider {
            Some(p) => dispatch(&p.processors, deliveries),
            None => {},
        }
    }
}

/// Hands `deliveries[i]` to `processors[i]`, in order.
pub fn dispatch<P: SpanProcessor>(processors: &Vec<P>, deliveries: Vec<SpanData>)
    requires
        deliveries.len() == 0 || deliveries.len() == processors.len(),
{
    let mut rest = deliveries;
    let mut i: usize = 0;
    while rest.len() > 0
        invariant
            i <= processors.len(),
            rest.len() == 0 || rest.len() == processors.len() - i,
        decreases rest.len(),
    {
        let d = rest.remove(0);
        processors[i].on_end(d);
        i = i + 1;
    }
}

/// The data with one more event.
pub open spec fn with_event(d: SpanDataView, event: (Seq<char>, u64, Seq<KeyValue>)) -> SpanDataView {
    SpanDataView { message_events: queue_pushed(d.message_events, event), ..d }
}

/// The data with its end time set.
pub open spec fn ended_at(d: SpanDataView, t: u64) -> SpanDataView {
    SpanDataView { end_time: t, ..d }
}

/// A bounded queue's content after one more item.
pub open spec fn queue_pushed<V>(q: QueueView<V>, v: V) -> QueueView<V> {
    QueueView {
        capacity: q.capacity,
        items: pushed_bounded(q.items, v, q.capacity),
        dropped: if q.items.len() < q.capacity {
            q.dropped
        } else {
            saturating_count(q.dropped + 1)
        },
    }
}

/// A bounded map's content after one more insertion.
pub open spec fn map_inserted(q: QueueView<KeyValue>, kv: KeyValue) -> QueueView<KeyValue> {
    QueueView {
        capacity: q.capacity,
        items: inserted_bounded(q.items, kv, q.capacity),
        dropped: if crate::evicted::key_index(q.items, kv.key@) is Some || q.items.len()
            < q.capacity {
            q.dropped
        } else {
            saturating_count(q.dropped + 1)
        },
    }
}

/// How many spans the chain receives in all when `handles` handles are
/// released one after another.
pub open spec fn total_deliveries(
    data: Option<SpanDataView>,
    handles: nat,
    chain: Option<usize>,
    now: u64,
) -> nat
    decreases handles,
{
    if handles == 0 {
        0
    } else {
        release_deliveries(data, handles, chain, now).len() + total_deliveries(
            data_after_release(data, handles),
            (handles - 1) as nat,
            chain,
            now,
        )
    }
}

/// How many of those releases deliver anything.
pub open spec fn delivering_releases(
    data: Option<SpanDataView>,
    handles: nat,
    chain: Option<usize>,
    now: u64,
) -> nat
    decreases handles,
{
    if handles == 0 {
        0
    } else {
        (if release_deliveries(data, handles, chain, now).len() > 0 {
            1nat
        } else {
            0nat
        }) + delivering_releases(data_after_release(data, handles), (handles - 1) as nat, chain, now)
    }
}

/// However many handles share a recording span, releasing all of them runs the
/// chain of a live provider exactly once: one release delivers, and each of the
/// `n` processors receives one span.
pub proof fn lemma_finalized_exactly_once(data: SpanDataView, handles: nat, n: usize, now: u64)
    requires
        handles >= 1,
    ensures
        total_deliveries(Some(data), handles, Some(n), now) == n,
        n > 0 ==> delivering_releases(Some(data), handles, Some(n), now) == 1,
        forall|h: nat| 1 < h <= handles ==> release_deliveries(Some(data), h, Some(n), now).len() == 0,
    decreases handles,
{
    if handles > 1 {
        lemma_finalized_exactly_once(data, (handles - 1) as nat, n, now);
    } else {
        lemma_nothing_left(n, now);
    }
}

proof fn lemma_nothing_left(n: usize, now: u64)
    ensures
        total_deliveries(None, 0, Some(n), now) == 0,
        delivering_releases(None, 0, Some(n), now) == 0,
{
}

/// A span without data never delivers anything, however its handles are
/// released and whatever the chain.
pub proof fn lemma_non_recording_delivers_nothing(handles: nat, chain: Option<usize>, now: u64)
    ensures
        total_deliveries(None, handles, chain, now) == 0,
        delivering_releases(None, handles, chain, now) == 0,
    decreases handles,
{
    if handles > 0 {
        lemma_non_recording_delivers_nothing((handles - 1) as nat, chain, now);
    }
}

/// Finalization never leaves the end time before the start time (given a clock
/// not behind the start time); an end time that was unset or not after the start
/// becomes `now`, a later one is kept, and the start time never changes.
pub proof fn lemma_end_not_before_start(d: SpanDataView, now: u64)
    requires
        now >= d.start_time,
    ensures
        finalized(d, now).end_time >= finalized(d, now).start_time,
        finalized(d, now).start_time == d.start_time,
        d.end_time <= d.start_time ==> finalized(d, now).end_time == now,
        d.end_time > d.start_time ==> finalized(d, now) == d,
{
}

/// With two or more processors, all receive equal data: the finalized span.
pub proof fn lemma_fan_out_equal(data: SpanDataView, n: usize, now: u64)
    requires
        n >= 2,
    ensures
        release_deliveries(Some(data), 1, Some(n), now).len() == n,
        forall|i: int, j: int|
            0 <= i < n && 0 <= j < n ==> #[trigger] release_deliveries(Some(data), 1, Some(n), now)[i]
                == #[trigger] release_deliveries(Some(data), 1, Some(n), now)[j],
        forall|i: int|
            0 <= i < n ==> #[trigger] release_deliveries(Some(data), 1, Some(n), now)[i] == finalized(data, now),
{
}

/// An empty chain receives nothing, and the last release still completes.
pub proof fn lemma_empty_chain(data: Option<SpanDataView>, handles: nat, now: u64)
    ensures
        total_deliveries(data, handles, Some(0), now) == 0,
        delivering_releases(data, handles, Some(0), now) == 0,
    decreases handles,
{
    if handles > 0 {
        lemma_empty_chain(data_after_release(data, handles), (handles - 1) as nat, now);
    }
}

proof fn lemma_pushed_views(items: Seq<Event>, e: Event, capacity: nat)
    ensures
        pushed_bounded(items, e, capacity).map_values(|t: Event| t@) == pushed_bounded(
            items.map_values(|t: Event| t@),
            e@,
            capacity,
        ),
{
    let a = pushed_bounded(items, e, capacity).map_values(|t: Event| t@);
    let b = pushed_bounded(items.map_values(|t: Event| t@), e@, capacity);
    assert(a =~= b);
}

} // verus!
