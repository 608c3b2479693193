//! Span lifecycle, finalization and export dispatch for distributed tracing.
pub mod evicted;
pub mod export;
pub mod span;
pub mod trace;

pub use export::{
    export_result_for_status, ExportResult, InstrumentationLibrary, InvalidStatusCode, Resource,
    SpanData, SpanExporter,
};
pub use span::{Span, SpanProcessor, Tracer, TracerProvider};
