//! The Jaeger domain model as mathematical values: what the decoded records
//! stand for.

use crate::tags::TagValueView;
use vstd::prelude::*;

verus! {

/// A link from one span to another, with the ids of that other span.
pub enum SpanRefView {
    ChildOf { trace_id: Seq<char>, span_id: Seq<char> },
    FollowsFrom { trace_id: Seq<char>, span_id: Seq<char> },
}

/// A timestamped event within a span.
pub struct LogView {
    pub timestamp_us: i64,
    pub fields: Map<Seq<char>, TagValueView>,
}

/// One traced operation.
pub struct SpanView {
    pub trace_id: Seq<char>,
    pub span_id: Seq<char>,
    pub parent_span_id: Seq<char>,
    pub operation_name: Seq<char>,
    pub references: Seq<SpanRefView>,
    pub flags: i32,
    pub start_time_us: i64,
    pub duration_us: i64,
    pub tags: Map<Seq<char>, TagValueView>,
    pub logs: Seq<LogView>,
}

/// The application that reports a batch.
pub struct ProcessView {
    pub service_name: Seq<char>,
    pub tags: Map<Seq<char>, TagValueView>,
}

/// One process and the spans that it reports together, in wire order.
pub struct BatchView {
    pub process: ProcessView,
    pub spans: Seq<SpanView>,
}

/// An `emitBatch` notification: one batch.
pub struct NotificationView {
    pub batch: BatchView,
}

} // verus!
