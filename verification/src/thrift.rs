//! The records of a Jaeger batch and their construction from a decoded Thrift
//! message.
//!
//! Each record is built in one pass over the generic data. Construction either
//! gives the whole record or fails with one error; nothing half-built is handed
//! out.

use crate::collect::{lemma_all_ok, lemma_first_failure};
use crate::error::DecodeError;
use crate::field::{
    binary_field, bool_field, double_field, i32_field, i64_field, list_field, string_field,
    struct_field, OptionalList,
};
pub use crate::ident::{parent_span_id, span_id, trace_id};
use crate::model::{BatchView, LogView, NotificationView, ProcessView, SpanRefView, SpanView};
use crate::schema::{
    batch_of, decoded, log_of, log_results, logs_of, notification_of, process_of, span_of,
    span_ref_of, span_ref_results, span_refs_of, span_results, spans_of, tag_of, tag_results,
    tags_of,
};
pub use crate::schema::Protocol;
use crate::tags::{lemma_tags_map_empty, lemma_tags_map_push, tags_map, TagView};
pub use crate::tags::{Tag, TagValue, Tags};
use crate::text::str_eq;
use crate::time::{datetime_text, optional_text, unixtime_to_datetime};
use crate::wire::{
    binary_decode, optional_message, struct_view, MessageKind, Value, WireMessage,
    MAX_DATAGRAM_LEN,
};
use thrift_codec::data::Struct;
use vstd::prelude::*;

verus! {

/// The views of the records of a sequence.
pub open spec fn views<T: View>(records: Seq<T>) -> Seq<T::V> {
    Seq::new(records.len(), |i: int| records[i]@)
}

/// The outcome of building a record, with the record taken by its view.
pub open spec fn viewed<T: View>(outcome: Result<T, DecodeError>) -> Result<T::V, DecodeError> {
    match outcome {
        Ok(record) => Ok(record@),
        Err(e) => Err(e),
    }
}

/// The outcome of building a list of records, with each record taken by its view.
pub open spec fn viewed_all<T: View>(outcome: Result<Vec<T>, DecodeError>) -> Result<
    Seq<T::V>,
    DecodeError,
> {
    match outcome {
        Ok(records) => Ok(views(records@)),
        Err(e) => Err(e),
    }
}

/// A link from one span to another, with the written ids of that other span.
#[derive(Debug, PartialEq, Eq)]
pub enum SpanRef {
    ChildOf { trace_id: String, span_id: String },
    FollowsFrom { trace_id: String, span_id: String },
}

impl View for SpanRef {
    type V = SpanRefView;

    open spec fn view(&self) -> SpanRefView {
        match self {
            SpanRef::ChildOf { trace_id, span_id } => SpanRefView::ChildOf {
                trace_id: trace_id@,
                span_id: span_id@,
            },
            SpanRef::FollowsFrom { trace_id, span_id } => SpanRefView::FollowsFrom {
                trace_id: trace_id@,
                span_id: span_id@,
            },
        }
    }
}

/// A timestamped event within a span, with its fields as tags.
#[derive(Debug, PartialEq, Eq)]
pub struct Log {
    /// Microseconds since the Unix epoch.
    pub timestamp_us: i64,
    pub fields: Tags,
}

impl View for Log {
    type V = LogView;

    open spec fn view(&self) -> LogView {
        LogView { timestamp_us: self.timestamp_us, fields: self.fields@ }
    }
}

/// One traced operation.
#[derive(Debug, PartialEq, Eq)]
pub struct Span {
    /// The 128-bit trace id, written as one hexadecimal number.
    pub trace_id: String,
    /// The id of the span, written in hexadecimal.
    pub span_id: String,
    /// The id of the parent, written in hexadecimal; empty for a span without parent.
    pub parent_span_id: String,
    pub operation_name: String,
    pub references: Vec<SpanRef>,
    /// A bit mask that this library hands on as it is.
    pub flags: i32,
    /// Microseconds since the Unix epoch.
    pub start_time_us: i64,
    /// Microseconds.
    pub duration_us: i64,
    pub tags: Tags,
    pub logs: Vec<Log>,
}

impl View for Span {
    type V = SpanView;

    open spec fn view(&self) -> SpanView {
        SpanView {
            trace_id: self.trace_id@,
            span_id: self.span_id@,
            parent_span_id: self.parent_span_id@,
            operation_name: self.operation_name@,
            references: views(self.references@),
            flags: self.flags,
            start_time_us: self.start_time_us,
            duration_us: self.duration_us,
            tags: self.tags@,
            logs: views(self.logs@),
        }
    }
}

/// The application that reports a batch.
#[derive(Debug, PartialEq, Eq)]
pub struct Process {
    pub service_name: String,
    pub tags: Tags,
}

impl View for Process {
    type V = ProcessView;

    open spec fn view(&self) -> ProcessView {
        ProcessView { service_name: self.service_name@, tags: self.tags@ }
    }
}

/// One process and the spans that it reports together, in wire order.
#[derive(Debug, PartialEq, Eq)]
pub struct Batch {
    pub process: Process,
    pub spans: Vec<Span>,
}

impl View for Batch {
    type V = BatchView;

    open spec fn view(&self) -> BatchView {
        BatchView { process: self.process@, spans: views(self.spans@) }
    }
}

/// A decoded `emitBatch` notification: one batch.
#[derive(Debug, PartialEq, Eq)]
pub struct EmitBatchNotification {
    pub batch: Batch,
}

impl View for EmitBatchNotification {
    type V = NotificationView;

    open spec fn view(&self) -> NotificationView {
        NotificationView { batch: self.batch@ }
    }
}

impl Tag {
    /// Reads a tag from an element of a list.
    pub fn try_from_data(f: Value<'_>) -> (r: Result<Tag, DecodeError>)
        ensures
            viewed(r) == tag_of(f@),
    {
        let s = match f {
            Value::Struct(s) => s,
            other => {
                return Err(DecodeError::NotAStruct { found: other.kind() });
            },
        };
        let key = string_field(s, 1)?;
        let kind = i32_field(s, 2)?;
        let value = if kind == 0 {
            TagValue::String(string_field(s, 3)?)
        } else if kind == 1 {
            TagValue::F64(double_field(s, 4)?)
        } else if kind == 2 {
            TagValue::Bool(bool_field(s, 5)?)
        } else if kind == 3 {
            TagValue::I64(i64_field(s, 6)?)
        } else if kind == 4 {
            TagValue::Binary(binary_field(s, 7)?)
        } else {
            return Err(DecodeError::UnknownTagKind { kind });
        };
        Ok(Tag { key, value })
    }
}

impl Tags {
    /// Reads the tags of a list into a mapping.
    pub fn try_from_list(f: OptionalList<'_>) -> (r: Result<Tags, DecodeError>)
        ensures
            viewed(r) == tags_of(f@),
    {
        let n = f.len();
        let mut tags = Tags::new();
        let ghost mut seen: Seq<TagView> = Seq::empty();
        proof {
            lemma_tags_map_empty();
        }
        let mut i: usize = 0;
        while i < n
            invariant
                n == f@.len(),
                i <= n,
                seen.len() == i,
                forall|j: int|
                    0 <= j < i ==> tag_of(#[trigger] f@[j]) == Ok::<TagView, DecodeError>(seen[j]),
                tags@ == tags_map(seen),
            decreases n - i,
        {
            match Tag::try_from_data(f.get(i)) {
                Ok(tag) => {
                    proof {
                        lemma_tags_map_push(seen, tag@);
                        seen = seen.push(tag@);
                    }
                    tags.insert(tag.key, tag.value);
                },
                Err(e) => {
                    proof {
                        lemma_first_failure(tag_results(f@), i as int);
                    }
                    return Err(e);
                },
            }
            i += 1;
        }
        proof {
            lemma_all_ok(tag_results(f@), seen);
        }
        Ok(tags)
    }
}

impl SpanRef {
    /// Reads the span references of a list.
    pub fn try_from_list(f: OptionalList<'_>) -> (r: Result<Vec<SpanRef>, DecodeError>)
        ensures
            viewed_all(r) == span_refs_of(f@),
    {
        let n = f.len();
        let mut out: Vec<SpanRef> = Vec::new();
        let mut i: usize = 0;
        while i < n
            invariant
                n == f@.len(),
                i <= n,
                out@.len() == i,
                forall|j: int|
                    0 <= j < i ==> span_ref_of(#[trigger] f@[j]) == Ok::<SpanRefView, DecodeError>(
                        out@[j]@,
                    ),
            decreases n - i,
        {
            match SpanRef::try_from_data(f.get(i)) {
                Ok(reference) => {
                    out.push(reference);
                },
                Err(e) => {
                    proof {
                        lemma_first_failure(span_ref_results(f@), i as int);
                    }
                    return Err(e);
                },
            }
            i += 1;
        }
        proof {
            lemma_all_ok(span_ref_results(f@), views(out@));
        }
        Ok(out)
    }

    /// Reads a span reference from an element of a list.
    pub fn try_from_data(f: Value<'_>) -> (r: Result<SpanRef, DecodeError>)
        ensures
            viewed(r) == span_ref_of(f@),
    {
        let s = match f {
            Value::Struct(s) => s,
            other => {
                return Err(DecodeError::NotAStruct { found: other.kind() });
            },
        };
        let kind = i32_field(s, 1)?;
        if kind != 0 && kind != 1 {
            return Err(DecodeError::UnknownReferenceKind { kind });
        }
        let high = i64_field(s, 3)?;
        let low = i64_field(s, 2)?;
        let span = i64_field(s, 4)?;
        let trace_id = trace_id(high, low);
        let span_id = span_id(span);
        if kind == 0 {
            Ok(SpanRef::ChildOf { trace_id, span_id })
        } else {
            Ok(SpanRef::FollowsFrom { trace_id, span_id })
        }
    }
}

impl Log {
    /// Reads the logs of a list.
    pub fn try_from_list(f: OptionalList<'_>) -> (r: Result<Vec<Log>, DecodeError>)
        ensures
            viewed_all(r) == logs_of(f@),
    {
        let n = f.len();
        let mut out: Vec<Log> = Vec::new();
        let mut i: usize = 0;
        while i < n
            invariant
                n == f@.len(),
                i <= n,
                out@.len() == i,
                forall|j: int|
                    0 <= j < i ==> log_of(#[trigger] f@[j]) == Ok::<LogView, DecodeError>(out@[j]@),
            decreases n - i,
        {
            match Log::try_from_data(f.get(i)) {
                Ok(log) => {
                    out.push(log);
                },
                Err(e) => {
                    proof {
                        lemma_first_failure(log_results(f@), i as int);
                    }
                    return Err(e);
                },
            }
            i += 1;
        }
        proof {
            lemma_all_ok(log_results(f@), views(out@));
        }
        Ok(out)
    }

    /// Reads a log from an element of a list.
    pub fn try_from_data(f: Value<'_>) -> (r: Result<Log, DecodeError>)
        ensures
            viewed(r) == log_of(f@),
    {
        let s = match f {
            Value::Struct(s) => s,
            other => {
                return Err(DecodeError::NotAStruct { found: other.kind() });
            },
        };
        let timestamp_us = i64_field(s, 1)?;
        let fields = Tags::try_from_list(list_field(s, 2)?)?;
        Ok(Log { timestamp_us, fields })
    }

    /// The time of the event as `YYYY-MM-DD HH:MM:SS` at `utc_offset` seconds east
    /// of UTC.
    pub fn datetime(&self, utc_offset: i32) -> (r: Option<String>)
        ensures
            optional_text(r) == datetime_text(self.timestamp_us, utc_offset),
            utc_offset <= -86_400 || utc_offset >= 86_400 ==> r is None,
    {
        unixtime_to_datetime(self.timestamp_us, utc_offset)
    }
}

impl Span {
    /// Reads the spans of a list.
    pub fn try_from_list(f: OptionalList<'_>) -> (r: Result<Vec<Span>, DecodeError>)
        ensures
            viewed_all(r) == spans_of(f@),
    {
        let n = f.len();
        let mut out: Vec<Span> = Vec::new();
        let mut i: usize = 0;
        while i < n
            invariant
                n == f@.len(),
                i <= n,
                out@.len() == i,
                forall|j: int|
                    0 <= j < i ==> span_of(#[trigger] f@[j]) == Ok::<SpanView, DecodeError>(out@[j]@),
            decreases n - i,
        {
            match Span::try_from_data(f.get(i)) {
                Ok(span) => {
                    out.push(span);
                },
                Err(e) => {
                    proof {
                        lemma_first_failure(span_results(f@), i as int);
                    }
                    return Err(e);
                },
            }
            i += 1;
        }
        proof {
            lemma_all_ok(span_results(f@), views(out@));
        }
        Ok(out)
    }

    /// Reads a span from an element of a list.
    pub fn try_from_data(f: Value<'_>) -> (r: Result<Span, DecodeError>)
        ensures
            viewed(r) == span_of(f@),
    {
        let s = match f {
            Value::Struct(s) => s,
            other => {
                return Err(DecodeError::NotAStruct { found: other.kind() });
            },
        };
        let start_time_us = i64_field(s, 8)?;
        let duration_us = i64_field(s, 9)?;
        let high = i64_field(s, 2)?;
        let low = i64_field(s, 1)?;
        let span = i64_field(s, 3)?;
        let parent = i64_field(s, 4)?;
        let operation_name = string_field(s, 5)?;
        let references = SpanRef::try_from_list(list_field(s, 6)?)?;
        let flags = i32_field(s, 7)?;
        let tags = Tags::try_from_list(list_field(s, 10)?)?;
        let logs = Log::try_from_list(list_field(s, 11)?)?;
        Ok(
            Span {
                trace_id: trace_id(high, low),
                span_id: span_id(span),
                parent_span_id: parent_span_id(parent),
                operation_name,
                references,
                flags,
                start_time_us,
                duration_us,
                tags,
                logs,
            },
        )
    }

    /// The start of the span as `YYYY-MM-DD HH:MM:SS` at `utc_offset` seconds east
    /// of UTC.
    pub fn start_datetime(&self, utc_offset: i32) -> (r: Option<String>)
        ensures
            optional_text(r) == datetime_text(self.start_time_us, utc_offset),
            utc_offset <= -86_400 || utc_offset >= 86_400 ==> r is None,
    {
        unixtime_to_datetime(self.start_time_us, utc_offset)
    }
}

impl Process {
    /// Reads a process from its struct.
    pub fn try_from(f: &Struct) -> (r: Result<Process, DecodeError>)
        ensures
            viewed(r) == process_of(struct_view(*f)),
    {
        let service_name = string_field(f, 1)?;
        let tags = Tags::try_from_list(list_field(f, 2)?)?;
        Ok(Process { service_name, tags })
    }
}

impl Batch {
    /// Reads a batch from the body of a message.
    pub fn try_from(f: &Struct) -> (r: Result<Batch, DecodeError>)
        ensures
            viewed(r) == batch_of(struct_view(*f)),
    {
        let s0 = struct_field(f, 1)?;
        let s1 = struct_field(s0, 1)?;
        let process = Process::try_from(s1)?;
        let spans = Span::try_from_list(list_field(s0, 2)?)?;
        Ok(Batch { process, spans })
    }
}

impl EmitBatchNotification {
    /// Decodes one datagram of any length: it has to be no longer than
    /// `MAX_DATAGRAM_LEN`, to hold a Thrift message of the given protocol, and the
    /// message has to be an `emitBatch` notification.
    ///
    /// A binary datagram is read here. The compact decoder of `thrift_codec` adds
    /// up field ids with a plain `+`, which panics in a build with overflow checks,
    /// so it is for the caller to run it where a panic can be caught: for a compact
    /// datagram `compact` is what that decoder read from `buf`, `None` where it
    /// read no message. For a binary datagram `compact` is not looked at.
    ///
    /// The thread that calls needs `STACK_PER_BYTE` of stack for each byte of a
    /// binary datagram: the decoder may nest as deep as the datagram is long.
    pub fn decode(buf: &[u8], protocol: Protocol, compact: Option<WireMessage>) -> (r: Result<
        EmitBatchNotification,
        DecodeError,
    >)
        ensures
            viewed(r) == decoded(buf@, protocol, optional_message(compact)),
    {
        if buf.len() > MAX_DATAGRAM_LEN {
            return Err(DecodeError::TooLong { len: buf.len() });
        }
        let message = match protocol {
            Protocol::Compact => compact,
            Protocol::Binary => match binary_decode(buf) {
                Ok(message) => Some(message),
                Err(_) => None,
            },
        };
        match message {
            Some(message) => EmitBatchNotification::from_message(&message),
            None => Err(DecodeError::Malformed),
        }
    }

    /// Reads a notification from a decoded message: the method has to be
    /// `emitBatch`, the kind oneway, and the body a batch.
    pub fn from_message(message: &WireMessage) -> (r: Result<EmitBatchNotification, DecodeError>)
        ensures
            viewed(r) == notification_of(message@),
    {
        if !str_eq(message.method_name.as_str(), "emitBatch") {
            return Err(DecodeError::UnexpectedMethod);
        }
        match message.kind {
            MessageKind::Oneway => {},
            kind => {
                return Err(DecodeError::UnexpectedKind { message_kind: kind });
            },
        }
        let batch = Batch::try_from(&message.body)?;
        Ok(EmitBatchNotification { batch })
    }
}

} // verus!
