//! The Jaeger schema: which numbered fields of which Thrift structs make up a
//! tag, a span reference, a log, a span, a process and a batch, and what a
//! message has to be to count as an `emitBatch` notification.
//!
//! Every function here says what a piece of generic Thrift data decodes to, or
//! with which error it is refused. Where a piece has several faults, the error is
//! that of the first one, in the order in which the fields are read here.

use crate::collect::all_or_first_error;
use crate::error::DecodeError;
use crate::field::{bool_of, binary_of, double_of, i32_of, i64_of, list_of, string_of, struct_of};
use crate::ident::{parent_span_id_text, span_id_text, trace_id_text};
use crate::model::{BatchView, LogView, NotificationView, ProcessView, SpanRefView, SpanView};
use crate::tags::{tags_map, TagValueView, TagView};
use crate::wire::{
    binary_decoded, DataView, FieldView, MessageKind, MessageView, MAX_DATAGRAM_LEN,
};
use vstd::prelude::*;

verus! {

/// The two Thrift encodings in which a notification may arrive.
#[derive(Clone, Copy, Debug, PartialEq, Eq, Structural)]
pub enum Protocol {
    Compact,
    Binary,
}

/// The value of a tag whose kind is `kind`: 0 is a string in field 3, 1 a double
/// in field 4, 2 a bool in field 5, 3 a long in field 6, 4 a binary in field 7.
pub open spec fn tag_value_of(fields: Seq<FieldView>, kind: i32) -> Result<
    TagValueView,
    DecodeError,
> {
    if kind == 0 {
        match string_of(fields, 3) {
            Ok(v) => Ok(TagValueView::String(v)),
            Err(e) => Err(e),
        }
    } else if kind == 1 {
        match double_of(fields, 4) {
            Ok(v) => Ok(TagValueView::F64(v)),
            Err(e) => Err(e),
        }
    } else if kind == 2 {
        match bool_of(fields, 5) {
            Ok(v) => Ok(TagValueView::Bool(v)),
            Err(e) => Err(e),
        }
    } else if kind == 3 {
        match i64_of(fields, 6) {
            Ok(v) => Ok(TagValueView::I64(v)),
            Err(e) => Err(e),
        }
    } else if kind == 4 {
        match binary_of(fields, 7) {
            Ok(v) => Ok(TagValueView::Binary(v)),
            Err(e) => Err(e),
        }
    } else {
        Err(DecodeError::UnknownTagKind { kind })
    }
}

/// A tag from the fields of its struct: the key in field 1, the kind in field 2,
/// and the value in the one field that the kind selects.
pub open spec fn tag_of_fields(fields: Seq<FieldView>) -> Result<TagView, DecodeError> {
    let key = string_of(fields, 1);
    let kind = i32_of(fields, 2);
    if key is Err {
        Err(key->Err_0)
    } else if kind is Err {
        Err(kind->Err_0)
    } else {
        match tag_value_of(fields, kind->Ok_0) {
            Ok(value) => Ok(TagView { key: key->Ok_0, value }),
            Err(e) => Err(e),
        }
    }
}

/// A tag from an element of a list.
pub open spec fn tag_of(data: DataView) -> Result<TagView, DecodeError> {
    match data {
        DataView::Struct(fields) => tag_of_fields(fields),
        other => Err(DecodeError::NotAStruct { found: other.kind() }),
    }
}

/// What each element of a list gives when it is read as a tag.
pub open spec fn tag_results(items: Seq<DataView>) -> Seq<Result<TagView, DecodeError>> {
    Seq::new(items.len(), |i: int| tag_of(items[i]))
}

/// The tags of a list as a mapping: every element has to be a tag, and a later
/// tag overwrites an earlier one with the same key.
pub open spec fn tags_of(items: Seq<DataView>) -> Result<
    Map<Seq<char>, TagValueView>,
    DecodeError,
> {
    match all_or_first_error(tag_results(items)) {
        Ok(tags) => Ok(tags_map(tags)),
        Err(e) => Err(e),
    }
}

/// The tags in the optional list field `id`.
pub open spec fn tags_in(fields: Seq<FieldView>, id: i16) -> Result<
    Map<Seq<char>, TagValueView>,
    DecodeError,
> {
    match list_of(fields, id) {
        Ok(items) => tags_of(items),
        Err(e) => Err(e),
    }
}

/// A span reference from the fields of its struct: the kind in field 1 (0 is
/// child-of, 1 follows-from), the trace id in fields 2 (low) and 3 (high), the
/// span id in field 4. The kind is judged before the ids are read.
pub open spec fn span_ref_of_fields(fields: Seq<FieldView>) -> Result<SpanRefView, DecodeError> {
    let kind = i32_of(fields, 1);
    let high = i64_of(fields, 3);
    let low = i64_of(fields, 2);
    let span = i64_of(fields, 4);
    if kind is Err {
        Err(kind->Err_0)
    } else if kind->Ok_0 != 0 && kind->Ok_0 != 1 {
        Err(DecodeError::UnknownReferenceKind { kind: kind->Ok_0 })
    } else if high is Err {
        Err(high->Err_0)
    } else if low is Err {
        Err(low->Err_0)
    } else if span is Err {
        Err(span->Err_0)
    } else if kind->Ok_0 == 0 {
        Ok(
            SpanRefView::ChildOf {
                trace_id: trace_id_text(high->Ok_0, low->Ok_0),
                span_id: span_id_text(span->Ok_0),
            },
        )
    } else {
        Ok(
            SpanRefView::FollowsFrom {
                trace_id: trace_id_text(high->Ok_0, low->Ok_0),
                span_id: span_id_text(span->Ok_0),
            },
        )
    }
}

/// A span reference from an element of a list.
pub open spec fn span_ref_of(data: DataView) -> Result<SpanRefView, DecodeError> {
    match data {
        DataView::Struct(fields) => span_ref_of_fields(fields),
        other => Err(DecodeError::NotAStruct { found: other.kind() }),
    }
}

/// What each element of a list gives when it is read as a span reference.
pub open spec fn span_ref_results(items: Seq<DataView>) -> Seq<Result<SpanRefView, DecodeError>> {
    Seq::new(items.len(), |i: int| span_ref_of(items[i]))
}

/// The span references of a list, in wire order.
pub open spec fn span_refs_of(items: Seq<DataView>) -> Result<Seq<SpanRefView>, DecodeError> {
    all_or_first_error(span_ref_results(items))
}

/// The span references in the optional list field `id`.
pub open spec fn span_refs_in(fields: Seq<FieldView>, id: i16) -> Result<
    Seq<SpanRefView>,
    DecodeError,
> {
    match list_of(fields, id) {
        Ok(items) => span_refs_of(items),
        Err(e) => Err(e),
    }
}

/// A log from the fields of its struct: the timestamp in field 1, the tags in
/// the optional field 2.
pub open spec fn log_of_fields(fields: Seq<FieldView>) -> Result<LogView, DecodeError> {
    let timestamp = i64_of(fields, 1);
    let tags = tags_in(fields, 2);
    if timestamp is Err {
        Err(timestamp->Err_0)
    } else if tags is Err {
        Err(tags->Err_0)
    } else {
        Ok(LogView { timestamp_us: timestamp->Ok_0, fields: tags->Ok_0 })
    }
}

/// A log from an element of a list.
pub open spec fn log_of(data: DataView) -> Result<LogView, DecodeError> {
    match data {
        DataView::Struct(fields) => log_of_fields(fields),
        other => Err(DecodeError::NotAStruct { found: other.kind() }),
    }
}

/// What each element of a list gives when it is read as a log.
pub open spec fn log_results(items: Seq<DataView>) -> Seq<Result<LogView, DecodeError>> {
    Seq::new(items.len(), |i: int| log_of(items[i]))
}

/// The logs of a list, in wire order.
pub open spec fn logs_of(items: Seq<DataView>) -> Result<Seq<LogView>, DecodeError> {
    all_or_first_error(log_results(items))
}

/// The logs in the optional list field `id`.
pub open spec fn logs_in(fields: Seq<FieldView>, id: i16) -> Result<Seq<LogView>, DecodeError> {
    match list_of(fields, id) {
        Ok(items) => logs_of(items),
        Err(e) => Err(e),
    }
}

/// A span from the fields of its struct: the trace id in fields 1 (low) and 2
/// (high), the span id in field 3, the parent's id in field 4, the operation
/// name in field 5, the references in the optional field 6, the flags in field
/// 7, start time and duration in microseconds in fields 8 and 9, the tags in the
/// optional field 10 and the logs in the optional field 11.
pub open spec fn span_of_fields(fields: Seq<FieldView>) -> Result<SpanView, DecodeError> {
    let start = i64_of(fields, 8);
    let duration = i64_of(fields, 9);
    let high = i64_of(fields, 2);
    let low = i64_of(fields, 1);
    let span = i64_of(fields, 3);
    let parent = i64_of(fields, 4);
    let name = string_of(fields, 5);
    let references = span_refs_in(fields, 6);
    let flags = i32_of(fields, 7);
    let tags = tags_in(fields, 10);
    let logs = logs_in(fields, 11);
    if start is Err {
        Err(start->Err_0)
    } else if duration is Err {
        Err(duration->Err_0)
    } else if high is Err {
        Err(high->Err_0)
    } else if low is Err {
        Err(low->Err_0)
    } else if span is Err {
        Err(span->Err_0)
    } else if parent is Err {
        Err(parent->Err_0)
    } else if name is Err {
        Err(name->Err_0)
    } else if references is Err {
        Err(references->Err_0)
    } else if flags is Err {
        Err(flags->Err_0)
    } else if tags is Err {
        Err(tags->Err_0)
    } else if logs is Err {
        Err(logs->Err_0)
    } else {
        Ok(
            SpanView {
                trace_id: trace_id_text(high->Ok_0, low->Ok_0),
                span_id: span_id_text(span->Ok_0),
                parent_span_id: parent_span_id_text(parent->Ok_0),
                operation_name: name->Ok_0,
                references: references->Ok_0,
                flags: flags->Ok_0,
                start_time_us: start->Ok_0,
                duration_us: duration->Ok_0,
                tags: tags->Ok_0,
                logs: logs->Ok_0,
            },
        )
    }
}

/// A span from an element of a list.
pub open spec fn span_of(data: DataView) -> Result<SpanView, DecodeError> {
    match data {
        DataView::Struct(fields) => span_of_fields(fields),
        other => Err(DecodeError::NotAStruct { found: other.kind() }),
    }
}

/// What each element of a list gives when it is read as a span.
pub open spec fn span_results(items: Seq<DataView>) -> Seq<Result<SpanView, DecodeError>> {
    Seq::new(items.len(), |i: int| span_of(items[i]))
}

/// The spans of a list, in wire order.
pub open spec fn spans_of(items: Seq<DataView>) -> Result<Seq<SpanView>, DecodeError> {
    all_or_first_error(span_results(items))
}

/// The spans in the optional list field `id`.
pub open spec fn spans_in(fields: Seq<FieldView>, id: i16) -> Result<Seq<SpanView>, DecodeError> {
    match list_of(fields, id) {
        Ok(items) => spans_of(items),
        Err(e) => Err(e),
    }
}

/// A process from the fields of its struct: the service name in field 1, the
/// tags in the optional field 2.
pub open spec fn process_of(fields: Seq<FieldView>) -> Result<ProcessView, DecodeError> {
    let name = string_of(fields, 1);
    let tags = tags_in(fields, 2);
    if name is Err {
        Err(name->Err_0)
    } else if tags is Err {
        Err(tags->Err_0)
    } else {
        Ok(ProcessView { service_name: name->Ok_0, tags: tags->Ok_0 })
    }
}

/// A batch from the body of a message: field 1 of the body is the struct of the
/// call's arguments, whose field 1 is the process and whose field 2 is the list
/// of spans.
pub open spec fn batch_of(body: Seq<FieldView>) -> Result<BatchView, DecodeError> {
    match struct_of(body, 1) {
        Err(e) => Err(e),
        Ok(arguments) => match struct_of(arguments, 1) {
            Err(e) => Err(e),
            Ok(process_fields) => {
                let process = process_of(process_fields);
                let spans = spans_in(arguments, 2);
                if process is Err {
                    Err(process->Err_0)
                } else if spans is Err {
                    Err(spans->Err_0)
                } else {
                    Ok(BatchView { process: process->Ok_0, spans: spans->Ok_0 })
                }
            },
        },
    }
}

/// The notification that a message is: its method has to be `emitBatch` and its
/// kind oneway, whatever the body holds; then the body has to be a batch.
pub open spec fn notification_of(message: MessageView) -> Result<NotificationView, DecodeError> {
    if message.method_name != "emitBatch"@ {
        Err(DecodeError::UnexpectedMethod)
    } else if message.kind != MessageKind::Oneway {
        Err(DecodeError::UnexpectedKind { message_kind: message.kind })
    } else {
        match batch_of(message.body) {
            Ok(batch) => Ok(NotificationView { batch }),
            Err(e) => Err(e),
        }
    }
}

/// The message that a datagram holds. In the binary protocol it is what
/// `thrift_codec` reads from the front of `bytes`. In the compact protocol it is
/// `compact`: what the caller had the compact decoder read from these bytes.
pub open spec fn message_in(
    bytes: Seq<u8>,
    protocol: Protocol,
    compact: Option<MessageView>,
) -> Option<MessageView> {
    match protocol {
        Protocol::Compact => compact,
        Protocol::Binary => binary_decoded(bytes),
    }
}

/// What a datagram decodes to: it is refused where it is longer than the longest
/// datagram or holds no message; else its message has to be a notification.
pub open spec fn decoded(
    bytes: Seq<u8>,
    protocol: Protocol,
    compact: Option<MessageView>,
) -> Result<NotificationView, DecodeError> {
    if bytes.len() > MAX_DATAGRAM_LEN {
        Err(DecodeError::TooLong { len: bytes.len() as usize })
    } else {
        match message_in(bytes, protocol, compact) {
            Some(message) => notification_of(message),
            None => Err(DecodeError::Malformed),
        }
    }
}

} // verus!
