//! What holds of decoding as a whole, proved from the schema.

use crate::collect::lemma_ok_elements;
use crate::error::DecodeError;
use crate::field::{field_data, i32_of, i64_of, list_of, string_of, struct_of};
use crate::ident::{parent_span_id_text, span_id_text, trace_id_text};
use crate::model::{NotificationView, SpanView};
use crate::schema::{
    batch_of, decoded, notification_of, span_of, span_ref_of_fields, span_results, spans_in,
    spans_of, tag_of_fields, Protocol,
};
use crate::tags::{is_last_with_key, lemma_last_write_wins, tags_map, TagValueView, TagView};
use crate::thrift::{viewed, EmitBatchNotification};
use crate::wire::{
    binary_decoded, DataKind, DataView, FieldView, MessageKind, MessageView, MAX_DATAGRAM_LEN,
};
use vstd::prelude::*;

verus! {

/// The span `span` carries the ids of the struct `data`, written by the rules
/// for trace ids, span ids and parent ids.
pub open spec fn carries_ids_of(span: SpanView, data: DataView) -> bool {
    &&& data is Struct
    &&& i64_of(data->Struct_0, 1) is Ok
    &&& i64_of(data->Struct_0, 2) is Ok
    &&& i64_of(data->Struct_0, 3) is Ok
    &&& i64_of(data->Struct_0, 4) is Ok
    &&& span.trace_id == trace_id_text(
        i64_of(data->Struct_0, 2)->Ok_0,
        i64_of(data->Struct_0, 1)->Ok_0,
    )
    &&& span.span_id == span_id_text(i64_of(data->Struct_0, 3)->Ok_0)
    &&& span.parent_span_id == parent_span_id_text(i64_of(data->Struct_0, 4)->Ok_0)
}

/// A notification keeps what identifies the batch: the service name is the one
/// on the wire, there is one span for each element of the list of spans, in the
/// same order, and each span carries the ids of its element.
pub proof fn lemma_notification_keeps_identity(message: MessageView)
    requires
        notification_of(message) is Ok,
    ensures
        struct_of(message.body, 1) is Ok,
        struct_of(struct_of(message.body, 1)->Ok_0, 1) is Ok,
        list_of(struct_of(message.body, 1)->Ok_0, 2) is Ok,
        ({
            let arguments = struct_of(message.body, 1)->Ok_0;
            let process = struct_of(arguments, 1)->Ok_0;
            let elements = list_of(arguments, 2)->Ok_0;
            let batch = notification_of(message)->Ok_0.batch;
            &&& string_of(process, 1) == Ok::<Seq<char>, DecodeError>(batch.process.service_name)
            &&& batch.spans.len() == elements.len()
            &&& forall|i: int|
                0 <= i < elements.len() ==> carries_ids_of(#[trigger] batch.spans[i], elements[i])
        }),
{
    let arguments = struct_of(message.body, 1)->Ok_0;
    let elements = list_of(arguments, 2)->Ok_0;
    let batch = notification_of(message)->Ok_0.batch;
    assert(batch_of(message.body) is Ok);
    assert(spans_in(arguments, 2) is Ok);
    assert(spans_of(elements) == Ok::<Seq<SpanView>, DecodeError>(batch.spans));
    lemma_ok_elements(span_results(elements));
    assert forall|i: int| 0 <= i < elements.len() implies carries_ids_of(
        #[trigger] batch.spans[i],
        elements[i],
    ) by {
        assert(span_results(elements)[i] == span_of(elements[i]));
    }
}

/// The two protocols differ in how a message is framed, not in what it means:
/// a compact datagram and a binary one that hold the same message decode to the
/// same result.
pub proof fn lemma_protocols_agree(compact: Seq<u8>, binary: Seq<u8>, message: Option<MessageView>)
    requires
        compact.len() <= MAX_DATAGRAM_LEN,
        binary.len() <= MAX_DATAGRAM_LEN,
        binary_decoded(binary) == message,
    ensures
        decoded(compact, Protocol::Compact, message) == decoded(binary, Protocol::Binary, None),
{
}

/// For a binary datagram it does not matter what is handed in as the reading of
/// the compact decoder.
pub proof fn lemma_binary_ignores_compact_reading(
    bytes: Seq<u8>,
    first: Option<MessageView>,
    second: Option<MessageView>,
)
    ensures
        decoded(bytes, Protocol::Binary, first) == decoded(bytes, Protocol::Binary, second),
{
}

/// A message whose method is not `emitBatch`, or whose kind is not oneway, is
/// refused whatever its body holds.
pub proof fn lemma_other_messages_are_refused(message: MessageView)
    requires
        message.method_name != "emitBatch"@ || message.kind != MessageKind::Oneway,
    ensures
        notification_of(message) is Err,
        message.method_name != "emitBatch"@ ==> notification_of(message) == Err::<
            NotificationView,
            DecodeError,
        >(DecodeError::UnexpectedMethod),
        message.method_name == "emitBatch"@ ==> notification_of(message) == Err::<
            NotificationView,
            DecodeError,
        >(DecodeError::UnexpectedKind { message_kind: message.kind }),
{
}

/// A bool tag takes its value from field 5 and from nowhere else: it is the bool
/// in that field, and the tag is refused where the field is absent or holds
/// another type.
pub proof fn lemma_bool_tag_reads_field_5(fields: Seq<FieldView>)
    requires
        string_of(fields, 1) is Ok,
        i32_of(fields, 2) == Ok::<i32, DecodeError>(2),
    ensures
        match field_data(fields, 5) {
            Some(DataView::Bool(value)) => tag_of_fields(fields) == Ok::<TagView, DecodeError>(
                TagView { key: string_of(fields, 1)->Ok_0, value: TagValueView::Bool(value) },
            ),
            Some(other) => tag_of_fields(fields) == Err::<TagView, DecodeError>(
                DecodeError::WrongType { id: 5, expected: DataKind::Bool, found: other.kind() },
            ),
            None => tag_of_fields(fields) == Err::<TagView, DecodeError>(
                DecodeError::MissingField { id: 5 },
            ),
        },
{
}

/// A span reference whose kind is neither 0 nor 1 is refused as of unknown kind,
/// whatever its other fields hold.
pub proof fn lemma_unknown_reference_kind(fields: Seq<FieldView>, kind: i32)
    requires
        i32_of(fields, 1) == Ok::<i32, DecodeError>(kind),
        kind != 0,
        kind != 1,
    ensures
        span_ref_of_fields(fields) == Err::<crate::model::SpanRefView, DecodeError>(
            DecodeError::UnknownReferenceKind { kind },
        ),
{
}

/// Decoding the same bytes twice gives the same records, whatever their length:
/// the outcome depends on the bytes, the protocol and, for a compact datagram,
/// on what the compact decoder read from the bytes.
pub proof fn lemma_decoding_is_repeatable(
    bytes: Seq<u8>,
    protocol: Protocol,
    compact: Option<MessageView>,
    first: Result<EmitBatchNotification, DecodeError>,
    second: Result<EmitBatchNotification, DecodeError>,
)
    requires
        viewed(first) == decoded(bytes, protocol, compact),
        viewed(second) == decoded(bytes, protocol, compact),
    ensures
        viewed(first) == viewed(second),
{
}

/// A datagram longer than the longest is refused, whatever it holds.
pub proof fn lemma_long_datagrams_are_refused(
    bytes: Seq<u8>,
    protocol: Protocol,
    compact: Option<MessageView>,
)
    requires
        bytes.len() > MAX_DATAGRAM_LEN,
    ensures
        decoded(bytes, protocol, compact) == Err::<NotificationView, DecodeError>(
            DecodeError::TooLong { len: bytes.len() as usize },
        ),
{
}

/// Of two tags with the same key the second one stays: the mapping holds that
/// key alone, with the second value.
pub proof fn lemma_second_tag_overwrites_first(first: TagView, second: TagView)
    requires
        first.key == second.key,
    ensures
        tags_map(seq![first, second]) == Map::<Seq<char>, TagValueView>::empty().insert(
            second.key,
            second.value,
        ),
{
    let tags = seq![first, second];
    assert(tags[1] == second);
    assert(is_last_with_key(tags, second.key, 1));
    lemma_last_write_wins(tags, 1);
    assert(tags_map(tags) =~= Map::<Seq<char>, TagValueView>::empty().insert(
        second.key,
        second.value,
    ));
}

} // verus!
