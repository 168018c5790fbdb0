//! What a listener does with one datagram: decode the bytes that were received,
//! and on success choose the record to write.
//!
//! A binary datagram is handled in one step. A compact datagram takes two: the
//! compact decoder of `thrift_codec` can panic, so the caller runs it where a
//! panic can be caught, between `on_datagram` and `on_compact`.

use crate::error::DecodeError;
use crate::model::NotificationView;
use crate::schema::{decoded, Protocol};
use crate::thrift::EmitBatchNotification;
use crate::wire::{optional_message, MessageView, WireMessage, MAX_DATAGRAM_LEN};
use vstd::prelude::*;
use vstd::slice::slice_subrange;

verus! {

/// The representation in which decoded batches are written.
#[derive(Clone, Copy, Debug, PartialEq, Eq, Structural)]
pub enum Format {
    /// The bytes of the datagram as they were received.
    Raw,
    /// JSON on one line.
    Json,
    /// Indented JSON.
    JsonPretty,
}

/// The record to write for one datagram.
#[derive(Debug, PartialEq, Eq)]
pub enum Record<'a> {
    /// The bytes that were received, to be written unchanged.
    Raw(&'a [u8]),
    /// The notification, to be written as JSON on one line.
    Json(EmitBatchNotification),
    /// The notification, to be written as indented JSON.
    JsonPretty(EmitBatchNotification),
}

/// The record to write for one datagram, as a mathematical value.
pub enum RecordView {
    Raw(Seq<u8>),
    Json(NotificationView),
    JsonPretty(NotificationView),
}

impl<'a> View for Record<'a> {
    type V = RecordView;

    open spec fn view(&self) -> RecordView {
        match self {
            Record::Raw(bytes) => RecordView::Raw(bytes@),
            Record::Json(notification) => RecordView::Json(notification@),
            Record::JsonPretty(notification) => RecordView::JsonPretty(notification@),
        }
    }
}

/// The record for the bytes of a datagram: none where they do not decode,
/// whatever the format; else the bytes themselves for `Raw`, the notification
/// otherwise.
pub open spec fn record_for(
    bytes: Seq<u8>,
    protocol: Protocol,
    format: Format,
    compact: Option<MessageView>,
) -> Result<RecordView, DecodeError> {
    match decoded(bytes, protocol, compact) {
        Err(e) => Err(e),
        Ok(notification) => match format {
            Format::Raw => Ok(RecordView::Raw(bytes)),
            Format::Json => Ok(RecordView::Json(notification)),
            Format::JsonPretty => Ok(RecordView::JsonPretty(notification)),
        },
    }
}

/// What the listener does next with a datagram.
#[derive(Debug, PartialEq, Eq)]
pub enum Step<'a> {
    /// Nothing is written: the datagram is refused with this error.
    Refuse(DecodeError),
    /// This record is written.
    Write(Record<'a>),
    /// The caller has the compact decoder read these bytes and hands what it read
    /// to `on_compact`.
    ReadCompact(&'a [u8]),
}

/// What the listener does next, as a mathematical value.
pub enum StepView {
    Refuse(DecodeError),
    Write(RecordView),
    ReadCompact(Seq<u8>),
}

impl<'a> View for Step<'a> {
    type V = StepView;

    open spec fn view(&self) -> StepView {
        match self {
            Step::Refuse(e) => StepView::Refuse(*e),
            Step::Write(record) => StepView::Write(record@),
            Step::ReadCompact(bytes) => StepView::ReadCompact(bytes@),
        }
    }
}

/// The next step for the received bytes. A datagram longer than the longest is
/// refused before any decoder sees it. A compact datagram goes to the compact
/// decoder. A binary datagram is decoded, and written or refused.
pub open spec fn step_for(bytes: Seq<u8>, protocol: Protocol, format: Format) -> StepView {
    if bytes.len() > MAX_DATAGRAM_LEN {
        StepView::Refuse(DecodeError::TooLong { len: bytes.len() as usize })
    } else {
        match protocol {
            Protocol::Compact => StepView::ReadCompact(bytes),
            Protocol::Binary => match record_for(bytes, protocol, format, None) {
                Ok(record) => StepView::Write(record),
                Err(e) => StepView::Refuse(e),
            },
        }
    }
}

/// The record to write for a notification.
fn record_of<'a>(bytes: &'a [u8], notification: EmitBatchNotification, format: Format) -> (r:
    Record<'a>)
    ensures
        r@ == (match format {
            Format::Raw => RecordView::Raw(bytes@),
            Format::Json => RecordView::Json(notification@),
            Format::JsonPretty => RecordView::JsonPretty(notification@),
        }),
{
    match format {
        Format::Raw => Record::Raw(bytes),
        Format::Json => Record::Json(notification),
        Format::JsonPretty => Record::JsonPretty(notification),
    }
}

/// Handles one datagram of which the first `received` bytes of `buf` were
/// filled, and says what to do next. An error concerns this datagram alone: the
/// listener reports it and goes on with the next one.
///
/// The thread that calls needs `STACK_PER_BYTE` of stack for each byte received.
pub fn on_datagram<'a>(buf: &'a [u8], received: usize, protocol: Protocol, format: Format) -> (r:
    Step<'a>)
    requires
        received <= buf@.len(),
    ensures
        r@ == step_for(buf@.take(received as int), protocol, format),
{
    if received > MAX_DATAGRAM_LEN {
        return Step::Refuse(DecodeError::TooLong { len: received });
    }
    let bytes = slice_subrange(buf, 0, received);
    assert(bytes@ == buf@.take(received as int));
    match protocol {
        Protocol::Compact => Step::ReadCompact(bytes),
        Protocol::Binary => match EmitBatchNotification::decode(bytes, protocol, None) {
            Ok(notification) => Step::Write(record_of(bytes, notification, format)),
            Err(e) => Step::Refuse(e),
        },
    }
}

/// Handles what the compact decoder read from the bytes of a datagram: `None`
/// where it read no message.
pub fn on_compact<'a>(bytes: &'a [u8], message: Option<WireMessage>, format: Format) -> (r: Result<
    Record<'a>,
    DecodeError,
>)
    ensures
        crate::thrift::viewed(r) == record_for(
            bytes@,
            Protocol::Compact,
            format,
            optional_message(message),
        ),
{
    let notification = EmitBatchNotification::decode(bytes, Protocol::Compact, message)?;
    Ok(record_of(bytes, notification, format))
}

} // verus!
