//! The ways in which a datagram fails to be an `emitBatch` notification.

use crate::wire::{DataKind, MessageKind};
use vstd::prelude::*;

verus! {

/// Why decoding failed. One error is reported for a datagram: the first fault
/// met while the message is walked.
#[derive(Clone, Copy, Debug, PartialEq, Eq, Structural)]
pub enum DecodeError {
    /// The datagram is longer than the longest that is handed to a decoder.
    TooLong { len: usize },
    /// The bytes are not a Thrift message of the chosen protocol.
    Malformed,
    /// The method name is not `emitBatch`.
    UnexpectedMethod,
    /// The message is not a oneway message.
    UnexpectedKind { message_kind: MessageKind },
    /// A required field is absent.
    MissingField { id: i16 },
    /// A field holds another wire type than the schema asks for.
    WrongType { id: i16, expected: DataKind, found: DataKind },
    /// A string field does not hold well-formed UTF-8.
    InvalidUtf8 { id: i16 },
    /// An element of a list is not a struct.
    NotAStruct { found: DataKind },
    /// The kind of a tag is none of string, double, bool, long and binary.
    UnknownTagKind { kind: i32 },
    /// The kind of a span reference is neither child-of nor follows-from.
    UnknownReferenceKind { kind: i32 },
}

impl DecodeError {
    /// What kind of fault this is, in words.
    pub open spec fn message_text(self) -> Seq<char> {
        match self {
            DecodeError::TooLong { .. } => "datagram too long"@,
            DecodeError::Malformed => "malformed Thrift message"@,
            DecodeError::UnexpectedMethod => "unexpected method name"@,
            DecodeError::UnexpectedKind { .. } => "unexpected message kind"@,
            DecodeError::MissingField { .. } => "missing field"@,
            DecodeError::WrongType { .. } => "wrong field type"@,
            DecodeError::InvalidUtf8 { .. } => "invalid UTF-8 in string field"@,
            DecodeError::NotAStruct { .. } => "list element is not a struct"@,
            DecodeError::UnknownTagKind { .. } => "unknown tag kind"@,
            DecodeError::UnknownReferenceKind { .. } => "unknown reference kind"@,
        }
    }

    /// What kind of fault this is, in words.
    pub fn message(&self) -> (r: &'static str)
        ensures
            r@ == self.message_text(),
    {
        match self {
            DecodeError::TooLong { .. } => "datagram too long",
            DecodeError::Malformed => "malformed Thrift message",
            DecodeError::UnexpectedMethod => "unexpected method name",
            DecodeError::UnexpectedKind { .. } => "unexpected message kind",
            DecodeError::MissingField { .. } => "missing field",
            DecodeError::WrongType { .. } => "wrong field type",
            DecodeError::InvalidUtf8 { .. } => "invalid UTF-8 in string field",
            DecodeError::NotAStruct { .. } => "list element is not a struct",
            DecodeError::UnknownTagKind { .. } => "unknown tag kind",
            DecodeError::UnknownReferenceKind { .. } => "unknown reference kind",
        }
    }
}

} // verus!
