//! The generic Thrift data that a decoded message holds, as `thrift_codec` hands it
//! over: structs of numbered fields, lists and scalars.

use thrift_codec::data::{Data, DataRef, List, Struct};
use thrift_codec::message::Message;
use thrift_codec::BinaryDecode;
use vstd::prelude::*;

verus! {

/// `thrift_codec::data::Struct`: what it holds is named by `struct_view`.
#[verifier::external_type_specification]
#[verifier::external_body]
pub struct ExThriftStruct(thrift_codec::data::Struct);

/// `thrift_codec::data::List`: what it holds is named by `list_view`.
#[verifier::external_type_specification]
#[verifier::external_body]
pub struct ExThriftList(thrift_codec::data::List);

/// `thrift_codec::Error`: nothing is read from it.
#[verifier::external_type_specification]
#[verifier::external_body]
pub struct ExThriftError(thrift_codec::Error);

/// The wire type of a piece of Thrift data.
#[derive(Clone, Copy, Debug, PartialEq, Eq, Structural)]
pub enum DataKind {
    Bool,
    I8,
    I16,
    I32,
    I64,
    Double,
    Binary,
    Struct,
    ThriftMap,
    ThriftSet,
    List,
    Uuid,
}

/// The kind of an RPC message.
#[derive(Clone, Copy, Debug, PartialEq, Eq, Structural)]
pub enum MessageKind {
    Call,
    Reply,
    Exception,
    Oneway,
}

/// A piece of Thrift data as a mathematical value. A double is held by its bit
/// pattern; of a map, a set and a UUID only the kind is kept.
pub enum DataView {
    Bool(bool),
    I8(i8),
    I16(i16),
    I32(i32),
    I64(i64),
    Double(u64),
    Binary(Seq<u8>),
    Struct(Seq<FieldView>),
    ThriftMap,
    ThriftSet,
    List(Seq<DataView>),
    Uuid,
}

/// One field of a struct: its numeric id and its data.
pub struct FieldView {
    pub id: i16,
    pub data: DataView,
}

/// A decoded message: method name, kind, and the fields of its body.
pub struct MessageView {
    pub method_name: Seq<char>,
    pub kind: MessageKind,
    pub body: Seq<FieldView>,
}

impl DataView {
    /// The wire type of this data.
    pub open spec fn kind(self) -> DataKind {
        match self {
            DataView::Bool(_) => DataKind::Bool,
            DataView::I8(_) => DataKind::I8,
            DataView::I16(_) => DataKind::I16,
            DataView::I32(_) => DataKind::I32,
            DataView::I64(_) => DataKind::I64,
            DataView::Double(_) => DataKind::Double,
            DataView::Binary(_) => DataKind::Binary,
            DataView::Struct(_) => DataKind::Struct,
            DataView::ThriftMap => DataKind::ThriftMap,
            DataView::ThriftSet => DataKind::ThriftSet,
            DataView::List(_) => DataKind::List,
            DataView::Uuid => DataKind::Uuid,
        }
    }
}

/// The fields that a `thrift_codec` struct holds, in their order.
pub uninterp spec fn struct_view(s: Struct) -> Seq<FieldView>;

/// The elements that a `thrift_codec` list holds, in their order.
pub uninterp spec fn list_view(l: List) -> Seq<DataView>;

/// The message that the binary protocol reads from the front of `bytes`, if any.
pub uninterp spec fn binary_decoded(bytes: Seq<u8>) -> Option<MessageView>;

/// One piece of data taken out of a struct or a list: a scalar by value, a struct
/// or a list by reference.
#[derive(Clone, Copy, Debug)]
pub enum Value<'a> {
    Bool(bool),
    I8(i8),
    I16(i16),
    I32(i32),
    I64(i64),
    Double(u64),
    Binary(&'a [u8]),
    Struct(&'a Struct),
    ThriftMap,
    ThriftSet,
    List(&'a List),
    Uuid,
}

impl<'a> View for Value<'a> {
    type V = DataView;

    open spec fn view(&self) -> DataView {
        match *self {
            Value::Bool(v) => DataView::Bool(v),
            Value::I8(v) => DataView::I8(v),
            Value::I16(v) => DataView::I16(v),
            Value::I32(v) => DataView::I32(v),
            Value::I64(v) => DataView::I64(v),
            Value::Double(v) => DataView::Double(v),
            Value::Binary(v) => DataView::Binary(v@),
            Value::Struct(v) => DataView::Struct(struct_view(*v)),
            Value::ThriftMap => DataView::ThriftMap,
            Value::ThriftSet => DataView::ThriftSet,
            Value::List(v) => DataView::List(list_view(*v)),
            Value::Uuid => DataView::Uuid,
        }
    }
}

impl<'a> Value<'a> {
    /// The wire type of this data.
    pub fn kind(&self) -> (k: DataKind)
        ensures
            k == self@.kind(),
    {
        match self {
            Value::Bool(_) => DataKind::Bool,
            Value::I8(_) => DataKind::I8,
            Value::I16(_) => DataKind::I16,
            Value::I32(_) => DataKind::I32,
            Value::I64(_) => DataKind::I64,
            Value::Double(_) => DataKind::Double,
            Value::Binary(_) => DataKind::Binary,
            Value::Struct(_) => DataKind::Struct,
            Value::ThriftMap => DataKind::ThriftMap,
            Value::ThriftSet => DataKind::ThriftSet,
            Value::List(_) => DataKind::List,
            Value::Uuid => DataKind::Uuid,
        }
    }
}

/// The longest datagram that is decoded: the longest that UDP can carry. The
/// decoders of `thrift_codec` call themselves once for each level of nesting and
/// a level takes at least one byte, so the length of the buffer bounds the depth
/// of their recursion.
pub const MAX_DATAGRAM_LEN: usize = 65_535;

/// The stack that a decoder may need for each byte of its buffer, for a build of
/// `thrift_codec` with optimisation: a thread that decodes a buffer of `n` bytes
/// needs `n * STACK_PER_BYTE` bytes of stack, 128 MiB for the longest datagram.
/// Measured, the deepest nesting (sets within sets) takes between 1.5 and 2 KiB
/// for each byte.
pub const STACK_PER_BYTE: usize = 2048;

/// A decoded message: its method name, its kind, and the struct that it carries.
#[derive(Debug)]
pub struct WireMessage {
    pub method_name: String,
    pub kind: MessageKind,
    pub body: Struct,
}

/// The view of a message that may be absent.
pub open spec fn optional_message(message: Option<WireMessage>) -> Option<MessageView> {
    match message {
        Some(m) => Some(m@),
        None => None,
    }
}

impl View for WireMessage {
    type V = MessageView;

    open spec fn view(&self) -> MessageView {
        MessageView {
            method_name: self.method_name@,
            kind: self.kind,
            body: struct_view(self.body),
        }
    }
}

/// `<Message as BinaryDecode>::binary_decode` on a byte slice: `Ok` with the
/// message that the binary protocol reads from the front of the bytes, `Err`
/// where it reads none.
///
/// The decoder calls itself once for each level of nesting. The bound on the
/// length of `buf` bounds that depth; the calling thread has to bring the stack
/// for it, `STACK_PER_BYTE` for each byte of `buf`.
#[verifier::external_body]
pub(crate) fn binary_decode(buf: &[u8]) -> (r: Result<WireMessage, thrift_codec::Error>)
    requires
        buf@.len() <= MAX_DATAGRAM_LEN,
    ensures
        match r {
            Ok(m) => binary_decoded(buf@) == Some(m@),
            Err(_) => binary_decoded(buf@) is None,
        },
{
    let mut rest = buf;
    let m = Message::binary_decode(&mut rest)?;
    let kind = match m.kind() {
        thrift_codec::message::MessageKind::Call => MessageKind::Call,
        thrift_codec::message::MessageKind::Reply => MessageKind::Reply,
        thrift_codec::message::MessageKind::Exception => MessageKind::Exception,
        thrift_codec::message::MessageKind::Oneway => MessageKind::Oneway,
    };
    Ok(WireMessage { method_name: m.method_name().to_owned(), kind, body: m.body().clone() })
}

/// `Struct::fields`, its length: the number of fields of the struct.
#[verifier::external_body]
pub(crate) fn struct_len(s: &Struct) -> (n: usize)
    ensures
        n == struct_view(*s).len(),
{
    s.fields().len()
}

/// `Field::id` of the field at index `i`.
#[verifier::external_body]
pub(crate) fn struct_field_id(s: &Struct, i: usize) -> (id: i16)
    requires
        i < struct_view(*s).len(),
    ensures
        id == struct_view(*s)[i as int].id,
{
    s.fields()[i].id()
}

/// `Field::data` of the field at index `i`, one variant of `Data` to one of `Value`.
#[verifier::external_body]
pub(crate) fn struct_field_value(s: &Struct, i: usize) -> (r: Value<'_>)
    requires
        i < struct_view(*s).len(),
    ensures
        r@ == struct_view(*s)[i as int].data,
{
    match s.fields()[i].data() {
        Data::Bool(v) => Value::Bool(*v),
        Data::I8(v) => Value::I8(*v),
        Data::I16(v) => Value::I16(*v),
        Data::I32(v) => Value::I32(*v),
        Data::I64(v) => Value::I64(*v),
        Data::Double(v) => Value::Double(v.to_bits()),
        Data::Binary(v) => Value::Binary(v),
        Data::Struct(v) => Value::Struct(v),
        Data::Map(_) => Value::ThriftMap,
        Data::Set(_) => Value::ThriftSet,
        Data::List(v) => Value::List(v),
        Data::Uuid(_) => Value::Uuid,
    }
}

/// `Elements::len` of the list: the number of its elements.
#[verifier::external_body]
pub(crate) fn list_len(l: &List) -> (n: usize)
    ensures
        n == list_view(*l).len(),
{
    l.len()
}

/// `Elements::get` at index `i`, one variant of `DataRef` to one of `Value`.
#[verifier::external_body]
pub(crate) fn list_item(l: &List, i: usize) -> (r: Value<'_>)
    requires
        i < list_view(*l).len(),
    ensures
        r@ == list_view(*l)[i as int],
{
    match l.get(i).unwrap() {
        DataRef::Bool(v) => Value::Bool(*v),
        DataRef::I8(v) => Value::I8(*v),
        DataRef::I16(v) => Value::I16(*v),
        DataRef::I32(v) => Value::I32(*v),
        DataRef::I64(v) => Value::I64(*v),
        DataRef::Double(v) => Value::Double(v.to_bits()),
        DataRef::Binary(v) => Value::Binary(v),
        DataRef::Struct(v) => Value::Struct(v),
        DataRef::Map(_) => Value::ThriftMap,
        DataRef::Set(_) => Value::ThriftSet,
        DataRef::List(v) => Value::List(v),
        DataRef::Uuid(_) => Value::Uuid,
    }
}

} // verus!
