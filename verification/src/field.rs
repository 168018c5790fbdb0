//! Typed access to the fields of a Thrift struct by their numeric id.
//!
//! A field is looked up by id, never by position; where an id occurs twice the
//! first occurrence counts. A required field that is absent, or that holds
//! another wire type than asked for, is an error that names the id.

use crate::error::DecodeError;
use crate::text::{copy_bytes, decode_text};
use crate::wire::{
    list_item, list_len, list_view, struct_field_id, struct_field_value, struct_len, struct_view,
    DataKind, DataView, FieldView, Value,
};
use thrift_codec::data::{List, Struct};
use vstd::prelude::*;
use vstd::utf8::{decode_utf8, valid_utf8};

verus! {

/// `i` is the position of the first field with id `id`.
pub open spec fn is_first_with_id(fields: Seq<FieldView>, id: i16, i: int) -> bool {
    &&& 0 <= i < fields.len()
    &&& fields[i].id == id
    &&& forall|j: int| 0 <= j < i ==> fields[j].id != id
}

/// The data of the first field with id `id`, if the struct has such a field.
pub open spec fn field_data(fields: Seq<FieldView>, id: i16) -> Option<DataView> {
    if exists|i: int| is_first_with_id(fields, id, i) {
        Some(fields[choose|i: int| is_first_with_id(fields, id, i)].data)
    } else {
        None
    }
}

/// The field found at the first position with the id is the field's data.
pub proof fn lemma_field_present(fields: Seq<FieldView>, id: i16, i: int)
    requires
        is_first_with_id(fields, id, i),
    ensures
        field_data(fields, id) == Some(fields[i].data),
{
    let c = choose|c: int| is_first_with_id(fields, id, c);
    assert(c == i);
}

/// A struct none of whose fields has the id holds no data for it.
pub proof fn lemma_field_absent(fields: Seq<FieldView>, id: i16)
    requires
        forall|j: int| 0 <= j < fields.len() ==> fields[j].id != id,
    ensures
        field_data(fields, id) is None,
{
}

/// No id occurs twice among the fields.
pub open spec fn distinct_ids(fields: Seq<FieldView>) -> bool {
    forall|i: int, j: int| 0 <= i < j < fields.len() ==> fields[i].id != fields[j].id
}

/// Fields are found by id, not by position: where no id occurs twice, a struct
/// holds `data` under `id` exactly if the field of that id and data is anywhere
/// among its fields.
pub proof fn lemma_lookup_is_by_id(fields: Seq<FieldView>, id: i16, data: DataView)
    requires
        distinct_ids(fields),
    ensures
        field_data(fields, id) == Some(data) <==> fields.contains(FieldView { id, data }),
{
    if fields.contains(FieldView { id, data }) {
        let i = choose|i: int| 0 <= i < fields.len() && fields[i] == (FieldView { id, data });
        assert(is_first_with_id(fields, id, i));
        lemma_field_present(fields, id, i);
    }
    if field_data(fields, id) == Some(data) {
        let i = choose|i: int| is_first_with_id(fields, id, i);
        assert(fields[i] == FieldView { id, data });
    }
}

/// The order of the fields does not matter: two structs without repeated ids
/// that hold the same fields give the same data under every id.
pub proof fn lemma_field_order_is_irrelevant(a: Seq<FieldView>, b: Seq<FieldView>, id: i16)
    requires
        distinct_ids(a),
        distinct_ids(b),
        forall|f: FieldView| a.contains(f) <==> b.contains(f),
    ensures
        field_data(a, id) == field_data(b, id),
{
    match field_data(a, id) {
        Some(data) => {
            lemma_lookup_is_by_id(a, id, data);
            lemma_lookup_is_by_id(b, id, data);
        },
        None => {
            match field_data(b, id) {
                Some(data) => {
                    lemma_lookup_is_by_id(a, id, data);
                    lemma_lookup_is_by_id(b, id, data);
                },
                None => {},
            }
        },
    }
}

/// The error for a field that holds `found` where `expected` was asked for.
pub open spec fn wrong_type(id: i16, expected: DataKind, found: DataView) -> DecodeError {
    DecodeError::WrongType { id, expected, found: found.kind() }
}

/// The required boolean field `id`.
pub open spec fn bool_of(fields: Seq<FieldView>, id: i16) -> Result<bool, DecodeError> {
    match field_data(fields, id) {
        None => Err(DecodeError::MissingField { id }),
        Some(DataView::Bool(v)) => Ok(v),
        Some(other) => Err(wrong_type(id, DataKind::Bool, other)),
    }
}

/// The required 32-bit integer field `id`.
pub open spec fn i32_of(fields: Seq<FieldView>, id: i16) -> Result<i32, DecodeError> {
    match field_data(fields, id) {
        None => Err(DecodeError::MissingField { id }),
        Some(DataView::I32(v)) => Ok(v),
        Some(other) => Err(wrong_type(id, DataKind::I32, other)),
    }
}

/// The required 64-bit integer field `id`.
pub open spec fn i64_of(fields: Seq<FieldView>, id: i16) -> Result<i64, DecodeError> {
    match field_data(fields, id) {
        None => Err(DecodeError::MissingField { id }),
        Some(DataView::I64(v)) => Ok(v),
        Some(other) => Err(wrong_type(id, DataKind::I64, other)),
    }
}

/// The required double field `id`, as its bit pattern.
pub open spec fn double_of(fields: Seq<FieldView>, id: i16) -> Result<u64, DecodeError> {
    match field_data(fields, id) {
        None => Err(DecodeError::MissingField { id }),
        Some(DataView::Double(v)) => Ok(v),
        Some(other) => Err(wrong_type(id, DataKind::Double, other)),
    }
}

/// The required binary field `id`.
pub open spec fn binary_of(fields: Seq<FieldView>, id: i16) -> Result<Seq<u8>, DecodeError> {
    match field_data(fields, id) {
        None => Err(DecodeError::MissingField { id }),
        Some(DataView::Binary(v)) => Ok(v),
        Some(other) => Err(wrong_type(id, DataKind::Binary, other)),
    }
}

/// The required string field `id`: a binary field whose bytes are well-formed
/// UTF-8, as the text that they encode.
pub open spec fn string_of(fields: Seq<FieldView>, id: i16) -> Result<Seq<char>, DecodeError> {
    match field_data(fields, id) {
        None => Err(DecodeError::MissingField { id }),
        Some(DataView::Binary(v)) => if valid_utf8(v) {
            Ok(decode_utf8(v))
        } else {
            Err(DecodeError::InvalidUtf8 { id })
        },
        Some(other) => Err(wrong_type(id, DataKind::Binary, other)),
    }
}

/// The required struct field `id`, as the fields of that struct.
pub open spec fn struct_of(fields: Seq<FieldView>, id: i16) -> Result<Seq<FieldView>, DecodeError> {
    match field_data(fields, id) {
        None => Err(DecodeError::MissingField { id }),
        Some(DataView::Struct(v)) => Ok(v),
        Some(other) => Err(wrong_type(id, DataKind::Struct, other)),
    }
}

/// The optional list field `id`, as its elements: an absent field is the empty list.
pub open spec fn list_of(fields: Seq<FieldView>, id: i16) -> Result<Seq<DataView>, DecodeError> {
    match field_data(fields, id) {
        None => Ok(Seq::<DataView>::empty()),
        Some(DataView::List(v)) => Ok(v),
        Some(other) => Err(wrong_type(id, DataKind::List, other)),
    }
}

/// The view of data that may be absent.
pub open spec fn optional_view(v: Option<Value<'_>>) -> Option<DataView> {
    match v {
        Some(v) => Some(v@),
        None => None,
    }
}

/// Looks up the first field with id `id`.
pub fn find_field<'a>(s: &'a Struct, id: i16) -> (r: Option<Value<'a>>)
    ensures
        optional_view(r) == field_data(struct_view(*s), id),
{
    let n = struct_len(s);
    let mut i: usize = 0;
    while i < n
        invariant
            n == struct_view(*s).len(),
            i <= n,
            forall|j: int| 0 <= j < i ==> struct_view(*s)[j].id != id,
        decreases n - i,
    {
        if struct_field_id(s, i) == id {
            let v = struct_field_value(s, i);
            proof {
                lemma_field_present(struct_view(*s), id, i as int);
            }
            return Some(v);
        }
        i += 1;
    }
    proof {
        lemma_field_absent(struct_view(*s), id);
    }
    None
}

/// The required boolean field `id`.
pub fn bool_field(s: &Struct, id: i16) -> (r: Result<bool, DecodeError>)
    ensures
        r == bool_of(struct_view(*s), id),
{
    match find_field(s, id) {
        None => Err(DecodeError::MissingField { id }),
        Some(Value::Bool(v)) => Ok(v),
        Some(other) => Err(DecodeError::WrongType { id, expected: DataKind::Bool, found: other.kind() }),
    }
}

/// The required 32-bit integer field `id`.
pub fn i32_field(s: &Struct, id: i16) -> (r: Result<i32, DecodeError>)
    ensures
        r == i32_of(struct_view(*s), id),
{
    match find_field(s, id) {
        None => Err(DecodeError::MissingField { id }),
        Some(Value::I32(v)) => Ok(v),
        Some(other) => Err(DecodeError::WrongType { id, expected: DataKind::I32, found: other.kind() }),
    }
}

/// The required 64-bit integer field `id`.
pub fn i64_field(s: &Struct, id: i16) -> (r: Result<i64, DecodeError>)
    ensures
        r == i64_of(struct_view(*s), id),
{
    match find_field(s, id) {
        None => Err(DecodeError::MissingField { id }),
        Some(Value::I64(v)) => Ok(v),
        Some(other) => Err(DecodeError::WrongType { id, expected: DataKind::I64, found: other.kind() }),
    }
}

/// The required double field `id`, as its bit pattern.
pub fn double_field(s: &Struct, id: i16) -> (r: Result<u64, DecodeError>)
    ensures
        r == double_of(struct_view(*s), id),
{
    match find_field(s, id) {
        None => Err(DecodeError::MissingField { id }),
        Some(Value::Double(v)) => Ok(v),
        Some(other) => Err(
            DecodeError::WrongType { id, expected: DataKind::Double, found: other.kind() },
        ),
    }
}

/// The required binary field `id`.
pub fn binary_field(s: &Struct, id: i16) -> (r: Result<Vec<u8>, DecodeError>)
    ensures
        match r {
            Ok(bytes) => binary_of(struct_view(*s), id) == Ok::<Seq<u8>, DecodeError>(bytes@),
            Err(e) => binary_of(struct_view(*s), id) == Err::<Seq<u8>, DecodeError>(e),
        },
{
    match find_field(s, id) {
        None => Err(DecodeError::MissingField { id }),
        Some(Value::Binary(v)) => Ok(copy_bytes(v)),
        Some(other) => Err(
            DecodeError::WrongType { id, expected: DataKind::Binary, found: other.kind() },
        ),
    }
}

/// The required string field `id`.
pub fn string_field(s: &Struct, id: i16) -> (r: Result<String, DecodeError>)
    ensures
        match r {
            Ok(text) => string_of(struct_view(*s), id) == Ok::<Seq<char>, DecodeError>(text@),
            Err(e) => string_of(struct_view(*s), id) == Err::<Seq<char>, DecodeError>(e),
        },
{
    match find_field(s, id) {
        None => Err(DecodeError::MissingField { id }),
        Some(Value::Binary(v)) => match decode_text(v) {
            Some(text) => Ok(text),
            None => Err(DecodeError::InvalidUtf8 { id }),
        },
        Some(other) => Err(
            DecodeError::WrongType { id, expected: DataKind::Binary, found: other.kind() },
        ),
    }
}

/// The required struct field `id`.
pub fn struct_field<'a>(s: &'a Struct, id: i16) -> (r: Result<&'a Struct, DecodeError>)
    ensures
        match r {
            Ok(inner) => struct_of(struct_view(*s), id) == Ok::<Seq<FieldView>, DecodeError>(
                struct_view(*inner),
            ),
            Err(e) => struct_of(struct_view(*s), id) == Err::<Seq<FieldView>, DecodeError>(e),
        },
{
    match find_field(s, id) {
        None => Err(DecodeError::MissingField { id }),
        Some(Value::Struct(v)) => Ok(v),
        Some(other) => Err(
            DecodeError::WrongType { id, expected: DataKind::Struct, found: other.kind() },
        ),
    }
}

/// The elements of an optional list field: those of the list where the field is
/// present, none where it is absent.
#[derive(Clone, Copy, Debug)]
pub struct OptionalList<'a> {
    list: Option<&'a List>,
}

impl<'a> View for OptionalList<'a> {
    type V = Seq<DataView>;

    closed spec fn view(&self) -> Seq<DataView> {
        match self.list {
            Some(l) => list_view(*l),
            None => Seq::<DataView>::empty(),
        }
    }
}

impl<'a> OptionalList<'a> {
    /// The elements of a list that is present.
    pub fn present(list: &'a List) -> (r: OptionalList<'a>)
        ensures
            r@ == list_view(*list),
    {
        OptionalList { list: Some(list) }
    }

    /// The elements of a list that is absent: none.
    pub fn absent() -> (r: OptionalList<'a>)
        ensures
            r@ == Seq::<DataView>::empty(),
    {
        OptionalList { list: None }
    }

    /// The number of elements.
    pub fn len(&self) -> (n: usize)
        ensures
            n == self@.len(),
    {
        match self.list {
            Some(l) => list_len(l),
            None => 0,
        }
    }

    /// The element at position `i`.
    pub fn get(&self, i: usize) -> (r: Value<'a>)
        requires
            i < self@.len(),
        ensures
            r@ == self@[i as int],
    {
        match self.list {
            Some(l) => list_item(l, i),
            None => {
                proof {
                    assert(false);
                }
                Value::Uuid
            },
        }
    }
}

/// The optional list field `id`.
pub fn list_field<'a>(s: &'a Struct, id: i16) -> (r: Result<OptionalList<'a>, DecodeError>)
    ensures
        match r {
            Ok(elements) => list_of(struct_view(*s), id) == Ok::<Seq<DataView>, DecodeError>(
                elements@,
            ),
            Err(e) => list_of(struct_view(*s), id) == Err::<Seq<DataView>, DecodeError>(e),
        },
{
    match find_field(s, id) {
        None => Ok(OptionalList::absent()),
        Some(Value::List(v)) => Ok(OptionalList::present(v)),
        Some(other) => Err(
            DecodeError::WrongType { id, expected: DataKind::List, found: other.kind() },
        ),
    }
}

} // verus!
