//! Strings as this library needs them: UTF-8 validation, equality, and the
//! order of keys, which is the lexicographic order of their UTF-8 bytes.

use vstd::prelude::*;
use vstd::slice::slice_to_vec;
use vstd::string::StringSliceAdditionalSpecFns;
use vstd::utf8::{decode_utf8, encode_utf8, valid_utf8};

verus! {

/// `a` and `b` agree before position `i`, and at `i` either `a` ends while `b`
/// goes on, or `a` holds the smaller byte.
pub open spec fn parts_at(a: Seq<u8>, b: Seq<u8>, i: int) -> bool {
    &&& 0 <= i <= a.len()
    &&& i < b.len()
    &&& forall|j: int| 0 <= j < i ==> a[j] == b[j]
    &&& (i == a.len() || a[i] < b[i])
}

/// `a` comes before `b` in lexicographic order.
pub open spec fn lex_lt(a: Seq<u8>, b: Seq<u8>) -> bool {
    exists|i: int| parts_at(a, b, i)
}

/// The order of keys: the lexicographic order of their UTF-8 encodings.
pub open spec fn key_lt(a: Seq<char>, b: Seq<char>) -> bool {
    lex_lt(encode_utf8(a), encode_utf8(b))
}

/// How two keys stand to each other.
#[derive(Clone, Copy, Debug, PartialEq, Eq, Structural)]
pub enum KeyOrder {
    Before,
    Same,
    After,
}

/// Nothing comes before itself.
pub proof fn lemma_lex_lt_irreflexive(a: Seq<u8>)
    ensures
        !lex_lt(a, a),
{
    assert forall|i: int| !parts_at(a, a, i) by {}
}

/// The order is transitive.
pub proof fn lemma_lex_lt_transitive(a: Seq<u8>, b: Seq<u8>, c: Seq<u8>)
    requires
        lex_lt(a, b),
        lex_lt(b, c),
    ensures
        lex_lt(a, c),
{
    let i = choose|i: int| parts_at(a, b, i);
    let j = choose|j: int| parts_at(b, c, j);
    let k = if i <= j {
        i
    } else {
        j
    };
    assert(parts_at(a, c, k));
}

/// No two sequences come before each other.
pub proof fn lemma_lex_lt_asymmetric(a: Seq<u8>, b: Seq<u8>)
    requires
        lex_lt(a, b),
    ensures
        !lex_lt(b, a),
{
    if lex_lt(b, a) {
        lemma_lex_lt_transitive(a, b, a);
        lemma_lex_lt_irreflexive(a);
    }
}

/// Strings with the same UTF-8 bytes are the same string.
pub proof fn lemma_encode_utf8_injective(a: Seq<char>, b: Seq<char>)
    requires
        encode_utf8(a) == encode_utf8(b),
    ensures
        a == b,
{
    vstd::utf8::encode_utf8_decode_utf8(a);
    vstd::utf8::encode_utf8_decode_utf8(b);
}

/// Keys are totally ordered: of two different keys one comes before the other.
pub proof fn lemma_key_order_total(a: Seq<char>, b: Seq<char>)
    ensures
        a == b || key_lt(a, b) || key_lt(b, a),
        !(key_lt(a, b) && key_lt(b, a)),
        !key_lt(a, a),
{
    let x = encode_utf8(a);
    let y = encode_utf8(b);
    lemma_lex_lt_irreflexive(x);
    if lex_lt(x, y) {
        lemma_lex_lt_asymmetric(x, y);
    } else if !lex_lt(y, x) {
        lemma_lex_total(x, y, 0);
        lemma_encode_utf8_injective(a, b);
    }
}

/// Two sequences that agree before `i` and of which neither comes before the
/// other are equal.
proof fn lemma_lex_total(a: Seq<u8>, b: Seq<u8>, i: int)
    requires
        0 <= i <= a.len(),
        i <= b.len(),
        forall|j: int| 0 <= j < i ==> a[j] == b[j],
        !lex_lt(a, b),
        !lex_lt(b, a),
    ensures
        a == b,
    decreases a.len() - i,
{
    if i == a.len() {
        if i < b.len() {
            assert(parts_at(a, b, i));
        }
        assert(a =~= b);
    } else if i == b.len() {
        assert(parts_at(b, a, i));
    } else {
        if a[i] < b[i] {
            assert(parts_at(a, b, i));
        } else if b[i] < a[i] {
            assert(parts_at(b, a, i));
        }
        lemma_lex_total(a, b, i + 1);
    }
}

/// Compares two byte strings in lexicographic order.
pub fn compare_bytes(a: &[u8], b: &[u8]) -> (r: KeyOrder)
    ensures
        r == KeyOrder::Before <==> lex_lt(a@, b@),
        r == KeyOrder::Same <==> a@ == b@,
        r == KeyOrder::After <==> lex_lt(b@, a@),
{
    let mut i: usize = 0;
    while i < a.len() && i < b.len()
        invariant
            i <= a.len(),
            i <= b.len(),
            forall|j: int| 0 <= j < i ==> a@[j] == b@[j],
        decreases a.len() - i,
    {
        if a[i] < b[i] {
            proof {
                assert(parts_at(a@, b@, i as int));
                lemma_lex_lt_asymmetric(a@, b@);
                lemma_lex_lt_irreflexive(a@);
            }
            return KeyOrder::Before;
        }
        if b[i] < a[i] {
            proof {
                assert(parts_at(b@, a@, i as int));
                lemma_lex_lt_asymmetric(b@, a@);
                lemma_lex_lt_irreflexive(a@);
            }
            return KeyOrder::After;
        }
        i += 1;
    }
    proof {
        lemma_lex_lt_irreflexive(a@);
    }
    if i < b.len() {
        proof {
            assert(parts_at(a@, b@, i as int));
            lemma_lex_lt_asymmetric(a@, b@);
        }
        KeyOrder::Before
    } else if i < a.len() {
        proof {
            assert(parts_at(b@, a@, i as int));
            lemma_lex_lt_asymmetric(b@, a@);
        }
        KeyOrder::After
    } else {
        proof {
            assert(a@ =~= b@);
        }
        KeyOrder::Same
    }
}

/// Compares two keys in the order of keys.
pub fn compare_keys(a: &str, b: &str) -> (r: KeyOrder)
    ensures
        r == KeyOrder::Before <==> key_lt(a@, b@),
        r == KeyOrder::Same <==> a@ == b@,
        r == KeyOrder::After <==> key_lt(b@, a@),
{
    let r = compare_bytes(a.as_bytes(), b.as_bytes());
    proof {
        if a.spec_bytes() == b.spec_bytes() {
            lemma_encode_utf8_injective(a@, b@);
        }
    }
    r
}

/// Whether two strings are the same text.
pub fn str_eq(a: &str, b: &str) -> (r: bool)
    ensures
        r <==> a@ == b@,
{
    compare_keys(a, b) == KeyOrder::Same
}

/// `core::str::from_utf8`: `Some` exactly where the bytes are well-formed UTF-8,
/// and then the string that these bytes encode.
#[verifier::external_body]
pub(crate) fn str_from_utf8(bytes: &[u8]) -> (r: Option<&str>)
    ensures
        r is Some <==> valid_utf8(bytes@),
        r matches Some(s) ==> s.spec_bytes() == bytes@,
{
    core::str::from_utf8(bytes).ok()
}

/// The text that well-formed UTF-8 bytes encode, or `None` where they are not
/// well-formed.
pub fn decode_text(bytes: &[u8]) -> (r: Option<String>)
    ensures
        r is Some <==> valid_utf8(bytes@),
        r matches Some(s) ==> s@ == decode_utf8(bytes@),
{
    match str_from_utf8(bytes) {
        Some(s) => {
            proof {
                vstd::utf8::encode_utf8_decode_utf8(s@);
            }
            Some(s.to_owned())
        },
        None => None,
    }
}

/// A copy of the bytes.
pub fn copy_bytes(bytes: &[u8]) -> (r: Vec<u8>)
    ensures
        r@ == bytes@,
{
    slice_to_vec(bytes)
}

} // verus!
