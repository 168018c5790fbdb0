//! How identifiers are written: trace ids and span ids as hexadecimal text.
//!
//! An id travels as a signed 64-bit number and is written as the unsigned number
//! with the same 64 bits, in lowercase hexadecimal after `0x`. A trace id has 128
//! bits, sent as two halves; it is written as one number, so a high half of zero
//! does not show.

use crate::hex::{
    hex_digits, hex_value, lemma_hex_digits_denote, lemma_hex_digits_shortest, lemma_hex_split,
    pow16, push_hex, push_hex_fixed,
};
use vstd::prelude::*;
use vstd::string::StringExecFns;

verus! {

/// The unsigned number that has the same 64 bits as `v` in two's complement.
pub open spec fn unsigned(v: i64) -> nat {
    if v >= 0 {
        v as nat
    } else {
        (v + 0x1_0000_0000_0000_0000) as nat
    }
}

/// `0x` followed by the shortest hexadecimal text of `n`.
pub open spec fn prefixed_hex(n: nat) -> Seq<char> {
    seq!['0', 'x'] + hex_digits(n)
}

/// The text of the 128-bit trace id with the halves `high` and `low`.
pub open spec fn trace_id_text(high: i64, low: i64) -> Seq<char> {
    prefixed_hex(unsigned(high) * 0x1_0000_0000_0000_0000 + unsigned(low))
}

/// The text of a span id. Zero is an id like any other: `0x0`.
pub open spec fn span_id_text(id: i64) -> Seq<char> {
    prefixed_hex(unsigned(id))
}

/// The text of the id of a span's parent: empty where the id is zero, which
/// stands for a span without a parent.
pub open spec fn parent_span_id_text(id: i64) -> Seq<char> {
    if id == 0 {
        Seq::<char>::empty()
    } else {
        span_id_text(id)
    }
}

/// The text of an id is `0x` followed by digits that stand for the id.
pub proof fn lemma_prefixed_hex_denotes(n: nat)
    ensures
        prefixed_hex(n).len() >= 3,
        prefixed_hex(n)[0] == '0',
        prefixed_hex(n)[1] == 'x',
        hex_value(prefixed_hex(n).skip(2)) == n,
{
    lemma_hex_digits_denote(n);
    lemma_hex_digits_shortest(n);
    assert(prefixed_hex(n).skip(2) =~= hex_digits(n));
}

/// Different span ids are written differently.
pub proof fn lemma_span_ids_are_told_apart(a: i64, b: i64)
    requires
        span_id_text(a) == span_id_text(b),
    ensures
        a == b,
{
    lemma_prefixed_hex_denotes(unsigned(a));
    lemma_prefixed_hex_denotes(unsigned(b));
}

/// Different trace ids are written differently: the text gives back both halves.
pub proof fn lemma_trace_ids_are_told_apart(high_a: i64, low_a: i64, high_b: i64, low_b: i64)
    requires
        trace_id_text(high_a, low_a) == trace_id_text(high_b, low_b),
    ensures
        high_a == high_b,
        low_a == low_b,
{
    let a = unsigned(high_a) * 0x1_0000_0000_0000_0000 + unsigned(low_a);
    let b = unsigned(high_b) * 0x1_0000_0000_0000_0000 + unsigned(low_b);
    lemma_prefixed_hex_denotes(a);
    lemma_prefixed_hex_denotes(b);
    assert(a == b);
    let (ha, la, hb, lb) = (
        unsigned(high_a) as int,
        unsigned(low_a) as int,
        unsigned(high_b) as int,
        unsigned(low_b) as int,
    );
    assert(ha == hb && la == lb) by (nonlinear_arith)
        requires
            ha * 0x1_0000_0000_0000_0000 + la == hb * 0x1_0000_0000_0000_0000 + lb,
            0 <= la < 0x1_0000_0000_0000_0000,
            0 <= lb < 0x1_0000_0000_0000_0000,
    ;
}

/// A span id is never written as the empty text; the id of a parent is, exactly
/// where it is zero.
pub proof fn lemma_only_a_zero_parent_is_empty(id: i64)
    ensures
        span_id_text(id).len() >= 3,
        parent_span_id_text(id).len() == 0 <==> id == 0,
{
    lemma_hex_digits_shortest(unsigned(id));
}

/// The unsigned number with the same bits as `v`.
pub fn to_unsigned(v: i64) -> (r: u64)
    ensures
        r == unsigned(v),
{
    if v >= 0 {
        v as u64
    } else {
        ((v - i64::MIN) as u64) + 0x8000_0000_0000_0000
    }
}

/// Sixteen hexadecimal digits hold 64 bits.
pub proof fn lemma_pow16_of_16()
    ensures
        pow16(16) == 0x1_0000_0000_0000_0000,
{
    reveal_with_fuel(pow16, 17);
}

/// Writes the 128-bit trace id with the halves `high` and `low`.
pub fn trace_id(high: i64, low: i64) -> (r: String)
    ensures
        r@ == trace_id_text(high, low),
{
    let mut out = String::from_str("0x");
    proof {
        reveal_strlit("0x");
        assert(out@ =~= seq!['0', 'x']);
    }
    let h = to_unsigned(high);
    let l = to_unsigned(low);
    if h == 0 {
        push_hex(&mut out, l);
    } else {
        push_hex(&mut out, h);
        push_hex_fixed(&mut out, l, 16);
        proof {
            lemma_pow16_of_16();
            lemma_hex_split(h as nat, l as nat, 16);
            assert(out@ =~= seq!['0', 'x'] + (hex_digits(h as nat) + crate::hex::hex_fixed(
                l as nat,
                16,
            )));
        }
    }
    out
}

/// Writes a span id.
pub fn span_id(id: i64) -> (r: String)
    ensures
        r@ == span_id_text(id),
{
    let mut out = String::from_str("0x");
    proof {
        reveal_strlit("0x");
        assert(out@ =~= seq!['0', 'x']);
    }
    push_hex(&mut out, to_unsigned(id));
    out
}

/// Writes the id of a span's parent: nothing for zero.
pub fn parent_span_id(id: i64) -> (r: String)
    ensures
        r@ == parent_span_id_text(id),
{
    if id == 0 {
        String::new()
    } else {
        span_id(id)
    }
}

} // verus!
