//! Lowercase hexadecimal text of unsigned numbers.

use vstd::prelude::*;

verus! {

/// The character that stands for one hexadecimal digit.
pub open spec fn hex_digit(d: nat) -> char {
    if d == 0 {
        '0'
    } else if d == 1 {
        '1'
    } else if d == 2 {
        '2'
    } else if d == 3 {
        '3'
    } else if d == 4 {
        '4'
    } else if d == 5 {
        '5'
    } else if d == 6 {
        '6'
    } else if d == 7 {
        '7'
    } else if d == 8 {
        '8'
    } else if d == 9 {
        '9'
    } else if d == 10 {
        'a'
    } else if d == 11 {
        'b'
    } else if d == 12 {
        'c'
    } else if d == 13 {
        'd'
    } else if d == 14 {
        'e'
    } else {
        'f'
    }
}

/// The shortest hexadecimal text of `n`: no leading zero, and `"0"` for zero.
pub open spec fn hex_digits(n: nat) -> Seq<char>
    decreases n,
{
    if n < 16 {
        seq![hex_digit(n)]
    } else {
        hex_digits(n / 16).push(hex_digit(n % 16))
    }
}

/// The last `width` hexadecimal digits of `n`, with leading zeros where `n` is short.
pub open spec fn hex_fixed(n: nat, width: nat) -> Seq<char>
    decreases width,
{
    if width == 0 {
        Seq::<char>::empty()
    } else {
        hex_fixed(n / 16, (width - 1) as nat).push(hex_digit(n % 16))
    }
}

/// The digit that a hexadecimal character stands for.
pub open spec fn digit_value(c: char) -> nat {
    if c == '1' {
        1
    } else if c == '2' {
        2
    } else if c == '3' {
        3
    } else if c == '4' {
        4
    } else if c == '5' {
        5
    } else if c == '6' {
        6
    } else if c == '7' {
        7
    } else if c == '8' {
        8
    } else if c == '9' {
        9
    } else if c == 'a' {
        10
    } else if c == 'b' {
        11
    } else if c == 'c' {
        12
    } else if c == 'd' {
        13
    } else if c == 'e' {
        14
    } else if c == 'f' {
        15
    } else {
        0
    }
}

/// The number that a hexadecimal text stands for.
pub open spec fn hex_value(text: Seq<char>) -> nat
    decreases text.len(),
{
    if text.len() == 0 {
        0
    } else {
        16 * hex_value(text.drop_last()) + digit_value(text.last())
    }
}

/// The text of a number stands for that number.
pub proof fn lemma_hex_digits_denote(n: nat)
    ensures
        hex_value(hex_digits(n)) == n,
    decreases n,
{
    if n < 16 {
        let text = seq![hex_digit(n)];
        assert(text.drop_last() =~= Seq::<char>::empty());
        assert(text.last() == hex_digit(n));
        assert(hex_value(text.drop_last()) == 0);
    } else {
        lemma_hex_digits_denote(n / 16);
        let text = hex_digits(n / 16).push(hex_digit(n % 16));
        assert(text.drop_last() =~= hex_digits(n / 16));
        assert(text.last() == hex_digit(n % 16));
    }
}

/// The shortest text has no leading zero, but for the number zero itself.
pub proof fn lemma_hex_digits_shortest(n: nat)
    ensures
        hex_digits(n).len() >= 1,
        n > 0 ==> hex_digits(n)[0] != '0',
        n == 0 ==> hex_digits(n) == seq!['0'],
    decreases n,
{
    if n >= 16 {
        lemma_hex_digits_shortest(n / 16);
    }
}

/// Sixteen to the power `k`.
pub open spec fn pow16(k: nat) -> nat
    decreases k,
{
    if k == 0 {
        1
    } else {
        16 * pow16((k - 1) as nat)
    }
}

/// A number written in two parts: the text of `h * 16^k + l`, for a positive `h`
/// and an `l` below `16^k`, is the text of `h` followed by the `k` digits of `l`.
pub proof fn lemma_hex_split(h: nat, l: nat, k: nat)
    requires
        h > 0,
        l < pow16(k),
    ensures
        hex_digits(h * pow16(k) + l) == hex_digits(h) + hex_fixed(l, k),
    decreases k,
{
    if k == 0 {
        assert(hex_fixed(l, 0) == Seq::<char>::empty());
        assert(hex_digits(h) + Seq::<char>::empty() =~= hex_digits(h));
        assert(h * pow16(0) + l == h);
    } else {
        let k1 = (k - 1) as nat;
        let n = h * pow16(k) + l;
        assert(pow16(k) == 16 * pow16(k1));
        assert(h * pow16(k) == 16 * (h * pow16(k1))) by (nonlinear_arith)
            requires
                pow16(k) == 16 * pow16(k1),
        ;
        assert(pow16(k1) >= 1) by {
            lemma_pow16_positive(k1);
        }
        assert(h * pow16(k1) >= 1) by (nonlinear_arith)
            requires
                h >= 1,
                pow16(k1) >= 1,
        ;
        assert(n / 16 == h * pow16(k1) + l / 16);
        assert(n % 16 == l % 16);
        assert(l / 16 < pow16(k1));
        lemma_hex_split(h, l / 16, k1);
        assert(n >= 16);
        assert(hex_digits(n) == hex_digits(n / 16).push(hex_digit(n % 16)));
        assert(hex_fixed(l, k) == hex_fixed(l / 16, k1).push(hex_digit(l % 16)));
        assert((hex_digits(h) + hex_fixed(l / 16, k1)).push(hex_digit(l % 16)) =~= hex_digits(h)
            + hex_fixed(l / 16, k1).push(hex_digit(l % 16)));
    }
}

/// Every power of sixteen is positive.
pub proof fn lemma_pow16_positive(k: nat)
    ensures
        pow16(k) >= 1,
    decreases k,
{
    if k > 0 {
        lemma_pow16_positive((k - 1) as nat);
    }
}

/// The text of one digit, as a string.
fn digit_str(d: u64) -> (r: &'static str)
    requires
        d < 16,
    ensures
        r@ == seq![hex_digit(d as nat)],
{
    proof {
        reveal_strlit("0");
        reveal_strlit("1");
        reveal_strlit("2");
        reveal_strlit("3");
        reveal_strlit("4");
        reveal_strlit("5");
        reveal_strlit("6");
        reveal_strlit("7");
        reveal_strlit("8");
        reveal_strlit("9");
        reveal_strlit("a");
        reveal_strlit("b");
        reveal_strlit("c");
        reveal_strlit("d");
        reveal_strlit("e");
        reveal_strlit("f");
    }
    let r = if d == 0 {
        "0"
    } else if d == 1 {
        "1"
    } else if d == 2 {
        "2"
    } else if d == 3 {
        "3"
    } else if d == 4 {
        "4"
    } else if d == 5 {
        "5"
    } else if d == 6 {
        "6"
    } else if d == 7 {
        "7"
    } else if d == 8 {
        "8"
    } else if d == 9 {
        "9"
    } else if d == 10 {
        "a"
    } else if d == 11 {
        "b"
    } else if d == 12 {
        "c"
    } else if d == 13 {
        "d"
    } else if d == 14 {
        "e"
    } else {
        "f"
    };
    assert(r@ =~= seq![hex_digit(d as nat)]);
    r
}

/// Appends the shortest hexadecimal text of `n` to `out`.
pub fn push_hex(out: &mut String, n: u64)
    ensures
        final(out)@ == old(out)@ + hex_digits(n as nat),
    decreases n,
{
    if n >= 16 {
        push_hex(out, n / 16);
    }
    out.append(digit_str(n % 16));
    proof {
        if n >= 16 {
            assert(old(out)@ + hex_digits((n / 16) as nat) + seq![hex_digit((n % 16) as nat)]
                =~= old(out)@ + hex_digits(n as nat));
        }
    }
}

/// Appends the last `width` hexadecimal digits of `n` to `out`, zero-padded.
pub fn push_hex_fixed(out: &mut String, n: u64, width: u8)
    ensures
        final(out)@ == old(out)@ + hex_fixed(n as nat, width as nat),
    decreases width,
{
    if width > 0 {
        push_hex_fixed(out, n / 16, width - 1);
        out.append(digit_str(n % 16));
        proof {
            assert(old(out)@ + hex_fixed((n / 16) as nat, (width - 1) as nat) + seq![
                hex_digit((n % 16) as nat),
            ] =~= old(out)@ + hex_fixed(n as nat, width as nat));
        }
    } else {
        proof {
            assert(old(out)@ + hex_fixed(n as nat, 0) =~= old(out)@);
        }
    }
}

} // verus!
