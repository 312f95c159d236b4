//! Decimal digit strings: reading a byte sequence as an unsigned number
//! and writing a number out as its digit bytes.

use vstd::prelude::*;

verus! {

/// A byte is an ASCII decimal digit.
pub open spec fn is_ascii_digit(b: u8) -> bool {
    0x30 <= b && b <= 0x39
}

/// Numeric value of one ASCII digit byte.
pub open spec fn digit_value(b: u8) -> nat
    recommends
        is_ascii_digit(b),
{
    (b - 0x30) as nat
}

/// Every byte of the sequence is an ASCII decimal digit.
pub open spec fn all_ascii_digits(s: Seq<u8>) -> bool {
    forall|i: int| 0 <= i < s.len() ==> is_ascii_digit(#[trigger] s[i])
}

/// Value of a digit byte sequence read as a decimal number, most
/// significant digit first; the empty sequence reads as zero.
pub open spec fn decimal_value(s: Seq<u8>) -> nat
    recommends
        all_ascii_digits(s),
    decreases s.len(),
{
    if s.len() == 0 {
        0
    } else {
        decimal_value(s.drop_last()) * 10 + digit_value(s.last())
    }
}

/// The decimal digit bytes of `n`, most significant first, with no
/// leading zeros (zero itself prints as the single byte `'0'`).
pub open spec fn decimal_digits(n: nat) -> Seq<u8>
    decreases n,
{
    if n < 10 {
        seq![(0x30 + n) as u8]
    } else {
        decimal_digits(n / 10) + seq![(0x30 + n % 10) as u8]
    }
}

/// Reading only a prefix of a digit string never gives a larger value
/// than reading the whole of it.
proof fn lemma_decimal_value_prefix_le(s: Seq<u8>, j: int)
    requires
        0 <= j <= s.len(),
    ensures
        decimal_value(s.take(j)) <= decimal_value(s),
    decreases s.len() - j,
{
    if j < s.len() {
        assert(s.take(j + 1).drop_last() =~= s.take(j));
        assert(s.take(j + 1).last() == s[j]);
        lemma_decimal_value_prefix_le(s, j + 1);
    } else {
        assert(s.take(j) =~= s);
    }
}

/// Result of parsing a byte sequence as an unsigned decimal number: the
/// value when the sequence is non-empty, all digits, and fits in `u32`;
/// nothing otherwise.
pub open spec fn spec_parse_u32(s: Seq<u8>) -> Option<u32> {
    if s.len() > 0 && all_ascii_digits(s) && decimal_value(s) <= u32::MAX {
        Some(decimal_value(s) as u32)
    } else {
        None
    }
}

/// Parses the bytes of `s` from position `start` to the end as an
/// unsigned decimal number.
pub fn parse_u32_from(s: &[u8], start: usize) -> (r: Option<u32>)
    requires
        start <= s@.len(),
    ensures
        r == spec_parse_u32(s@.skip(start as int)),
{
    let ghost rest = s@.skip(start as int);
    let n: usize = s.len();
    if start == n {
        return None;
    }
    let mut acc: u64 = 0;
    let mut i: usize = start;
    while i < n
        invariant
            start <= i <= n,
            n == s@.len(),
            rest == s@.skip(start as int),
            acc == decimal_value(rest.take(i - start)),
            acc <= u32::MAX,
            forall|k: int| 0 <= k < i - start ==> is_ascii_digit(#[trigger] rest[k]),
        decreases n - i,
    {
        let b: u8 = s[i];
        if b < 0x30 || b > 0x39 {
            assert(!is_ascii_digit(rest[i - start]));
            return None;
        }
        proof {
            assert(rest.take(i - start + 1).drop_last() =~= rest.take(i - start));
            assert(rest.take(i - start + 1).last() == rest[i - start]);
        }
        acc = acc * 10 + ((b - 0x30) as u64);
        i = i + 1;
        if acc > (u32::MAX as u64) {
            proof {
                lemma_decimal_value_prefix_le(rest, i - start);
            }
            return None;
        }
    }
    proof {
        assert(rest.take(n - start) =~= rest);
    }
    Some(acc as u32)
}

/// Appends the decimal digit bytes of `n` to `out`.
pub fn push_decimal(out: &mut Vec<u8>, n: u32)
    ensures
        final(out)@ == old(out)@ + decimal_digits(n as nat),
    decreases n,
{
    if n < 10 {
        out.push(0x30 + n as u8);
        assert(out@ =~= old(out)@ + decimal_digits(n as nat));
    } else {
        push_decimal(out, n / 10);
        out.push(0x30 + (n % 10) as u8);
        assert(out@ =~= old(out)@ + decimal_digits(n as nat));
    }
}

} // verus!
