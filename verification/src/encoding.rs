//! The textual encoding that block digests are computed over.
//!
//! Everything here works on bytes: numbers are written in decimal, names are
//! written between double quotes with `"` and `\` escaped, and fixed pieces
//! of text are the UTF-8 bytes of string literals.

use vstd::prelude::*;
use vstd::utf8::*;

verus! {

/// The byte `"`.
pub const QUOTE: u8 = 0x22;

/// The byte `\`.
pub const BACKSLASH: u8 = 0x5C;

/// The byte `-`.
pub const MINUS: u8 = 0x2D;

/// The byte `0`, from which the ten digits count upwards.
pub const DIGIT_ZERO: u8 = 0x30;

/// The decimal digits of `n`, most significant first, without leading zeros.
pub open spec fn decimal_text(n: nat) -> Seq<u8>
    decreases n,
{
    if n < 10 {
        seq![(DIGIT_ZERO + n) as u8]
    } else {
        decimal_text(n / 10).push((DIGIT_ZERO + n % 10) as u8)
    }
}

/// The decimal digits of `v`, with a leading `-` when `v` is negative.
pub open spec fn signed_decimal_text(v: int) -> Seq<u8> {
    if v < 0 {
        seq![MINUS] + decimal_text((-v) as nat)
    } else {
        decimal_text(v as nat)
    }
}

/// One byte of a name as it stands between quotes: `"` and `\` get a `\`
/// in front, every other byte stands for itself.
pub open spec fn escaped_byte(b: u8) -> Seq<u8> {
    if b == QUOTE || b == BACKSLASH {
        seq![BACKSLASH, b]
    } else {
        seq![b]
    }
}

/// The bytes of `s`, each escaped in turn.
pub open spec fn escaped_text(s: Seq<u8>) -> Seq<u8>
    decreases s.len(),
{
    if s.len() == 0 {
        Seq::empty()
    } else {
        escaped_text(s.drop_last()) + escaped_byte(s.last())
    }
}

/// A name between double quotes.
pub open spec fn quoted_text(name: Seq<char>) -> Seq<u8> {
    seq![QUOTE] + escaped_text(encode_utf8(name)) + seq![QUOTE]
}

/// Appends the decimal digits of `value` to `out`.
pub fn push_decimal(out: &mut Vec<u8>, value: u64)
    ensures
        final(out)@ == old(out)@ + decimal_text(value as nat),
    decreases value,
{
    if value >= 10 {
        push_decimal(out, value / 10);
    }
    out.push(DIGIT_ZERO + (value % 10) as u8);
}

/// Appends the decimal digits of `value` to `out`, after a `-` when it is
/// negative.
pub fn push_signed_decimal(out: &mut Vec<u8>, value: i64)
    ensures
        final(out)@ == old(out)@ + signed_decimal_text(value as int),
{
    if value < 0 {
        out.push(MINUS);
        let magnitude: u64 = (-(value + 1)) as u64 + 1;
        push_decimal(out, magnitude);
    } else {
        push_decimal(out, value as u64);
    }
}

/// Appends `bytes` to `out` unchanged.
pub fn push_bytes(out: &mut Vec<u8>, bytes: &[u8])
    ensures
        final(out)@ == old(out)@ + bytes@,
{
    let mut i: usize = 0;
    while i < bytes.len()
        invariant
            i <= bytes@.len(),
            out@ == old(out)@ + bytes@.take(i as int),
        decreases bytes@.len() - i,
    {
        out.push(bytes[i]);
        i += 1;
    }
}

/// Appends the UTF-8 bytes of `text` to `out`.
pub fn push_str(out: &mut Vec<u8>, text: &str)
    ensures
        final(out)@ == old(out)@ + encode_utf8(text@),
{
    push_bytes(out, text.as_bytes());
}

/// Appends `name` to `out` between double quotes, escaped.
pub fn push_quoted(out: &mut Vec<u8>, name: &str)
    ensures
        final(out)@ == old(out)@ + quoted_text(name@),
{
    let bytes = name.as_bytes();
    out.push(QUOTE);
    let mut i: usize = 0;
    while i < bytes.len()
        invariant
            i <= bytes@.len(),
            out@ == old(out)@ + seq![QUOTE] + escaped_text(bytes@.take(i as int)),
        decreases bytes@.len() - i,
    {
        let b = bytes[i];
        proof {
            let next = bytes@.take(i + 1);
            assert(next.drop_last() == bytes@.take(i as int));
            assert(next.last() == b);
        }
        if b == QUOTE || b == BACKSLASH {
            out.push(BACKSLASH);
        }
        out.push(b);
        i += 1;
    }
    assert(bytes@.take(i as int) == bytes@);
    out.push(QUOTE);
}

} // verus!
