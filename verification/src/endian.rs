//! Little-endian integers of a fixed width, as sequences of bytes.

use vstd::prelude::*;

verus! {

/// The `width` low-order base-256 digits of `value`, least significant first.
pub open spec fn le_bytes(value: nat, width: nat) -> Seq<u8>
    decreases width,
{
    if width == 0 {
        Seq::empty()
    } else {
        seq![(value % 256) as u8] + le_bytes(value / 256, (width - 1) as nat)
    }
}

/// The number whose base-256 digits, least significant first, are `bytes`.
pub open spec fn le_value(bytes: Seq<u8>) -> nat
    decreases bytes.len(),
{
    if bytes.len() == 0 {
        0
    } else {
        bytes[0] as nat + 256 * le_value(bytes.drop_first())
    }
}

/// 256 to the power `width`: the number of values that `width` bytes can hold.
pub open spec fn radix_pow(width: nat) -> nat
    decreases width,
{
    if width == 0 {
        1
    } else {
        256 * radix_pow((width - 1) as nat)
    }
}

/// An encoding is as long as its width.
pub proof fn lemma_le_bytes_len(value: nat, width: nat)
    ensures
        le_bytes(value, width).len() == width,
    decreases width,
{
    if width > 0 {
        lemma_le_bytes_len(value / 256, (width - 1) as nat);
    }
}

/// A decoded number fits in the width it was decoded from.
pub proof fn lemma_le_value_bound(bytes: Seq<u8>)
    ensures
        le_value(bytes) < radix_pow(bytes.len()),
    decreases bytes.len(),
{
    if bytes.len() > 0 {
        lemma_le_value_bound(bytes.drop_first());
    }
}

/// Decoding undoes encoding for every value that fits in `width` bytes.
pub proof fn lemma_le_value_of_bytes(value: nat, width: nat)
    requires
        value < radix_pow(width),
    ensures
        le_value(le_bytes(value, width)) == value,
    decreases width,
{
    lemma_le_bytes_len(value, width);
    if width > 0 {
        let rest = le_bytes(value / 256, (width - 1) as nat);
        lemma_le_value_of_bytes(value / 256, (width - 1) as nat);
        assert(le_bytes(value, width).drop_first() =~= rest);
    }
}

/// Encoding undoes decoding.
pub proof fn lemma_le_bytes_of_value(bytes: Seq<u8>)
    ensures
        le_bytes(le_value(bytes), bytes.len()) == bytes,
    decreases bytes.len(),
{
    if bytes.len() > 0 {
        let tail = bytes.drop_first();
        lemma_le_bytes_of_value(tail);
        let v = le_value(bytes);
        assert(v % 256 == bytes[0] as nat && v / 256 == le_value(tail)) by {
            let t = le_value(tail) as int;
            let b = bytes[0] as int;
            assert((b + 256 * t) % 256 == b && (b + 256 * t) / 256 == t) by (nonlinear_arith)
                requires
                    0 <= b < 256,
                    0 <= t,
            ;
        }
        assert(le_bytes(v, bytes.len()) =~= bytes);
    }
}

/// The powers of 256 for the widths in use.
pub proof fn lemma_radix_pow_values()
    ensures
        radix_pow(1) == 0x100,
        radix_pow(2) == 0x1_0000,
        radix_pow(4) == 0x1_0000_0000,
        radix_pow(8) == 0x1_0000_0000_0000_0000,
        radix_pow(12) == 0x1_0000_0000_0000_0000_0000_0000,
        radix_pow(16) == 0x1_0000_0000_0000_0000_0000_0000_0000_0000,
{
    reveal_with_fuel(radix_pow, 17);
}

/// Appends the `width` low-order bytes of `value` to `out`.
pub fn put_le(out: &mut Vec<u8>, value: u128, width: usize)
    ensures
        final(out)@ == old(out)@ + le_bytes(value as nat, width as nat),
{
    let mut rest: u128 = value;
    let mut i: usize = 0;
    while i < width
        invariant
            i <= width,
            old(out)@ + le_bytes(value as nat, width as nat) == out@ + le_bytes(
                rest as nat,
                (width - i) as nat,
            ),
        decreases width - i,
    {
        let ghost before = out@;
        out.push((rest % 256) as u8);
        proof {
            let tail = le_bytes(rest as nat / 256, (width - i - 1) as nat);
            assert(before + le_bytes(rest as nat, (width - i) as nat) =~= out@ + tail);
        }
        rest = rest / 256;
        i = i + 1;
    }
    assert(out@ + le_bytes(rest as nat, 0) =~= out@);
}

/// Reads `width` bytes of `bytes` from `pos` on as a little-endian number.
/// There is none if the bytes are not there, nor of a width over 16.
pub fn get_le(bytes: &[u8], pos: usize, width: usize) -> (r: Option<u128>)
    ensures
        width <= 16 && pos + width <= bytes@.len() ==> (r matches Some(value) && value as nat
            == le_value(bytes@.subrange(pos as int, pos + width))),
        width > 16 || pos + width > bytes@.len() ==> r is None,
{
    if width > 16 || pos > bytes.len() || bytes.len() - pos < width {
        return None;
    }
    let mut value: u128 = 0;
    let mut i: usize = width;
    let len: usize = bytes.len();
    while i > 0
        invariant
            i <= width <= 16,
            pos + width <= bytes@.len() == len,
            value as nat == le_value(bytes@.subrange(pos + i, pos + width)),
        decreases i,
    {
        i = i - 1;
        let ghost upper = bytes@.subrange(pos + i + 1, pos + width);
        let ghost whole = bytes@.subrange(pos + i, pos + width);
        proof {
            lemma_radix_pow_values();
            lemma_le_value_bound(upper);
            lemma_radix_pow_monotonic(upper.len(), 15);
            assert(whole.drop_first() =~= upper);
            assert(whole[0] == bytes@[pos + i]);
            assert(radix_pow(15) * 256 == radix_pow(16)) by {
                reveal_with_fuel(radix_pow, 2);
            }
        }
        value = value * 256 + bytes[pos + i] as u128;
    }
    Some(value)
}

/// A wider field holds at least as many values.
pub proof fn lemma_radix_pow_monotonic(a: nat, b: nat)
    requires
        a <= b,
    ensures
        radix_pow(a) <= radix_pow(b),
    decreases b,
{
    if a < b {
        lemma_radix_pow_monotonic(a, (b - 1) as nat);
    }
}

} // verus!
