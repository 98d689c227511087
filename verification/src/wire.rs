//! Little-endian integers, as every numeric field of the protocol is laid out.

use vstd::prelude::*;
use vstd::slice::slice_subrange;

verus! {

/// The `width` low-order bytes of `x`, least significant first.
pub open spec fn le_bytes(x: nat, width: nat) -> Seq<u8>
    decreases width,
{
    if width == 0 {
        Seq::empty()
    } else {
        seq![(x % 256) as u8] + le_bytes(x / 256, (width - 1) as nat)
    }
}

/// The number whose little-endian bytes are `bytes`.
pub open spec fn le_value(bytes: Seq<u8>) -> nat
    decreases bytes.len(),
{
    if bytes.len() == 0 {
        0
    } else {
        bytes[0] as nat + 256 * le_value(bytes.drop_first())
    }
}

/// The number of values that `width` bytes can tell apart.
pub open spec fn le_limit(width: nat) -> nat
    decreases width,
{
    if width == 0 {
        1
    } else {
        256 * le_limit((width - 1) as nat)
    }
}

/// `le_bytes` yields exactly `width` bytes.
pub proof fn le_bytes_len(x: nat, width: nat)
    ensures
        le_bytes(x, width).len() == width,
    decreases width,
{
    if width > 0 {
        le_bytes_len(x / 256, (width - 1) as nat);
    }
}

/// A number that fits into `width` bytes is read back unchanged from its
/// little-endian bytes.
pub proof fn le_value_of_le_bytes(x: nat, width: nat)
    requires
        x < le_limit(width),
    ensures
        le_value(le_bytes(x, width)) == x,
    decreases width,
{
    if width > 0 {
        let rest = le_bytes(x / 256, (width - 1) as nat);
        assert(le_bytes(x, width).drop_first() =~= rest);
        le_value_of_le_bytes(x / 256, (width - 1) as nat);
    }
}

/// Bytes are laid out again unchanged from the number read out of them, and
/// that number fits into as many bytes as were read.
pub proof fn le_bytes_of_le_value(bytes: Seq<u8>)
    ensures
        le_value(bytes) < le_limit(bytes.len()),
        le_bytes(le_value(bytes), bytes.len()) == bytes,
    decreases bytes.len(),
{
    if bytes.len() > 0 {
        let rest = bytes.drop_first();
        le_bytes_of_le_value(rest);
        let x = le_value(bytes);
        assert(x % 256 == bytes[0] as nat && x / 256 == le_value(rest));
        assert(le_bytes(x, bytes.len()) =~= bytes);
    }
}

/// Appends the two little-endian bytes of `x` to `out`.
pub fn write_u16(out: &mut Vec<u8>, x: u16)
    ensures
        final(out)@ == old(out)@ + le_bytes(x as nat, 2),
{
    proof {
        reveal_with_fuel(le_bytes, 3);
    }
    out.push((x % 256) as u8);
    out.push((x / 256) as u8);
    assert(out@ =~= old(out)@ + le_bytes(x as nat, 2));
}

/// Appends the four little-endian bytes of `x` to `out`.
pub fn write_u32(out: &mut Vec<u8>, x: u32)
    ensures
        final(out)@ == old(out)@ + le_bytes(x as nat, 4),
{
    proof {
        reveal_with_fuel(le_bytes, 5);
    }
    out.push((x % 256) as u8);
    out.push((x / 256 % 256) as u8);
    out.push((x / 65536 % 256) as u8);
    out.push((x / 16777216) as u8);
    assert(out@ =~= old(out)@ + le_bytes(x as nat, 4));
}

/// The 16-bit number in the first two bytes of `data`, if there are two.
pub fn read_u16(data: &[u8]) -> (value: Option<u16>)
    ensures
        data@.len() < 2 ==> value is None,
        data@.len() >= 2 ==> value == Some(le_value(data@.subrange(0, 2)) as u16),
        data@.len() >= 2 ==> le_value(data@.subrange(0, 2)) <= u16::MAX,
{
    if data.len() < 2 {
        return None;
    }
    proof {
        reveal_with_fuel(le_value, 3);
        let field = data@.subrange(0, 2);
        assert(field.drop_first() =~= seq![data@[1]]);
        assert(field.drop_first().drop_first() =~= Seq::<u8>::empty());
    }
    let b0: u16 = data[0] as u16;
    let b1: u16 = data[1] as u16;
    Some(b0 + 256 * b1)
}

/// The 32-bit number in the first four bytes of `data`, if there are four.
pub fn read_u32(data: &[u8]) -> (value: Option<u32>)
    ensures
        data@.len() < 4 ==> value is None,
        data@.len() >= 4 ==> value == Some(le_value(data@.subrange(0, 4)) as u32),
        data@.len() >= 4 ==> le_value(data@.subrange(0, 4)) <= u32::MAX,
{
    if data.len() < 4 {
        return None;
    }
    proof {
        let field = data@.subrange(0, 4);
        assert(field.drop_first() =~= data@.subrange(1, 4));
        assert(data@.subrange(1, 4).drop_first() =~= data@.subrange(2, 4));
        assert(data@.subrange(2, 4).drop_first() =~= data@.subrange(3, 4));
        assert(data@.subrange(3, 4).drop_first() =~= Seq::<u8>::empty());
        reveal_with_fuel(le_value, 5);
    }
    let b0: u32 = data[0] as u32;
    let b1: u32 = data[1] as u32;
    let b2: u32 = data[2] as u32;
    let b3: u32 = data[3] as u32;
    Some(b0 + 256 * b1 + 65536 * b2 + 16777216 * b3)
}

/// The 64-bit number in the first eight bytes of `data`, if there are eight.
pub fn read_u64(data: &[u8]) -> (value: Option<u64>)
    ensures
        data@.len() < 8 ==> value is None,
        data@.len() >= 8 ==> value == Some(le_value(data@.subrange(0, 8)) as u64),
        data@.len() >= 8 ==> le_value(data@.subrange(0, 8)) <= u64::MAX,
{
    if data.len() < 8 {
        return None;
    }
    let low = read_u32(data);
    let high = read_u32(slice_subrange(data, 4, 8));
    proof {
        let field = data@.subrange(0, 8);
        assert(field.subrange(0, 4) =~= data@.subrange(0, 4));
        assert(field.subrange(4, 8) =~= data@.subrange(4, 8).subrange(0, 4));
        le_value_split(field, 4);
        assert(le_limit(4) == 4294967296) by {
            reveal_with_fuel(le_limit, 5);
        }
    }
    match (low, high) {
        (Some(l), Some(h)) => Some(l as u64 + 4294967296 * (h as u64)),
        _ => None,
    }
}

/// A number read from bytes is the number in the first `at` of them plus
/// the number in the rest, moved up by `at` bytes.
pub proof fn le_value_split(bytes: Seq<u8>, at: int)
    requires
        0 <= at <= bytes.len(),
    ensures
        le_value(bytes) == le_value(bytes.subrange(0, at)) + le_limit(at as nat) * le_value(
            bytes.subrange(at, bytes.len() as int),
        ),
    decreases at,
{
    if at == 0 {
        assert(bytes.subrange(0, bytes.len() as int) =~= bytes);
    } else {
        let rest = bytes.drop_first();
        let head = bytes.subrange(0, at);
        let tail = bytes.subrange(at, bytes.len() as int);
        le_value_split(rest, at - 1);
        assert(head.drop_first() =~= rest.subrange(0, at - 1));
        assert(tail =~= rest.subrange(at - 1, rest.len() as int));
        let low = le_value(head.drop_first());
        let high = le_value(tail);
        let scale = le_limit((at - 1) as nat);
        assert(256 * (low + scale * high) == 256 * low + (256 * scale) * high)
            by (nonlinear_arith);
    }
}

} // verus!
