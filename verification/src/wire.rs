//! Big-endian 32-bit integers, the only number format on the wire.

use vstd::prelude::*;

verus! {

/// The number that four bytes denote when read most significant byte first.
pub open spec fn be_value(b0: u8, b1: u8, b2: u8, b3: u8) -> u32 {
    (b0 as int * 0x100_0000 + b1 as int * 0x1_0000 + b2 as int * 0x100 + b3 as int) as u32
}

/// The number encoded by the four bytes of `bytes` starting at `at`.
pub open spec fn u32_at(bytes: Seq<u8>, at: int) -> u32
    recommends
        0 <= at,
        at + 4 <= bytes.len(),
{
    be_value(bytes[at], bytes[at + 1], bytes[at + 2], bytes[at + 3])
}

/// The four bytes that encode `x`, most significant byte first.
pub open spec fn u32_bytes(x: u32) -> Seq<u8> {
    seq![
        (x / 0x100_0000) as u8,
        (x / 0x1_0000 % 0x100) as u8,
        (x / 0x100 % 0x100) as u8,
        (x % 0x100) as u8,
    ]
}

/// Decoding undoes encoding: the bytes of `x` denote `x`.
pub proof fn lemma_be_value_of_bytes(x: u32)
    ensures
        be_value(u32_bytes(x)[0], u32_bytes(x)[1], u32_bytes(x)[2], u32_bytes(x)[3]) == x,
{
    let hi: int = x as int / 0x1_0000;
    let lo: int = x as int % 0x1_0000;
    assert(x as int == hi * 0x1_0000 + lo);
    assert(hi == (hi / 0x100) * 0x100 + hi % 0x100);
    assert(lo == (lo / 0x100) * 0x100 + lo % 0x100);
    assert(hi / 0x100 == x as int / 0x100_0000);
    assert(lo / 0x100 == x as int / 0x100 % 0x100);
    assert(lo % 0x100 == x as int % 0x100);
}

/// Decoding undoes encoding, wherever the four bytes stand in a buffer.
pub proof fn lemma_u32_at_bytes(before: Seq<u8>, x: u32, after: Seq<u8>)
    ensures
        u32_at(before + u32_bytes(x) + after, before.len() as int) == x,
{
    let s = before + u32_bytes(x) + after;
    let at = before.len() as int;
    assert(s[at] == u32_bytes(x)[0]);
    assert(s[at + 1] == u32_bytes(x)[1]);
    assert(s[at + 2] == u32_bytes(x)[2]);
    assert(s[at + 3] == u32_bytes(x)[3]);
    lemma_be_value_of_bytes(x);
}

/// Reads the big-endian integer that starts at `at`.
pub(crate) fn read_u32(data: &[u8], at: usize) -> (x: u32)
    requires
        at + 4 <= data@.len(),
    ensures
        x == u32_at(data@, at as int),
{
    let b0: u32 = data[at] as u32;
    let b1: u32 = data[at + 1] as u32;
    let b2: u32 = data[at + 2] as u32;
    let b3: u32 = data[at + 3] as u32;
    b0 * 0x100_0000 + b1 * 0x1_0000 + b2 * 0x100 + b3
}

/// Appends the big-endian encoding of `x` to `buf`.
pub(crate) fn write_u32(buf: &mut Vec<u8>, x: u32)
    ensures
        final(buf)@ == old(buf)@ + u32_bytes(x),
{
    buf.push((x / 0x100_0000) as u8);
    buf.push((x / 0x1_0000 % 0x100) as u8);
    buf.push((x / 0x100 % 0x100) as u8);
    buf.push((x % 0x100) as u8);
    assert(buf@ =~= old(buf)@ + u32_bytes(x));
}

/// Appends the bytes of `src` to `buf`.
pub(crate) fn write_bytes(buf: &mut Vec<u8>, src: &[u8])
    ensures
        final(buf)@ == old(buf)@ + src@,
{
    buf.extend_from_slice(src);
    assert(buf@ =~= old(buf)@ + src@);
}

} // verus!
