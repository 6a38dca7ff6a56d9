//! Little-endian integers: what the bytes of a field mean, and the
//! executable decoding and encoding of them.

use byteorder::ByteOrder;
use vstd::prelude::*;

verus! {

/// The value of the two bytes at `at` in `s`, least significant byte first.
pub open spec fn u16_le_at(s: Seq<u8>, at: int) -> int
    recommends
        0 <= at,
        at + 2 <= s.len(),
{
    s[at] + 256 * s[at + 1]
}

/// The value of the four bytes at `at` in `s`, least significant byte first.
pub open spec fn u32_le_at(s: Seq<u8>, at: int) -> int
    recommends
        0 <= at,
        at + 4 <= s.len(),
{
    s[at] + 256 * s[at + 1] + 65536 * s[at + 2] + 16777216 * s[at + 3]
}

/// The two bytes that stand for `n`, least significant byte first.
pub open spec fn u16_le_bytes(n: u16) -> Seq<u8> {
    seq![(n % 256) as u8, (n / 256) as u8]
}

/// The four bytes that stand for `n`, least significant byte first.
pub open spec fn u32_le_bytes(n: u32) -> Seq<u8> {
    seq![
        (n % 256) as u8,
        ((n / 256) % 256) as u8,
        ((n / 65536) % 256) as u8,
        (n / 16777216) as u8,
    ]
}

/// `byteorder::LittleEndian::read_u16`: the first two bytes of `buf` read
/// as a little-endian integer. The call panics on a shorter slice, which
/// `requires` leaves out. Trusted, not proved.
#[verifier::external_body]
pub(crate) fn read_u16(buf: &[u8]) -> (r: u16)
    requires
        buf@.len() >= 2,
    ensures
        r == u16_le_at(buf@, 0),
{
    byteorder::LittleEndian::read_u16(buf)
}

/// `byteorder::LittleEndian::read_u32`: the first four bytes of `buf` read
/// as a little-endian integer. The call panics on a shorter slice, which
/// `requires` leaves out. Trusted, not proved.
#[verifier::external_body]
pub(crate) fn read_u32(buf: &[u8]) -> (r: u32)
    requires
        buf@.len() >= 4,
    ensures
        r == u32_le_at(buf@, 0),
{
    byteorder::LittleEndian::read_u32(buf)
}

/// `byteorder::LittleEndian::write_u16`: overwrites the first two bytes of
/// `buf` with the little-endian bytes of `n` and leaves the rest as it was.
/// The call panics on a shorter slice, which `requires` leaves out. Trusted,
/// not proved.
#[verifier::external_body]
pub(crate) fn write_u16(buf: &mut [u8], n: u16)
    requires
        old(buf)@.len() >= 2,
    ensures
        final(buf)@ == u16_le_bytes(n) + old(buf)@.skip(2),
{
    byteorder::LittleEndian::write_u16(buf, n)
}

/// `byteorder::LittleEndian::write_u32`: overwrites the first four bytes of
/// `buf` with the little-endian bytes of `n` and leaves the rest as it was.
/// The call panics on a shorter slice, which `requires` leaves out. Trusted,
/// not proved.
#[verifier::external_body]
pub(crate) fn write_u32(buf: &mut [u8], n: u32)
    requires
        old(buf)@.len() >= 4,
    ensures
        final(buf)@ == u32_le_bytes(n) + old(buf)@.skip(4),
{
    byteorder::LittleEndian::write_u32(buf, n)
}

/// Appends the little-endian bytes of `n` to `out`.
pub fn put_u16(out: &mut Vec<u8>, n: u16)
    ensures
        final(out)@ == old(out)@ + u16_le_bytes(n),
{
    let mut buf: Vec<u8> = Vec::new();
    buf.push(0);
    buf.push(0);
    write_u16(buf.as_mut_slice(), n);
    assert(buf@ =~= u16_le_bytes(n));
    out.push(buf[0]);
    out.push(buf[1]);
    assert(out@ =~= old(out)@ + u16_le_bytes(n));
}

/// Appends the little-endian bytes of `n` to `out`.
pub fn put_u32(out: &mut Vec<u8>, n: u32)
    ensures
        final(out)@ == old(out)@ + u32_le_bytes(n),
{
    let mut buf: Vec<u8> = Vec::new();
    buf.push(0);
    buf.push(0);
    buf.push(0);
    buf.push(0);
    write_u32(buf.as_mut_slice(), n);
    assert(buf@ =~= u32_le_bytes(n));
    out.push(buf[0]);
    out.push(buf[1]);
    out.push(buf[2]);
    out.push(buf[3]);
    assert(out@ =~= old(out)@ + u32_le_bytes(n));
}

/// Decoding what was encoded gives the number back, wherever in a
/// sequence the two bytes stand.
pub proof fn lemma_u16_round_trip(s: Seq<u8>, at: int, n: u16)
    requires
        0 <= at,
        at + 2 <= s.len(),
        s.subrange(at, at + 2) == u16_le_bytes(n),
    ensures
        u16_le_at(s, at) == n,
{
    let field = s.subrange(at, at + 2);
    assert(field[0] == s[at] && field[1] == s[at + 1]);
}

/// Decoding what was encoded gives the number back, wherever in a
/// sequence the four bytes stand.
pub proof fn lemma_u32_round_trip(s: Seq<u8>, at: int, n: u32)
    requires
        0 <= at,
        at + 4 <= s.len(),
        s.subrange(at, at + 4) == u32_le_bytes(n),
    ensures
        u32_le_at(s, at) == n,
{
    let field = s.subrange(at, at + 4);
    assert(field[0] == s[at] && field[1] == s[at + 1] && field[2] == s[at + 2] && field[3] == s[at
        + 3]);
}

} // verus!
