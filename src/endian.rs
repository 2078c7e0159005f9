//! Big-endian integers, read and written through `byteorder`.

use byteorder::{BigEndian, ByteOrder};
use vstd::prelude::*;

verus! {

/// The unsigned value of four bytes, most significant first.
pub open spec fn be_u32_value(b: Seq<u8>) -> int {
    b[0] as int * 0x100_0000 + b[1] as int * 0x1_0000 + b[2] as int * 0x100 + b[3] as int
}

/// The four bytes of `n`, most significant first.
pub open spec fn be_u32_bytes(n: u32) -> Seq<u8> {
    seq![
        (n / 0x100_0000) as u8,
        ((n / 0x1_0000) % 0x100) as u8,
        ((n / 0x100) % 0x100) as u8,
        (n % 0x100) as u8,
    ]
}

/// The two bytes of `n`, most significant first.
pub open spec fn be_u16_bytes(n: u16) -> Seq<u8> {
    seq![(n / 0x100) as u8, (n % 0x100) as u8]
}

/// Relies on byteorder's `BigEndian::read_u32`, which decodes the first four
/// bytes of the slice it is given, most significant first, and panics on a
/// shorter slice.
#[verifier::external_body]
pub(crate) fn read_be_u32(b: &[u8], at: usize) -> (r: u32)
    requires
        at + 4 <= b@.len(),
    ensures
        r as int == be_u32_value(b@.subrange(at as int, at + 4)),
{
    BigEndian::read_u32(&b[at..])
}

/// Relies on byteorder's `BigEndian::write_u32`, which stores `n` into the
/// first four bytes of the buffer, most significant first.
#[verifier::external_body]
pub(crate) fn be_u32_encoded(n: u32) -> (r: [u8; 4])
    ensures
        r@ == be_u32_bytes(n),
{
    let mut b = [0u8; 4];
    BigEndian::write_u32(&mut b, n);
    b
}

/// Relies on byteorder's `BigEndian::write_u16`, which stores `n` into the
/// first two bytes of the buffer, most significant first.
#[verifier::external_body]
pub(crate) fn be_u16_encoded(n: u16) -> (r: [u8; 2])
    ensures
        r@ == be_u16_bytes(n),
{
    let mut b = [0u8; 2];
    BigEndian::write_u16(&mut b, n);
    b
}

/// Appends the big-endian bytes of `n` to `out`.
pub fn push_be_u32(out: &mut Vec<u8>, n: u32)
    ensures
        final(out)@ == old(out)@ + be_u32_bytes(n),
{
    let b = be_u32_encoded(n);
    out.push(b[0]);
    out.push(b[1]);
    out.push(b[2]);
    out.push(b[3]);
    assert(out@ =~= old(out)@ + be_u32_bytes(n));
}

/// Appends the big-endian bytes of `n` to `out`.
pub fn push_be_u16(out: &mut Vec<u8>, n: u16)
    ensures
        final(out)@ == old(out)@ + be_u16_bytes(n),
{
    let b = be_u16_encoded(n);
    out.push(b[0]);
    out.push(b[1]);
    assert(out@ =~= old(out)@ + be_u16_bytes(n));
}

} // verus!
