//! Big-endian 16-bit fields as they stand on the wire.

use byteorder::{ByteOrder, NetworkEndian};
use vstd::prelude::*;

verus! {

/// The value of a 16-bit field whose first byte is the most significant.
pub open spec fn be16(hi: u8, lo: u8) -> u16 {
    (hi as int * 256 + lo as int) as u16
}

/// The first (most significant) byte of a 16-bit field.
pub open spec fn be16_hi(v: u16) -> u8 {
    (v as int / 256) as u8
}

/// The second (least significant) byte of a 16-bit field.
pub open spec fn be16_lo(v: u16) -> u8 {
    (v as int % 256) as u8
}

/// The two bytes of a 16-bit field in network order.
pub open spec fn be16_bytes(v: u16) -> Seq<u8> {
    seq![be16_hi(v), be16_lo(v)]
}

/// Relies on byteorder's `NetworkEndian::read_u16`: it reads the first two
/// bytes of the slice, most significant first, and panics on a shorter slice.
#[verifier::external_body]
pub(crate) fn read_be16(buf: &[u8]) -> (r: u16)
    requires
        buf@.len() >= 2,
    ensures
        r == be16(buf@[0], buf@[1]),
{
    NetworkEndian::read_u16(buf)
}

/// Relies on byteorder's `NetworkEndian::write_u16`: it overwrites the first
/// two bytes of the slice with the value, most significant first, and panics
/// on a shorter slice.
#[verifier::external_body]
pub(crate) fn write_be16(buf: &mut [u8], v: u16)
    requires
        old(buf)@.len() >= 2,
    ensures
        final(buf)@ == old(buf)@.update(0, be16_hi(v)).update(1, be16_lo(v)),
{
    NetworkEndian::write_u16(buf, v)
}

} // verus!
