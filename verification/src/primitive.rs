//! Fixed-width reads from a byte buffer in an explicit byte order.

use byteorder::{BigEndian, ByteOrder, LittleEndian};
use vstd::prelude::*;

verus! {

/// The 32-bit value of the first four bytes of `s`, most significant byte first.
pub open spec fn u32_from_be(s: Seq<u8>) -> u32
    recommends
        s.len() >= 4,
{
    (s[0] as int * 0x100_0000 + s[1] as int * 0x1_0000 + s[2] as int * 0x100 + s[3] as int) as u32
}

/// The 32-bit value of the first four bytes of `s`, least significant byte first.
pub open spec fn u32_from_le(s: Seq<u8>) -> u32
    recommends
        s.len() >= 4,
{
    (s[3] as int * 0x100_0000 + s[2] as int * 0x1_0000 + s[1] as int * 0x100 + s[0] as int) as u32
}

/// The 64-bit value of the first eight bytes of `s`, most significant byte first.
pub open spec fn u64_from_be(s: Seq<u8>) -> u64
    recommends
        s.len() >= 8,
{
    (s[0] as int * 0x100_0000_0000_0000 + s[1] as int * 0x1_0000_0000_0000 + s[2] as int
        * 0x100_0000_0000 + s[3] as int * 0x1_0000_0000 + s[4] as int * 0x100_0000 + s[5] as int
        * 0x1_0000 + s[6] as int * 0x100 + s[7] as int) as u64
}

/// The 64-bit value of the first eight bytes of `s`, least significant byte first.
pub open spec fn u64_from_le(s: Seq<u8>) -> u64
    recommends
        s.len() >= 8,
{
    (s[7] as int * 0x100_0000_0000_0000 + s[6] as int * 0x1_0000_0000_0000 + s[5] as int
        * 0x100_0000_0000 + s[4] as int * 0x1_0000_0000 + s[3] as int * 0x100_0000 + s[2] as int
        * 0x1_0000 + s[1] as int * 0x100 + s[0] as int) as u64
}

/// What [`read_u32`] returns: the first four bytes of `s` in the selected order.
pub open spec fn spec_read_u32(s: Seq<u8>, big_endian: bool) -> u32
    recommends
        s.len() >= 4,
{
    if big_endian {
        u32_from_be(s)
    } else {
        u32_from_le(s)
    }
}

/// What [`read_f64_bits`] returns: the first eight bytes of `s` in the selected order.
pub open spec fn spec_read_u64(s: Seq<u8>, big_endian: bool) -> u64
    recommends
        s.len() >= 8,
{
    if big_endian {
        u64_from_be(s)
    } else {
        u64_from_le(s)
    }
}

/// The four bytes that hold `v` in the selected order.
#[verifier::opaque]
pub open spec fn spec_u32_bytes(v: u32, big_endian: bool) -> Seq<u8> {
    let b0 = (v % 0x100) as u8;
    let b1 = (v / 0x100 % 0x100) as u8;
    let b2 = (v / 0x1_0000 % 0x100) as u8;
    let b3 = (v / 0x100_0000) as u8;
    if big_endian {
        seq![b3, b2, b1, b0]
    } else {
        seq![b0, b1, b2, b3]
    }
}

/// The eight bytes that hold `v` in the selected order.
#[verifier::opaque]
pub open spec fn spec_u64_bytes(v: u64, big_endian: bool) -> Seq<u8> {
    let b0 = (v % 0x100) as u8;
    let b1 = (v / 0x100 % 0x100) as u8;
    let b2 = (v / 0x1_0000 % 0x100) as u8;
    let b3 = (v / 0x100_0000 % 0x100) as u8;
    let b4 = (v / 0x1_0000_0000 % 0x100) as u8;
    let b5 = (v / 0x100_0000_0000 % 0x100) as u8;
    let b6 = (v / 0x1_0000_0000_0000 % 0x100) as u8;
    let b7 = (v / 0x100_0000_0000_0000) as u8;
    if big_endian {
        seq![b7, b6, b5, b4, b3, b2, b1, b0]
    } else {
        seq![b0, b1, b2, b3, b4, b5, b6, b7]
    }
}

/// A 32-bit value is read back unchanged from the four bytes that hold it,
/// in either byte order.
pub proof fn lemma_read_u32_of_bytes(v: u32, big_endian: bool)
    ensures
        spec_u32_bytes(v, big_endian).len() == 4,
        spec_read_u32(spec_u32_bytes(v, big_endian), big_endian) == v,
{
    reveal(spec_u32_bytes);
}

/// A 64-bit pattern, and so every double, is read back unchanged, bit for
/// bit, from the eight bytes that hold it, in either byte order.
pub proof fn lemma_read_u64_of_bytes(v: u64, big_endian: bool)
    ensures
        spec_u64_bytes(v, big_endian).len() == 8,
        spec_read_u64(spec_u64_bytes(v, big_endian), big_endian) == v,
{
    reveal(spec_u64_bytes);
    assert((v / 0x100_0000_0000_0000) * 0x100_0000_0000_0000 + (v / 0x1_0000_0000_0000 % 0x100)
        * 0x1_0000_0000_0000 + (v / 0x100_0000_0000 % 0x100) * 0x100_0000_0000 + (v
        / 0x1_0000_0000 % 0x100) * 0x1_0000_0000 + (v / 0x100_0000 % 0x100) * 0x100_0000 + (v
        / 0x1_0000 % 0x100) * 0x1_0000 + (v / 0x100 % 0x100) * 0x100 + v % 0x100 == v)
        by (bit_vector);
}

/// Calls `<byteorder::BigEndian as ByteOrder>::read_u32`.
///
/// Trusted: the call returns the first four bytes of `buf` read as a big-endian
/// integer, and panics only when `buf` holds fewer than four bytes.
#[verifier::external_body]
fn be_read_u32(buf: &[u8]) -> (r: u32)
    requires
        buf@.len() >= 4,
    ensures
        r == u32_from_be(buf@),
{
    BigEndian::read_u32(buf)
}

/// Calls `<byteorder::LittleEndian as ByteOrder>::read_u32`.
///
/// Trusted: the call returns the first four bytes of `buf` read as a
/// little-endian integer, and panics only when `buf` holds fewer than four bytes.
#[verifier::external_body]
fn le_read_u32(buf: &[u8]) -> (r: u32)
    requires
        buf@.len() >= 4,
    ensures
        r == u32_from_le(buf@),
{
    LittleEndian::read_u32(buf)
}

/// Calls `<byteorder::BigEndian as ByteOrder>::read_u64`.
///
/// Trusted: the call returns the first eight bytes of `buf` read as a big-endian
/// integer, and panics only when `buf` holds fewer than eight bytes.
#[verifier::external_body]
fn be_read_u64(buf: &[u8]) -> (r: u64)
    requires
        buf@.len() >= 8,
    ensures
        r == u64_from_be(buf@),
{
    BigEndian::read_u64(buf)
}

/// Calls `<byteorder::LittleEndian as ByteOrder>::read_u64`.
///
/// Trusted: the call returns the first eight bytes of `buf` read as a
/// little-endian integer, and panics only when `buf` holds fewer than eight bytes.
#[verifier::external_body]
fn le_read_u64(buf: &[u8]) -> (r: u64)
    requires
        buf@.len() >= 8,
    ensures
        r == u64_from_le(buf@),
{
    LittleEndian::read_u64(buf)
}

/// Reads an unsigned 32-bit integer from the first four bytes of `bytes`,
/// big-endian when `big_endian` is set and little-endian otherwise.
pub fn read_u32(bytes: &[u8], big_endian: bool) -> (r: u32)
    requires
        bytes@.len() >= 4,
    ensures
        r == spec_read_u32(bytes@, big_endian),
{
    if big_endian {
        be_read_u32(bytes)
    } else {
        le_read_u32(bytes)
    }
}

/// Reads the 64-bit pattern of an IEEE-754 double from the first eight bytes of
/// `bytes`, big-endian when `big_endian` is set and little-endian otherwise.
///
/// The pattern is returned as it stands in the buffer: `f64::from_bits` turns
/// it into the number, and no pattern (infinities and NaNs included) is altered
/// or rejected.
pub fn read_f64_bits(bytes: &[u8], big_endian: bool) -> (r: u64)
    requires
        bytes@.len() >= 8,
    ensures
        r == spec_read_u64(bytes@, big_endian),
{
    if big_endian {
        be_read_u64(bytes)
    } else {
        le_read_u64(bytes)
    }
}

} // verus!
