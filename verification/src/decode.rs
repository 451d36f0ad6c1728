//! The EWKB decoder: header, kind dispatch and the Point payload.
//!
//! Layout of a buffer:
//!
//! | bytes | field |
//! |-------|-------|
//! | 0     | byte-order flag: `0` is big-endian, anything else little-endian |
//! | 1..5  | type word; low byte is the kind, bit `0x20000000` announces an srid |
//! | 5..9  | srid, only when announced |
//! | rest  | payload of the kind; for a Point two doubles, x then y |
//!
//! Every multi-byte field is stored in the order that the flag selects.

use crate::geometry::{DecodeError, DecodedGeometry, Geom};
use crate::primitive::{read_f64_bits, read_u32, spec_read_u32, spec_read_u64};
use vstd::prelude::*;
use vstd::slice::slice_subrange;

verus! {

/// Bit of the type word that announces a spatial reference system id.
pub const SRID_FLAG: u32 = 0x2000_0000;

/// Mask that selects the geometry kind from the type word.
pub const KIND_MASK: u32 = 0xFF;

/// Kind code of a Point.
pub const KIND_POINT: u32 = 0x01;

/// What stands in front of the payload.
#[derive(Clone, Copy, Debug, PartialEq, Eq)]
pub struct Header {
    /// Byte order of every multi-byte field of the buffer.
    pub big_endian: bool,
    /// Kind code: the low byte of the type word.
    pub kind: u32,
    /// Spatial reference system id, present when the type word announced one.
    pub srid: Option<u32>,
}

impl Header {
    /// Offset of the first payload byte: behind the srid when there is one,
    /// behind the type word otherwise.
    pub open spec fn spec_payload_offset(self) -> int {
        if self.srid is Some {
            9
        } else {
            5
        }
    }

    /// Offset of the first payload byte.
    pub fn payload_offset(&self) -> (r: usize)
        ensures
            r == self.spec_payload_offset(),
    {
        if self.srid.is_some() {
            9
        } else {
            5
        }
    }
}

/// The header of `b`.
///
/// Behind the header every kind has at least four bytes of payload. So a
/// buffer of fewer than nine bytes has no header, nor has one that announces
/// an srid and holds fewer than thirteen bytes.
pub open spec fn spec_decode_header(b: Seq<u8>) -> Result<Header, DecodeError> {
    if b.len() < 9 {
        Err(DecodeError::MalformedInput)
    } else {
        let big_endian = b[0] == 0u8;
        let type_word = spec_read_u32(b.subrange(1, 5), big_endian);
        if type_word & SRID_FLAG != 0 {
            if b.len() < 13 {
                Err(DecodeError::MalformedInput)
            } else {
                Ok(
                    Header {
                        big_endian,
                        kind: type_word & KIND_MASK,
                        srid: Some(spec_read_u32(b.subrange(5, 9), big_endian)),
                    },
                )
            }
        } else {
            Ok(Header { big_endian, kind: type_word & KIND_MASK, srid: None })
        }
    }
}

/// The Point whose payload starts at `offset` in `b`: two doubles, x then y.
pub open spec fn spec_decode_point(b: Seq<u8>, offset: int, big_endian: bool) -> Result<
    Geom,
    DecodeError,
> {
    if b.len() < offset + 16 {
        Err(DecodeError::MalformedInput)
    } else {
        Ok(
            Geom::Point {
                x: spec_read_u64(b.subrange(offset, offset + 8), big_endian),
                y: spec_read_u64(b.subrange(offset + 8, offset + 16), big_endian),
            },
        )
    }
}

/// The geometry that the payload of `b` holds, given the header in front of it.
/// Every kind but Point is refused under its own code.
pub open spec fn spec_decode_payload(b: Seq<u8>, header: Header) -> Result<Geom, DecodeError> {
    if header.kind == KIND_POINT {
        spec_decode_point(b, header.spec_payload_offset(), header.big_endian)
    } else {
        Err(DecodeError::UnsupportedGeometryKind(header.kind))
    }
}

/// The decoded form of `b`: its geometry with the byte order and srid of its
/// header. The header is read first, so a truncated header is reported as
/// malformed input whatever the kind.
pub open spec fn spec_decode(b: Seq<u8>) -> Result<DecodedGeometry, DecodeError> {
    match spec_decode_header(b) {
        Err(e) => Err(e),
        Ok(header) => match spec_decode_payload(b, header) {
            Err(e) => Err(e),
            Ok(geometry) => Ok(
                DecodedGeometry { geometry, big_endian: header.big_endian, srid: header.srid },
            ),
        },
    }
}

/// The geometry of the decoded form of `b`, without byte order and srid.
pub open spec fn spec_decode_geometry(b: Seq<u8>) -> Result<Geom, DecodeError> {
    match spec_decode(b) {
        Ok(decoded) => Ok(decoded.geometry),
        Err(e) => Err(e),
    }
}

/// A buffer that ends inside its header is malformed, whatever its leading
/// bytes say, and nothing shorter than a header and a Point payload decodes.
pub proof fn lemma_truncated_is_malformed(b: Seq<u8>)
    ensures
        b.len() < 9 ==> spec_decode(b) == Err::<DecodedGeometry, DecodeError>(
            DecodeError::MalformedInput,
        ),
        spec_decode(b) is Ok ==> b.len() >= 21,
{
}

/// A buffer with a complete header and a kind other than Point is refused
/// under that kind's code: it is never taken for malformed input, nor for a
/// Point.
pub proof fn lemma_other_kinds_are_unsupported(b: Seq<u8>, header: Header)
    requires
        spec_decode_header(b) == Ok::<Header, DecodeError>(header),
        header.kind != KIND_POINT,
    ensures
        spec_decode(b) == Err::<DecodedGeometry, DecodeError>(
            DecodeError::UnsupportedGeometryKind(header.kind),
        ),
{
}

/// Reads the byte-order flag, the type word and, where announced, the srid.
///
/// The srid is read whatever the kind, so the header of a buffer whose kind
/// is not decoded still tells where the value comes from.
pub fn decode_header(bytes: &[u8]) -> (r: Result<Header, DecodeError>)
    ensures
        r == spec_decode_header(bytes@),
        r matches Ok(header) ==> header.kind <= 0xFF,
{
    if bytes.len() < 9 {
        return Err(DecodeError::MalformedInput);
    }
    let big_endian: bool = bytes[0] == 0u8;
    let type_word: u32 = read_u32(slice_subrange(bytes, 1, 5), big_endian);
    let kind: u32 = type_word & KIND_MASK;
    assert(type_word & 0xFF <= 0xFF) by (bit_vector);
    if type_word & SRID_FLAG != 0 {
        if bytes.len() < 13 {
            return Err(DecodeError::MalformedInput);
        }
        let srid: u32 = read_u32(slice_subrange(bytes, 5, 9), big_endian);
        Ok(Header { big_endian, kind, srid: Some(srid) })
    } else {
        Ok(Header { big_endian, kind, srid: None })
    }
}

/// Decodes a Point payload that starts at `offset`: sixteen bytes, the x
/// coordinate and then the y coordinate. Coordinates are not validated.
pub fn decode_point(bytes: &[u8], offset: usize, big_endian: bool) -> (r: Result<
    Geom,
    DecodeError,
>)
    ensures
        r == spec_decode_point(bytes@, offset as int, big_endian),
{
    if offset > bytes.len() || bytes.len() - offset < 16 {
        return Err(DecodeError::MalformedInput);
    }
    let x: u64 = read_f64_bits(slice_subrange(bytes, offset, offset + 8), big_endian);
    let y: u64 = read_f64_bits(slice_subrange(bytes, offset + 8, offset + 16), big_endian);
    Ok(Geom::Point { x, y })
}

/// Decodes the payload behind `header`, by the header's kind.
pub fn decode_payload(bytes: &[u8], header: &Header) -> (r: Result<Geom, DecodeError>)
    ensures
        r == spec_decode_payload(bytes@, *header),
{
    if header.kind == KIND_POINT {
        decode_point(bytes, header.payload_offset(), header.big_endian)
    } else {
        Err(DecodeError::UnsupportedGeometryKind(header.kind))
    }
}

/// Decodes an EWKB buffer into its geometry, byte order and srid.
pub fn decode(bytes: &[u8]) -> (r: Result<DecodedGeometry, DecodeError>)
    ensures
        r == spec_decode(bytes@),
        r matches Err(DecodeError::UnsupportedGeometryKind(kind)) ==> kind <= 0xFF && kind
            != KIND_POINT,
{
    match decode_header(bytes) {
        Err(e) => Err(e),
        Ok(header) => match decode_payload(bytes, &header) {
            Err(e) => Err(e),
            Ok(geometry) => Ok(
                DecodedGeometry { geometry, big_endian: header.big_endian, srid: header.srid },
            ),
        },
    }
}

/// Decodes an EWKB buffer and keeps the geometry alone.
pub fn decode_geometry(bytes: &[u8]) -> (r: Result<Geom, DecodeError>)
    ensures
        r == spec_decode_geometry(bytes@),
{
    match decode(bytes) {
        Ok(decoded) => Ok(decoded.geometry),
        Err(e) => Err(e),
    }
}

} // verus!
