//! The layout of an encoded Point, and the proof that decoding recovers from
//! it everything that went in.

use crate::decode::{
    spec_decode, spec_decode_header, spec_decode_payload, spec_decode_point, Header, KIND_MASK,
    KIND_POINT, SRID_FLAG,
};
use crate::geometry::{DecodeError, DecodedGeometry, Geom};
use crate::primitive::{
    lemma_read_u32_of_bytes, lemma_read_u64_of_bytes, spec_u32_bytes, spec_u64_bytes,
};
use vstd::prelude::*;

verus! {

/// The type word of a Point: its kind code, with the srid bit set when an
/// srid follows.
pub open spec fn spec_point_type_word(has_srid: bool) -> u32 {
    if has_srid {
        0x2000_0001
    } else {
        0x0000_0001
    }
}

/// The buffer that holds the Point `(x, y)`, coordinates given as bit
/// patterns, with the given srid and byte order: the flag byte, the type word,
/// the srid if there is one, then x and y.
pub open spec fn spec_encode_point(x: u64, y: u64, srid: Option<u32>, big_endian: bool) -> Seq<u8> {
    let flag: u8 = if big_endian {
        0
    } else {
        1
    };
    let srid_bytes = match srid {
        Some(id) => spec_u32_bytes(id, big_endian),
        None => Seq::<u8>::empty(),
    };
    seq![flag] + spec_u32_bytes(spec_point_type_word(srid is Some), big_endian) + srid_bytes
        + spec_u64_bytes(x, big_endian) + spec_u64_bytes(y, big_endian)
}

/// The type word of a Point carries the Point kind in its low byte, and the
/// srid bit exactly when an srid follows.
pub proof fn lemma_point_type_word(has_srid: bool)
    ensures
        spec_point_type_word(has_srid) & KIND_MASK == KIND_POINT,
        (spec_point_type_word(has_srid) & SRID_FLAG != 0) == has_srid,
{
    assert(0x2000_0001u32 & 0xFF == 0x01) by (bit_vector);
    assert(0x0000_0001u32 & 0xFF == 0x01) by (bit_vector);
    assert(0x2000_0001u32 & 0x2000_0000 != 0) by (bit_vector);
    assert(0x0000_0001u32 & 0x2000_0000 == 0) by (bit_vector);
}

/// Round trip: decoding the buffer that holds a Point gives back the same
/// coordinates, bit for bit, the same srid and the same byte order, whatever
/// these are.
pub proof fn lemma_decode_of_encoded_point(x: u64, y: u64, srid: Option<u32>, big_endian: bool)
    ensures
        spec_decode(spec_encode_point(x, y, srid, big_endian)) == Ok::<
            DecodedGeometry,
            DecodeError,
        >(DecodedGeometry { geometry: Geom::Point { x, y }, big_endian, srid }),
{
    let b = spec_encode_point(x, y, srid, big_endian);
    let type_word = spec_point_type_word(srid is Some);
    let header = Header { big_endian, kind: KIND_POINT, srid };
    let offset = header.spec_payload_offset();

    lemma_point_type_word(srid is Some);
    lemma_read_u32_of_bytes(type_word, big_endian);
    lemma_read_u64_of_bytes(x, big_endian);
    lemma_read_u64_of_bytes(y, big_endian);
    match srid {
        Some(id) => {
            lemma_read_u32_of_bytes(id, big_endian);
            assert(b.subrange(5, 9) =~= spec_u32_bytes(id, big_endian));
        },
        None => {},
    }
    assert(b.len() == offset + 16);
    assert(b.subrange(1, 5) =~= spec_u32_bytes(type_word, big_endian));
    assert(spec_decode_header(b) == Ok::<Header, DecodeError>(header));

    assert(b.subrange(offset, offset + 8) =~= spec_u64_bytes(x, big_endian));
    assert(b.subrange(offset + 8, offset + 16) =~= spec_u64_bytes(y, big_endian));
    assert(spec_decode_point(b, offset, big_endian) == Ok::<Geom, DecodeError>(
        Geom::Point { x, y },
    ));
    assert(spec_decode_payload(b, header) == spec_decode_point(b, offset, big_endian));
}

} // verus!
