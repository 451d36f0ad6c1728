//! Decoding of Extended Well-Known Binary (EWKB) geometry payloads.
//!
//! EWKB is the binary form in which PostGIS hands out `geometry` and
//! `geography` values. A payload starts with a byte-order flag, followed by a
//! 32-bit type word, an optional spatial reference system id, and a payload
//! whose layout depends on the geometry kind.

pub mod decode;
pub mod encode;
pub mod geometry;
pub mod primitive;
pub mod roundtrip;

pub use decode::{decode, decode_geometry, decode_header, decode_payload, decode_point, Header};
pub use encode::encode;
pub use geometry::{DecodeError, DecodedGeometry, EncodeError, Geom, Geometry};
pub use primitive::{read_f64_bits, read_u32};
