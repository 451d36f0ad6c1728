//! The values a decode produces, and the errors it and the encode path report.

use vstd::prelude::*;

verus! {

/// The SQL type `geometry`.
///
/// A marker without data: code that binds this library to a database names
/// the column type by it. The values of the type are [`Geom`]s.
pub struct Geometry {}

/// A geometry value.
///
/// Coordinates are IEEE-754 doubles. They are carried as their 64-bit
/// patterns, exactly as found in the buffer, so that every value (negative
/// numbers, infinities and NaNs included) passes through unchanged;
/// `f64::from_bits` gives the number.
///
/// Only points are decoded so far; further kinds will become further variants.
#[non_exhaustive]
#[derive(Clone, Copy, Debug, PartialEq, Eq)]
pub enum Geom {
    /// A single position.
    Point {
        /// Bit pattern of the first coordinate.
        x: u64,
        /// Bit pattern of the second coordinate.
        y: u64,
    },
}

/// A geometry together with what its buffer said about itself.
#[derive(Clone, Copy, Debug, PartialEq, Eq)]
pub struct DecodedGeometry {
    /// The decoded shape.
    pub geometry: Geom,
    /// Byte order the buffer was written in.
    pub big_endian: bool,
    /// Spatial reference system id, present when the buffer carried one.
    pub srid: Option<u32>,
}

/// Why a buffer could not be decoded.
#[derive(Clone, Copy, Debug, PartialEq, Eq)]
pub enum DecodeError {
    /// The buffer ends before a field that the format requires.
    MalformedInput,
    /// The buffer is well formed, but holds a geometry kind that is not
    /// decoded. Carries the kind code found in the type word.
    UnsupportedGeometryKind(u32),
}

/// Why a geometry could not be encoded.
#[derive(Clone, Copy, Debug, PartialEq, Eq)]
pub enum EncodeError {
    /// Encoding is not available.
    NotImplemented,
}

} // verus!
