//! The encode path. Encoding is not available: every request is refused.

use crate::geometry::{EncodeError, Geom};
use vstd::prelude::*;

verus! {

/// Refuses to encode `geometry`: the result is `NotImplemented` for every
/// value, and no bytes are produced.
#[allow(unused_variables)]
pub fn encode(geometry: &Geom) -> (r: Result<Vec<u8>, EncodeError>)
    ensures
        r == Err::<Vec<u8>, EncodeError>(EncodeError::NotImplemented),
{
    Err(EncodeError::NotImplemented)
}

} // verus!
