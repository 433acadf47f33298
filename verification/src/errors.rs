//! Error taxonomy of the data layer.

use vstd::prelude::*;

verus! {

/// Failures surfaced by the key codec, the store and the repositories.
///
/// `MalformedKey`: a stored key does not match the tagged `TAG#id` format.
/// `NotFound`: the requested key has no row; an expected lookup outcome.
/// `CorruptRecord`: a found row misses a required attribute or has one of
/// the wrong shape.
/// `StoreUnavailable`: the backing store could not be reached; the
/// in-memory store never produces it, adapters over a remote store do.
#[derive(Clone, Copy, Debug, PartialEq, Eq, Structural)]
pub enum DataError {
    MalformedKey,
    NotFound,
    CorruptRecord,
    StoreUnavailable,
}

} // verus!
