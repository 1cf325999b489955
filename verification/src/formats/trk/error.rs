//! Error taxonomy of the legacy container codec.

use crate::track::TrackBuilderError;
use vstd::prelude::*;

verus! {

/// Why a legacy-container decode failed.
#[derive(Debug)]
pub enum TrkReadError {
    /// The byte stream ended before a field could be read.
    Io,
    /// A length-prefixed string was not valid UTF-8.
    FromUTF8Error,
    /// A field held a value the format does not allow.
    InvalidData { name: String, value: String },
    /// The accumulated track state violated the feature/attribute
    /// agreement at finalization.
    TrackBuilderError(TrackBuilderError),
}

} // verus!
