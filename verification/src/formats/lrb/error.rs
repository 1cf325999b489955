//! Error taxonomy of the binary container codec.

use crate::track::TrackBuilderError;
use vstd::prelude::*;

verus! {

/// Why a decode failed.  Corrupt bytes, an unsupported required
/// capability, and a model inconsistency are distinct, so callers can
/// tell them apart.
#[derive(Debug)]
pub enum LrbReadError {
    /// The byte stream ended before a field could be read.
    Io,
    /// A length-prefixed string was not valid UTF-8.
    FromUTF8Error,
    /// A field held a value the format does not allow; carries the
    /// field's name and the offending raw value rendered in hexadecimal.
    InvalidData { name: String, value: String },
    /// The track depends on an unrecognized required capability and
    /// cannot be safely interpreted.
    UnsupportedRequiredMod { name: String, version: u16 },
    /// The accumulated track state violated the feature/attribute
    /// agreement at finalization.
    TrackBuilderError(TrackBuilderError),
}

/// Abstract value of a [`LrbReadError`]: strings as their characters.
pub enum LrbReadErrorV {
    Io,
    FromUTF8Error,
    InvalidData { name: Seq<char>, value: Seq<char> },
    UnsupportedRequiredMod { name: Seq<char>, version: u16 },
    TrackBuilderError(TrackBuilderError),
}

impl View for LrbReadError {
    type V = LrbReadErrorV;

    open spec fn view(&self) -> LrbReadErrorV {
        match self {
            LrbReadError::Io => LrbReadErrorV::Io,
            LrbReadError::FromUTF8Error => LrbReadErrorV::FromUTF8Error,
            LrbReadError::InvalidData { name, value } => LrbReadErrorV::InvalidData {
                name: name@,
                value: value@,
            },
            LrbReadError::UnsupportedRequiredMod { name, version } => LrbReadErrorV::UnsupportedRequiredMod {
                name: name@,
                version: *version,
            },
            LrbReadError::TrackBuilderError(e) => LrbReadErrorV::TrackBuilderError(*e),
        }
    }
}

/// Why an encode would fail: the writer's error surface, shared by the
/// container writer that producers drive.
#[derive(Debug)]
pub enum LrbWriteError {
    /// The byte sink refused a write.
    Io,
    /// A count did not fit the narrower on-disk integer.
    IntConversion,
}

} // verus!
