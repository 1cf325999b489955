//! Interchange library for 2D sandbox-physics track files.
//!
//! The canonical in-memory model of a track (lines, riders, layers, and
//! camera/color trigger timelines) is assembled through feature-gated
//! builders: every optional attribute must be present if and only if its
//! owning capability flag was declared.  A binary container decoder
//! populates a track builder from bytes through a registry of supported
//! extension ("mod") handlers.

pub mod formats;
pub mod track;
pub mod util;
