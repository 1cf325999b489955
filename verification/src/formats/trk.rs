//! The legacy track container format; its reader and writer are thin
//! collaborators around the track builder, and only the error surface
//! they share lives here.

pub mod error;
