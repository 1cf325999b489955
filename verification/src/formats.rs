//! On-disk representations the library converts between.

pub mod lrb;
pub mod trk;
