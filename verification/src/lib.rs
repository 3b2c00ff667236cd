//! Decision logic for packing a flat host directory into a block-device image.
//!
//! The filesystem engine, the host files and the mount table are driven by the
//! caller; this crate decides what is done next and what every answer means.

pub mod builder;
pub mod device;
pub mod faithful;
pub mod laws;
pub mod model;
pub mod protocol;
pub mod report;
pub mod source;
