//! Marshaling bridge for a deterministic, seed-driven underground-encounter
//! simulator. Small integer codes become closed enumerations, a host-side
//! filter becomes the engine's filter shape and back without loss, and the
//! engine's ordered advance sequence becomes host records, order preserved.

pub mod codes;
pub mod entry;
pub mod filter;
pub mod results;
