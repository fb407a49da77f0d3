//! Equations-of-motion models: what their evaluation reads, in which order,
//! and where each result is stored.
pub mod gravity;
pub mod orbital;
