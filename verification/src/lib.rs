//! Verified demonstrations of container operations: sorting a sequence of
//! integers, a growable buffer that tracks its capacity as it grows, and a
//! key-unique map from string labels to integer sequences.

pub mod demo;
pub mod growvec;
pub mod labelmap;
pub mod sorting;
