//! Small cache primitives: a single-slot cache cell with a stickiness mode,
//! and bounded, insertion-ordered multi-value caches with explicit admission
//! control.

pub mod cell;
pub mod multi;
