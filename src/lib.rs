//! The sequence protocol of a dynamic-language runtime: how length, indexing,
//! slicing, concatenation, repetition and membership are dispatched on an
//! object according to the native method table its type supplies, with the
//! fallbacks to the generic operators and to iteration.
pub mod error;
pub mod object;
pub mod iteration;
pub mod sequence;
pub mod laws;
