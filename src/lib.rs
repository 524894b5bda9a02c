//! Fowler-Noll-Vo hashing of byte sequences.
//!
//! The FNV-0, FNV-1 and FNV-1a variants are provided for 32, 64 and 128 bit
//! accumulators. Each variant folds its input one byte at a time; the
//! recurrence is written once, generically over the accumulator width.
pub mod hasher;
pub mod recurrence;
pub mod word;

pub use hasher::{Fnv0, Fnv1, Fnv1a, FnvHasher};
pub use word::FnvWord;
