//! Vector-similarity search engine: dimension-checked similarity kernels,
//! stable top-K selection over scored candidates, and a size-validated
//! buffer allocator for host-visible vector data.
//!
//! Scores travel through this crate as IEEE-754 double-precision bit
//! patterns (`u64`), ranked by a total order in which every NaN sorts
//! below every numeric score.

pub mod buffer;
pub mod engine;
pub mod error;
pub mod score;
pub mod topk;
