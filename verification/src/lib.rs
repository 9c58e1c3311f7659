//! A language-agnostic code metrics tree: resolves which grammar applies to a
//! source unit, converts the per-region statistics reported by an underlying
//! parsing engine into fully-materialized numeric records, and exposes a
//! hierarchical tree of such records with recursive lookup by region kind.
//!
//! Metric values are carried as the bit patterns of IEEE 754 double-precision
//! numbers, so that the conversion layer's normalization (no non-finite value
//! ever reaches a published record) can be stated and proved exactly.

pub mod analysis;
pub mod engine;
pub mod error;
pub mod lang;
pub mod metrics;
pub mod space;
