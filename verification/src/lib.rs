//! Immutable value types for ranges over ordered domains, with the values
//! such ranges are usually built over.
//!
//! The heart of the crate is the interval algebra in [`intervals`]: boundary
//! values, interval endpoints with their order, and intervals with their
//! queries, together with the laws of the algebra. [`time`] holds calendar
//! and clock values and durations, [`money`] holds amounts in a currency and
//! their allotment to entities, and [`util`] holds decimal numbers and
//! ratios. Every function carries a contract that Verus proves; what other
//! crates compute is named in the contracts and taken on trust.

pub mod intervals;
pub mod money;
pub mod time;
pub mod util;
