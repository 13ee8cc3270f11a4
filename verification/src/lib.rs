//! Decision logic of a sandwich-trading pipeline: swap calldata decoding,
//! round-trip profitability checks, fee-tier selection and the two-leg
//! execution state machine with its settlement accounting.
//!
//! Everything here is pure: network and chain access belong to the caller,
//! which feeds observed transactions and chain responses in as plain values.

pub mod primitives;
pub mod config;
pub mod execution;
pub mod analysis;
pub mod mempool;
pub mod pipeline;
