//! The two-leg execution of one opportunity.

pub mod bundle;
pub mod settlement;
pub mod tiers;
