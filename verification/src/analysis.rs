//! Off-chain estimation of swap outputs.

pub mod simulator;
