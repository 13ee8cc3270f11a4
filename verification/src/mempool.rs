//! Pending transactions: what is observed of them and what they mean.

pub mod decoder;
pub mod listener;
