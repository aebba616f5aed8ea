//! Deriving public addresses from a seed, one chain family at a time.

pub mod bitcoin;
pub mod evm;
pub mod hd;
pub mod solana;
pub mod types;
