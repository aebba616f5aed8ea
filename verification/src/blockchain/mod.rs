//! Balance queries: what is asked of a chain's endpoint and what its answers mean.

pub mod bitcoin;
pub mod evm;
pub mod evm_session;
pub mod solana;
pub mod types;
