//! The operations offered to a caller: deriving accounts and reporting balances.

pub mod balance_batch;
pub mod blockchain;
pub mod onepassword;
pub mod ssh;
