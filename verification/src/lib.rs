//! The rules of a desktop companion for SSH hosts and wallets: deriving the
//! accounts of several chain families from one mnemonic, reading balances
//! out of what the chains' endpoints answer, and reading the hosts of an SSH
//! configuration. Nothing here touches disk, network or processes.

pub mod amount;
pub mod blockchain;
pub mod commands;
pub mod crypto;
pub mod onepassword;
pub mod settings;
pub mod ssh;
pub mod text;
pub mod tray;
