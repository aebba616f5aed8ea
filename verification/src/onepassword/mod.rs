//! Items of a password manager, as its command-line tool reports them.

pub mod cli;
pub mod types;
