//! The three operations on a vault.

pub mod deposit;
pub mod init;
pub mod withdraw;
