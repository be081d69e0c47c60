//! Vault records for deposits that a program forwards to a lending protocol.
//!
//! A vault belongs to one owner and one caller-chosen `vault_id`. Its record
//! lives at an address derived from both, is written once, and is closed when
//! the last position has been withdrawn. Deposits and withdrawals are checked
//! against the record and then handed to the lending protocol as one request.

pub mod accounts;
pub mod adapter;
pub mod address;
pub mod authority;
pub mod error;
pub mod instructions;
pub mod laws;
pub mod program;
pub mod reserve;
pub mod state;
