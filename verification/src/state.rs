//! What the program keeps on the ledger.

pub mod vault;
