//! Deposit records and the rules of the table that holds them.

pub mod clock;
pub mod deposit;
pub mod store;
pub mod laws;
pub mod queries;
