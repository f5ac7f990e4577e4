//! The customer deposit contract: what it offers the protocol and its users,
//! the events it emits, and the ledger it keeps per customer.
pub mod errors;
pub mod events;
pub mod traits;
pub mod types;
