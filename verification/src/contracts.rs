//! Interfaces and types of the smart contracts that DDC clusters work with.
pub mod customer_deposit;
pub mod types;
