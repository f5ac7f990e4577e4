//! Interfaces that other parts of the protocol implement.
pub mod contract;
pub mod validator;
