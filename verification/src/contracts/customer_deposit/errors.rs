use vstd::prelude::*;

verus! {

/// An error of the customer deposit contract, identified by its code.
#[derive(Debug, Copy, Clone, PartialEq, Eq, Structural)]
pub enum Error {
    Code(u16),
}

} // verus!
