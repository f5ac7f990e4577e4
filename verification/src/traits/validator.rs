use vstd::prelude::*;

verus! {

/// Sees the inspection receipts before they are processed, and may change them.
pub trait InspReceiptsInterceptor {
    type Receipt;

    fn intercept(receipts: Vec<Self::Receipt>) -> Vec<Self::Receipt>;
}

} // verus!
