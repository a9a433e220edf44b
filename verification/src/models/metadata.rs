//! The chain and currency a request is about.

use vstd::prelude::*;

verus! {

/// The chain and currency a request is about.
pub struct Metadata {
    pub currency: String,
    pub chain: String,
}

impl Metadata {
    /// The currency.
    pub fn get_currency(&self) -> (res: String)
        ensures
            res == self.currency,
    {
        self.currency.clone()
    }
}

} // verus!
