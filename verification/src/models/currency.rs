//! The kinds of currency a token can be.

use vstd::prelude::*;
use crate::text::{ascii_lowercase, is_ascii_text, lowercase_of, to_lowercase, str_eq};

verus! {

/// How a token is held: the chain's native coin, or an ERC-20 contract.
#[derive(Clone, Copy, Debug, PartialEq, Eq)]
pub enum Currency {
    Native,
    Erc20,
}

/// What `Currency::from_str` gives for a string whose lower-case form is
/// `lower`.
pub open spec fn currency_of_lowercase(lower: Seq<char>) -> Option<Currency> {
    if lower == "native"@ {
        Some(Currency::Native)
    } else if lower == "erc20"@ {
        Some(Currency::Erc20)
    } else {
        None
    }
}

impl Currency {
    /// Reads a currency kind, ignoring case: "native" or "erc20".
    pub fn from_str(s: String) -> (res: Option<Currency>)
        ensures
            res == currency_of_lowercase(lowercase_of(s@)),
            is_ascii_text(s@) ==> res == currency_of_lowercase(ascii_lowercase(s@)),
    {
        let lower = to_lowercase(s.as_str());
        if str_eq(lower.as_str(), "native") {
            Some(Currency::Native)
        } else if str_eq(lower.as_str(), "erc20") {
            Some(Currency::Erc20)
        } else {
            None
        }
    }
}

} // verus!

