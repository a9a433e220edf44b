//! A stored row describing one token on one chain.

use vstd::prelude::*;

verus! {

/// One supported token of one chain, as the metadata store holds it.
pub struct TokenMetadata {
    pub chain: String,
    pub symbol: String,
    pub contract_address: String,
    pub exponent: i32,
    pub token_type: String,
    pub name: String,
    pub chain_id: Option<i32>,
    pub chain_name: Option<String>,
    pub token_image_url: Option<String>,
}

} // verus!
