//! The token metadata answer of the current chain, through the metadata
//! store.

use vstd::prelude::*;
use crate::models::admin::{MetadataResponse, exponent_map, token_response_map, token_response_view};
use crate::models::config::Chain;
use crate::models::token_metadata::TokenMetadata;

verus! {

/// Token metadata of the current chain, read from the metadata store.
pub struct MetadataService;

impl MetadataService {
    /// The tokens of the current chain from its stored rows, with the
    /// chain's id and currency.
    pub fn get_chain(&self, supported_currencies: Vec<TokenMetadata>, current_chain: String, chain: &Chain) -> (res: MetadataResponse)
        ensures
            res.wf(),
            res.chain == current_chain,
            res.chain_id == chain.chain_id,
            res.currency@ == chain.currency@,
            res.exponents@ == exponent_map(supported_currencies@),
            token_response_view(res.tokens@) == token_response_map(supported_currencies@),
    {
        MetadataResponse::new().to(supported_currencies, current_chain, chain.chain_id, chain.currency.clone())
    }
}

} // verus!
