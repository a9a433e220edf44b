//! The token metadata answers of the current chain and of all chains.

use vstd::prelude::*;
use crate::models::admin::{
    MetadataResponse, MetadataResponseV2, chain_map, chains_view, exponent_map, token_response_map,
    token_response_view,
};
use crate::models::config::Chain;
use crate::models::token_metadata::TokenMetadata;

verus! {

/// Token metadata answers.
pub struct TokenMetadataService;

impl TokenMetadataService {
    /// The tokens of the current chain from its stored rows, with the
    /// chain's id and currency.
    pub fn get_chain(supported_currencies: Vec<TokenMetadata>, current_chain: String, chain: &Chain) -> (res: MetadataResponse)
        ensures
            res.wf(),
            res.chain == current_chain,
            res.chain_id == chain.chain_id,
            res.currency@ == chain.currency@,
            res.exponents@ == exponent_map(supported_currencies@),
            token_response_view(res.tokens@) == token_response_map(supported_currencies@),
    {
        MetadataResponse::new().to(supported_currencies, current_chain, chain.chain_id, chain.currency.clone())
    }

    /// All chains and their tokens from all stored rows, with the
    /// defaults.
    pub fn get_chain_v2(rows: Vec<TokenMetadata>, current_chain: String, default_currency: String) -> (res: MetadataResponseV2)
        ensures
            res.chains.wf(),
            chains_view(res.chains@) == chain_map(rows@),
            res.defaults.chain == current_chain,
            res.defaults.currency == default_currency,
    {
        MetadataResponseV2::from_token_metadata(rows, current_chain, default_currency)
    }
}

} // verus!
