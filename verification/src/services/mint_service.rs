//! Test-token minting for new wallets.

use vstd::prelude::*;
use crate::eth::{Address, address_word, be_value, lemma_ends_with_u64_word, u256_from_u64, u64_word};
use crate::models::config::ENV;
use crate::provider::contracts::{erc20_mint, selector};

verus! {

/// Minting of test tokens.
pub struct MintService;

impl MintService {
    /// Whether minting is allowed: everywhere but in production.
    pub fn minting_allowed(env: ENV) -> (res: bool)
        ensures
            res == (env != ENV::Production),
    {
        match env {
            ENV::Production => false,
            _ => true,
        }
    }
}

/// The amount of test tokens minted for a new wallet, in base units.
pub const MINT_UNITS: u64 = 100_000_000;

impl MintService {
    /// The call data that mints the test tokens for `receiver`.
    pub fn mint_call_data(receiver: Address) -> (res: Vec<u8>)
        ensures
            res@ == selector("mint(address,uint256)"@) + address_word(receiver.bytes@) + u64_word(
                MINT_UNITS,
            ),
            res@.len() >= 32,
            be_value(res@.subrange(res@.len() - 32, res@.len() as int)) == MINT_UNITS,
    {
        let amount = u256_from_u64(MINT_UNITS);
        proof {
            lemma_ends_with_u64_word(
                selector("mint(address,uint256)"@) + address_word(receiver.bytes@),
                MINT_UNITS,
            );
        }
        erc20_mint(receiver, amount)
    }
}

} // verus!
