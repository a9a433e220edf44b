//! Wallet address and balance requests and responses.

use vstd::prelude::*;
use base64::engine::general_purpose;
use base64::Engine;
use crate::eth::Address;

verus! {

/// The address of a user's smart-contract wallet.
pub struct AddressResponse {
    pub address: Address,
}

/// A balance query: `q` is a base64 encoding of a JSON `Balance`.
pub struct BalanceRequest {
    pub q: String,
}

/// The chain and currency of a balance query.
pub struct Balance {
    pub chain: String,
    pub currency: String,
}

/// The bytes that the standard base64 alphabet, with padding, decodes
/// `s` to.
pub uninterp spec fn base64_decode_of(s: Seq<char>) -> Option<Seq<u8>>;

/// Calls `general_purpose::STANDARD.decode`. Claimed: the outcome is a
/// function of the text alone.
#[verifier::external_body]
fn base64_decode(s: &str) -> (res: Option<Vec<u8>>)
    ensures
        match res {
            Some(b) => base64_decode_of(s@) == Some(b@),
            None => base64_decode_of(s@) is None,
        },
{
    general_purpose::STANDARD.decode(s).ok()
}

impl BalanceRequest {
    /// The JSON bytes that the query's base64 text holds, if it is valid
    /// base64.
    pub fn decoded_query(&self) -> (res: Option<Vec<u8>>)
        ensures
            match res {
                Some(b) => base64_decode_of(self.q@) == Some(b@),
                None => base64_decode_of(self.q@) is None,
            },
    {
        base64_decode(self.q.as_str())
    }
}

impl Balance {
    /// The chain.
    pub fn get_chain(&self) -> (res: String)
        ensures
            res == self.chain,
    {
        self.chain.clone()
    }

    /// The currency.
    pub fn get_currency(&self) -> (res: String)
        ensures
            res == self.currency,
    {
        self.currency.clone()
    }
}

/// A balance of an address in a currency.
pub struct BalanceResponse {
    pub address: String,
    pub balance: String,
    pub currency: String,
    pub exponent: i32,
}

impl BalanceResponse {
    /// A balance response from its parts.
    pub fn new(balance: String, address: String, currency: String, exponent: i32) -> (res: BalanceResponse)
        ensures
            res.balance == balance,
            res.address == address,
            res.currency == currency,
            res.exponent == exponent,
    {
        BalanceResponse { balance, address, currency, exponent }
    }
}

} // verus!
