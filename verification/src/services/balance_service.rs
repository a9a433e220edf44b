//! The balance of a user's wallet in one currency.

use vstd::prelude::*;
use crate::eth::{Address, U256, address_from_str};
use crate::errors::BalanceError;
use crate::models::currency::{Currency, currency_of_lowercase};
use crate::models::token_metadata::TokenMetadata;
use crate::models::wallet::BalanceResponse;
use crate::text::{decimal_of, lowercase_of};

verus! {

/// Wallet balance lookups.
pub struct BalanceService;

impl BalanceService {
    /// The wallet to look up: none where the user has no wallet yet.
    pub fn wallet_of(wallet_address: &String) -> (res: Result<Address, BalanceError>)
        requires
            wallet_address@.len() > 0 ==> address_from_str(wallet_address@) is Some,
        ensures
            match res {
                Ok(a) => wallet_address@.len() > 0 && address_from_str(wallet_address@) == Some(a.bytes@),
                Err(BalanceError::NotFound) => wallet_address@.len() == 0,
                _ => false,
            },
    {
        if wallet_address.as_str().unicode_len() == 0 {
            return Err(BalanceError::NotFound);
        }
        Ok(Address::parse(wallet_address.as_str()).unwrap())
    }

    /// Where the balance is read: the currency kind of the first stored
    /// row of the currency, if there is one and its type is known.
    pub fn currency_of(metadata: &Vec<TokenMetadata>) -> (res: Result<Currency, BalanceError>)
        ensures
            match res {
                Ok(c) => metadata@.len() > 0 && currency_of_lowercase(lowercase_of(metadata@[0].token_type@)) == Some(c),
                Err(BalanceError::InvalidCurrency) => metadata@.len() == 0 || currency_of_lowercase(
                    lowercase_of(metadata@[0].token_type@),
                ) is None,
                _ => false,
            },
    {
        if metadata.len() == 0 {
            return Err(BalanceError::InvalidCurrency);
        }
        match Currency::from_str(metadata[0].token_type.clone()) {
            None => Err(BalanceError::InvalidCurrency),
            Some(c) => Ok(c),
        }
    }

    /// The balance of the native coin as it was read, or the failure to
    /// read it, answered as a provider error.
    pub fn native_balance(read: Result<U256, String>) -> (res: Result<U256, BalanceError>)
        ensures
            match read {
                Ok(b) => res == Ok::<U256, BalanceError>(b),
                Err(_) => res matches Err(BalanceError::Provider(m)) && m@ == "Failed to get balance"@,
            },
    {
        match read {
            Ok(b) => Ok(b),
            Err(_) => Err(BalanceError::Provider(String::from_str("Failed to get balance"))),
        }
    }

    /// The answer once the balance is read: the balance in base units, the
    /// wallet, the currency, and the exponent of the first stored row.
    pub fn response(balance: U256, wallet_address: String, currency: &String, metadata: &Vec<TokenMetadata>) -> (res: BalanceResponse)
        requires
            metadata@.len() > 0,
        ensures
            res.balance@ == decimal_of(balance.value()),
            res.address == wallet_address,
            res.currency@ == currency@,
            res.exponent == metadata@[0].exponent,
    {
        BalanceResponse {
            balance: balance.to_string(),
            address: wallet_address,
            currency: currency.clone(),
            exponent: metadata[0].exponent,
        }
    }
}

} // verus!
