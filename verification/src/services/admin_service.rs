//! Administrative operations: paymaster deposits, balances of the
//! service's own accounts, and token registration.

use vstd::prelude::*;
use crate::constants::{NATIVE, PAYMASTER, RELAYER, VERIFYING_PAYMASTER};
use crate::eth::{Address, U256, hex_string, parse_ether, parse_ether_panics, parse_ether_value};
use crate::errors::AdminError;
use crate::keyed_map::KeyedMap;
use crate::models::admin::{MetadataResponse, exponent_map, token_response_map, token_response_view};
use crate::models::config::Chain;
use crate::models::metadata::Metadata;
use crate::models::token_metadata::TokenMetadata;
use crate::models::transfer::{Status, TransactionResponse, TransferResponse};
use crate::models::wallet::{Balance, BalanceResponse};
use crate::provider::helpers::get_explorer_url;
use crate::text::str_eq;

verus! {

/// Administrative operations.
pub struct AdminService;

/// Whose balance an administrator asks for.
#[derive(Clone, Copy, Debug, PartialEq, Eq)]
pub enum BalanceEntity {
    /// The verifying paymaster's deposit at the entry point.
    Paymaster,
    /// The relayer account's native balance.
    Relayer,
}

impl AdminService {
    /// Checks a deposit request: the currency must be the native one,
    /// the paymaster the verifying paymaster, and the value an amount of
    /// ether; gives the amount in wei.
    pub fn check_topup(eth_value: &str, paymaster: &str, metadata: &Metadata) -> (res: Result<U256, AdminError>)
        requires
            metadata.currency@ == NATIVE@ && paymaster@ == VERIFYING_PAYMASTER@ ==> !parse_ether_panics(eth_value@),
        ensures
            match res {
                Ok(v) => metadata.currency@ == NATIVE@ && paymaster@ == VERIFYING_PAYMASTER@
                    && parse_ether_value(eth_value@) == Some(v.value()),
                Err(AdminError::InvalidCurrency) => metadata.currency@ != NATIVE@,
                Err(AdminError::ValidationError(m)) => metadata.currency@ == NATIVE@ && (
                (paymaster@ != VERIFYING_PAYMASTER@ && m@ == "Invalid Paymaster"@) || (paymaster@
                    == VERIFYING_PAYMASTER@ && parse_ether_value(eth_value@) is None && m@
                    == "Invalid value"@)),
                _ => false,
            },
    {
        proof {
            reveal_strlit("Invalid Paymaster");
            reveal_strlit("Invalid value");
        }
        if !str_eq(metadata.currency.as_str(), NATIVE) {
            return Err(AdminError::InvalidCurrency);
        }
        if !str_eq(paymaster, VERIFYING_PAYMASTER) {
            return Err(AdminError::ValidationError(String::from_str("Invalid Paymaster")));
        }
        match parse_ether(eth_value) {
            Some(v) => Ok(v),
            None => Err(AdminError::ValidationError(String::from_str("Invalid value"))),
        }
    }

    /// The answer to a deposit once its transaction was sent (`Ok` with
    /// the transaction hash) or refused (`Err` with the reason): a pending
    /// transaction with its explorer link, or the provider's reason.
    pub fn deposit_response(sent: Result<String, String>, explorer_base: &str) -> (res: Result<TransferResponse, AdminError>)
        ensures
            match sent {
                Ok(hash) => res matches Ok(r) && r.transaction.transaction_hash == hash
                    && r.transaction.status@ == Status::PENDING.name()
                    && r.transaction.explorer@ == explorer_base@ + hash@
                    && r.transaction_id@ == Seq::<char>::empty(),
                Err(e) => res matches Err(AdminError::Provider(m)) && m == e,
            },
    {
        match sent {
            Ok(txn_hash) => {
                let explorer = get_explorer_url(explorer_base, txn_hash.as_str());
                Ok(TransferResponse {
                    transaction: TransactionResponse::new(txn_hash, Status::PENDING, explorer),
                    transaction_id: String::new(),
                })
            },
            Err(err) => Err(AdminError::Provider(err)),
        }
    }

    /// Checks a balance query of an administrator: the currency must be
    /// the native one and the entity the paymaster or the relayer.
    pub fn check_balance_request(entity: &str, data: &Balance) -> (res: Result<BalanceEntity, AdminError>)
        ensures
            data.currency@ != NATIVE@ ==> res matches Err(AdminError::InvalidCurrency),
            data.currency@ == NATIVE@ ==> match res {
                Ok(BalanceEntity::Paymaster) => entity@ == PAYMASTER@,
                Ok(BalanceEntity::Relayer) => entity@ == RELAYER@,
                Err(AdminError::ValidationError(m)) => m@ == "Invalid entity"@ && entity@ != PAYMASTER@
                    && entity@ != RELAYER@,
                _ => false,
            },
    {
        if !str_eq(data.currency.as_str(), NATIVE) {
            return Err(AdminError::InvalidCurrency);
        }
        if str_eq(PAYMASTER, entity) {
            return Ok(BalanceEntity::Paymaster);
        }
        if str_eq(RELAYER, entity) {
            return Ok(BalanceEntity::Relayer);
        }
        Err(AdminError::ValidationError(String::from_str("Invalid entity")))
    }

    /// The balance of one of the service's accounts: the balance as it
    /// was read, the address in hex, the currency, and exponent 0 (the
    /// balance is already in ether).
    pub fn get_balance_response(address: &Address, balance: String, currency: String) -> (res: Result<BalanceResponse, AdminError>)
        ensures
            res matches Ok(r) && r.balance == balance && r.address@ == hex_string(address.bytes@)
                && r.currency == currency && r.exponent == 0,
    {
        Ok(BalanceResponse::new(balance, address.to_hex_string(), currency, 0))
    }

    /// The metadata answer after a token was registered: the tokens of
    /// the chain of the first stored row, with that chain's id and
    /// currency from the settings.
    pub fn registered_metadata(supported_currencies: Vec<TokenMetadata>, chains: &KeyedMap<Chain>) -> (res: MetadataResponse)
        requires
            supported_currencies@.len() > 0,
            chains.wf(),
            chains@.contains_key(supported_currencies@[0].chain@),
        ensures
            res.wf(),
            res.chain@ == supported_currencies@[0].chain@,
            res.chain_id == chains@[supported_currencies@[0].chain@].chain_id,
            res.currency@ == chains@[supported_currencies@[0].chain@].currency@,
            res.exponents@ == exponent_map(supported_currencies@),
            token_response_view(res.tokens@) == token_response_map(supported_currencies@),
    {
        let chain_name = supported_currencies[0].chain.clone();
        let chain = chains.get(chain_name.as_str()).unwrap();
        let chain_id = chain.chain_id;
        let currency = chain.currency.clone();
        MetadataResponse::new().to(supported_currencies, chain_name, chain_id, currency)
    }
}

} // verus!
