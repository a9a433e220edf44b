//! Stored user transactions and the form they are listed in.

use vstd::prelude::*;
use crate::provider::helpers::get_explorer_url;

verus! {

/// Paging of a transaction listing.
pub struct ListTransactions {
    pub id: Option<i32>,
    pub page_size: i32,
}

/// Query parameters of a transaction listing.
pub struct ListTransactionsParams {
    pub id: Option<i32>,
    pub page_size: Option<i64>,
}

/// Query parameters of a transaction lookup.
pub struct PollTransactionParams {
    pub transaction_id: String,
}

/// Query parameters of a transaction status lookup.
pub struct PollTransactionStatusParams {
    pub transaction_id: String,
}

/// The chain-side details stored with a user transaction.
pub struct TransactionMetadata {
    pub chain: String,
    pub transaction_hash: String,
    pub from_name: String,
    pub to_name: String,
}

impl TransactionMetadata {
    /// Empty details.
    pub fn new() -> (res: TransactionMetadata)
        ensures
            res.chain@ == Seq::<char>::empty(),
            res.transaction_hash@ == Seq::<char>::empty(),
            res.from_name@ == Seq::<char>::empty(),
            res.to_name@ == Seq::<char>::empty(),
    {
        TransactionMetadata {
            chain: String::new(),
            transaction_hash: String::new(),
            from_name: String::new(),
            to_name: String::new(),
        }
    }
}

/// A user transaction as it is stored.
pub struct UserTransaction {
    pub id: i32,
    pub user_address: String,
    pub transaction_id: String,
    pub from_address: String,
    pub to_address: String,
    /// The amount, in the decimal form the store keeps.
    pub amount: String,
    pub currency: String,
    pub exponent: i32,
    pub transaction_type: String,
    pub status: String,
    pub metadata: TransactionMetadata,
    /// Seconds since the Unix epoch of the last update.
    pub updated_at: i64,
}

/// An amount in a currency.
pub struct Amount {
    pub currency: String,
    /// The amount in decimal form.
    pub value: String,
    pub exponent: i32,
}

impl Amount {
    /// No amount: empty currency, zero value and exponent.
    pub fn default() -> (res: Amount)
        ensures
            res.currency@ == Seq::<char>::empty(),
            res.value@ == seq!['0'],
            res.exponent == 0,
    {
        let value = String::from_str("0");
        proof {
            reveal_strlit("0");
        }
        Amount { currency: String::new(), value, exponent: 0 }
    }
}

/// An address and the name of its holder.
pub struct UserInfo {
    pub address: String,
    pub name: String,
}

/// The chain-side details of a listed transaction.
pub struct Metadata {
    pub chain: String,
    pub gas: Amount,
    pub transaction_hash: String,
    pub timestamp: i64,
    pub explorer_url: String,
    pub status: String,
}

/// A user transaction as it is listed.
pub struct Transaction {
    pub transaction_id: String,
    pub amount: Amount,
    pub metadata: Metadata,
    pub from: UserInfo,
    pub id: i32,
    pub to: UserInfo,
    pub transaction_type: String,
}

/// `t` is the listed form of the stored transaction `u`: its fields
/// regrouped, no gas amount, and the explorer link of its hash under
/// `explorer_base`.
pub open spec fn is_listed_form(t: Transaction, u: UserTransaction, explorer_base: Seq<char>) -> bool {
    &&& t.transaction_id == u.transaction_id
    &&& t.amount.currency == u.currency
    &&& t.amount.value == u.amount
    &&& t.amount.exponent == u.exponent
    &&& t.metadata.chain == u.metadata.chain
    &&& t.metadata.gas.currency@ == Seq::<char>::empty()
    &&& t.metadata.gas.value@ == seq!['0']
    &&& t.metadata.gas.exponent == 0
    &&& t.metadata.transaction_hash == u.metadata.transaction_hash
    &&& t.metadata.timestamp == u.updated_at
    &&& t.metadata.explorer_url@ == explorer_base + u.metadata.transaction_hash@
    &&& t.metadata.status == u.status
    &&& t.from.address == u.from_address
    &&& t.from.name == u.metadata.from_name
    &&& t.id == u.id
    &&& t.to.address == u.to_address
    &&& t.to.name == u.metadata.to_name
    &&& t.transaction_type == u.transaction_type
}

/// Listing keeps a transaction's hash: the listed form carries the
/// stored hash, and its explorer link is the base followed by that same
/// hash.
pub proof fn lemma_listed_form_keeps_hash(t: Transaction, u: UserTransaction, explorer_base: Seq<char>)
    requires
        is_listed_form(t, u, explorer_base),
    ensures
        t.metadata.transaction_hash@ == u.metadata.transaction_hash@,
        t.metadata.explorer_url@ == explorer_base + t.metadata.transaction_hash@,
{
}

/// Listing keeps who paid whom and how much: the listed sender and
/// receiver are the stored addresses with the stored names, and the
/// listed amount is the stored amount in the stored currency and
/// exponent; the gas amount is listed as zero.
pub proof fn lemma_listed_form_keeps_parties_and_amount(
    t: Transaction,
    u: UserTransaction,
    explorer_base: Seq<char>,
)
    requires
        is_listed_form(t, u, explorer_base),
    ensures
        t.from.address@ == u.from_address@,
        t.from.name@ == u.metadata.from_name@,
        t.to.address@ == u.to_address@,
        t.to.name@ == u.metadata.to_name@,
        t.amount.value@ == u.amount@,
        t.amount.currency@ == u.currency@,
        t.amount.exponent == u.exponent,
        t.metadata.gas.value@ == seq!['0'],
{
}

impl Transaction {
    /// The listed form of a stored transaction: its fields regrouped, no
    /// gas amount, and the explorer link of its hash under
    /// `explorer_base`.
    pub fn from(transaction: UserTransaction, explorer_base: &str) -> (res: Transaction)
        ensures
            is_listed_form(res, transaction, explorer_base@),
            res.metadata.transaction_hash@ == transaction.metadata.transaction_hash@,
            res.metadata.explorer_url@ == explorer_base@ + res.metadata.transaction_hash@,
    {
        let explorer_url = get_explorer_url(
            explorer_base,
            transaction.metadata.transaction_hash.as_str(),
        );
        Transaction {
            transaction_id: transaction.transaction_id,
            amount: Amount {
                currency: transaction.currency,
                value: transaction.amount,
                exponent: transaction.exponent,
            },
            metadata: Metadata {
                chain: transaction.metadata.chain,
                gas: Amount::default(),
                transaction_hash: transaction.metadata.transaction_hash,
                timestamp: transaction.updated_at,
                explorer_url,
                status: transaction.status,
            },
            from: UserInfo {
                address: transaction.from_address,
                name: transaction.metadata.from_name,
            },
            id: transaction.id,
            to: UserInfo { address: transaction.to_address, name: transaction.metadata.to_name },
            transaction_type: transaction.transaction_type,
        }
    }
}

} // verus!
