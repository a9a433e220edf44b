//! Transfers out of a user's wallet: the transaction record, the call
//! the wallet makes, and the steps of initiating and executing a
//! sponsored user operation.

use vstd::prelude::*;
use crate::constants::{VALID_AFTER, VALID_UNTIL};
use crate::eth::{
    Address, U256, abi_encode_u64, address_from_str, append_bytes, be_value, big_decimal_text,
    big_decimal_text_of, lemma_be_value_fits_u64, lemma_u64_word_value, u64_word,
};
use crate::errors::{ProviderError, TransferError};
use crate::models::config::DefaultGas;
use crate::models::contract_interaction::{
    UserOperation, is_fresh, lemma_hash_ignores_signature, paymaster_field, user_op_hash,
};
use crate::models::currency::{Currency, currency_of_lowercase};
use crate::models::token_metadata::TokenMetadata;
use crate::models::transaction::{TransactionMetadata, UserTransaction};
use crate::models::transaction_type::TransactionType;
use crate::models::transfer::{
    Status, TransactionResponse, TransferInitResponse, TransferResponse, lemma_status_names_distinct,
};
use crate::models::user::User;
use crate::provider::bundler::EstimateResult;
use crate::provider::helpers::{generate_txn_id, get_explorer_url, is_txn_id};
use crate::text::{lowercase_of, str_eq};

verus! {

/// Transfers out of users' wallets.
pub struct TransferService;

/// The call that the user's wallet is to make for a transfer.
pub enum CallPlan {
    /// Call the ERC-20 `token` to transfer `value` to `to`.
    Erc20 { token: Address, to: Address, value: String },
    /// Send `value` of the native coin to `to`.
    Native { to: Address, value: String },
}

/// A user operation as it is stored for a transfer.
pub struct StoredUserOperation {
    pub transaction_id: String,
    pub status: String,
    pub user_operation: UserOperation,
}

/// The validity window the paymaster's sponsorship is asked for: the ABI
/// words of its end and its start.
pub open spec fn validity_data() -> Seq<u8> {
    u64_word(VALID_UNTIL) + u64_word(VALID_AFTER)
}

/// The validity window is the word of its end followed by the word of
/// its start: its first 32 bytes read as `VALID_UNTIL`, its last 32 as
/// `VALID_AFTER`.
pub proof fn lemma_validity_words()
    ensures
        validity_data().len() == 64,
        be_value(validity_data().subrange(0, 32)) == VALID_UNTIL,
        be_value(validity_data().subrange(32, 64)) == VALID_AFTER,
{
    lemma_u64_word_value(VALID_UNTIL);
    lemma_u64_word_value(VALID_AFTER);
    assert(validity_data().subrange(0, 32) =~= u64_word(VALID_UNTIL));
    assert(validity_data().subrange(32, 64) =~= u64_word(VALID_AFTER));
}

impl TransferService {
    /// The chain-side details a new transaction starts with: only its
    /// chain.
    pub fn get_transaction_metadata(current_chain: &str) -> (res: TransactionMetadata)
        ensures
            res.chain@ == current_chain@,
            res.transaction_hash@ == Seq::<char>::empty(),
            res.from_name@ == Seq::<char>::empty(),
            res.to_name@ == Seq::<char>::empty(),
    {
        let mut txn_metadata = TransactionMetadata::new();
        txn_metadata.chain = String::from_str(current_chain);
        txn_metadata
    }

    /// The record of a new debit from `wallet_address` to `to`: a fresh
    /// transaction id, the amount as a decimal, and status "initiated".
    pub fn get_user_transaction(to: &String, value: &String, currency: &String, wallet_address: String, txn_id_prefix: &str, current_chain: &str) -> (res: UserTransaction)
        requires
            big_decimal_text_of(value@) is Some,
        ensures
            res.user_address@ == wallet_address@,
            is_txn_id(txn_id_prefix@, res.transaction_id@),
            res.from_address@ == wallet_address@,
            res.to_address@ == to@,
            Some(res.amount@) == big_decimal_text_of(value@),
            res.currency@ == currency@,
            res.transaction_type@ == TransactionType::Debit.name(),
            res.status@ == Status::INITIATED.name(),
            res.metadata.chain@ == current_chain@,
            res.metadata.transaction_hash@ == Seq::<char>::empty(),
            res.id == 0,
            res.exponent == 0,
            res.updated_at == 0,
    {
        let amount = big_decimal_text(value.as_str()).unwrap();
        UserTransaction {
            id: 0,
            user_address: wallet_address.clone(),
            transaction_id: generate_txn_id(txn_id_prefix),
            from_address: wallet_address,
            to_address: to.clone(),
            amount,
            currency: currency.clone(),
            exponent: 0,
            transaction_type: TransactionType::Debit.to_string(),
            status: Status::INITIATED.to_string(),
            metadata: Self::get_transaction_metadata(current_chain),
            updated_at: 0,
        }
    }

    /// The call for a transfer of `value` to `to`, by the type of the
    /// first stored row of the currency: an ERC-20 transfer through the
    /// token contract, or a native send; an unknown type is refused.
    pub fn get_call_data(metadata: &Vec<TokenMetadata>, to: &String, value: String, usdc_address: Address) -> (res: Result<CallPlan, TransferError>)
        requires
            metadata@.len() > 0,
            currency_of_lowercase(lowercase_of(metadata@[0].token_type@)) is Some ==> address_from_str(to@) is Some,
        ensures
            match currency_of_lowercase(lowercase_of(metadata@[0].token_type@)) {
                Some(Currency::Erc20) => res matches Ok(CallPlan::Erc20 { token, to: t, value: v })
                    && token == usdc_address && address_from_str(to@) == Some(t.bytes@) && v == value,
                Some(Currency::Native) => res matches Ok(CallPlan::Native { to: t, value: v })
                    && address_from_str(to@) == Some(t.bytes@) && v == value,
                None => res matches Err(TransferError::InvalidCurrency),
            },
    {
        match Currency::from_str(metadata[0].token_type.clone()) {
            Some(Currency::Erc20) => Ok(CallPlan::Erc20 {
                token: usdc_address,
                to: Address::parse(to.as_str()).unwrap(),
                value,
            }),
            Some(Currency::Native) => Ok(CallPlan::Native {
                to: Address::parse(to.as_str()).unwrap(),
                value,
            }),
            None => Err(TransferError::InvalidCurrency),
        }
    }

    /// `get_user_transaction` where the value is a decimal number; none
    /// where it is not (there `get_user_transaction` would panic).
    pub fn checked_user_transaction(to: &String, value: &String, currency: &String, wallet_address: String, txn_id_prefix: &str, current_chain: &str) -> (res: Option<UserTransaction>)
        ensures
            res is None <==> big_decimal_text_of(value@) is None,
            res matches Some(t) ==> Some(t.amount@) == big_decimal_text_of(value@) && t.to_address@
                == to@ && t.user_address@ == wallet_address@ && is_txn_id(txn_id_prefix@, t.transaction_id@),
    {
        if big_decimal_text(value.as_str()).is_none() {
            return None;
        }
        Some(Self::get_user_transaction(to, value, currency, wallet_address, txn_id_prefix, current_chain))
    }

    /// `get_call_data` where the receiver is an address or the currency
    /// type is unknown; none where the type is known and the receiver is
    /// no address (there `get_call_data` would panic).
    pub fn checked_call_data(metadata: &Vec<TokenMetadata>, to: &String, value: String, usdc_address: Address) -> (res: Option<Result<CallPlan, TransferError>>)
        requires
            metadata@.len() > 0,
        ensures
            res is None <==> (currency_of_lowercase(lowercase_of(metadata@[0].token_type@)) is Some
                && address_from_str(to@) is None),
            res matches Some(r) ==> match currency_of_lowercase(lowercase_of(metadata@[0].token_type@)) {
                Some(Currency::Erc20) => r matches Ok(CallPlan::Erc20 { token, to: t, value: v })
                    && token == usdc_address && address_from_str(to@) == Some(t.bytes@) && v == value,
                Some(Currency::Native) => r matches Ok(CallPlan::Native { to: t, value: v })
                    && address_from_str(to@) == Some(t.bytes@) && v == value,
                None => r matches Err(TransferError::InvalidCurrency),
            },
    {
        let kind = Currency::from_str(metadata[0].token_type.clone());
        if kind.is_some() && Address::parse(to.as_str()).is_none() {
            return None;
        }
        Some(Self::get_call_data(metadata, to, value, usdc_address))
    }

    /// The ABI words of the sponsorship's validity window.
    pub fn validity_window() -> (res: Vec<u8>)
        ensures
            res@ == validity_data(),
            res@.len() == 64,
            be_value(res@.subrange(0, 32)) == VALID_UNTIL,
            be_value(res@.subrange(32, 64)) == VALID_AFTER,
    {
        let mut data = abi_encode_u64(VALID_UNTIL);
        let after = abi_encode_u64(VALID_AFTER);
        append_bytes(&mut data, after.as_slice());
        proof {
            lemma_validity_words();
        }
        data
    }
}

/// What an initiation waits for next.
#[derive(Clone, Copy, Debug, PartialEq, Eq)]
pub enum InitStep {
    /// The wallet's call data for the transfer (`CallPlan` encoded).
    CallData,
    /// The factory's address and account-creation call, for a wallet not
    /// deployed yet.
    InitCode,
    /// The wallet's nonce at the entry point.
    Nonce,
    /// The paymaster signer's signature of the operation's typed data.
    Signature,
    /// The paymaster's signed hash of the operation with default gas.
    FirstPaymasterHash,
    /// The chain's fee estimates.
    Fees,
    /// The bundler's gas estimate for the operation.
    GasEstimate,
    /// The paymaster's signed hash of the operation with estimated gas.
    SecondPaymasterHash,
    /// That the transaction and the operation have been stored.
    Stored,
    /// Nothing: the answer is ready.
    Done,
}

/// What the outside work of a step brought back.
pub enum InitEvent {
    CallData(Vec<u8>),
    InitCode { factory: Address, payload: Vec<u8> },
    Nonce(U256),
    Signature(Vec<u8>),
    PaymasterHash(Vec<u8>),
    Fees { max_fee_per_gas: U256, max_priority_fee_per_gas: U256 },
    GasEstimate(EstimateResult),
    Stored,
}

/// Whether `event` is what `step` waits for.
pub open spec fn event_fits(step: InitStep, event: InitEvent) -> bool {
    match step {
        InitStep::CallData => event is CallData,
        InitStep::InitCode => event is InitCode,
        InitStep::Nonce => event is Nonce,
        InitStep::Signature => event is Signature,
        InitStep::FirstPaymasterHash => event is PaymasterHash,
        InitStep::Fees => event is Fees,
        InitStep::GasEstimate => event is GasEstimate,
        InitStep::SecondPaymasterHash => event is PaymasterHash,
        InitStep::Stored => event is Stored,
        InitStep::Done => false,
    }
}

/// The initiation of a transfer: the operation being built for the
/// user's wallet, the transaction record, and what is awaited next.
pub struct TransferInit {
    pub step: InitStep,
    pub user_op: UserOperation,
    pub user_txn: UserTransaction,
    pub deployed: bool,
    pub validity: Vec<u8>,
    pub paymaster: Address,
    pub entry_point: Address,
    pub chain_id: u64,
    /// The wallet, once its address has been read.
    pub wallet: Address,
    /// The hash for the user to sign, once the operation is complete.
    pub msg_hash: [u8; 32],
}

/// The fields that no step changes.
pub open spec fn init_same_frame(a: TransferInit, b: TransferInit) -> bool {
    &&& b.user_txn == a.user_txn
    &&& b.deployed == a.deployed
    &&& b.validity == a.validity
    &&& b.paymaster == a.paymaster
    &&& b.entry_point == a.entry_point
    &&& b.chain_id == a.chain_id
}

/// How one step changes an initiation, by the event it got.
pub open spec fn init_next(a: TransferInit, event: InitEvent, b: TransferInit) -> bool {
    &&& init_same_frame(a, b)
    &&& match event {
        InitEvent::CallData(d) => if a.deployed {
            &&& b.step == InitStep::Nonce
            &&& address_from_str(a.user_txn.user_address@) == Some(b.wallet.bytes@)
            &&& b.user_op == UserOperation {
                call_data: d,
                paymaster_and_data: b.user_op.paymaster_and_data,
                ..a.user_op
            }
            &&& b.user_op.paymaster_and_data@ == paymaster_field(a.paymaster, a.validity@, None)
            &&& b.msg_hash == a.msg_hash
        } else {
            &&& b.step == InitStep::InitCode
            &&& b.user_op == UserOperation { call_data: d, ..a.user_op }
            &&& b.wallet == a.wallet
            &&& b.msg_hash == a.msg_hash
        },
        InitEvent::InitCode { factory, payload } => {
            &&& b.step == InitStep::Nonce
            &&& address_from_str(a.user_txn.user_address@) == Some(b.wallet.bytes@)
            &&& b.user_op == UserOperation {
                init_code: b.user_op.init_code,
                paymaster_and_data: b.user_op.paymaster_and_data,
                ..a.user_op
            }
            &&& b.user_op.init_code@ == factory.bytes@ + payload@
            &&& b.user_op.paymaster_and_data@ == paymaster_field(a.paymaster, a.validity@, None)
            &&& b.msg_hash == a.msg_hash
        },
        InitEvent::Nonce(n) => {
            &&& b.step == InitStep::Signature
            &&& b.user_op == UserOperation { nonce: b.user_op.nonce, sender: a.wallet, ..a.user_op }
            &&& b.user_op.nonce.be@ == u64_word(be_value(n.be@.subrange(24, 32)) as u64)
            &&& b.wallet == a.wallet
            &&& b.msg_hash == a.msg_hash
        },
        InitEvent::Signature(sig) => {
            &&& b.step == InitStep::FirstPaymasterHash
            &&& b.user_op == UserOperation { signature: sig, ..a.user_op }
            &&& b.wallet == a.wallet
            &&& b.msg_hash == a.msg_hash
        },
        InitEvent::PaymasterHash(h) => {
            &&& b.step == (if a.step == InitStep::FirstPaymasterHash {
                InitStep::Fees
            } else {
                InitStep::Stored
            })
            &&& b.user_op == UserOperation {
                paymaster_and_data: b.user_op.paymaster_and_data,
                ..a.user_op
            }
            &&& b.user_op.paymaster_and_data@ == paymaster_field(a.paymaster, a.validity@, Some(h@))
            &&& b.wallet == a.wallet
            &&& a.step == InitStep::FirstPaymasterHash ==> b.msg_hash == a.msg_hash
        },
        InitEvent::Fees { max_fee_per_gas, max_priority_fee_per_gas } => {
            &&& b.step == InitStep::GasEstimate
            &&& b.user_op == UserOperation { max_fee_per_gas, max_priority_fee_per_gas, ..a.user_op }
            &&& b.wallet == a.wallet
            &&& b.msg_hash == a.msg_hash
        },
        InitEvent::GasEstimate(e) => {
            &&& b.step == InitStep::SecondPaymasterHash
            &&& b.user_op == UserOperation {
                call_gas_limit: e.call_gas_limit,
                verification_gas_limit: e.verification_gas_limit,
                pre_verification_gas: e.pre_verification_gas,
                ..a.user_op
            }
            &&& b.wallet == a.wallet
            &&& b.msg_hash == a.msg_hash
        },
        InitEvent::Stored => {
            &&& b.step == InitStep::Done
            &&& b.user_op == a.user_op
            &&& b.wallet == a.wallet
            &&& b.msg_hash == a.msg_hash
        },
    }
}

impl TransferInit {
    /// The facts that hold at every step.
    pub open spec fn inv(&self) -> bool {
        &&& self.validity@ == validity_data()
        &&& (self.step != InitStep::CallData && self.step != InitStep::InitCode) ==> address_from_str(
            self.user_txn.user_address@,
        ) == Some(self.wallet.bytes@)
        &&& (self.step == InitStep::Stored || self.step == InitStep::Done) ==> self.msg_hash@
            == user_op_hash(self.user_op, self.entry_point, self.chain_id)
    }

    /// Starts an initiation for `user`: refused where the user has no
    /// wallet yet; else a fresh transaction record and an operation with
    /// the default gas, waiting for the call data.
    pub fn start(user: &User, to: &String, value: &String, currency: &String, txn_id_prefix: &str, current_chain: &str, default_gas: &DefaultGas, paymaster: Address, entry_point: Address, chain_id: u64) -> (res: Result<TransferInit, TransferError>)
        requires
            user.wallet_address@.len() > 0 ==> big_decimal_text_of(value@) is Some,
        ensures
            match res {
                Err(TransferError::NotFound) => user.wallet_address@.len() == 0,
                Ok(t) => {
                    &&& user.wallet_address@.len() > 0
                    &&& t.inv()
                    &&& t.step == InitStep::CallData
                    &&& is_fresh(t.user_op, *default_gas)
                    &&& t.user_txn.user_address@ == user.wallet_address@
                    &&& t.user_txn.from_address@ == user.wallet_address@
                    &&& t.user_txn.to_address@ == to@
                    &&& t.user_txn.transaction_type@ == TransactionType::Debit.name()
                    &&& t.user_txn.metadata.chain@ == current_chain@
                    &&& t.user_txn.metadata.transaction_hash@ == Seq::<char>::empty()
                    &&& Some(t.user_txn.amount@) == big_decimal_text_of(value@)
                    &&& t.user_txn.currency@ == currency@
                    &&& t.user_txn.status@ == Status::INITIATED.name()
                    &&& is_txn_id(txn_id_prefix@, t.user_txn.transaction_id@)
                    &&& t.deployed == user.deployed
                    &&& t.paymaster == paymaster
                    &&& t.entry_point == entry_point
                    &&& t.chain_id == chain_id
                },
                _ => false,
            },
    {
        if user.wallet_address.as_str().unicode_len() == 0 {
            return Err(TransferError::NotFound);
        }
        let user_txn = TransferService::get_user_transaction(
            to,
            value,
            currency,
            user.wallet_address.clone(),
            txn_id_prefix,
            current_chain,
        );
        Ok(TransferInit {
            step: InitStep::CallData,
            user_op: UserOperation::new(default_gas),
            user_txn,
            deployed: user.deployed,
            validity: TransferService::validity_window(),
            paymaster,
            entry_point,
            chain_id,
            wallet: Address { bytes: [0u8; 20] },
            msg_hash: [0u8; 32],
        })
    }
    /// `start` where the user has no wallet or the value is a decimal
    /// number; none where neither holds (there `start` would panic).
    pub fn checked_start(user: &User, to: &String, value: &String, currency: &String, txn_id_prefix: &str, current_chain: &str, default_gas: &DefaultGas, paymaster: Address, entry_point: Address, chain_id: u64) -> (res: Option<Result<TransferInit, TransferError>>)
        ensures
            res is None <==> (user.wallet_address@.len() > 0 && big_decimal_text_of(value@) is None),
            res matches Some(r) ==> match r {
                Err(TransferError::NotFound) => user.wallet_address@.len() == 0,
                Ok(t) => {
                    &&& user.wallet_address@.len() > 0
                    &&& t.inv()
                    &&& t.step == InitStep::CallData
                    &&& is_fresh(t.user_op, *default_gas)
                    &&& t.user_txn.user_address@ == user.wallet_address@
                    &&& t.user_txn.from_address@ == user.wallet_address@
                    &&& t.user_txn.to_address@ == to@
                    &&& Some(t.user_txn.amount@) == big_decimal_text_of(value@)
                    &&& t.user_txn.currency@ == currency@
                    &&& t.user_txn.transaction_type@ == TransactionType::Debit.name()
                    &&& t.user_txn.status@ == Status::INITIATED.name()
                    &&& t.user_txn.metadata.chain@ == current_chain@
                    &&& t.user_txn.metadata.transaction_hash@ == Seq::<char>::empty()
                    &&& is_txn_id(txn_id_prefix@, t.user_txn.transaction_id@)
                    &&& t.deployed == user.deployed
                    &&& t.paymaster == paymaster
                    &&& t.entry_point == entry_point
                    &&& t.chain_id == chain_id
                },
                _ => false,
            },
    {
        if user.wallet_address.as_str().unicode_len() > 0 && big_decimal_text(value.as_str()).is_none() {
            return None;
        }
        Some(Self::start(user, to, value, currency, txn_id_prefix, current_chain, default_gas, paymaster, entry_point, chain_id))
    }

    /// Takes in what the awaited outside work brought back and moves on.
    /// The call data is set; for a wallet not yet deployed its init code
    /// is awaited and set; then the wallet's address is read and the
    /// paymaster field gets the validity window with a blank signature;
    /// the nonce and sender, the paymaster signer's signature, the
    /// paymaster's first hash, the fees and the gas estimate follow;
    /// after the paymaster's second hash the operation is complete and
    /// its hash is the one the user signs.
    pub fn step(&mut self, event: InitEvent)
        requires
            old(self).inv(),
            event_fits(old(self).step, event),
            (old(self).step == InitStep::InitCode || (old(self).step == InitStep::CallData
                && old(self).deployed)) ==> address_from_str(old(self).user_txn.user_address@) is Some,
        ensures
            final(self).inv(),
            init_next(*old(self), event, *final(self)),
    {
        match event {
            InitEvent::CallData(d) => {
                self.user_op.call_data(d);
                if self.deployed {
                    self.read_wallet();
                } else {
                    self.step = InitStep::InitCode;
                }
            },
            InitEvent::InitCode { factory, payload } => {
                self.user_op.init_code(factory, payload);
                self.read_wallet();
            },
            InitEvent::Nonce(n) => {
                let nonce = crate::eth::u256_low_u64(n);
                let wallet = self.wallet;
                self.user_op.nonce(nonce).sender(wallet);
                self.step = InitStep::Signature;
            },
            InitEvent::Signature(sig) => {
                self.user_op.signature(sig);
                self.step = InitStep::FirstPaymasterHash;
            },
            InitEvent::PaymasterHash(h) => {
                let data = copy_bytes(self.validity.as_slice());
                let paymaster = self.paymaster;
                self.user_op.paymaster_and_data(data, paymaster, Some(h));
                match self.step {
                    InitStep::FirstPaymasterHash => {
                        self.step = InitStep::Fees;
                    },
                    _ => {
                        self.msg_hash = self.user_op.hash(self.entry_point, self.chain_id);
                        self.step = InitStep::Stored;
                    },
                }
            },
            InitEvent::Fees { max_fee_per_gas, max_priority_fee_per_gas } => {
                self.user_op.max_priority_fee_per_gas(max_priority_fee_per_gas).max_fee_per_gas(
                    max_fee_per_gas,
                );
                self.step = InitStep::GasEstimate;
            },
            InitEvent::GasEstimate(e) => {
                self.user_op.call_gas_limit(e.call_gas_limit).verification_gas_limit(
                    e.verification_gas_limit,
                ).pre_verification_gas(e.pre_verification_gas);
                self.step = InitStep::SecondPaymasterHash;
            },
            InitEvent::Stored => {
                self.step = InitStep::Done;
            },
        }
    }

    /// Reads the wallet's address, sets the paymaster field to the
    /// validity window with a blank signature, and awaits the nonce.
    fn read_wallet(&mut self)
        requires
            old(self).validity@ == validity_data(),
            address_from_str(old(self).user_txn.user_address@) is Some,
        ensures
            final(self).step == InitStep::Nonce,
            address_from_str(old(self).user_txn.user_address@) == Some(final(self).wallet.bytes@),
            final(self).user_op == (UserOperation {
                paymaster_and_data: final(self).user_op.paymaster_and_data,
                ..old(self).user_op
            }),
            final(self).user_op.paymaster_and_data@ == paymaster_field(
                old(self).paymaster,
                old(self).validity@,
                None,
            ),
            init_same_frame(*old(self), *final(self)),
            final(self).msg_hash == old(self).msg_hash,
    {
        let wallet = Address::parse(self.user_txn.user_address.as_str()).unwrap();
        let data = copy_bytes(self.validity.as_slice());
        let paymaster = self.paymaster;
        self.user_op.paymaster_and_data(data, paymaster, None);
        self.wallet = wallet;
        self.step = InitStep::Nonce;
    }

    /// The answer once the initiation is done: the hash for the user to
    /// sign, the transaction's status and its id.
    pub fn respond(&self) -> (res: TransferInitResponse)
        requires
            self.inv(),
            self.step == InitStep::Done,
        ensures
            res.msg_hash@ == user_op_hash(self.user_op, self.entry_point, self.chain_id),
            res.status@ == self.user_txn.status@,
            res.transaction_id@ == self.user_txn.transaction_id@,
    {
        TransferInitResponse {
            msg_hash: self.msg_hash,
            status: self.user_txn.status.clone(),
            transaction_id: self.user_txn.transaction_id.clone(),
        }
    }
}

/// What an execution waits for next.
#[derive(Clone, Copy, Debug, PartialEq, Eq)]
pub enum ExecuteStep {
    /// The stored operation of the transaction.
    LoadOperation,
    /// That the operation has been marked pending.
    MarkPending,
    /// The bundler's answer to the submission.
    Submit,
    /// That the transaction has been marked failed.
    RecordFailure,
    /// That the transaction has been marked submitted.
    RecordSubmitted,
    /// Nothing: the answer is ready.
    Done,
}

/// What the outside work of an execution step brought back.
pub enum ExecuteEvent {
    Loaded(StoredUserOperation),
    PendingMarked,
    Submitted(Result<String, ProviderError>),
    Recorded,
}

/// The execution of an initiated transfer with the user's signature.
pub struct TransferExecute {
    pub step: ExecuteStep,
    pub transaction_id: String,
    pub signature: Vec<u8>,
    pub user_op: UserOperation,
}

/// Whether `event` is what `step` waits for.
pub open spec fn execute_event_fits(step: ExecuteStep, event: ExecuteEvent) -> bool {
    match step {
        ExecuteStep::LoadOperation => event is Loaded,
        ExecuteStep::MarkPending => event is PendingMarked,
        ExecuteStep::Submit => event is Submitted,
        ExecuteStep::RecordFailure => event is Recorded,
        ExecuteStep::RecordSubmitted => event is Recorded,
        ExecuteStep::Done => false,
    }
}

/// How one step changes an execution, and what it answers, by the event
/// it got.
pub open spec fn execute_next(a: TransferExecute, event: ExecuteEvent, b: TransferExecute, res: Result<(), TransferError>) -> bool {
    &&& b.transaction_id == a.transaction_id
    &&& b.signature == a.signature
    &&& match event {
        ExecuteEvent::Loaded(row) => if row.transaction_id@.len() == 0 || row.status@
            != Status::INITIATED.name() {
            res matches Err(TransferError::TxnNotFound)
        } else {
            &&& res is Ok
            &&& b.step == ExecuteStep::MarkPending
            &&& b.user_op == row.user_operation
        },
        ExecuteEvent::PendingMarked => {
            &&& res is Ok
            &&& b.step == ExecuteStep::Submit
            &&& b.user_op == UserOperation { signature: b.user_op.signature, ..a.user_op }
            &&& b.user_op.signature@ == a.signature@
        },
        ExecuteEvent::Submitted(r) => {
            &&& res is Ok
            &&& b.step == (if r is Ok {
                ExecuteStep::RecordSubmitted
            } else {
                ExecuteStep::RecordFailure
            })
            &&& b.user_op == a.user_op
        },
        ExecuteEvent::Recorded => if a.step == ExecuteStep::RecordFailure {
            res matches Err(TransferError::Provider(m)) && m@ == "Failed to submit transaction"@
        } else {
            &&& res is Ok
            &&& b.step == ExecuteStep::Done
            &&& b.user_op == a.user_op
        },
    }
}

impl TransferExecute {
    /// Starts the execution of transaction `transaction_id` for `user`:
    /// refused where the user has no wallet yet.
    pub fn start(user: &User, transaction_id: String, signature: Vec<u8>, default_gas: &DefaultGas) -> (res: Result<TransferExecute, TransferError>)
        ensures
            match res {
                Ok(e) => user.wallet_address@.len() > 0 && e.step == ExecuteStep::LoadOperation
                    && e.transaction_id == transaction_id && e.signature == signature,
                Err(TransferError::NotFound) => user.wallet_address@.len() == 0,
                _ => false,
            },
    {
        if user.wallet_address.as_str().unicode_len() == 0 {
            return Err(TransferError::NotFound);
        }
        Ok(TransferExecute {
            step: ExecuteStep::LoadOperation,
            transaction_id,
            signature,
            user_op: UserOperation::new(default_gas),
        })
    }

    /// Takes in what the awaited outside work brought back and moves on:
    /// an operation that is not stored, or no longer initiated, is
    /// refused; once it is marked pending it gets the user's signature
    /// and is submitted; a refused submission is recorded as failed and
    /// answered with a provider error, an accepted one as submitted.
    pub fn step(&mut self, event: ExecuteEvent) -> (res: Result<(), TransferError>)
        requires
            execute_event_fits(old(self).step, event),
        ensures
            execute_next(*old(self), event, *final(self), res),
    {
        match event {
            ExecuteEvent::Loaded(row) => {
                let initiated = Status::INITIATED.to_string();
                if row.transaction_id.as_str().unicode_len() == 0 || !str_eq(
                    row.status.as_str(),
                    initiated.as_str(),
                ) {
                    return Err(TransferError::TxnNotFound);
                }
                self.user_op = row.user_operation;
                self.step = ExecuteStep::MarkPending;
                Ok(())
            },
            ExecuteEvent::PendingMarked => {
                let sig = copy_bytes(self.signature.as_slice());
                self.user_op.signature(sig);
                self.step = ExecuteStep::Submit;
                Ok(())
            },
            ExecuteEvent::Submitted(r) => {
                match r {
                    Ok(_) => {
                        self.step = ExecuteStep::RecordSubmitted;
                    },
                    Err(_) => {
                        self.step = ExecuteStep::RecordFailure;
                    },
                }
                Ok(())
            },
            ExecuteEvent::Recorded => {
                match self.step {
                    ExecuteStep::RecordFailure => Err(
                        TransferError::Provider(String::from_str("Failed to submit transaction")),
                    ),
                    _ => {
                        self.step = ExecuteStep::Done;
                        Ok(())
                    },
                }
            },
        }
    }

    /// The status the awaited store write records: pending for the
    /// operation, then failed or submitted for the transaction.
    pub fn status_to_record(&self) -> (res: Status)
        requires
            self.step == ExecuteStep::MarkPending || self.step == ExecuteStep::RecordFailure
                || self.step == ExecuteStep::RecordSubmitted,
        ensures
            res == recorded_status(self.step),
    {
        match self.step {
            ExecuteStep::MarkPending => Status::PENDING,
            ExecuteStep::RecordFailure => Status::FAILED,
            _ => Status::SUBMITTED,
        }
    }

    /// The hash that the watcher of the submitted operation looks for.
    pub fn operation_hash(&self, entry_point: Address, chain_id: u64) -> (res: [u8; 32])
        ensures
            res@ == user_op_hash(self.user_op, entry_point, chain_id),
    {
        self.user_op.hash(entry_point, chain_id)
    }

    /// The answer once the operation is submitted: a pending transaction
    /// with no hash yet and the explorer's base link.
    pub fn respond(&self, explorer_base: &str) -> (res: TransferResponse)
        requires
            self.step == ExecuteStep::Done,
        ensures
            res.transaction.transaction_hash@ == Seq::<char>::empty(),
            res.transaction.status@ == Status::PENDING.name(),
            res.transaction.explorer@ == explorer_base@,
            res.transaction_id@ == self.transaction_id@,
    {
        let explorer = get_explorer_url(explorer_base, "");
        proof {
            reveal_strlit("");
            assert(explorer@ =~= explorer_base@);
        }
        TransferResponse {
            transaction: TransactionResponse {
                transaction_hash: String::new(),
                status: Status::PENDING.to_string(),
                explorer,
            },
            transaction_id: self.transaction_id.clone(),
        }
    }
}

/// The status the store write awaited at `step` records: pending for the
/// operation, then failed or submitted for the transaction.
pub open spec fn recorded_status(step: ExecuteStep) -> Status {
    match step {
        ExecuteStep::MarkPending => Status::PENDING,
        ExecuteStep::RecordFailure => Status::FAILED,
        _ => Status::SUBMITTED,
    }
}

/// On the nonce step the operation is sent from the wallet, with the
/// wallet's nonce at the entry point cut to its low 64 bits: the number
/// of the nonce's last eight bytes.
pub proof fn lemma_nonce_step_takes_low_nonce(a: TransferInit, n: U256, b: TransferInit)
    requires
        init_next(a, InitEvent::Nonce(n), b),
    ensures
        b.user_op.nonce.value() == be_value(n.be@.subrange(24, 32)),
        b.user_op.sender == a.wallet,
{
    lemma_be_value_fits_u64(n.be@.subrange(24, 32));
    lemma_u64_word_value(be_value(n.be@.subrange(24, 32)) as u64);
}

/// An operation is submitted at most once: before it submits, an
/// execution marks the stored operation with what it records at
/// `MarkPending`, and a later execution that loads an operation so marked
/// is refused at once, before anything is submitted.
pub proof fn lemma_marked_operation_is_refused(
    first: TransferExecute,
    row: StoredUserOperation,
    later: TransferExecute,
    next: TransferExecute,
    r: Result<(), TransferError>,
)
    requires
        first.step == ExecuteStep::MarkPending,
        row.status@ == recorded_status(first.step).name(),
        execute_next(later, ExecuteEvent::Loaded(row), next, r),
    ensures
        r matches Err(TransferError::TxnNotFound),
{
    lemma_status_names_distinct(Status::PENDING, Status::INITIATED);
}

/// The hash a user is given to sign when a transfer is initiated is the
/// hash of the operation that its execution submits: the execution loads
/// the stored operation and only replaces its signature, which takes no
/// part in the hash.
pub proof fn lemma_submitted_hash_is_signed_hash(
    init: TransferInit,
    row: StoredUserOperation,
    e0: TransferExecute,
    e1: TransferExecute,
    r1: Result<(), TransferError>,
    e2: TransferExecute,
    r2: Result<(), TransferError>,
)
    requires
        init.inv(),
        init.step == InitStep::Done,
        row.user_operation == init.user_op,
        execute_next(e0, ExecuteEvent::Loaded(row), e1, r1),
        r1 is Ok,
        execute_next(e1, ExecuteEvent::PendingMarked, e2, r2),
    ensures
        user_op_hash(e2.user_op, init.entry_point, init.chain_id) == init.msg_hash@,
{
    lemma_hash_ignores_signature(e1.user_op, e2.user_op.signature, init.entry_point, init.chain_id);
}

/// A copy of some bytes.
fn copy_bytes(b: &[u8]) -> (res: Vec<u8>)
    ensures
        res@ == b@,
{
    let mut out: Vec<u8> = Vec::new();
    append_bytes(&mut out, b);
    out
}

} // verus!
