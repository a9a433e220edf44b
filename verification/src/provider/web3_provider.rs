//! Sending transactions from the relayer: the amount check, the request,
//! and the messages that the ways of failing are answered with.

use vstd::prelude::*;
use crate::eth::{Address, H256, U256, ether_text, format_ether, hex_string, is_hex_digit};
use crate::errors::ProviderError;
use crate::text::{parse_isize, parse_isize_of, utf8_len};

verus! {

/// Sending transactions and reading balances on the chain.
pub struct Web3Provider {}

/// A transaction to send: from the signer to `to`, with `value` wei and
/// `data` as call data.
pub struct TransactionRequest {
    pub from: Address,
    pub to: Address,
    pub value: isize,
    pub data: Vec<u8>,
}

/// The `data` field of a node's JSON-RPC error.
pub enum RpcErrorData {
    /// No data.
    Absent,
    /// A string.
    Text(String),
    /// Any other JSON value.
    Other,
}

/// A node's JSON-RPC error answer.
pub struct RpcErrorResponse {
    pub message: String,
    pub data: RpcErrorData,
}

/// The ways sending a transaction through a signing middleware fails,
/// with the text of each underlying error.
pub enum SendError {
    Signer(String),
    JsonRpcClient(Option<RpcErrorResponse>),
    Ens(String),
    EnsNotOwned(String),
    SerdeJson(String),
    Hex(String),
    Http(String),
    Custom(String),
    UnsupportedRpc,
    UnsupportedNodeClient,
    SignerUnavailable,
    NonceMissing,
    GasPriceMissing,
    GasMissing,
    WrongSigner,
    DifferentChainId,
}

/// What a node's JSON-RPC error is answered with: its message where it
/// has one and no data (or only `0x`); else a fixed text by the kind of
/// data.
pub open spec fn rpc_error_message(e: RpcErrorResponse) -> Seq<char> {
    let no_data = match e.data {
        RpcErrorData::Absent => true,
        RpcErrorData::Text(t) => t@ == "0x"@,
        RpcErrorData::Other => false,
    };
    if e.message@.len() > 0 && no_data {
        e.message@
    } else {
        match e.data {
            RpcErrorData::Text(_) => "JSON RPC error"@,
            _ => "Non string error"@,
        }
    }
}

/// The text after its first two bytes, where that is a place between
/// characters; none where it is not, or where the text is shorter.
pub open spec fn after_two_bytes(t: Seq<char>) -> Option<Seq<char>> {
    if t.len() >= 2 && utf8_len(t[0]) == 1 && utf8_len(t[1]) == 1 {
        Some(t.skip(2))
    } else if t.len() >= 1 && utf8_len(t[0]) == 2 {
        Some(t.skip(1))
    } else {
        None
    }
}

/// The digits that hex decoding reads: the text without a leading `0x`
/// or `0X`.
pub open spec fn hex_body(r: Seq<char>) -> Seq<char> {
    if r.len() >= 2 && r[0] == '0' && (r[1] == 'x' || r[1] == 'X') {
        r.skip(2)
    } else {
        r
    }
}

/// Whether hex decoding reads `r`: an even number of characters, and hex
/// digits after an optional `0x`.
pub open spec fn hex_decodes(r: Seq<char>) -> bool {
    &&& r.len() % 2 == 0
    &&& forall|i: int| 0 <= i < hex_body(r).len() ==> is_hex_digit(#[trigger] hex_body(r)[i])
}

/// Whether a node's JSON-RPC error can be answered: where its message is
/// not taken, it carries data; string data is hex after its first two
/// bytes, and where the contract's interface declares errors (`abi_errors`
/// of them), that hex is at least four bytes long (a selector), since
/// the data is decoded against each of them.
pub open spec fn rpc_error_answerable(e: RpcErrorResponse, abi_errors: nat) -> bool {
    let no_data = match e.data {
        RpcErrorData::Absent => true,
        RpcErrorData::Text(t) => t@ == "0x"@,
        RpcErrorData::Other => false,
    };
    if e.message@.len() > 0 && no_data {
        true
    } else {
        match e.data {
            RpcErrorData::Absent => false,
            RpcErrorData::Text(t) => match after_two_bytes(t@) {
                Some(r) => hex_decodes(r) && (abi_errors > 0 ==> hex_body(r).len() >= 8),
                None => false,
            },
            RpcErrorData::Other => true,
        }
    }
}

/// Whether a failed send can be answered (see `rpc_error_answerable`).
pub open spec fn send_error_answerable(e: SendError, abi_errors: nat) -> bool {
    match e {
        SendError::JsonRpcClient(Some(r)) => rpc_error_answerable(r, abi_errors),
        _ => true,
    }
}

/// What each way of failing is answered with.
pub open spec fn send_error_message(e: SendError) -> Seq<char> {
    match e {
        SendError::Signer(_) => "Invalid signature"@,
        SendError::JsonRpcClient(None) => "Json RPC error"@,
        SendError::JsonRpcClient(Some(r)) => rpc_error_message(r),
        SendError::Ens(_) => "ENS name not found"@,
        SendError::EnsNotOwned(_) => "Invalid reverse ENS name"@,
        SendError::SerdeJson(_) => "JSON serialization error"@,
        SendError::Hex(t) => "Hex Error: "@ + t@,
        SendError::Http(t) => "HTTP Error: "@ + t@,
        SendError::Custom(t) => "Custom Error: "@ + t@,
        SendError::UnsupportedRpc => "Invalid RPC call"@,
        SendError::UnsupportedNodeClient => "Invalid Node client"@,
        SendError::SignerUnavailable => "Signer is not available to this provider"@,
        SendError::NonceMissing => "Missing Nonce"@,
        SendError::GasPriceMissing => "Missing gas price"@,
        SendError::GasMissing => "Missing gas"@,
        SendError::WrongSigner => "Invalid signer"@,
        SendError::DifferentChainId => "Invalid chain id"@,
    }
}

impl Web3Provider {
    /// The transaction for sending `value` (a whole number of wei) with
    /// `data` from `from` to `to`; a value that is not such a number is
    /// refused.
    pub fn transaction_request(from: Address, to: Address, value: &str, data: Vec<u8>) -> (res: Result<TransactionRequest, String>)
        ensures
            match res {
                Ok(t) => parse_isize_of(value@) == Some(t.value) && t.from == from && t.to == to
                    && t.data == data,
                Err(m) => parse_isize_of(value@) is None && m@ == "Invalid gas value"@,
            },
    {
        match parse_isize(value) {
            None => Err(String::from_str("Invalid gas value")),
            Some(amount) => Ok(TransactionRequest { from, to, value: amount, data }),
        }
    }

    /// The answer once a transaction was sent: its hash in hex.
    pub fn sent_transaction_hash(tx_hash: H256) -> (res: String)
        ensures
            res@ == hex_string(tx_hash.bytes@),
    {
        tx_hash.to_hex_string()
    }

    /// An amount of wei written in ether: the whole ether, a point, and
    /// the rest as 18 digits.
    pub fn ether_amount_text(wei: U256) -> (res: String)
        ensures
            res@ == ether_text(wei.value()),
    {
        format_ether(wei)
    }

    /// The message a failed send is answered with. `abi_errors` is the
    /// number of errors that the called contract's interface declares.
    pub fn send_error_message(error: SendError, abi_errors: usize) -> (res: String)
        requires
            send_error_answerable(error, abi_errors as nat),
        ensures
            res@ == send_error_message(error),
    {
        match error {
            SendError::Signer(_) => String::from_str("Invalid signature"),
            SendError::JsonRpcClient(None) => String::from_str("Json RPC error"),
            SendError::JsonRpcClient(Some(e)) => Self::rpc_error_message(e),
            SendError::Ens(_) => String::from_str("ENS name not found"),
            SendError::EnsNotOwned(_) => String::from_str("Invalid reverse ENS name"),
            SendError::SerdeJson(_) => String::from_str("JSON serialization error"),
            SendError::Hex(t) => String::from_str("Hex Error: ").concat(t.as_str()),
            SendError::Http(t) => String::from_str("HTTP Error: ").concat(t.as_str()),
            SendError::Custom(t) => String::from_str("Custom Error: ").concat(t.as_str()),
            SendError::UnsupportedRpc => String::from_str("Invalid RPC call"),
            SendError::UnsupportedNodeClient => String::from_str("Invalid Node client"),
            SendError::SignerUnavailable => String::from_str("Signer is not available to this provider"),
            SendError::NonceMissing => String::from_str("Missing Nonce"),
            SendError::GasPriceMissing => String::from_str("Missing gas price"),
            SendError::GasMissing => String::from_str("Missing gas"),
            SendError::WrongSigner => String::from_str("Invalid signer"),
            SendError::DifferentChainId => String::from_str("Invalid chain id"),
        }
    }

    fn rpc_error_message(e: RpcErrorResponse) -> (res: String)
        ensures
            res@ == rpc_error_message(e),
    {
        let no_data = match &e.data {
            RpcErrorData::Absent => true,
            RpcErrorData::Text(t) => crate::text::str_eq(t.as_str(), "0x"),
            RpcErrorData::Other => false,
        };
        if e.message.as_str().unicode_len() > 0 && no_data {
            return e.message;
        }
        match e.data {
            RpcErrorData::Text(_) => String::from_str("JSON RPC error"),
            _ => String::from_str("Non string error"),
        }
    }

    /// The answer to a native balance read: the balance in ether, or the
    /// failure with the text of its error.
    pub fn balance_result(read: Result<U256, String>) -> (res: Result<String, ProviderError>)
        ensures
            match read {
                Ok(b) => res matches Ok(s) && s@ == ether_text(b.value()),
                Err(e) => res matches Err(ProviderError(m)) && m@ == "Get native balance failed: "@ + e@,
            },
    {
        match read {
            Ok(balance) => Ok(format_ether(balance)),
            Err(err) => Err(ProviderError(String::from_str("Get native balance failed: ").concat(err.as_str()))),
        }
    }
}

} // verus!
