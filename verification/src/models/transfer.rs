//! Transfer requests and responses, and the status of a transfer.

use vstd::prelude::*;
use crate::eth::append_bytes;
use crate::models::metadata::Metadata;
use crate::text::{trim_of, trimmed};

verus! {

/// Where a transfer stands.
#[derive(Clone, Copy, Debug, PartialEq, Eq)]
pub enum Status {
    FAILED,
    INITIATED,
    PENDING,
    SUBMITTED,
    SUCCESS,
}

impl Status {
    /// The name stored for this status.
    pub open spec fn name(self) -> Seq<char> {
        match self {
            Status::FAILED => "failed"@,
            Status::INITIATED => "initiated"@,
            Status::PENDING => "pending"@,
            Status::SUBMITTED => "submitted"@,
            Status::SUCCESS => "success"@,
        }
    }

    /// The name stored for this status.
    pub fn to_string(&self) -> (res: String)
        ensures
            res@ == self.name(),
    {
        match self {
            Status::FAILED => String::from_str("failed"),
            Status::INITIATED => String::from_str("initiated"),
            Status::PENDING => String::from_str("pending"),
            Status::SUBMITTED => String::from_str("submitted"),
            Status::SUCCESS => String::from_str("success"),
        }
    }
}

/// Distinct statuses are stored under distinct names, so a stored name
/// tells the status it came from.
pub proof fn lemma_status_names_distinct(a: Status, b: Status)
    requires
        a != b,
    ensures
        a.name() != b.name(),
{
    reveal_strlit("failed");
    reveal_strlit("initiated");
    reveal_strlit("pending");
    reveal_strlit("submitted");
    reveal_strlit("success");
    if a.name() == b.name() {
        assert(a.name().len() == b.name().len());
        assert(a.name()[0] == b.name()[0]);
        assert(a.name()[1] == b.name()[1]);
    }
}

/// A submitted transaction: its hash, status and explorer link.
pub struct TransactionResponse {
    pub transaction_hash: String,
    pub status: String,
    pub explorer: String,
}

impl TransactionResponse {
    /// A response for a transaction with the given hash, status and link.
    pub fn new(transaction_hash: String, status: Status, explorer: String) -> (res: TransactionResponse)
        ensures
            res.transaction_hash == transaction_hash,
            res.status@ == status.name(),
            res.explorer == explorer,
    {
        TransactionResponse { transaction_hash, status: status.to_string(), explorer }
    }
}

/// A request to execute an initiated transfer with the user's signature.
pub struct TransferExecuteRequest {
    pub transaction_id: String,
    pub signature: Vec<u8>,
}

impl TransferExecuteRequest {
    /// A copy of the signature bytes.
    pub fn get_signature(&self) -> (res: Vec<u8>)
        ensures
            res@ == self.signature@,
    {
        let mut out: Vec<u8> = Vec::new();
        append_bytes(&mut out, self.signature.as_slice());
        out
    }
}

/// The answer to a transfer initiation: the hash the user is to sign.
pub struct TransferInitResponse {
    pub msg_hash: [u8; 32],
    pub status: String,
    pub transaction_id: String,
}

/// A request to transfer `value` to `receiver`.
pub struct TransferRequest {
    pub receiver: String,
    pub value: String,
    pub metadata: Metadata,
}

impl TransferRequest {
    /// The receiver, trimmed.
    pub fn get_receiver(&self) -> (res: String)
        ensures
            res@ == trim_of(self.receiver@),
    {
        trimmed(self.receiver.as_str())
    }

    /// The value, trimmed.
    pub fn get_value(&self) -> (res: String)
        ensures
            res@ == trim_of(self.value@),
    {
        trimmed(self.value.as_str())
    }
}

/// The answer to a transfer execution or a deposit.
pub struct TransferResponse {
    pub transaction: TransactionResponse,
    pub transaction_id: String,
}

} // verus!
