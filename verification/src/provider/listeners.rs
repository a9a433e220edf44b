//! What the watcher of a submitted operation records once its event is
//! seen.

use vstd::prelude::*;
use ethers::abi::{parse_abi, RawLog};
use ethers::types::H256 as EthH256;
use crate::eth::{H256, hex_string};
use crate::models::transfer::Status;

verus! {

/// The boolean parameter `param` of the log with these topics and data,
/// decoded as the event `event` of the contract interface `interface`
/// (human-readable ABI text) by `Event::parse_log`; none where the
/// interface does not parse, the log does not decode as that event, or
/// the parameter is missing or no boolean.
pub uninterp spec fn log_bool_param_of(
    interface: Seq<char>,
    event: Seq<char>,
    param: Seq<char>,
    topics: Seq<Seq<u8>>,
    data: Seq<u8>,
) -> Option<bool>;

/// The bytes of each topic.
pub open spec fn topic_views(topics: Seq<[u8; 32]>) -> Seq<Seq<u8>> {
    topics.map_values(|t: [u8; 32]| t@)
}

/// Parses `interface` with `parse_abi`, decodes the log as its event
/// `event` with `Event::parse_log`, and takes the parameter named
/// `param` as a boolean. Claimed: the outcome is a function of the
/// arguments alone.
#[verifier::external_body]
fn decode_log_bool_param(interface: &str, event: &str, param: &str, topics: Vec<[u8; 32]>, data: Vec<u8>) -> (res: Option<bool>)
    ensures
        res == log_bool_param_of(interface@, event@, param@, topic_views(topics@), data@),
{
    let abi = parse_abi(&[interface]).ok()?;
    let raw = RawLog { topics: topics.into_iter().map(EthH256).collect(), data };
    let log = abi.event(event).ok()?.parse_log(raw).ok()?;
    log.params.into_iter().find(|p| p.name == param)?.value.into_bool()
}

/// The entry point's event for a handled user operation.
pub const USER_OPERATION_EVENT: &'static str = "event UserOperationEvent(bytes32 indexed userOpHash, address indexed sender, address indexed paymaster, uint256 nonce, bool success, uint256 actualGasCost, uint256 actualGasUsed)";

/// Whether the entry point's `UserOperationEvent` log with these topics
/// and data reports success.
pub open spec fn user_op_event_success_of(topics: Seq<[u8; 32]>, data: Seq<u8>) -> Option<bool> {
    log_bool_param_of(
        USER_OPERATION_EVENT@,
        "UserOperationEvent"@,
        "success"@,
        topic_views(topics),
        data,
    )
}

/// The status a transfer ends in: success where the operation's event
/// reports success, else failure.
pub fn final_status(success: bool) -> (res: Status)
    ensures
        res == (if success { Status::SUCCESS } else { Status::FAILED }),
{
    if success {
        Status::SUCCESS
    } else {
        Status::FAILED
    }
}

/// The status recorded for the operation whose `UserOperationEvent` log
/// has these topics and data: success or failure as the event reports;
/// none where the log is no such event.
pub fn event_status(topics: Vec<[u8; 32]>, data: Vec<u8>) -> (res: Option<Status>)
    ensures
        res == match user_op_event_success_of(topics@, data@) {
            Some(s) => Some(if s { Status::SUCCESS } else { Status::FAILED }),
            None => None,
        },
{
    match decode_log_bool_param(USER_OPERATION_EVENT, "UserOperationEvent", "success", topics, data) {
        Some(s) => Some(final_status(s)),
        None => None,
    }
}

/// The text a transaction hash is recorded as: `0x` and its bytes in
/// lower-case hex.
pub fn transaction_hash_text(hash: H256) -> (res: String)
    ensures
        res@ == hex_string(hash.bytes@),
{
    hash.to_hex_string()
}

} // verus!
