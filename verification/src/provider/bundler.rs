//! The JSON-RPC calls to the bundler: the requests, and how their answers
//! are read.

use vstd::prelude::*;
use crate::eth::{Address, U256, hex_string};
use crate::errors::ProviderError;
use crate::models::contract_interaction::UserOperation;

verus! {

/// A JSON-RPC request.
pub struct Request<T> {
    pub jsonrpc: String,
    pub id: u64,
    pub method: String,
    pub params: T,
}

/// The parameters of the bundler's user-operation methods: the operation
/// and the entry point's address in hex.
pub struct UserOperationParams {
    pub user_operation: UserOperation,
    pub entry_point: String,
}

/// The gas limits that the bundler estimates for an operation.
pub struct EstimateResult {
    pub pre_verification_gas: U256,
    pub verification_gas_limit: U256,
    pub call_gas_limit: U256,
}

/// The error part of a JSON-RPC answer.
pub struct ErrorDetails {
    pub code: i32,
    pub message: String,
}

/// A JSON-RPC answer.
pub struct Response<T> {
    pub jsonrpc: String,
    pub id: u64,
    pub result: Option<T>,
    pub error: Option<ErrorDetails>,
}

/// The request that calls `method` on the bundler for an operation and an
/// entry point: JSON-RPC 2.0 with id 1.
pub open spec fn is_user_operation_request(r: Request<UserOperationParams>, method: Seq<char>, op: UserOperation, entry_point: Address) -> bool {
    &&& r.jsonrpc@ == "2.0"@
    &&& r.id == 1
    &&& r.method@ == method
    &&& r.params.user_operation == op
    &&& r.params.entry_point@ == hex_string(entry_point.bytes@)
}

fn user_operation_request(method: &str, user_op: UserOperation, entry_point: Address) -> (res: Request<UserOperationParams>)
    ensures
        is_user_operation_request(res, method@, user_op, entry_point),
{
    Request {
        jsonrpc: String::from_str("2.0"),
        id: 1,
        method: String::from_str(method),
        params: UserOperationParams { user_operation: user_op, entry_point: entry_point.to_hex_string() },
    }
}

/// The request that asks the bundler to estimate an operation's gas.
pub fn estimate_gas_request(user_op: UserOperation, entry_point: Address) -> (res: Request<UserOperationParams>)
    ensures
        is_user_operation_request(res, "eth_estimateUserOperationGas"@, user_op, entry_point),
{
    user_operation_request("eth_estimateUserOperationGas", user_op, entry_point)
}

/// The request that submits an operation to the bundler.
pub fn submit_transaction_request(user_operation: UserOperation, entry_point: Address) -> (res: Request<UserOperationParams>)
    ensures
        is_user_operation_request(res, "eth_sendUserOperation"@, user_operation, entry_point),
{
    user_operation_request("eth_sendUserOperation", user_operation, entry_point)
}

/// Reads the bundler's answer to a gas estimate: an error part makes it a
/// failure, else its result is the estimate.
pub fn estimate_gas_result(response: Response<EstimateResult>) -> (res: Result<EstimateResult, ProviderError>)
    requires
        response.error is None ==> response.result is Some,
    ensures
        match res {
            Ok(e) => response.error is None && response.result == Some(e),
            Err(ProviderError(m)) => response.error is Some && m@ == "Failed to estimate gas"@,
        },
{
    if response.error.is_some() {
        return Err(ProviderError(String::from_str("Failed to estimate gas")));
    }
    Ok(response.result.unwrap())
}

/// Reads the bundler's answer to a submission: an error part makes it a
/// failure, else its result is the operation's hash.
pub fn submit_transaction_result(response: Response<String>) -> (res: Result<String, ProviderError>)
    requires
        response.error is None ==> response.result is Some,
    ensures
        match res {
            Ok(h) => response.error is None && response.result == Some(h),
            Err(ProviderError(m)) => response.error is Some && m@ == "Failed to submit transaction"@,
        },
{
    if response.error.is_some() {
        return Err(ProviderError(String::from_str("Failed to submit transaction")));
    }
    Ok(response.result.unwrap())
}

} // verus!
