//! The verifying paymaster's form of a user operation.

use vstd::prelude::*;
use crate::eth::{Address, U256};
use crate::models::contract_interaction;

verus! {

/// A user operation as the verifying paymaster contract takes it.
pub struct UserOperation {
    pub sender: Address,
    pub nonce: U256,
    pub init_code: Vec<u8>,
    pub call_data: Vec<u8>,
    pub call_gas_limit: U256,
    pub verification_gas_limit: U256,
    pub pre_verification_gas: U256,
    pub max_fee_per_gas: U256,
    pub max_priority_fee_per_gas: U256,
    pub paymaster_and_data: Vec<u8>,
    pub signature: Vec<u8>,
}

/// The operation, field by field, in the paymaster contract's form.
pub fn get_verifying_paymaster_user_operation_payload(user_op: contract_interaction::UserOperation) -> (res: UserOperation)
    ensures
        res.sender == user_op.sender,
        res.nonce == user_op.nonce,
        res.init_code == user_op.init_code,
        res.call_data == user_op.call_data,
        res.call_gas_limit == user_op.call_gas_limit,
        res.verification_gas_limit == user_op.verification_gas_limit,
        res.pre_verification_gas == user_op.pre_verification_gas,
        res.max_fee_per_gas == user_op.max_fee_per_gas,
        res.max_priority_fee_per_gas == user_op.max_priority_fee_per_gas,
        res.paymaster_and_data == user_op.paymaster_and_data,
        res.signature == user_op.signature,
{
    UserOperation {
        sender: user_op.sender,
        nonce: user_op.nonce,
        init_code: user_op.init_code,
        call_data: user_op.call_data,
        call_gas_limit: user_op.call_gas_limit,
        verification_gas_limit: user_op.verification_gas_limit,
        pre_verification_gas: user_op.pre_verification_gas,
        max_fee_per_gas: user_op.max_fee_per_gas,
        max_priority_fee_per_gas: user_op.max_priority_fee_per_gas,
        signature: user_op.signature,
        paymaster_and_data: user_op.paymaster_and_data,
    }
}

} // verus!
