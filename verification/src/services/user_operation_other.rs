//! A second form of the ERC-4337 user operation, with builders that take
//! and give the operation by value, its hash type, and the operation
//! with every field optional.

use vstd::prelude::*;
use crate::eth::{
    Address, H256, U256, keccak256, keccak256_of, lemma_u64_word_value, u256_from_u64, u64_word,
};

verus! {

/// Transaction type for ERC-4337 account abstraction.
pub struct UserOperation {
    /// Sender of the user operation
    pub sender: Address,
    /// Nonce (anti replay protection)
    pub nonce: U256,
    /// Init code for the account (needed if account not yet deployed and needs to be created)
    pub init_code: Vec<u8>,
    /// The data that is passed to the sender during the main execution call
    pub call_data: Vec<u8>,
    /// The amount of gas to allocate for the main execution call
    pub call_gas_limit: U256,
    /// The amount of gas to allocate for the verification step
    pub verification_gas_limit: U256,
    /// The amount of gas to pay bundler to compensate for the pre-verification execution and calldata
    pub pre_verification_gas: U256,
    /// Maximum fee per gas (similar to EIP-1559)
    pub max_fee_per_gas: U256,
    /// Maximum priority fee per gas (similar to EIP-1559)
    pub max_priority_fee_per_gas: U256,
    /// Address of paymaster sponsoring the user operation, followed by extra data to send to the paymaster (can be empty)
    pub paymaster_and_data: Vec<u8>,
    /// Data passed to the account along with the nonce during the verification step
    pub signature: Vec<u8>,
}

/// The address whose bytes are all zero.
pub open spec fn zero_address() -> Seq<u8> {
    Seq::new(20, |i: int| 0u8)
}

/// The 256-bit zero.
pub open spec fn zero_word() -> Seq<u8> {
    Seq::new(32, |i: int| 0u8)
}

/// `op` has every field zero or empty.
pub open spec fn is_default_op(op: UserOperation) -> bool {
    &&& op.sender.bytes@ == zero_address()
    &&& op.nonce.be@ == zero_word()
    &&& op.init_code@ == Seq::<u8>::empty()
    &&& op.call_data@ == Seq::<u8>::empty()
    &&& op.call_gas_limit.be@ == zero_word()
    &&& op.verification_gas_limit.be@ == zero_word()
    &&& op.pre_verification_gas.be@ == zero_word()
    &&& op.max_fee_per_gas.be@ == zero_word()
    &&& op.max_priority_fee_per_gas.be@ == zero_word()
    &&& op.paymaster_and_data@ == Seq::<u8>::empty()
    &&& op.signature@ == Seq::<u8>::empty()
}

fn zero_u256() -> (res: U256)
    ensures
        res.be@ == zero_word(),
{
    let res = U256 { be: [0u8; 32] };
    assert(res.be@ =~= zero_word());
    res
}

/// Calls `Address::random`. Claimed: nothing; the address is left to
/// chance.
#[verifier::external_body]
fn random_address() -> (res: Address) {
    Address { bytes: ethers::types::Address::random().0 }
}

impl UserOperation {
    /// An operation with every field zero or empty.
    pub fn default() -> (res: UserOperation)
        ensures
            is_default_op(res),
    {
        let res = UserOperation {
            sender: Address { bytes: [0u8; 20] },
            nonce: zero_u256(),
            init_code: Vec::new(),
            call_data: Vec::new(),
            call_gas_limit: zero_u256(),
            verification_gas_limit: zero_u256(),
            pre_verification_gas: zero_u256(),
            max_fee_per_gas: zero_u256(),
            max_priority_fee_per_gas: zero_u256(),
            paymaster_and_data: Vec::new(),
            signature: Vec::new(),
        };
        assert(res.sender.bytes@ =~= zero_address());
        res
    }

    /// Sets the sender of the user operation.
    pub fn sender(self, sender: Address) -> (res: Self)
        ensures
            res == (UserOperation { sender, ..self }),
    {
        UserOperation { sender, ..self }
    }

    /// Sets the nonce of the user operation.
    pub fn nonce(self, nonce: U256) -> (res: Self)
        ensures
            res == (UserOperation { nonce, ..self }),
    {
        UserOperation { nonce, ..self }
    }

    /// Sets the init code of the user operation.
    pub fn init_code(self, init_code: Vec<u8>) -> (res: Self)
        ensures
            res == (UserOperation { init_code, ..self }),
    {
        UserOperation { init_code, ..self }
    }

    /// Sets the call data of the user operation.
    pub fn call_data(self, call_data: Vec<u8>) -> (res: Self)
        ensures
            res == (UserOperation { call_data, ..self }),
    {
        UserOperation { call_data, ..self }
    }

    /// Sets the call gas limit of the user operation.
    pub fn call_gas_limit(self, call_gas_limit: U256) -> (res: Self)
        ensures
            res == (UserOperation { call_gas_limit, ..self }),
    {
        UserOperation { call_gas_limit, ..self }
    }

    /// Sets the verification gas limit of the user operation.
    pub fn verification_gas_limit(self, verification_gas_limit: U256) -> (res: Self)
        ensures
            res == (UserOperation { verification_gas_limit, ..self }),
    {
        UserOperation { verification_gas_limit, ..self }
    }

    /// Sets the pre-verification gas of the user operation.
    pub fn pre_verification_gas(self, pre_verification_gas: U256) -> (res: Self)
        ensures
            res == (UserOperation { pre_verification_gas, ..self }),
    {
        UserOperation { pre_verification_gas, ..self }
    }

    /// Sets the max fee per gas of the user operation.
    pub fn max_fee_per_gas(self, max_fee_per_gas: U256) -> (res: Self)
        ensures
            res == (UserOperation { max_fee_per_gas, ..self }),
    {
        UserOperation { max_fee_per_gas, ..self }
    }

    /// Sets the max priority fee per gas of the user operation.
    pub fn max_priority_fee_per_gas(self, max_priority_fee_per_gas: U256) -> (res: Self)
        ensures
            res == (UserOperation { max_priority_fee_per_gas, ..self }),
    {
        UserOperation { max_priority_fee_per_gas, ..self }
    }

    /// Sets the paymaster and data of the user operation.
    pub fn paymaster_and_data(self, paymaster_and_data: Vec<u8>) -> (res: Self)
        ensures
            res == (UserOperation { paymaster_and_data, ..self }),
    {
        UserOperation { paymaster_and_data, ..self }
    }

    /// Sets the signature of the user operation.
    pub fn signature(self, signature: Vec<u8>) -> (res: Self)
        ensures
            res == (UserOperation { signature, ..self }),
    {
        UserOperation { signature, ..self }
    }

    /// Creates a random user operation (for testing purposes): a random
    /// sender, verification gas 100000, pre-verification gas 21000 and
    /// priority fee 10^9, every other field zero or empty.
    pub fn random() -> (res: Self)
        ensures
            res.nonce.be@ == zero_word(),
            res.init_code@ == Seq::<u8>::empty(),
            res.call_data@ == Seq::<u8>::empty(),
            res.call_gas_limit.be@ == zero_word(),
            res.verification_gas_limit.be@ == u64_word(100_000),
            res.pre_verification_gas.be@ == u64_word(21_000),
            res.max_fee_per_gas.be@ == zero_word(),
            res.max_priority_fee_per_gas.be@ == u64_word(1_000_000_000),
            res.paymaster_and_data@ == Seq::<u8>::empty(),
            res.signature@ == Seq::<u8>::empty(),
            res.verification_gas_limit.value() == 100_000,
            res.pre_verification_gas.value() == 21_000,
            res.max_priority_fee_per_gas.value() == 1_000_000_000,
    {
        proof {
            lemma_u64_word_value(100_000);
            lemma_u64_word_value(21_000);
            lemma_u64_word_value(1_000_000_000);
        }
        UserOperation::default().sender(random_address()).verification_gas_limit(
            u256_from_u64(100_000),
        ).pre_verification_gas(u256_from_u64(21_000)).max_priority_fee_per_gas(
            u256_from_u64(1_000_000_000),
        )
    }

    /// Fills each field of a partial operation that is missing with zero
    /// or empty bytes.
    pub fn from(user_operation: UserOperationPartial) -> (res: UserOperation)
        ensures
            match user_operation.sender { Some(v) => res.sender == v, None => res.sender.bytes@ == zero_address() },
            match user_operation.nonce { Some(v) => res.nonce == v, None => res.nonce.be@ == zero_word() },
            match user_operation.init_code { Some(v) => res.init_code == v, None => res.init_code@ == Seq::<u8>::empty() },
            match user_operation.call_data { Some(v) => res.call_data == v, None => res.call_data@ == Seq::<u8>::empty() },
            match user_operation.call_gas_limit { Some(v) => res.call_gas_limit == v, None => res.call_gas_limit.be@ == zero_word() },
            match user_operation.verification_gas_limit { Some(v) => res.verification_gas_limit == v, None => res.verification_gas_limit.be@ == zero_word() },
            match user_operation.pre_verification_gas { Some(v) => res.pre_verification_gas == v, None => res.pre_verification_gas.be@ == zero_word() },
            match user_operation.max_fee_per_gas { Some(v) => res.max_fee_per_gas == v, None => res.max_fee_per_gas.be@ == zero_word() },
            match user_operation.max_priority_fee_per_gas { Some(v) => res.max_priority_fee_per_gas == v, None => res.max_priority_fee_per_gas.be@ == zero_word() },
            match user_operation.paymaster_and_data { Some(v) => res.paymaster_and_data == v, None => res.paymaster_and_data@ == Seq::<u8>::empty() },
            match user_operation.signature { Some(v) => res.signature == v, None => res.signature@ == Seq::<u8>::empty() },
    {
        let zero_sender = Address { bytes: [0u8; 20] };
        assert(zero_sender.bytes@ =~= zero_address());
        UserOperation {
            sender: match user_operation.sender { Some(v) => v, None => zero_sender },
            nonce: match user_operation.nonce { Some(v) => v, None => zero_u256() },
            init_code: match user_operation.init_code { Some(v) => v, None => Vec::new() },
            call_data: match user_operation.call_data { Some(v) => v, None => Vec::new() },
            call_gas_limit: match user_operation.call_gas_limit { Some(v) => v, None => zero_u256() },
            verification_gas_limit: match user_operation.verification_gas_limit { Some(v) => v, None => zero_u256() },
            pre_verification_gas: match user_operation.pre_verification_gas { Some(v) => v, None => zero_u256() },
            max_fee_per_gas: match user_operation.max_fee_per_gas { Some(v) => v, None => zero_u256() },
            max_priority_fee_per_gas: match user_operation.max_priority_fee_per_gas { Some(v) => v, None => zero_u256() },
            paymaster_and_data: match user_operation.paymaster_and_data { Some(v) => v, None => Vec::new() },
            signature: match user_operation.signature { Some(v) => v, None => Vec::new() },
        }
    }
}

/// User operation hash.
#[derive(Clone, Copy, Debug)]
pub struct UserOperationHash(pub H256);

impl UserOperationHash {
    /// The hash of the given bytes.
    pub fn from_bytes(value: [u8; 32]) -> (res: UserOperationHash)
        ensures
            res.0.bytes@ == value@,
    {
        UserOperationHash(H256 { bytes: value })
    }

    /// The hash as an `H256`.
    pub fn to_h256(self) -> (res: H256)
        ensures
            res == self.0,
    {
        self.0
    }

    /// The hash's bytes.
    pub fn as_fixed_bytes(&self) -> (res: &[u8; 32])
        ensures
            res@ == self.0.bytes@,
    {
        &self.0.bytes
    }

    /// The hash's bytes, to be written in place.
    pub fn as_bytes_mut(&mut self) -> (res: &mut [u8])
        ensures
            res@ == old(self).0.bytes@,
            final(self).0.bytes@ == final(res)@,
    {
        &mut self.0.bytes
    }

    /// A hash whose bytes are all `byte`.
    pub fn repeat_byte(byte: u8) -> (res: UserOperationHash)
        ensures
            res.0.bytes@ == Seq::new(32, |i: int| byte),
    {
        let res = UserOperationHash(H256 { bytes: [byte; 32] });
        assert(res.0.bytes@ =~= Seq::new(32, |i: int| byte));
        res
    }

    /// The hash whose bytes are all zero.
    pub fn zero() -> (res: UserOperationHash)
        ensures
            res.0.bytes@ == zero_word(),
    {
        UserOperationHash::repeat_byte(0u8)
    }

    /// Overwrites the hash's bytes with the 32 bytes of `src`.
    pub fn assign_from_slice(&mut self, src: &[u8])
        requires
            src@.len() == 32,
        ensures
            final(self).0.bytes@ == src@,
    {
        let mut i: usize = 0;
        while i < 32
            invariant
                src@.len() == 32,
                i <= 32,
                forall|j: int| 0 <= j < i ==> self.0.bytes@[j] == src@[j],
            decreases 32 - i,
        {
            self.0.bytes[i] = src[i];
            i = i + 1;
        }
        assert(self.0.bytes@ =~= src@);
    }

    /// The hash made of the 32 bytes of `src`.
    pub fn from_slice(src: &[u8]) -> (res: UserOperationHash)
        requires
            src@.len() == 32,
        ensures
            res.0.bytes@ == src@,
    {
        let mut ret = Self::zero();
        ret.assign_from_slice(src);
        ret
    }
}

/// User operation with all fields being optional.
pub struct UserOperationPartial {
    pub sender: Option<Address>,
    pub nonce: Option<U256>,
    pub init_code: Option<Vec<u8>>,
    pub call_data: Option<Vec<u8>>,
    pub call_gas_limit: Option<U256>,
    pub verification_gas_limit: Option<U256>,
    pub pre_verification_gas: Option<U256>,
    pub max_fee_per_gas: Option<U256>,
    pub max_priority_fee_per_gas: Option<U256>,
    pub paymaster_and_data: Option<Vec<u8>>,
    pub signature: Option<Vec<u8>>,
}

/// User operation without signature: its byte fields replaced by their
/// Keccak-256 digests.
#[derive(Clone, Copy, Debug)]
pub struct UserOperationUnsigned {
    pub sender: Address,
    pub nonce: U256,
    pub init_code: H256,
    pub call_data: H256,
    pub call_gas_limit: U256,
    pub verification_gas_limit: U256,
    pub pre_verification_gas: U256,
    pub max_fee_per_gas: U256,
    pub max_priority_fee_per_gas: U256,
    pub paymaster_and_data: H256,
}

impl UserOperationUnsigned {
    /// The operation without its signature, each byte field replaced by
    /// its digest.
    pub fn from(value: UserOperation) -> (res: UserOperationUnsigned)
        ensures
            res.sender == value.sender,
            res.nonce == value.nonce,
            res.init_code.bytes@ == keccak256_of(value.init_code@),
            res.call_data.bytes@ == keccak256_of(value.call_data@),
            res.call_gas_limit == value.call_gas_limit,
            res.verification_gas_limit == value.verification_gas_limit,
            res.pre_verification_gas == value.pre_verification_gas,
            res.max_fee_per_gas == value.max_fee_per_gas,
            res.max_priority_fee_per_gas == value.max_priority_fee_per_gas,
            res.paymaster_and_data.bytes@ == keccak256_of(value.paymaster_and_data@),
    {
        UserOperationUnsigned {
            sender: value.sender,
            nonce: value.nonce,
            init_code: H256 { bytes: keccak256(value.init_code.as_slice()) },
            call_data: H256 { bytes: keccak256(value.call_data.as_slice()) },
            call_gas_limit: value.call_gas_limit,
            verification_gas_limit: value.verification_gas_limit,
            pre_verification_gas: value.pre_verification_gas,
            max_fee_per_gas: value.max_fee_per_gas,
            max_priority_fee_per_gas: value.max_priority_fee_per_gas,
            paymaster_and_data: H256 { bytes: keccak256(value.paymaster_and_data.as_slice()) },
        }
    }
}

} // verus!
