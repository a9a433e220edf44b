//! The ERC-4337 user operation that the relayer builds, packs and hashes.

use vstd::prelude::*;
use crate::eth::{
    Address, H256, U256, abi_encode_address, abi_encode_h256, abi_encode_u256, abi_encode_u64,
    address_word, append_bytes, be_value, keccak256, keccak256_of, lemma_u64_word_value, u64_word,
    u256_from_u64,
};
use crate::models::config::DefaultGas;

verus! {

/// Transaction type for ERC-4337 account abstraction.
#[derive(Clone, Debug)]
pub struct UserOperation {
    /// Sender of the user operation
    pub sender: Address,
    /// Nonce (anti replay protection)
    pub nonce: U256,
    /// Init code for the account (needed if account not yet deployed and needs to be created)
    pub init_code: Vec<u8>,
    /// The data that is passed to the sender during the main execution call
    pub call_data: Vec<u8>,
    /// The amount of gas to allocate for the main execution call
    pub call_gas_limit: U256,
    /// The amount of gas to allocate for the verification step
    pub verification_gas_limit: U256,
    /// The amount of gas to pay bundler to compensate for the pre-verification execution and calldata
    pub pre_verification_gas: U256,
    /// Maximum fee per gas (similar to EIP-1559)
    pub max_fee_per_gas: U256,
    /// Maximum priority fee per gas (similar to EIP-1559)
    pub max_priority_fee_per_gas: U256,
    /// Address of paymaster sponsoring the user operation, followed by extra data to send to the paymaster (can be empty)
    pub paymaster_and_data: Vec<u8>,
    /// Data passed to the account along with the nonce during the verification step
    pub signature: Vec<u8>,
}

/// User operation without signature: its byte fields replaced by their
/// Keccak-256 digests.
#[derive(Clone, Copy, Debug)]
pub struct UserOperationUnsigned {
    pub sender: Address,
    pub nonce: U256,
    pub init_code: H256,
    pub call_data: H256,
    pub call_gas_limit: U256,
    pub verification_gas_limit: U256,
    pub pre_verification_gas: U256,
    pub max_fee_per_gas: U256,
    pub max_priority_fee_per_gas: U256,
    pub paymaster_and_data: H256,
}

/// The 65 zero bytes that stand in the place of a paymaster signature
/// that is not known yet.
pub open spec fn signature_placeholder() -> Seq<u8> {
    Seq::new(65, |i: int| 0u8)
}

/// The paymaster field: the paymaster's address, the data, then the
/// signature (or 65 zero bytes where none is given).
pub open spec fn paymaster_field(paymaster: Address, data: Seq<u8>, sign: Option<Seq<u8>>) -> Seq<u8> {
    paymaster.bytes@ + data + match sign {
        Some(s) => s,
        None => signature_placeholder(),
    }
}

/// `u` is `op` without its signature, each byte field by its digest.
pub open spec fn is_unsigned_of(u: UserOperationUnsigned, op: UserOperation) -> bool {
    &&& u.sender == op.sender
    &&& u.nonce == op.nonce
    &&& u.init_code.bytes@ == keccak256_of(op.init_code@)
    &&& u.call_data.bytes@ == keccak256_of(op.call_data@)
    &&& u.call_gas_limit == op.call_gas_limit
    &&& u.verification_gas_limit == op.verification_gas_limit
    &&& u.pre_verification_gas == op.pre_verification_gas
    &&& u.max_fee_per_gas == op.max_fee_per_gas
    &&& u.max_priority_fee_per_gas == op.max_priority_fee_per_gas
    &&& u.paymaster_and_data.bytes@ == keccak256_of(op.paymaster_and_data@)
}

/// The ABI encoding of `op` without its signature: ten 32-byte words,
/// with the byte fields replaced by their digests.
pub open spec fn packed(op: UserOperation) -> Seq<u8> {
    address_word(op.sender.bytes@) + op.nonce.be@ + keccak256_of(op.init_code@) + keccak256_of(
        op.call_data@,
    ) + op.call_gas_limit.be@ + op.verification_gas_limit.be@ + op.pre_verification_gas.be@
        + op.max_fee_per_gas.be@ + op.max_priority_fee_per_gas.be@ + keccak256_of(
        op.paymaster_and_data@,
    )
}

/// The hash that identifies `op` for `entry_point` on chain `chain_id`:
/// the digest of the digest of the packed operation, the entry point's
/// word and the chain id's word.
pub open spec fn user_op_hash(op: UserOperation, entry_point: Address, chain_id: u64) -> Seq<u8> {
    keccak256_of(keccak256_of(packed(op)) + address_word(entry_point.bytes@) + u64_word(chain_id))
}

/// The hash commits to the whole chain id: it is the digest of the
/// digest of the packed operation, the entry point's word, and a 32-byte
/// word that reads, big-endian, as the chain id, for every chain id.
pub proof fn lemma_hash_commits_to_chain_id(op: UserOperation, entry_point: Address, chain_id: u64)
    ensures
        exists|w: Seq<u8>|
            w.len() == 32 && #[trigger] be_value(w) == chain_id && user_op_hash(op, entry_point, chain_id)
                == keccak256_of(keccak256_of(packed(op)) + address_word(entry_point.bytes@) + w),
{
    lemma_u64_word_value(chain_id);
    assert(be_value(u64_word(chain_id)) == chain_id);
}

/// `op` is a fresh operation: every field empty or zero but the gas
/// limits and fees, which are the defaults.
pub open spec fn is_fresh(op: UserOperation, default_gas: DefaultGas) -> bool {
    &&& op.sender.bytes@ == Seq::new(20, |i: int| 0u8)
    &&& op.nonce.be@ == u64_word(0)
    &&& op.init_code@ == Seq::<u8>::empty()
    &&& op.call_data@ == Seq::<u8>::empty()
    &&& op.call_gas_limit.be@ == u64_word(default_gas.call_gas_limit)
    &&& op.verification_gas_limit.be@ == u64_word(default_gas.verification_gas_limit)
    &&& op.pre_verification_gas.be@ == u64_word(default_gas.pre_verification_gas)
    &&& op.max_fee_per_gas.be@ == u64_word(default_gas.max_fee_per_gas)
    &&& op.max_priority_fee_per_gas.be@ == u64_word(default_gas.max_priority_fee_per_gas)
    &&& op.paymaster_and_data@ == Seq::<u8>::empty()
    &&& op.signature@ == Seq::<u8>::empty()
}

/// A fresh operation's nonce is zero and its gas limits and fees read,
/// as numbers, as the defaults.
pub proof fn lemma_fresh_values(op: UserOperation, default_gas: DefaultGas)
    requires
        is_fresh(op, default_gas),
    ensures
        op.nonce.value() == 0,
        op.call_gas_limit.value() == default_gas.call_gas_limit,
        op.verification_gas_limit.value() == default_gas.verification_gas_limit,
        op.pre_verification_gas.value() == default_gas.pre_verification_gas,
        op.max_fee_per_gas.value() == default_gas.max_fee_per_gas,
        op.max_priority_fee_per_gas.value() == default_gas.max_priority_fee_per_gas,
{
    lemma_u64_word_value(0);
    lemma_u64_word_value(default_gas.call_gas_limit);
    lemma_u64_word_value(default_gas.verification_gas_limit);
    lemma_u64_word_value(default_gas.pre_verification_gas);
    lemma_u64_word_value(default_gas.max_fee_per_gas);
    lemma_u64_word_value(default_gas.max_priority_fee_per_gas);
}

/// The signature takes no part in an operation's hash: two operations
/// that differ only in their signatures have the same hash, for every
/// entry point and chain.
pub proof fn lemma_hash_ignores_signature(op: UserOperation, signature: Vec<u8>, entry_point: Address, chain_id: u64)
    ensures
        user_op_hash(UserOperation { signature, ..op }, entry_point, chain_id) == user_op_hash(
            op,
            entry_point,
            chain_id,
        ),
{
}

/// Operations whose byte fields have equal digests and whose other fields
/// (the signature aside) are equal have the same hash.
pub proof fn lemma_hash_by_digests(a: UserOperation, b: UserOperation, entry_point: Address, chain_id: u64)
    requires
        a.sender == b.sender,
        a.nonce == b.nonce,
        keccak256_of(a.init_code@) == keccak256_of(b.init_code@),
        keccak256_of(a.call_data@) == keccak256_of(b.call_data@),
        a.call_gas_limit == b.call_gas_limit,
        a.verification_gas_limit == b.verification_gas_limit,
        a.pre_verification_gas == b.pre_verification_gas,
        a.max_fee_per_gas == b.max_fee_per_gas,
        a.max_priority_fee_per_gas == b.max_priority_fee_per_gas,
        keccak256_of(a.paymaster_and_data@) == keccak256_of(b.paymaster_and_data@),
    ensures
        user_op_hash(a, entry_point, chain_id) == user_op_hash(b, entry_point, chain_id),
{
}

impl UserOperation {
    /// A user operation with every field empty or zero but the gas limits
    /// and fees, which come from the defaults.
    pub fn new(default_gas: &DefaultGas) -> (res: UserOperation)
        ensures
            is_fresh(res, *default_gas),
            res.nonce.value() == 0,
            res.call_gas_limit.value() == default_gas.call_gas_limit,
            res.verification_gas_limit.value() == default_gas.verification_gas_limit,
            res.pre_verification_gas.value() == default_gas.pre_verification_gas,
            res.max_fee_per_gas.value() == default_gas.max_fee_per_gas,
            res.max_priority_fee_per_gas.value() == default_gas.max_priority_fee_per_gas,
    {
        let res = UserOperation {
            sender: Address { bytes: [0u8; 20] },
            nonce: u256_from_u64(0),
            init_code: Vec::new(),
            call_data: Vec::new(),
            call_gas_limit: u256_from_u64(default_gas.call_gas_limit),
            verification_gas_limit: u256_from_u64(default_gas.verification_gas_limit),
            pre_verification_gas: u256_from_u64(default_gas.pre_verification_gas),
            max_fee_per_gas: u256_from_u64(default_gas.max_fee_per_gas),
            max_priority_fee_per_gas: u256_from_u64(default_gas.max_priority_fee_per_gas),
            paymaster_and_data: Vec::new(),
            signature: Vec::new(),
        };
        assert(res.sender.bytes@ =~= Seq::new(20, |i: int| 0u8));
        proof {
            lemma_fresh_values(res, *default_gas);
        }
        res
    }

    /// Sets the sender of the user operation.
    pub fn sender(&mut self, sender: Address) -> (ret: &mut UserOperation)
        ensures
            *ret == (UserOperation { sender, ..*old(self) }),
            *final(self) == *final(ret),
    {
        self.sender = sender;
        self
    }

    /// Sets the nonce of the user operation.
    pub fn nonce(&mut self, nonce: u64) -> (ret: &mut UserOperation)
        ensures
            ret.nonce.be@ == u64_word(nonce),
            ret.nonce.value() == nonce,
            *ret == (UserOperation { nonce: ret.nonce, ..*old(self) }),
            *final(self) == *final(ret),
    {
        self.nonce = u256_from_u64(nonce);
        proof {
            lemma_u64_word_value(nonce);
        }
        self
    }

    /// Sets the init code of the user operation: the factory's address
    /// followed by the account-creation call.
    pub fn init_code(&mut self, factory_address: Address, create_account_payload: Vec<u8>) -> (ret: &mut UserOperation)
        ensures
            ret.init_code@ == factory_address.bytes@ + create_account_payload@,
            *ret == (UserOperation { init_code: ret.init_code, ..*old(self) }),
            *final(self) == *final(ret),
    {
        let mut code: Vec<u8> = Vec::new();
        append_bytes(&mut code, &factory_address.bytes);
        append_bytes(&mut code, create_account_payload.as_slice());
        self.init_code = code;
        self
    }

    /// Sets the call data of the user operation.
    pub fn call_data(&mut self, call_data: Vec<u8>) -> (ret: &mut UserOperation)
        ensures
            *ret == (UserOperation { call_data, ..*old(self) }),
            *final(self) == *final(ret),
    {
        self.call_data = call_data;
        self
    }

    /// Sets the call gas limit of the user operation.
    pub fn call_gas_limit(&mut self, call_gas_limit: U256) -> (ret: &mut UserOperation)
        ensures
            *ret == (UserOperation { call_gas_limit, ..*old(self) }),
            *final(self) == *final(ret),
    {
        self.call_gas_limit = call_gas_limit;
        self
    }

    /// Sets the verification gas limit of the user operation.
    pub fn verification_gas_limit(&mut self, verification_gas_limit: U256) -> (ret: &mut UserOperation)
        ensures
            *ret == (UserOperation { verification_gas_limit, ..*old(self) }),
            *final(self) == *final(ret),
    {
        self.verification_gas_limit = verification_gas_limit;
        self
    }

    /// Sets the pre-verification gas of the user operation.
    pub fn pre_verification_gas(&mut self, pre_verification_gas: U256) -> (ret: &mut UserOperation)
        ensures
            *ret == (UserOperation { pre_verification_gas, ..*old(self) }),
            *final(self) == *final(ret),
    {
        self.pre_verification_gas = pre_verification_gas;
        self
    }

    /// Sets the max fee per gas of the user operation.
    pub fn max_fee_per_gas(&mut self, max_fee_per_gas: U256) -> (ret: &mut UserOperation)
        ensures
            *ret == (UserOperation { max_fee_per_gas, ..*old(self) }),
            *final(self) == *final(ret),
    {
        self.max_fee_per_gas = max_fee_per_gas;
        self
    }

    /// Sets the max priority fee per gas of the user operation.
    pub fn max_priority_fee_per_gas(&mut self, max_priority_fee_per_gas: U256) -> (ret: &mut UserOperation)
        ensures
            *ret == (UserOperation { max_priority_fee_per_gas, ..*old(self) }),
            *final(self) == *final(ret),
    {
        self.max_priority_fee_per_gas = max_priority_fee_per_gas;
        self
    }

    /// Sets the paymaster and data of the user operation: the paymaster's
    /// address, the data, then the signature, or 65 zero bytes where
    /// there is none yet.
    pub fn paymaster_and_data(&mut self, data: Vec<u8>, paymaster: Address, sign: Option<Vec<u8>>) -> (ret: &mut UserOperation)
        ensures
            ret.paymaster_and_data@ == paymaster_field(
                paymaster,
                data@,
                match sign {
                    Some(s) => Some(s@),
                    None => None,
                },
            ),
            *ret == (UserOperation { paymaster_and_data: ret.paymaster_and_data, ..*old(self) }),
            *final(self) == *final(ret),
    {
        let mut field: Vec<u8> = Vec::new();
        append_bytes(&mut field, &paymaster.bytes);
        append_bytes(&mut field, data.as_slice());
        match sign {
            Some(s) => append_bytes(&mut field, s.as_slice()),
            None => {
                let zeros: Vec<u8> = zero_bytes(65);
                append_bytes(&mut field, zeros.as_slice());
            },
        }
        self.paymaster_and_data = field;
        self
    }

    /// Sets the signature of the user operation.
    pub fn signature(&mut self, signature: Vec<u8>) -> (ret: &mut UserOperation)
        ensures
            *ret == (UserOperation { signature, ..*old(self) }),
            *final(self) == *final(ret),
    {
        self.signature = signature;
        self
    }

    /// The hash that identifies this operation for `entry_point` on chain
    /// `chain_id`; the signature takes no part in it.
    pub fn hash(&self, entry_point: Address, chain_id: u64) -> (res: [u8; 32])
        ensures
            res@ == user_op_hash(*self, entry_point, chain_id),
            exists|w: Seq<u8>|
                w.len() == 32 && #[trigger] be_value(w) == chain_id && res@ == keccak256_of(
                    keccak256_of(packed(*self)) + address_word(entry_point.bytes@) + w,
                ),
    {
        let packed_op = self.pack_without_signature();
        let inner = keccak256(packed_op.as_slice());
        let mut buf: Vec<u8> = Vec::new();
        append_bytes(&mut buf, &inner);
        let ep = abi_encode_address(entry_point);
        append_bytes(&mut buf, ep.as_slice());
        let cid = abi_encode_u64(chain_id);
        append_bytes(&mut buf, cid.as_slice());
        proof {
            lemma_u64_word_value(chain_id);
            assert(be_value(cid@) == chain_id);
        }
        keccak256(buf.as_slice())
    }

    /// The ABI encoding of the operation without its signature.
    pub fn pack_without_signature(&self) -> (res: Vec<u8>)
        ensures
            res@ == packed(*self),
            res@.len() == 320,
    {
        let u = UserOperationUnsigned::digest_of(self);
        u.encode()
    }
}

/// `n` zero bytes.
pub fn zero_bytes(n: usize) -> (res: Vec<u8>)
    ensures
        res@ == Seq::new(n as nat, |i: int| 0u8),
{
    let mut v: Vec<u8> = Vec::new();
    let mut i: usize = 0;
    while i < n
        invariant
            i <= n,
            v@ == Seq::new(i as nat, |j: int| 0u8),
        decreases n - i,
    {
        v.push(0u8);
        i = i + 1;
        assert(v@ =~= Seq::new(i as nat, |j: int| 0u8));
    }
    v
}

impl UserOperationUnsigned {
    /// The operation without its signature, each byte field replaced by
    /// its digest.
    pub fn from(value: UserOperation) -> (res: UserOperationUnsigned)
        ensures
            is_unsigned_of(res, value),
    {
        Self::digest_of(&value)
    }

    fn digest_of(value: &UserOperation) -> (res: UserOperationUnsigned)
        ensures
            is_unsigned_of(res, *value),
    {
        UserOperationUnsigned {
            sender: value.sender,
            nonce: value.nonce,
            init_code: H256 { bytes: keccak256(value.init_code.as_slice()) },
            call_data: H256 { bytes: keccak256(value.call_data.as_slice()) },
            call_gas_limit: value.call_gas_limit,
            verification_gas_limit: value.verification_gas_limit,
            pre_verification_gas: value.pre_verification_gas,
            max_fee_per_gas: value.max_fee_per_gas,
            max_priority_fee_per_gas: value.max_priority_fee_per_gas,
            paymaster_and_data: H256 { bytes: keccak256(value.paymaster_and_data.as_slice()) },
        }
    }

    /// The ABI encoding: one 32-byte word per field, in field order.
    pub fn encode(&self) -> (res: Vec<u8>)
        ensures
            res@ == address_word(self.sender.bytes@) + self.nonce.be@ + self.init_code.bytes@
                + self.call_data.bytes@ + self.call_gas_limit.be@ + self.verification_gas_limit.be@
                + self.pre_verification_gas.be@ + self.max_fee_per_gas.be@
                + self.max_priority_fee_per_gas.be@ + self.paymaster_and_data.bytes@,
            res@.len() == 320,
    {
        let mut out: Vec<u8> = Vec::new();
        let w = abi_encode_address(self.sender);
        append_bytes(&mut out, w.as_slice());
        let w = abi_encode_u256(self.nonce);
        append_bytes(&mut out, w.as_slice());
        let w = abi_encode_h256(self.init_code);
        append_bytes(&mut out, w.as_slice());
        let w = abi_encode_h256(self.call_data);
        append_bytes(&mut out, w.as_slice());
        let w = abi_encode_u256(self.call_gas_limit);
        append_bytes(&mut out, w.as_slice());
        let w = abi_encode_u256(self.verification_gas_limit);
        append_bytes(&mut out, w.as_slice());
        let w = abi_encode_u256(self.pre_verification_gas);
        append_bytes(&mut out, w.as_slice());
        let w = abi_encode_u256(self.max_fee_per_gas);
        append_bytes(&mut out, w.as_slice());
        let w = abi_encode_u256(self.max_priority_fee_per_gas);
        append_bytes(&mut out, w.as_slice());
        let w = abi_encode_h256(self.paymaster_and_data);
        append_bytes(&mut out, w.as_slice());
        out
    }
}

} // verus!
