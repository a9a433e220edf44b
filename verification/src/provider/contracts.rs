//! The call data of the contract functions the service calls: a
//! function's selector followed by its arguments in ABI words.

use vstd::prelude::*;
use crate::eth::{
    Address, U256, abi_encode_address, abi_encode_u256, abi_encode_u64, address_word, append_bytes,
    be_value, keccak256, keccak256_of, lemma_u64_word_value, u256_dec, u64_word,
};
use crate::models::contract_interaction::zero_bytes;

verus! {

/// The selector of a function: the first four bytes of the digest of
/// its signature's UTF-8 text.
pub open spec fn selector(signature: Seq<char>) -> Seq<u8> {
    keccak256_of(vstd::utf8::encode_utf8(signature)).subrange(0, 4)
}

/// `b` followed by zeros up to a whole number of 32-byte words.
pub open spec fn padded_to_words(b: Seq<u8>) -> Seq<u8> {
    b + Seq::new(((32 - b.len() % 32) % 32) as nat, |i: int| 0u8)
}

/// The ABI encoding of a `bytes` argument standing alone after `words`
/// static words: its length word, then its bytes padded to words.
pub open spec fn bytes_tail(b: Seq<u8>) -> Seq<u8> {
    u64_word(b.len() as u64) + padded_to_words(b)
}

/// The call data of `transfer(address,uint256)`.
pub open spec fn erc20_transfer_data(to: Address, amount: U256) -> Seq<u8> {
    selector("transfer(address,uint256)"@) + address_word(to.bytes@) + amount.be@
}

/// The call data of `mint(address,uint256)`.
pub open spec fn erc20_mint_data(to: Address, amount: U256) -> Seq<u8> {
    selector("mint(address,uint256)"@) + address_word(to.bytes@) + amount.be@
}

/// The call data of `depositTo(address)`.
pub open spec fn deposit_to_data(account: Address) -> Seq<u8> {
    selector("depositTo(address)"@) + address_word(account.bytes@)
}

/// The call data of `createAccount(address,uint256)`.
pub open spec fn create_account_data(owner: Address, salt: u64) -> Seq<u8> {
    selector("createAccount(address,uint256)"@) + address_word(owner.bytes@) + u64_word(salt)
}

/// The `createAccount` call carries the whole salt: its call data ends
/// with a 32-byte word that reads, big-endian, as the salt, and what
/// comes before that word is the selector and the owner's word, for
/// every owner and salt.
pub proof fn lemma_create_account_salt_word(owner: Address, salt: u64)
    ensures
        ({
            let d = create_account_data(owner, salt);
            &&& d.len() >= 32
            &&& be_value(d.subrange(d.len() - 32, d.len() as int)) == salt
            &&& d.subrange(0, d.len() - 32) == selector("createAccount(address,uint256)"@)
                + address_word(owner.bytes@)
        }),
{
    lemma_u64_word_value(salt);
    let d = create_account_data(owner, salt);
    let head = selector("createAccount(address,uint256)"@) + address_word(owner.bytes@);
    assert(d == head + u64_word(salt));
    assert(d.subrange(d.len() - 32, d.len() as int) =~= u64_word(salt));
    assert(d.subrange(0, d.len() - 32) =~= head);
}

/// The call data of `execute(address,uint256,bytes)`: the destination,
/// the value, the place of the bytes (after three words), then the bytes.
pub open spec fn account_execute_data(dest: Address, value: U256, func: Seq<u8>) -> Seq<u8> {
    selector("execute(address,uint256,bytes)"@) + address_word(dest.bytes@) + value.be@ + u64_word(96)
        + bytes_tail(func)
}

/// The `execute` call lays out its bytes argument as the ABI asks: after
/// the destination's and the value's words come a word that reads as 96
/// (where the bytes start, past the three head words), a word that reads
/// as their length, then the bytes, followed by fewer than 32 zero bytes
/// that end them on a whole word.
pub proof fn lemma_account_execute_layout(dest: Address, value: U256, func: Seq<u8>)
    requires
        func.len() <= u64::MAX,
    ensures
        exists|offset: Seq<u8>, length: Seq<u8>, pad: Seq<u8>|
            #![trigger be_value(offset), be_value(length), pad.len()]
            {
                &&& offset.len() == 32
                &&& be_value(offset) == 96
                &&& length.len() == 32
                &&& be_value(length) == func.len()
                &&& pad.len() < 32
                &&& (func.len() + pad.len()) % 32 == 0
                &&& forall|i: int| 0 <= i < pad.len() ==> pad[i] == 0u8
                &&& account_execute_data(dest, value, func) == selector(
                    "execute(address,uint256,bytes)"@,
                ) + address_word(dest.bytes@) + value.be@ + offset + length + func + pad
            },
{
    let offset = u64_word(96);
    let length = u64_word(func.len() as u64);
    let pad = Seq::new(((32 - func.len() % 32) % 32) as nat, |i: int| 0u8);
    lemma_u64_word_value(96);
    lemma_u64_word_value(func.len() as u64);
    assert(padded_to_words(func) == func + pad);
    assert((func.len() + pad.len()) % 32 == 0);
    assert(account_execute_data(dest, value, func) =~= selector("execute(address,uint256,bytes)"@)
        + address_word(dest.bytes@) + value.be@ + offset + length + func + pad);
    assert(be_value(offset) == 96 && be_value(length) == func.len() && pad.len() < 32);
}

fn selector_of(signature: &str) -> (res: Vec<u8>)
    ensures
        res@ == selector(signature@),
{
    let h = keccak256(signature.as_bytes());
    let res = vec![h[0], h[1], h[2], h[3]];
    assert(res@ =~= h@.subrange(0, 4));
    res
}

/// Calls `U256::from_dec_str`. Claimed: it reads decimal digits only (no
/// digit reading as zero) whose value fits in 256 bits, and gives that
/// value.
#[verifier::external_body]
fn u256_from_dec_str(s: &str) -> (res: Option<U256>)
    ensures
        match res {
            Some(v) => u256_dec(s@) == Some(v.value()),
            None => u256_dec(s@) is None,
        },
{
    match ethers::types::U256::from_dec_str(s) {
        Ok(v) => {
            let mut be = [0u8; 32];
            v.to_big_endian(&mut be);
            Some(U256 { be })
        },
        Err(_) => None,
    }
}

/// An amount written in decimal, as the token and account contracts
/// take it; none where it is not such an amount.
pub fn amount_of(value: &str) -> (res: Option<U256>)
    ensures
        match res {
            Some(v) => u256_dec(value@) == Some(v.value()),
            None => u256_dec(value@) is None,
        },
{
    u256_from_dec_str(value)
}

/// The call data that transfers `amount` of a token to `to`.
pub fn erc20_transfer(to: Address, amount: U256) -> (res: Vec<u8>)
    ensures
        res@ == erc20_transfer_data(to, amount),
{
    let mut data = selector_of("transfer(address,uint256)");
    let w = abi_encode_address(to);
    append_bytes(&mut data, w.as_slice());
    let w = abi_encode_u256(amount);
    append_bytes(&mut data, w.as_slice());
    data
}

/// The call data that mints `amount` of a token for `to`.
pub fn erc20_mint(to: Address, amount: U256) -> (res: Vec<u8>)
    ensures
        res@ == erc20_mint_data(to, amount),
{
    let mut data = selector_of("mint(address,uint256)");
    let w = abi_encode_address(to);
    append_bytes(&mut data, w.as_slice());
    let w = abi_encode_u256(amount);
    append_bytes(&mut data, w.as_slice());
    data
}

/// The call data that adds a deposit for `account` at the entry point.
pub fn deposit_to(account: Address) -> (res: Vec<u8>)
    ensures
        res@ == deposit_to_data(account),
{
    let mut data = selector_of("depositTo(address)");
    let w = abi_encode_address(account);
    append_bytes(&mut data, w.as_slice());
    data
}

/// The call data that makes the factory create the account of `owner`
/// with `salt`.
pub fn create_account(owner: Address, salt: u64) -> (res: Vec<u8>)
    ensures
        res@ == create_account_data(owner, salt),
        res@.len() >= 32,
        be_value(res@.subrange(res@.len() - 32, res@.len() as int)) == salt,
        res@.subrange(0, res@.len() - 32) == selector("createAccount(address,uint256)"@)
            + address_word(owner.bytes@),
{
    let mut data = selector_of("createAccount(address,uint256)");
    let w = abi_encode_address(owner);
    append_bytes(&mut data, w.as_slice());
    let w = abi_encode_u64(salt);
    append_bytes(&mut data, w.as_slice());
    proof {
        lemma_create_account_salt_word(owner, salt);
    }
    data
}

/// The call data that makes a wallet call `dest` with `value` and `func`.
pub fn account_execute(dest: Address, value: U256, func: &[u8]) -> (res: Vec<u8>)
    ensures
        res@ == account_execute_data(dest, value, func@),
{
    let mut data = selector_of("execute(address,uint256,bytes)");
    let w = abi_encode_address(dest);
    append_bytes(&mut data, w.as_slice());
    let w = abi_encode_u256(value);
    append_bytes(&mut data, w.as_slice());
    let w = abi_encode_u64(96);
    append_bytes(&mut data, w.as_slice());
    let n = func.len();
    let w = abi_encode_u64(n as u64);
    append_bytes(&mut data, w.as_slice());
    append_bytes(&mut data, func);
    let pad: usize = (32 - n % 32) % 32;
    let zeros = zero_bytes(pad);
    append_bytes(&mut data, zeros.as_slice());
    proof {
        assert(data@ =~= account_execute_data(dest, value, func@));
    }
    data
}

} // verus!
