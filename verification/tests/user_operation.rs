use bundler::eth::{Address, H256, U256};
use bundler::models::metadata::Metadata;
use bundler::models::token_metadata::TokenMetadata;
use bundler::provider::web3_provider::Web3Provider;
use bundler::services::admin_service::AdminService;
use bundler::services::balance_service::BalanceService;
use bundler::models::config::DefaultGas;
use bundler::models::contract_interaction::{UserOperation, UserOperationUnsigned};
use bundler::services::user_operation_other::{
    UserOperation as OtherUserOperation, UserOperationHash, UserOperationPartial,
};
use ethers::abi::{encode, AbiEncode, Token};
use ethers::types::{H160, U256 as EthU256};

fn gas() -> DefaultGas {
    DefaultGas {
        call_gas_limit: 100_000,
        verification_gas_limit: 200_000,
        pre_verification_gas: 50_000,
        max_fee_per_gas: 3_000_000_000,
        max_priority_fee_per_gas: 1_000_000_000,
    }
}

fn eth_u256(x: &U256) -> EthU256 {
    EthU256::from_big_endian(&x.be)
}

fn word(x: u64) -> U256 {
    let mut be = [0u8; 32];
    be[24..].copy_from_slice(&x.to_be_bytes());
    U256 { be }
}

#[test]
fn digest_of_empty_bytes() {
    let op = UserOperation::new(&gas());
    let u = UserOperationUnsigned::from(op);
    let expected: [u8; 32] = [
        0xc5, 0xd2, 0x46, 0x01, 0x86, 0xf7, 0x23, 0x3c, 0x92, 0x7e, 0x7d, 0xb2, 0xdc, 0xc7, 0x03, 0xc0,
        0xe5, 0x00, 0xb6, 0x53, 0xca, 0x82, 0x27, 0x3b, 0x7b, 0xfa, 0xd8, 0x04, 0x5d, 0x85, 0xa4, 0x70,
    ];
    assert_eq!(u.init_code.bytes, expected);
    assert_eq!(u.call_data.bytes, expected);
    assert_eq!(u.paymaster_and_data.bytes, expected);
}

#[test]
fn gas_defaults_are_big_endian_words() {
    let mut g = gas();
    g.call_gas_limit = 0x0102030405060708;
    let op = UserOperation::new(&g);
    assert_eq!(&op.call_gas_limit.be[..24], &[0u8; 24]);
    assert_eq!(&op.call_gas_limit.be[24..], &[1, 2, 3, 4, 5, 6, 7, 8]);
    assert_eq!(op.call_gas_limit, word(0x0102030405060708));
    let rows = || {
        vec![TokenMetadata {
            chain: String::new(),
            symbol: String::new(),
            contract_address: String::new(),
            exponent: 0,
            token_type: "native".to_string(),
            name: String::new(),
            chain_id: None,
            chain_name: None,
            token_image_url: None,
        }]
    };
    let r = BalanceService::response(op.call_gas_limit, String::new(), &String::new(), &rows());
    assert_eq!(r.balance, "72623859790382856");
    let zero = BalanceService::response(op.nonce, String::new(), &String::new(), &rows());
    assert_eq!(zero.balance, "0");
}

#[test]
fn ether_amounts() {
    let native = Metadata { currency: "native".to_string(), chain: "polygon".to_string() };
    let one = AdminService::check_topup("1", "verifying_paymaster", &native).unwrap();
    assert_eq!(EthU256::from_big_endian(&one.be), EthU256::from(1_000_000_000_000_000_000u64));
    let half = AdminService::check_topup("0.5", "verifying_paymaster", &native).unwrap();
    assert_eq!(EthU256::from_big_endian(&half.be), EthU256::from(500_000_000_000_000_000u64));
    assert!(AdminService::check_topup("abc", "verifying_paymaster", &native).is_err());
    assert_eq!(Web3Provider::balance_result(Ok(one)).unwrap(), "1.000000000000000000");
}

#[test]
fn addresses_read_and_print() {
    let a = BalanceService::wallet_of(&"0x00000000000000000000000000000000000000Ab".to_string()).unwrap();
    assert_eq!(a.bytes[19], 0xab);
    let r = AdminService::get_balance_response(&a, String::new(), String::new()).unwrap();
    assert_eq!(r.address, "0x00000000000000000000000000000000000000ab");
    let bare = BalanceService::wallet_of(&"00000000000000000000000000000000000000ab".to_string()).unwrap();
    assert_eq!(bare, a);
    let h = H256 { bytes: [0x11; 32] };
    assert_eq!(Web3Provider::sent_transaction_hash(h), format!("0x{}", "11".repeat(32)));
}

#[test]
fn new_operation_uses_default_gas() {
    let op = UserOperation::new(&gas());
    assert_eq!(op.sender.bytes, [0u8; 20]);
    assert_eq!(eth_u256(&op.nonce), EthU256::zero());
    assert_eq!(eth_u256(&op.call_gas_limit), EthU256::from(100_000u64));
    assert_eq!(eth_u256(&op.verification_gas_limit), EthU256::from(200_000u64));
    assert_eq!(eth_u256(&op.pre_verification_gas), EthU256::from(50_000u64));
    assert_eq!(eth_u256(&op.max_fee_per_gas), EthU256::from(3_000_000_000u64));
    assert_eq!(eth_u256(&op.max_priority_fee_per_gas), EthU256::from(1_000_000_000u64));
    assert!(op.init_code.is_empty() && op.call_data.is_empty());
    assert!(op.paymaster_and_data.is_empty() && op.signature.is_empty());
}

#[test]
fn builder_fields() {
    let mut op = UserOperation::new(&gas());
    let factory = Address { bytes: [0xfa; 20] };
    let paymaster = Address { bytes: [0xbb; 20] };
    op.init_code(factory, vec![1, 2, 3]).nonce(5).call_data(vec![9]);
    assert_eq!(op.init_code, [vec![0xfa; 20], vec![1, 2, 3]].concat());
    assert_eq!(eth_u256(&op.nonce), EthU256::from(5u64));
    assert_eq!(op.call_data, vec![9]);
    op.paymaster_and_data(vec![7, 7], paymaster, None);
    assert_eq!(op.paymaster_and_data, [vec![0xbb; 20], vec![7, 7], vec![0u8; 65]].concat());
    op.paymaster_and_data(vec![7, 7], paymaster, Some(vec![4; 65]));
    assert_eq!(op.paymaster_and_data, [vec![0xbb; 20], vec![7, 7], vec![4u8; 65]].concat());
    op.signature(vec![1; 65]);
    assert_eq!(op.signature, vec![1; 65]);
}

fn sample_op() -> UserOperation {
    let mut op = UserOperation::new(&gas());
    op.sender(Address { bytes: [0x22; 20] }).nonce(3).call_data(vec![0xaa, 0xbb]);
    op.init_code(Address { bytes: [0x33; 20] }, vec![0x01]);
    op.paymaster_and_data(vec![0x05], Address { bytes: [0x44; 20] }, None);
    op
}

#[test]
fn pack_matches_abi_encoding_of_the_unsigned_operation() {
    let op = sample_op();
    let packed = op.pack_without_signature();
    assert_eq!(packed.len(), 320);
    let expected = encode(&[Token::Tuple(vec![
        Token::Address(H160([0x22; 20])),
        Token::Uint(EthU256::from(3u64)),
        Token::FixedBytes(ethers::utils::keccak256(&op.init_code).to_vec()),
        Token::FixedBytes(ethers::utils::keccak256(&op.call_data).to_vec()),
        Token::Uint(EthU256::from(100_000u64)),
        Token::Uint(EthU256::from(200_000u64)),
        Token::Uint(EthU256::from(50_000u64)),
        Token::Uint(EthU256::from(3_000_000_000u64)),
        Token::Uint(EthU256::from(1_000_000_000u64)),
        Token::FixedBytes(ethers::utils::keccak256(&op.paymaster_and_data).to_vec()),
    ])]);
    assert_eq!(packed, expected);
    let u = UserOperationUnsigned::from(op.clone());
    assert_eq!(u.init_code.bytes, ethers::utils::keccak256(&op.init_code));
    assert_eq!(u.encode(), expected);
}

#[test]
fn hash_follows_the_entry_point_formula_and_ignores_the_signature() {
    let op = sample_op();
    let entry_point = Address { bytes: [0x5f; 20] };
    let h = op.hash(entry_point, 137);
    let inner = ethers::utils::keccak256(op.pack_without_signature());
    let expected = ethers::utils::keccak256(
        [inner.to_vec(), H160([0x5f; 20]).encode(), 137u64.encode()].concat(),
    );
    assert_eq!(h, expected);
    let mut signed = op.clone();
    signed.signature(vec![9; 65]);
    assert_eq!(signed.hash(entry_point, 137), h);
    assert_ne!(op.hash(entry_point, 1), h);
}

#[test]
fn other_operation_builders_and_partial() {
    let op = OtherUserOperation::default()
        .sender(Address { bytes: [1; 20] })
        .nonce(word(2))
        .call_data(vec![3])
        .signature(vec![4]);
    assert_eq!(op.sender.bytes, [1; 20]);
    assert_eq!(op.call_data, vec![3]);
    assert_eq!(op.signature, vec![4]);
    let r = OtherUserOperation::random();
    assert_eq!(EthU256::from_big_endian(&r.verification_gas_limit.be), EthU256::from(100_000u64));
    assert_eq!(EthU256::from_big_endian(&r.pre_verification_gas.be), EthU256::from(21_000u64));
    assert_eq!(EthU256::from_big_endian(&r.max_priority_fee_per_gas.be), EthU256::from(1_000_000_000u64));
    let p = UserOperationPartial {
        sender: None,
        nonce: Some(word(9)),
        init_code: None,
        call_data: Some(vec![1]),
        call_gas_limit: None,
        verification_gas_limit: None,
        pre_verification_gas: None,
        max_fee_per_gas: None,
        max_priority_fee_per_gas: None,
        paymaster_and_data: None,
        signature: None,
    };
    let full = OtherUserOperation::from(p);
    assert_eq!(full.sender.bytes, [0; 20]);
    assert_eq!(EthU256::from_big_endian(&full.nonce.be), EthU256::from(9u64));
    assert_eq!(full.call_data, vec![1]);
    assert!(full.init_code.is_empty());
    assert_eq!(full.call_gas_limit.be, [0; 32]);
}

#[test]
fn user_operation_hash_bytes() {
    let z = UserOperationHash::zero();
    assert_eq!(*z.as_fixed_bytes(), [0u8; 32]);
    let r = UserOperationHash::repeat_byte(7);
    assert_eq!(*r.as_fixed_bytes(), [7u8; 32]);
    let bytes: Vec<u8> = (0..32).collect();
    let h = UserOperationHash::from_slice(&bytes);
    assert_eq!(h.as_fixed_bytes().to_vec(), bytes);
    let mut m = UserOperationHash::zero();
    m.assign_from_slice(&[5u8; 32]);
    assert_eq!(*m.as_fixed_bytes(), [5u8; 32]);
    assert_eq!(UserOperationHash::from_bytes([8; 32]).to_h256().bytes, [8; 32]);
    let mut w = UserOperationHash::zero();
    w.as_bytes_mut()[31] = 0x2a;
    assert_eq!(w.as_fixed_bytes()[31], 0x2a);
    assert_eq!(w.as_bytes_mut().len(), 32);
}
