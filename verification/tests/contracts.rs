use bundler::eth::{Address, U256};
use bundler::provider::contracts::{
    account_execute, amount_of, create_account, deposit_to, erc20_mint, erc20_transfer,
};
use ethers::abi::{encode, short_signature, ParamType, Token};
use ethers::types::{H160, U256 as EthU256};

fn call(name: &str, params: &[ParamType], args: &[Token]) -> Vec<u8> {
    let mut out = short_signature(name, params).to_vec();
    out.extend(encode(args));
    out
}

fn eth(x: &U256) -> EthU256 {
    EthU256::from_big_endian(&x.be)
}

#[test]
fn amounts_are_decimal_numbers() {
    assert_eq!(eth(&amount_of("100000000").unwrap()), EthU256::from(100_000_000u64));
    assert_eq!(eth(&amount_of("").unwrap()), EthU256::zero());
    assert!(amount_of("1.5").is_none());
    assert!(amount_of("+1").is_none());
    assert!(amount_of(&"9".repeat(80)).is_none());
}

#[test]
fn token_calls_match_the_abi() {
    let to = Address { bytes: [0x22; 20] };
    let amount = amount_of("1234").unwrap();
    let args = [Token::Address(H160([0x22; 20])), Token::Uint(EthU256::from(1234u64))];
    assert_eq!(erc20_transfer(to, amount), call("transfer", &[ParamType::Address, ParamType::Uint(256)], &args));
    assert_eq!(erc20_mint(to, amount), call("mint", &[ParamType::Address, ParamType::Uint(256)], &args));
}

#[test]
fn entry_point_and_factory_calls_match_the_abi() {
    let a = Address { bytes: [0x33; 20] };
    assert_eq!(deposit_to(a), call("depositTo", &[ParamType::Address], &[Token::Address(H160([0x33; 20]))]));
    assert_eq!(
        create_account(a, 77),
        call(
            "createAccount",
            &[ParamType::Address, ParamType::Uint(256)],
            &[Token::Address(H160([0x33; 20])), Token::Uint(EthU256::from(77u64))]
        )
    );
}

#[test]
fn account_execute_matches_the_abi() {
    let dest = Address { bytes: [0x44; 20] };
    let value = amount_of("5").unwrap();
    let params = [ParamType::Address, ParamType::Uint(256), ParamType::Bytes];
    for func in [vec![], vec![1u8, 2, 3], vec![9u8; 32], vec![7u8; 33]] {
        let expected = call(
            "execute",
            &params,
            &[Token::Address(H160([0x44; 20])), Token::Uint(EthU256::from(5u64)), Token::Bytes(func.clone())],
        );
        assert_eq!(account_execute(dest, value, &func), expected);
    }
}
