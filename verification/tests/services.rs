use bundler::constants::{VALID_AFTER, VALID_UNTIL};
use bundler::errors::{AdminError, ApiError, BalanceError, TransferError};
use bundler::eth::{Address, U256};
use bundler::models::config::{DefaultGas, ENV};
use bundler::models::contract_interaction::UserOperation;
use bundler::models::currency::Currency;
use bundler::models::metadata::Metadata;
use bundler::models::token_metadata::TokenMetadata;
use bundler::models::transfer::Status;
use bundler::models::user::User;
use bundler::models::wallet::Balance;
use bundler::provider::bundler::EstimateResult;
use bundler::services::admin_service::{AdminService, BalanceEntity};
use bundler::services::auth_service::{AuthData, AuthService};
use bundler::services::balance_service::BalanceService;
use bundler::services::metadata_service::MetadataService;
use bundler::services::mint_service::{MintService, MINT_UNITS};
use bundler::services::transfer_service::{
    CallPlan, ExecuteEvent, ExecuteStep, InitEvent, InitStep, StoredUserOperation, TransferExecute,
    TransferInit, TransferService,
};
use bundler::services::wallet_service::{AddressSearch, SearchEvent, SearchStep, WalletService};
use bundler::provider::helpers::get_hash;
use base64::Engine;
use ethers::abi::{encode, Token};
use ethers::types::U256 as EthU256;

const WALLET: &str = "0x1111111111111111111111111111111111111111";
const RECEIVER: &str = "0x2222222222222222222222222222222222222222";

fn gas() -> DefaultGas {
    DefaultGas {
        call_gas_limit: 100_000,
        verification_gas_limit: 200_000,
        pre_verification_gas: 50_000,
        max_fee_per_gas: 3,
        max_priority_fee_per_gas: 1,
    }
}

fn user(wallet: &str, deployed: bool) -> User {
    User {
        email: "a@b.c".to_string(),
        name: "Ann".to_string(),
        wallet_address: wallet.to_string(),
        owner_address: String::new(),
        external_user_id: "user-1".to_string(),
        salt: 0,
        deployed,
    }
}

fn token_row(token_type: &str, exponent: i32) -> TokenMetadata {
    TokenMetadata {
        chain: "polygon".to_string(),
        symbol: "USDC".to_string(),
        contract_address: String::new(),
        exponent,
        token_type: token_type.to_string(),
        name: "USD Coin".to_string(),
        chain_id: None,
        chain_name: None,
        token_image_url: None,
    }
}

fn addr(byte: u8) -> Address {
    Address { bytes: [byte; 20] }
}

#[test]
fn topup_checks_currency_paymaster_and_value() {
    let native = Metadata { currency: "native".to_string(), chain: "polygon".to_string() };
    let usdc = Metadata { currency: "usdc".to_string(), chain: "polygon".to_string() };
    let wei = AdminService::check_topup("1.5", "verifying_paymaster", &native).unwrap();
    assert_eq!(wei, word(1_500_000_000_000_000_000));
    assert!(matches!(AdminService::check_topup("1", "verifying_paymaster", &usdc), Err(AdminError::InvalidCurrency)));
    match AdminService::check_topup("1", "paymaster", &native) {
        Err(AdminError::ValidationError(m)) => assert_eq!(m, "Invalid Paymaster"),
        other => panic!("unexpected {:?}", other),
    }
    match AdminService::check_topup("one", "verifying_paymaster", &native) {
        Err(AdminError::ValidationError(m)) => assert_eq!(m, "Invalid value"),
        other => panic!("unexpected {:?}", other),
    }
}

#[test]
fn deposit_response_links_the_hash_or_passes_the_failure() {
    let r = AdminService::deposit_response(Ok("0xabc".to_string()), "https://scan/tx/").unwrap();
    assert_eq!(r.transaction.transaction_hash, "0xabc");
    assert_eq!(r.transaction.status, "pending");
    assert_eq!(r.transaction.explorer, "https://scan/tx/0xabc");
    assert_eq!(r.transaction_id, "");
    match AdminService::deposit_response(Err("no funds".to_string()), "https://scan/tx/") {
        Err(AdminError::Provider(m)) => assert_eq!(m, "no funds"),
        other => panic!("unexpected {:?}", other.is_ok()),
    }
}

#[test]
fn balance_request_entities() {
    let native = Balance { chain: "polygon".to_string(), currency: "native".to_string() };
    let usdc = Balance { chain: "polygon".to_string(), currency: "usdc".to_string() };
    assert_eq!(AdminService::check_balance_request("paymaster", &native).unwrap(), BalanceEntity::Paymaster);
    assert_eq!(AdminService::check_balance_request("relayer", &native).unwrap(), BalanceEntity::Relayer);
    assert!(matches!(AdminService::check_balance_request("relayer", &usdc), Err(AdminError::InvalidCurrency)));
    match AdminService::check_balance_request("treasury", &native) {
        Err(AdminError::ValidationError(m)) => assert_eq!(m, "Invalid entity"),
        other => panic!("unexpected {:?}", other),
    }
}

#[test]
fn admin_balance_response_prints_the_address() {
    let r = AdminService::get_balance_response(&addr(0xab), "1.0".to_string(), "native".to_string()).unwrap();
    assert_eq!(r.address, format!("0x{}", "ab".repeat(20)));
    assert_eq!(r.balance, "1.0");
    assert_eq!(r.currency, "native");
    assert_eq!(r.exponent, 0);
}

#[test]
fn bearer_token_and_decoding() {
    assert_eq!(AuthService::bearer_token("Bearer  abc.def \n"), Some("abc.def".to_string()));
    assert_eq!(AuthService::bearer_token("Bearer "), Some(String::new()));
    assert_eq!(AuthService::bearer_token("bearer abc"), None);
    assert_eq!(AuthService::bearer_token("Basic abc"), None);
    let claims = || AuthData { name: None, email: None, verifier_id: Some("user-1".to_string()) };
    assert_eq!(AuthService::decoded(Some(true), Some(claims())).err().unwrap(), "Sorry, token expired");
    assert_eq!(AuthService::decoded(Some(false), None).err().unwrap(), "Failed to decode token");
    let d = AuthService::decoded(None, Some(claims())).ok().unwrap();
    assert_eq!(AuthService::verifier_id_of(Ok(d)).unwrap(), "user-1");
    let anonymous = AuthData { name: None, email: None, verifier_id: None };
    assert!(matches!(AuthService::verifier_id_of(Ok(anonymous)), Err(ApiError::Unauthorized)));
    assert!(matches!(AuthService::verifier_id_of(Err("bad".to_string())), Err(ApiError::Unauthorized)));
}

#[test]
fn balance_lookup_steps() {
    assert!(matches!(BalanceService::wallet_of(&String::new()), Err(BalanceError::NotFound)));
    assert_eq!(BalanceService::wallet_of(&WALLET.to_string()).unwrap(), addr(0x11));
    assert!(matches!(BalanceService::currency_of(&vec![]), Err(BalanceError::InvalidCurrency)));
    assert!(matches!(BalanceService::currency_of(&vec![token_row("nft", 0)]), Err(BalanceError::InvalidCurrency)));
    assert_eq!(BalanceService::currency_of(&vec![token_row("ERC20", 6)]).unwrap(), Currency::Erc20);
    assert_eq!(BalanceService::currency_of(&vec![token_row("native", 18)]).unwrap(), Currency::Native);
    let r = BalanceService::response(word(1234), WALLET.to_string(), &"usdc".to_string(), &vec![token_row("erc20", 6)]);
    assert_eq!(r.balance, "1234");
    assert_eq!(r.address, WALLET);
    assert_eq!(r.currency, "usdc");
    assert_eq!(r.exponent, 6);
}

#[test]
fn minting_is_refused_in_production_only() {
    assert!(MintService::minting_allowed(ENV::Development));
    assert!(MintService::minting_allowed(ENV::Staging));
    assert!(!MintService::minting_allowed(ENV::Production));
}

#[test]
fn user_transaction_record() {
    let t = TransferService::get_user_transaction(
        &RECEIVER.to_string(), &"0.50".to_string(), &"usdc".to_string(), WALLET.to_string(), "txn", "polygon",
    );
    assert_eq!(t.amount, "0.50");
    assert_eq!(t.status, "initiated");
    assert_eq!(t.transaction_type, "debit");
    assert_eq!(t.metadata.chain, "polygon");
    assert_eq!(t.metadata.transaction_hash, "");
    assert_eq!(t.from_address, WALLET);
    assert_eq!(t.user_address, WALLET);
    assert_eq!(t.to_address, RECEIVER);
    assert_eq!(t.transaction_id.len(), 10);
    assert!(t.transaction_id.starts_with("txn_"));
    assert!(TransferService::checked_user_transaction(
        &RECEIVER.to_string(), &"ten".to_string(), &"usdc".to_string(), WALLET.to_string(), "txn", "polygon",
    ).is_none());
}

#[test]
fn call_plan_by_currency_type() {
    let usdc = addr(0x33);
    match TransferService::get_call_data(&vec![token_row("erc20", 6)], &RECEIVER.to_string(), "5".to_string(), usdc).unwrap() {
        CallPlan::Erc20 { token, to, value } => {
            assert_eq!(token, usdc);
            assert_eq!(to, addr(0x22));
            assert_eq!(value, "5");
        }
        _ => panic!("expected an ERC-20 call"),
    }
    match TransferService::get_call_data(&vec![token_row("Native", 18)], &RECEIVER.to_string(), "7".to_string(), usdc).unwrap() {
        CallPlan::Native { to, value } => {
            assert_eq!(to, addr(0x22));
            assert_eq!(value, "7");
        }
        _ => panic!("expected a native send"),
    }
    assert!(matches!(
        TransferService::get_call_data(&vec![token_row("nft", 0)], &RECEIVER.to_string(), "7".to_string(), usdc),
        Err(TransferError::InvalidCurrency)
    ));
    assert!(TransferService::checked_call_data(&vec![token_row("erc20", 6)], &"nobody".to_string(), "1".to_string(), usdc).is_none());
    assert!(matches!(
        TransferService::checked_call_data(&vec![token_row("nft", 0)], &"nobody".to_string(), "1".to_string(), usdc),
        Some(Err(TransferError::InvalidCurrency))
    ));
}

#[test]
fn validity_window_is_the_abi_encoding_of_both_ends() {
    let expected = encode(&[Token::Uint(EthU256::from(VALID_UNTIL)), Token::Uint(EthU256::from(VALID_AFTER))]);
    assert_eq!(TransferService::validity_window(), expected);
}

fn estimate() -> EstimateResult {
    EstimateResult {
        pre_verification_gas: word(11),
        verification_gas_limit: word(22),
        call_gas_limit: word(33),
    }
}

fn start_init(deployed: bool) -> TransferInit {
    TransferInit::start(
        &user(WALLET, deployed), &RECEIVER.to_string(), &"10".to_string(), &"usdc".to_string(), "txn",
        "polygon", &gas(), addr(0x44), addr(0x55), 137,
    ).ok().unwrap()
}

#[test]
fn transfer_init_runs_through_every_step() {
    let mut t = start_init(false);
    assert_eq!(t.step, InitStep::CallData);
    t.step(InitEvent::CallData(vec![1, 2, 3]));
    assert_eq!(t.step, InitStep::InitCode);
    t.step(InitEvent::InitCode { factory: addr(0x66), payload: vec![9, 9] });
    assert_eq!(t.step, InitStep::Nonce);
    assert_eq!(t.wallet, addr(0x11));
    let mut init_code = vec![0x66u8; 20];
    init_code.extend_from_slice(&[9, 9]);
    assert_eq!(t.user_op.init_code, init_code);
    let mut field = vec![0x44u8; 20];
    field.extend_from_slice(&TransferService::validity_window());
    field.extend_from_slice(&[0u8; 65]);
    assert_eq!(t.user_op.paymaster_and_data, field);
    t.step(InitEvent::Nonce(word(5)));
    assert_eq!(t.step, InitStep::Signature);
    assert_eq!(t.user_op.nonce, word(5));
    assert_eq!(t.user_op.sender, addr(0x11));
    t.step(InitEvent::Signature(vec![7; 65]));
    assert_eq!(t.step, InitStep::FirstPaymasterHash);
    t.step(InitEvent::PaymasterHash(vec![8; 65]));
    assert_eq!(t.step, InitStep::Fees);
    t.step(InitEvent::Fees { max_fee_per_gas: word(40), max_priority_fee_per_gas: word(2) });
    assert_eq!(t.step, InitStep::GasEstimate);
    assert_eq!(t.user_op.max_fee_per_gas, word(40));
    assert_eq!(t.user_op.max_priority_fee_per_gas, word(2));
    t.step(InitEvent::GasEstimate(estimate()));
    assert_eq!(t.step, InitStep::SecondPaymasterHash);
    assert_eq!(t.user_op.call_gas_limit, word(33));
    assert_eq!(t.user_op.verification_gas_limit, word(22));
    assert_eq!(t.user_op.pre_verification_gas, word(11));
    t.step(InitEvent::PaymasterHash(vec![6; 65]));
    assert_eq!(t.step, InitStep::Stored);
    let mut field = vec![0x44u8; 20];
    field.extend_from_slice(&TransferService::validity_window());
    field.extend_from_slice(&[6u8; 65]);
    assert_eq!(t.user_op.paymaster_and_data, field);
    t.step(InitEvent::Stored);
    assert_eq!(t.step, InitStep::Done);
    let r = t.respond();
    assert_eq!(r.msg_hash, t.user_op.hash(addr(0x55), 137));
    assert_eq!(r.status, "initiated");
    assert_eq!(r.transaction_id, t.user_txn.transaction_id);
}

#[test]
fn transfer_init_for_a_deployed_wallet_skips_the_init_code() {
    let mut t = start_init(true);
    t.step(InitEvent::CallData(vec![4]));
    assert_eq!(t.step, InitStep::Nonce);
    assert_eq!(t.user_op.call_data, vec![4]);
    assert!(t.user_op.init_code.is_empty());
    assert_eq!(t.wallet, addr(0x11));
}

#[test]
fn transfer_init_needs_a_wallet() {
    let r = TransferInit::start(
        &user("", false), &RECEIVER.to_string(), &"10".to_string(), &"usdc".to_string(), "txn",
        "polygon", &gas(), addr(0x44), addr(0x55), 137,
    );
    assert!(matches!(r, Err(TransferError::NotFound)));
    let c = TransferInit::checked_start(
        &user(WALLET, false), &RECEIVER.to_string(), &"1e".to_string(), &"usdc".to_string(), "txn",
        "polygon", &gas(), addr(0x44), addr(0x55), 137,
    );
    assert!(c.is_none());
}

fn stored(status: &str) -> StoredUserOperation {
    let mut op = UserOperation::new(&gas());
    op.call_data(vec![1, 2]);
    StoredUserOperation { transaction_id: "txn_abc123".to_string(), status: status.to_string(), user_operation: op }
}

#[test]
fn transfer_execute_submits_with_the_users_signature() {
    let mut e = TransferExecute::start(&user(WALLET, true), "txn_abc123".to_string(), vec![5; 65], &gas()).ok().unwrap();
    assert_eq!(e.step, ExecuteStep::LoadOperation);
    e.step(ExecuteEvent::Loaded(stored("initiated"))).ok().unwrap();
    assert_eq!(e.step, ExecuteStep::MarkPending);
    assert_eq!(e.status_to_record(), Status::PENDING);
    e.step(ExecuteEvent::PendingMarked).ok().unwrap();
    assert_eq!(e.user_op.signature, vec![5; 65]);
    assert_eq!(e.user_op.call_data, vec![1, 2]);
    e.step(ExecuteEvent::Submitted(Ok("0xop".to_string()))).ok().unwrap();
    assert_eq!(e.step, ExecuteStep::RecordSubmitted);
    assert_eq!(e.status_to_record(), Status::SUBMITTED);
    e.step(ExecuteEvent::Recorded).ok().unwrap();
    assert_eq!(e.step, ExecuteStep::Done);
    let unsigned = stored("initiated").user_operation;
    assert_eq!(e.operation_hash(addr(0x55), 137), unsigned.hash(addr(0x55), 137));
    let r = e.respond("https://scan/tx/");
    assert_eq!(r.transaction.transaction_hash, "");
    assert_eq!(r.transaction.status, "pending");
    assert_eq!(r.transaction.explorer, "https://scan/tx/");
    assert_eq!(r.transaction_id, "txn_abc123");
}

#[test]
fn transfer_execute_refusals() {
    assert!(matches!(
        TransferExecute::start(&user("", true), "t".to_string(), vec![], &gas()),
        Err(TransferError::NotFound)
    ));
    let mut e = TransferExecute::start(&user(WALLET, true), "txn_abc123".to_string(), vec![5; 65], &gas()).ok().unwrap();
    assert!(matches!(e.step(ExecuteEvent::Loaded(stored("pending"))), Err(TransferError::TxnNotFound)));
    let mut e = TransferExecute::start(&user(WALLET, true), "txn_abc123".to_string(), vec![5; 65], &gas()).ok().unwrap();
    e.step(ExecuteEvent::Loaded(stored("initiated"))).ok().unwrap();
    e.step(ExecuteEvent::PendingMarked).ok().unwrap();
    e.step(ExecuteEvent::Submitted(Err(bundler::errors::ProviderError("down".to_string())))).ok().unwrap();
    assert_eq!(e.step, ExecuteStep::RecordFailure);
    assert_eq!(e.status_to_record(), Status::FAILED);
    match e.step(ExecuteEvent::Recorded) {
        Err(TransferError::Provider(m)) => assert_eq!(m, "Failed to submit transaction"),
        other => panic!("unexpected {:?}", other),
    }
}

#[test]
fn address_search_retries_with_the_clock_after_a_foreign_account() {
    let mut s = AddressSearch::start("user-1");
    assert_eq!(s.salt, get_hash("user-1".to_string()));
    s.step(SearchEvent::AddressComputed(addr(0x77)), "ours");
    assert_eq!(s.step, SearchStep::CheckCode);
    s.step(SearchEvent::CodeChecked(true), "ours");
    assert_eq!(s.step, SearchStep::AskDeployer);
    s.step(SearchEvent::DeployerIs("theirs".to_string()), "ours");
    assert_eq!(s.step, SearchStep::ReadClock);
    s.step(SearchEvent::ClockRead(1700000000123), "ours");
    assert_eq!(s.step, SearchStep::ComputeAddress);
    assert_eq!(s.suffix, "1700000000123");
    assert_eq!(s.salt, get_hash("user-11700000000123".to_string()));
    assert_ne!(s.salt, get_hash("user-1".to_string()));
    s.step(SearchEvent::AddressComputed(addr(0x78)), "ours");
    s.step(SearchEvent::CodeChecked(false), "ours");
    assert_eq!(s.step, SearchStep::Done);
    let w = s.result();
    assert_eq!(w.address, addr(0x78));
    assert_eq!(w.salt, get_hash("user-11700000000123".to_string()));
    assert!(!w.deployed);
}

#[test]
fn address_search_keeps_an_account_of_ours() {
    let mut s = AddressSearch::start("user-2");
    s.step(SearchEvent::AddressComputed(addr(0x79)), "ours");
    s.step(SearchEvent::CodeChecked(true), "ours");
    s.step(SearchEvent::DeployerIs("ours".to_string()), "ours");
    assert_eq!(s.step, SearchStep::Done);
    let w = s.result();
    assert!(w.deployed);
    assert_eq!(w.address, addr(0x79));
    assert_eq!(w.salt, get_hash("user-2".to_string()));
}

#[test]
fn wallet_helpers() {
    assert!(WalletService::existing_wallet(&user("", false)).is_none());
    let w = WalletService::existing_wallet(&user(WALLET, true)).unwrap();
    assert_eq!(w.address, addr(0x11));
    assert_eq!(w.salt, 0);
    assert!(w.deployed);
    assert!(WalletService::is_deployed_by_us("ours", "ours"));
    assert!(!WalletService::is_deployed_by_us("Ours", "ours"));
    assert_eq!(WalletService::listing_start(Some(42)), 42);
    assert_eq!(WalletService::listing_start(None), i32::MAX);
}

#[test]
fn listing_keeps_the_order_of_the_rows() {
    let mut a = TransferService::get_user_transaction(
        &RECEIVER.to_string(), &"1".to_string(), &"usdc".to_string(), WALLET.to_string(), "txn", "polygon",
    );
    a.id = 1;
    a.metadata.transaction_hash = "0xaa".to_string();
    let mut b = TransferService::get_user_transaction(
        &RECEIVER.to_string(), &"2".to_string(), &"usdc".to_string(), WALLET.to_string(), "txn", "polygon",
    );
    b.id = 2;
    let listed = WalletService::list_transactions(vec![a, b], "https://scan/tx/");
    assert_eq!(listed.len(), 2);
    assert_eq!(listed[0].id, 1);
    assert_eq!(listed[0].amount.value, "1");
    assert_eq!(listed[0].metadata.explorer_url, "https://scan/tx/0xaa");
    assert_eq!(listed[0].metadata.gas.value, "0");
    assert_eq!(listed[1].id, 2);
    assert_eq!(listed[1].amount.value, "2");
    assert_eq!(listed[1].metadata.explorer_url, "https://scan/tx/");
}

#[test]
fn the_nonce_keeps_its_low_64_bits() {
    let mut t = start_init(true);
    t.step(InitEvent::CallData(vec![]));
    let mut be = [0xffu8; 32];
    be[24..].copy_from_slice(&42u64.to_be_bytes());
    t.step(InitEvent::Nonce(U256 { be }));
    assert_eq!(t.user_op.nonce, word(42));
}

fn token(payload: &str) -> String {
    let enc = |s: &str| base64::engine::general_purpose::URL_SAFE_NO_PAD.encode(s);
    format!("{}.{}.sig", enc("{\"alg\":\"RS256\"}"), enc(payload))
}

#[test]
fn tokens_are_split_and_checked_for_expiry() {
    let live = AuthService::checked_decode_jwt(&token("{\"verifierId\":\"user-1\",\"exp\":4102444800}")).unwrap();
    assert_eq!(live.expired, Some(false));
    assert_eq!(live.jwt.payload().get_str("verifierId"), Some("user-1"));
    let claims: serde_json::Value = serde_json::from_str(&live.payload).unwrap();
    assert_eq!(claims["verifierId"], "user-1");
    assert_eq!(claims["exp"], 4102444800u64);
    let old = AuthService::checked_decode_jwt(&token("{\"exp\":1000}")).unwrap();
    assert_eq!(old.expired, Some(true));
    let open_ended = AuthService::decode_jwt(&token("{\"name\":\"Ann\"}"));
    assert_eq!(open_ended.expired, None);
    assert_eq!(open_ended.payload, "{\"name\":\"Ann\"}");
    let t = token("{\"exp\":1000}");
    assert_eq!(AuthService::decode_jwt_at(&t, 999, 999_999_999).expired, Some(false));
    assert_eq!(AuthService::decode_jwt_at(&t, 1000, 0).expired, Some(false));
    assert_eq!(AuthService::decode_jwt_at(&t, 1000, 1).expired, Some(true));
    assert_eq!(AuthService::decode_jwt_at(&t, 1001, 0).expired, Some(true));
    assert_eq!(AuthService::decode_jwt_at(&token("{\"a\":1}"), 5, 0).expired, None);
    assert!(AuthService::checked_decode_jwt(&token("{\"exp\":1e30}")).is_none());
    assert!(AuthService::checked_decode_jwt("only.two").is_none());
    assert!(AuthService::checked_decode_jwt("a.b.c").is_none());
    assert!(AuthService::checked_decode_jwt(&token("not json")).is_none());
}

#[test]
fn the_submitted_operation_has_the_hash_the_user_signed() {
    let mut t = start_init(true);
    t.step(InitEvent::CallData(vec![4, 5]));
    t.step(InitEvent::Nonce(word(9)));
    t.step(InitEvent::Signature(vec![7; 65]));
    t.step(InitEvent::PaymasterHash(vec![8; 65]));
    t.step(InitEvent::Fees { max_fee_per_gas: word(40), max_priority_fee_per_gas: word(2) });
    t.step(InitEvent::GasEstimate(estimate()));
    t.step(InitEvent::PaymasterHash(vec![6; 65]));
    t.step(InitEvent::Stored);
    let signed = t.respond().msg_hash;
    let row = StoredUserOperation {
        transaction_id: t.user_txn.transaction_id.clone(),
        status: t.user_txn.status.clone(),
        user_operation: t.user_op.clone(),
    };
    let mut e = TransferExecute::start(&user(WALLET, true), row.transaction_id.clone(), vec![0xee; 65], &gas()).ok().unwrap();
    e.step(ExecuteEvent::Loaded(row)).ok().unwrap();
    e.step(ExecuteEvent::PendingMarked).ok().unwrap();
    assert_eq!(e.user_op.signature, vec![0xee; 65]);
    assert_eq!(e.operation_hash(addr(0x55), 137), signed);
}

fn word(x: u64) -> U256 {
    let mut be = [0u8; 32];
    be[24..].copy_from_slice(&x.to_be_bytes());
    U256 { be }
}

fn topup(value: &str) -> Result<EthU256, String> {
    let native = Metadata { currency: "native".to_string(), chain: "polygon".to_string() };
    match AdminService::check_topup(value, "verifying_paymaster", &native) {
        Ok(v) => Ok(EthU256::from_big_endian(&v.be)),
        Err(AdminError::ValidationError(m)) => Err(m),
        Err(e) => panic!("unexpected {:?}", e),
    }
}

#[test]
fn ether_amounts_as_parse_ether_reads_them() {
    let ether = EthU256::exp10(18);
    assert_eq!(topup("1_000").unwrap(), ether * 1000);
    assert_eq!(topup(".5").unwrap(), ether / 2);
    assert_eq!(topup("2.").unwrap(), ether * 2);
    assert_eq!(topup("").unwrap(), EthU256::zero());
    assert_eq!(topup("-").unwrap(), EthU256::zero());
    assert_eq!(topup("0.0000000000000000001").unwrap(), EthU256::zero());
    assert_eq!(topup("1.2345678901234567891").unwrap(), EthU256::from(1_234_567_890_123_456_789u64));
    assert_eq!(topup("-1").unwrap(), EthU256::MAX - ether + 1);
    assert_eq!(topup("-0").unwrap_err(), "Invalid value");
    assert_eq!(topup("+1").unwrap_err(), "Invalid value");
    assert_eq!(topup("1.2.3").unwrap_err(), "Invalid value");
    assert_eq!(topup("1e18").unwrap_err(), "Invalid value");
}

#[test]
fn an_operation_marked_pending_is_not_submitted_again() {
    let mut first = TransferExecute::start(&user(WALLET, true), "txn_abc123".to_string(), vec![5; 65], &gas()).ok().unwrap();
    first.step(ExecuteEvent::Loaded(stored("initiated"))).ok().unwrap();
    let marked = first.status_to_record().to_string();
    let mut later = TransferExecute::start(&user(WALLET, true), "txn_abc123".to_string(), vec![6; 65], &gas()).ok().unwrap();
    assert!(matches!(later.step(ExecuteEvent::Loaded(stored(&marked))), Err(TransferError::TxnNotFound)));
}

#[test]
fn metadata_service_answers_for_the_current_chain() {
    let chain = bundler::models::config::Chain {
        chain_id: 137,
        url: String::new(),
        explorer_url: String::new(),
        bundler_url: String::new(),
        simple_account_factory_address: addr(1),
        usdc_address: addr(2),
        currency: "MATIC".to_string(),
        entrypoint_address: addr(3),
        verifying_paymaster_address: addr(4),
    };
    let r = MetadataService.get_chain(vec![token_row("erc20", 6)], "polygon".to_string(), &chain);
    assert_eq!(r.chain, "polygon");
    assert_eq!(r.chain_id, 137);
    assert_eq!(r.currency, "MATIC");
    assert_eq!(r.exponents.entries().len(), 1);
}

#[test]
fn authorization_header_and_request_user() {
    assert!(matches!(AuthService::authorization_token(None), Err(ApiError::Unauthorized)));
    assert!(matches!(AuthService::authorization_token(Some("Basic x")), Err(ApiError::Unauthorized)));
    assert_eq!(AuthService::authorization_token(Some("Bearer  t.o.k ")).unwrap(), "t.o.k");
    assert!(matches!(AuthService::request_user(None, Some(user(WALLET, true))), Err(ApiError::Unauthorized)));
    let fresh = user("", false);
    let chosen = AuthService::request_user(Some(fresh), Some(user(WALLET, true))).ok().unwrap();
    assert_eq!(chosen.wallet_address, WALLET);
    let chosen = AuthService::request_user(Some(user("", false)), None).ok().unwrap();
    assert_eq!(chosen.wallet_address, "");
}

#[test]
fn native_balance_failure_message() {
    assert_eq!(BalanceService::native_balance(Ok(word(5))).unwrap(), word(5));
    match BalanceService::native_balance(Err("timeout".to_string())) {
        Err(BalanceError::Provider(m)) => assert_eq!(m, "Failed to get balance"),
        other => panic!("unexpected {:?}", other),
    }
}

#[test]
fn mint_call_data_mints_the_test_amount() {
    let mut expected = ethers::abi::short_signature(
        "mint",
        &[ethers::abi::ParamType::Address, ethers::abi::ParamType::Uint(256)],
    )
    .to_vec();
    expected.extend(encode(&[Token::Address(ethers::types::H160([0x11; 20])), Token::Uint(EthU256::from(MINT_UNITS))]));
    assert_eq!(MintService::mint_call_data(addr(0x11)), expected);
    assert_eq!(MINT_UNITS, 100_000_000);
}

#[test]
fn later_rows_win_in_metadata_responses() {
    let rows = vec![token_row("erc20", 6), token_row("erc20", 8)];
    let r = bundler::services::token_metadata_service::TokenMetadataService::get_chain_v2(
        rows,
        "polygon".to_string(),
        "usdc".to_string(),
    );
    let chain = &r.chains.entries()[0].1;
    assert_eq!(chain.tokens.entries().len(), 1);
    assert_eq!(chain.tokens.entries()[0].1.exponent, 8);
}
