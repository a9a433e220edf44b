use bundler::errors::ProviderError;
use bundler::eth::{Address, H256, U256};
use bundler::models::config::DefaultGas;
use bundler::models::contract_interaction::UserOperation;
use bundler::models::transfer::Status;
use bundler::provider::bundler::{
    estimate_gas_request, estimate_gas_result, submit_transaction_request, submit_transaction_result,
    ErrorDetails, EstimateResult, Response,
};
use bundler::provider::helpers::{generate_txn_id, get_explorer_url, get_hash, is_not_admin};
use bundler::provider::listeners::{event_status, final_status, transaction_hash_text};
use bundler::provider::paymaster_provider::PaymasterProvider;
use bundler::provider::verifying_paymaster_helper::get_verifying_paymaster_user_operation_payload;
use bundler::provider::web3_provider::{RpcErrorData, RpcErrorResponse, SendError, Web3Provider};

fn op() -> UserOperation {
    let gas = DefaultGas {
        call_gas_limit: 1,
        verification_gas_limit: 2,
        pre_verification_gas: 3,
        max_fee_per_gas: 4,
        max_priority_fee_per_gas: 5,
    };
    let mut op = UserOperation::new(&gas);
    op.call_data(vec![0xca, 0xfe]).signature(vec![1; 65]);
    op
}

#[test]
fn explorer_url_appends_the_hash() {
    assert_eq!(get_explorer_url("https://polygonscan.com/tx/", "0x12"), "https://polygonscan.com/tx/0x12");
    assert_eq!(get_explorer_url("", ""), "");
}

#[test]
fn txn_ids_have_the_prefix_and_six_alphanumerics() {
    for _ in 0..20 {
        let id = generate_txn_id("relayer");
        assert_eq!(id.len(), "relayer".len() + 7);
        assert!(id.starts_with("relayer_"));
        assert!(id["relayer_".len()..].chars().all(|c| c.is_ascii_alphanumeric()));
    }
    let empty = generate_txn_id("");
    assert_eq!(empty.len(), 7);
    assert!(empty.starts_with('_'));
}

#[test]
fn hash_of_a_string_is_stable() {
    assert_eq!(get_hash("user-1".to_string()), get_hash("user-1".to_string()));
    assert_ne!(get_hash("user-1".to_string()), get_hash("user-2".to_string()));
}

#[test]
fn admin_membership() {
    let admins = vec!["alice".to_string(), "bob".to_string()];
    assert!(!is_not_admin(&admins, "bob"));
    assert!(is_not_admin(&admins, "carol"));
    assert!(is_not_admin(&admins, "Bob"));
    assert!(is_not_admin(&vec![], "bob"));
}

#[test]
fn bundler_requests() {
    let ep = Address { bytes: [0x5f; 20] };
    let r = estimate_gas_request(op(), ep);
    assert_eq!(r.jsonrpc, "2.0");
    assert_eq!(r.id, 1);
    assert_eq!(r.method, "eth_estimateUserOperationGas");
    assert_eq!(r.params.entry_point, format!("0x{}", "5f".repeat(20)));
    assert_eq!(r.params.user_operation.call_data, vec![0xca, 0xfe]);
    let s = submit_transaction_request(op(), ep);
    assert_eq!(s.method, "eth_sendUserOperation");
    assert_eq!(s.params.user_operation.signature, vec![1; 65]);
}

#[test]
fn bundler_answers() {
    let estimate = EstimateResult {
        pre_verification_gas: word(1),
        verification_gas_limit: word(2),
        call_gas_limit: word(3),
    };
    let ok = Response { jsonrpc: "2.0".to_string(), id: 1, result: Some(estimate), error: None };
    let e = estimate_gas_result(ok).ok().unwrap();
    assert_eq!(e.call_gas_limit, word(3));
    let failed: Response<EstimateResult> = Response {
        jsonrpc: "2.0".to_string(),
        id: 1,
        result: None,
        error: Some(ErrorDetails { code: -32500, message: "AA21".to_string() }),
    };
    match estimate_gas_result(failed) {
        Err(ProviderError(m)) => assert_eq!(m, "Failed to estimate gas"),
        Ok(_) => panic!("expected a failure"),
    }
    let sent = Response { jsonrpc: "2.0".to_string(), id: 1, result: Some("0xop".to_string()), error: None };
    assert_eq!(submit_transaction_result(sent).unwrap(), "0xop");
    let refused: Response<String> = Response {
        jsonrpc: "2.0".to_string(),
        id: 1,
        result: Some("ignored".to_string()),
        error: Some(ErrorDetails { code: -32602, message: "bad".to_string() }),
    };
    assert_eq!(submit_transaction_result(refused).unwrap_err().0, "Failed to submit transaction");
}

#[test]
fn transaction_request_parses_the_value() {
    let from = Address { bytes: [1; 20] };
    let to = Address { bytes: [2; 20] };
    let t = Web3Provider::transaction_request(from, to, "1000", vec![3]).ok().unwrap();
    assert_eq!(t.value, 1000);
    assert_eq!(t.from, from);
    assert_eq!(t.to, to);
    assert_eq!(t.data, vec![3]);
    assert_eq!(Web3Provider::transaction_request(from, to, "-5", vec![]).ok().unwrap().value, -5);
    assert_eq!(Web3Provider::transaction_request(from, to, "1.5", vec![]).err().unwrap(), "Invalid gas value");
    assert_eq!(Web3Provider::transaction_request(from, to, "", vec![]).err().unwrap(), "Invalid gas value");
}

#[test]
fn sent_transaction_hash_in_hex() {
    let h = H256 { bytes: [0x0a; 32] };
    assert_eq!(Web3Provider::sent_transaction_hash(h), format!("0x{}", "0a".repeat(32)));
}

#[test]
fn send_error_messages() {
    let m = |e| Web3Provider::send_error_message(e, 0);
    assert_eq!(m(SendError::Signer("x".to_string())), "Invalid signature");
    assert_eq!(m(SendError::JsonRpcClient(None)), "Json RPC error");
    assert_eq!(m(SendError::Ens("x".to_string())), "ENS name not found");
    assert_eq!(m(SendError::EnsNotOwned("x".to_string())), "Invalid reverse ENS name");
    assert_eq!(m(SendError::SerdeJson("x".to_string())), "JSON serialization error");
    assert_eq!(m(SendError::Hex("odd".to_string())), "Hex Error: odd");
    assert_eq!(m(SendError::Http("timeout".to_string())), "HTTP Error: timeout");
    assert_eq!(m(SendError::Custom("boom".to_string())), "Custom Error: boom");
    assert_eq!(m(SendError::UnsupportedRpc), "Invalid RPC call");
    assert_eq!(m(SendError::UnsupportedNodeClient), "Invalid Node client");
    assert_eq!(m(SendError::SignerUnavailable), "Signer is not available to this provider");
    assert_eq!(m(SendError::NonceMissing), "Missing Nonce");
    assert_eq!(m(SendError::GasPriceMissing), "Missing gas price");
    assert_eq!(m(SendError::GasMissing), "Missing gas");
    assert_eq!(m(SendError::WrongSigner), "Invalid signer");
    assert_eq!(m(SendError::DifferentChainId), "Invalid chain id");
}

#[test]
fn rpc_error_messages() {
    let rpc = |message: &str, data| {
        Web3Provider::send_error_message(
            SendError::JsonRpcClient(Some(RpcErrorResponse { message: message.to_string(), data })),
            0,
        )
    };
    assert_eq!(rpc("insufficient funds", RpcErrorData::Absent), "insufficient funds");
    assert_eq!(rpc("execution reverted", RpcErrorData::Text("0x".to_string())), "execution reverted");
    assert_eq!(rpc("execution reverted", RpcErrorData::Text("0x08c379a0".to_string())), "JSON RPC error");
    assert_eq!(rpc("", RpcErrorData::Text("0x".to_string())), "JSON RPC error");
    assert_eq!(rpc("reverted", RpcErrorData::Other), "Non string error");
    let with_errors = Web3Provider::send_error_message(
        SendError::JsonRpcClient(Some(RpcErrorResponse {
            message: "execution reverted".to_string(),
            data: RpcErrorData::Text("0x08c379a0".to_string()),
        })),
        3,
    );
    assert_eq!(with_errors, "JSON RPC error");
}

#[test]
fn balance_results() {
    let wei = word(1_500_000_000_000_000_000);
    assert_eq!(Web3Provider::balance_result(Ok(wei)).unwrap(), "1.500000000000000000");
    assert_eq!(Web3Provider::balance_result(Ok(word(0))).unwrap(), "0.000000000000000000");
    assert_eq!(Web3Provider::balance_result(Ok(word(1))).unwrap(), "0.000000000000000001");
    let mut be = [0u8; 32];
    ethers::types::U256::from_dec_str("123456789012345678901").unwrap().to_big_endian(&mut be);
    assert_eq!(Web3Provider::balance_result(Ok(U256 { be })).unwrap(), "123.456789012345678901");
    assert_eq!(
        Web3Provider::balance_result(Err("timeout".to_string())).unwrap_err().0,
        "Get native balance failed: timeout"
    );
}

#[test]
fn listener_final_status() {
    assert_eq!(final_status(true), Status::SUCCESS);
    assert_eq!(final_status(false), Status::FAILED);
}

#[test]
fn paymaster_hash_result() {
    assert_eq!(PaymasterProvider::hash_result(Ok([7; 32])), Ok([7; 32]));
    assert_eq!(PaymasterProvider::hash_result(Err("revert".to_string())), Err("Failed to get hash".to_string()));
}

#[test]
fn verifying_paymaster_payload_copies_the_operation() {
    let o = op();
    let p = get_verifying_paymaster_user_operation_payload(o.clone());
    assert_eq!(p.call_data, o.call_data);
    assert_eq!(p.signature, o.signature);
    assert_eq!(p.nonce, o.nonce);
    assert_eq!(p.call_gas_limit, o.call_gas_limit);
}

fn word(x: u64) -> U256 {
    let mut be = [0u8; 32];
    be[24..].copy_from_slice(&x.to_be_bytes());
    U256 { be }
}

fn user_op_event(success: bool) -> (Vec<[u8; 32]>, Vec<u8>) {
    let signature = ethers::utils::keccak256("UserOperationEvent(bytes32,address,address,uint256,bool,uint256,uint256)");
    let mut sender = [0u8; 32];
    sender[12..].copy_from_slice(&[0x11; 20]);
    let topics = vec![signature, [0x42; 32], sender, [0u8; 32]];
    let data = ethers::abi::encode(&[
        ethers::abi::Token::Uint(7u64.into()),
        ethers::abi::Token::Bool(success),
        ethers::abi::Token::Uint(1000u64.into()),
        ethers::abi::Token::Uint(900u64.into()),
    ]);
    (topics, data)
}

#[test]
fn event_logs_give_the_final_status() {
    let (topics, data) = user_op_event(true);
    assert_eq!(event_status(topics, data), Some(Status::SUCCESS));
    let (topics, data) = user_op_event(false);
    assert_eq!(event_status(topics, data), Some(Status::FAILED));
    let (mut topics, data) = user_op_event(true);
    topics[0] = [0u8; 32];
    assert_eq!(event_status(topics, data), None);
    let (topics, _) = user_op_event(true);
    assert_eq!(event_status(topics, vec![1, 2, 3]), None);
}

#[test]
fn hash_and_ether_texts() {
    assert_eq!(transaction_hash_text(H256 { bytes: [0xab; 32] }), format!("0x{}", "ab".repeat(32)));
    assert_eq!(Web3Provider::ether_amount_text(word(1)), "0.000000000000000001");
}
