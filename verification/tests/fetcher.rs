use blockchain_analyzer::models::{LogEntry, NormalizedTransaction, TxStatus};
use blockchain_analyzer::services::blockchain::{
    fetch_transaction, supports_network, BlockchainError, EMPTY_TX_HASH_MESSAGE, ETHEREUM_MAINNET,
};

#[test]
fn fetch_returns_the_hash_it_was_given() {
    for hash in ["0xabc123", "0x0", " ", "not-even-hex", "0x\u{e9}"] {
        let tx = fetch_transaction("ethereum-mainnet", hash).unwrap();
        assert_eq!(tx.hash, hash);
    }
}

#[test]
fn fetch_returns_the_sample_record() {
    let tx = fetch_transaction("ethereum-mainnet", "0xabc123").unwrap();
    let expected = NormalizedTransaction {
        hash: "0xabc123".to_string(),
        from: "0x1234...abcd".to_string(),
        to: "0xabcd...1234".to_string(),
        value: "1.5 ETH".to_string(),
        gas_used: 21000,
        status: TxStatus::Success,
        logs: vec![LogEntry {
            address: "0xUniswapV3Pool...".to_string(),
            topics: vec!["Swap".to_string(), "...".to_string()],
            data: "...".to_string(),
        }],
    };
    assert_eq!(tx, expected);
}

#[test]
fn fetch_refuses_an_unknown_network_with_its_name() {
    let err = fetch_transaction("unsupported-chain", "0xabc123").unwrap_err();
    assert_eq!(err, BlockchainError::UnsupportedNetwork("unsupported-chain".to_string()));
}

#[test]
fn fetch_refuses_near_misses() {
    for network in ["", "ethereum", "Ethereum-Mainnet", "ethereum-mainnet ", "ethereum-mainnet2"] {
        let err = fetch_transaction(network, "0xabc123").unwrap_err();
        assert_eq!(err, BlockchainError::UnsupportedNetwork(network.to_string()));
    }
}

#[test]
fn supports_network_knows_one_chain() {
    assert_eq!(ETHEREUM_MAINNET, "ethereum-mainnet");
    assert!(supports_network("ethereum-mainnet"));
    assert!(!supports_network("unsupported-chain"));
    assert!(!supports_network(""));
}

#[test]
fn unsupported_network_message_names_the_network() {
    let err = BlockchainError::UnsupportedNetwork("unsupported-chain".to_string());
    assert_eq!(err.message(), "Unsupported network: unsupported-chain");
    assert!(!err.is_retryable());
}

#[test]
fn rpc_error_message_carries_the_detail() {
    let err = BlockchainError::RpcError("connection refused".to_string());
    assert_eq!(err.message(), "RPC error: connection refused");
    assert!(err.is_retryable());
}

#[test]
fn fetch_refuses_an_empty_hash() {
    let fetched = fetch_transaction("ethereum-mainnet", "");
    assert!(fetched.is_err());
    assert_eq!(fetched.unwrap_err(), BlockchainError::EmptyTxHash);
}

#[test]
fn fetch_looks_at_the_network_before_the_hash() {
    let err = fetch_transaction("unsupported-chain", "").unwrap_err();
    assert_eq!(err, BlockchainError::UnsupportedNetwork("unsupported-chain".to_string()));
}

#[test]
fn empty_hash_message_says_what_is_wrong() {
    assert_eq!(EMPTY_TX_HASH_MESSAGE, "Transaction hash must not be empty");
    assert_eq!(BlockchainError::EmptyTxHash.message(), "Transaction hash must not be empty");
    assert!(!BlockchainError::EmptyTxHash.is_retryable());
}
