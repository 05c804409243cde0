use blockchain_analyzer::models::{AnalyzeTxResponse, LogEntry, NormalizedTransaction, TxStatus};
use blockchain_analyzer::services::ai::{
    analyze_transaction, explain, find_dex_log, AiError, BASELINE_REASON, BASELINE_RISK,
    UNISWAP_LABEL, UNISWAP_SIGNATURE,
};

fn log(address: &str) -> LogEntry {
    LogEntry { address: address.to_string(), topics: vec![], data: String::new() }
}

fn transaction(addresses: &[&str]) -> NormalizedTransaction {
    NormalizedTransaction {
        hash: "0xfeed".to_string(),
        from: "0xaaaa".to_string(),
        to: "0xbbbb".to_string(),
        value: "0".to_string(),
        gas_used: 50000,
        status: TxStatus::Pending,
        logs: addresses.iter().map(|a| log(a)).collect(),
    }
}

fn analyze(network: &str, tx_hash: &str, tx: &NormalizedTransaction) -> AnalyzeTxResponse {
    analyze_transaction(network, tx_hash, tx).unwrap()
}

#[test]
fn constants_of_the_engine() {
    assert_eq!(UNISWAP_SIGNATURE, "Uniswap");
    assert_eq!(UNISWAP_LABEL, "Uniswap (detected heuristically)");
    assert_eq!(BASELINE_RISK, 200);
    assert_eq!(BASELINE_REASON, "Heuristic analysis only; no AI risk model yet");
}

#[test]
fn empty_log_sequence_is_a_transfer() {
    let a = analyze("ethereum-mainnet", "0xfeed", &transaction(&[]));
    assert_eq!(a.tx_type, "TRANSFER");
    assert_eq!(a.protocol, None);
    assert!(!a.risk_reasons.is_empty());
}

#[test]
fn log_from_an_exchange_makes_a_swap() {
    let a = analyze("ethereum-mainnet", "0xfeed", &transaction(&["0xUniswapV3Pool..."]));
    assert_eq!(a.tx_type, "DEX_SWAP");
    assert_eq!(a.protocol, Some("Uniswap (detected heuristically)".to_string()));
}

#[test]
fn logs_without_the_signature_make_a_transfer() {
    let a = analyze("ethereum-mainnet", "0xfeed", &transaction(&["0xdead", "0xbeef", ""]));
    assert_eq!(a.tx_type, "TRANSFER");
    assert_eq!(a.protocol, None);
}

#[test]
fn signature_match_is_case_sensitive() {
    let a = analyze("ethereum-mainnet", "0xfeed", &transaction(&["0xuniswapv3pool", "UNISWAP"]));
    assert_eq!(a.tx_type, "TRANSFER");
    assert_eq!(a.protocol, None);
}

#[test]
fn any_log_may_carry_the_signature() {
    for addresses in [
        ["Uniswap", "0xdead", "0xbeef"],
        ["0xdead", "xxUniswapxx", "0xbeef"],
        ["0xdead", "0xbeef", "0xUniswap"],
    ] {
        let a = analyze("ethereum-mainnet", "0xfeed", &transaction(&addresses));
        assert_eq!(a.tx_type, "DEX_SWAP");
        assert!(a.protocol.is_some());
    }
}

#[test]
fn only_the_address_is_inspected() {
    let mut tx = transaction(&["0xdead"]);
    tx.logs[0].topics = vec!["Uniswap".to_string()];
    tx.logs[0].data = "Uniswap".to_string();
    tx.from = "Uniswap".to_string();
    tx.to = "Uniswap".to_string();
    let a = analyze("ethereum-mainnet", "0xfeed", &tx);
    assert_eq!(a.tx_type, "TRANSFER");
    assert_eq!(a.protocol, None);
}

#[test]
fn find_dex_log_returns_the_earliest() {
    assert_eq!(find_dex_log(&transaction(&[])), None);
    assert_eq!(find_dex_log(&transaction(&["0xdead", "0xbeef"])), None);
    assert_eq!(find_dex_log(&transaction(&["Uniswap"])), Some(0));
    assert_eq!(find_dex_log(&transaction(&["0xdead", "aUniswap", "Uniswapb"])), Some(1));
    assert_eq!(find_dex_log(&transaction(&["0xdead", "0xbeef", "Uniswap"])), Some(2));
}

#[test]
fn score_is_in_range_and_reasons_are_given() {
    for addresses in [vec![], vec!["0xdead"], vec!["0xUniswapV3Pool..."], vec!["a", "b", "c"]] {
        let a = analyze("ethereum-mainnet", "0xfeed", &transaction(&addresses));
        assert!(a.risk_score.per_mille() <= 1000);
        assert!(!a.risk_reasons.is_empty());
        assert!(a.risk_reasons.iter().all(|r| !r.is_empty()));
    }
}

#[test]
fn score_and_reason_are_the_baseline() {
    let a = analyze("ethereum-mainnet", "0xfeed", &transaction(&["0xdead"]));
    assert_eq!(a.risk_score.per_mille(), 200);
    assert_eq!(a.risk_reasons, vec!["Heuristic analysis only; no AI risk model yet".to_string()]);
}

#[test]
fn hash_and_network_are_echoed() {
    let a = analyze("some-chain", "0x1234", &transaction(&[]));
    assert_eq!(a.tx_hash, "0x1234");
    assert_eq!(a.network, "some-chain");
}

#[test]
fn analysis_is_deterministic() {
    let tx = transaction(&["0xdead", "0xUniswapV3Pool..."]);
    let first = analyze("ethereum-mainnet", "0xfeed", &tx);
    let second = analyze("ethereum-mainnet", "0xfeed", &tx);
    assert_eq!(first, second);
    let again = analyze("ethereum-mainnet", "0xfeed", &tx.clone());
    assert_eq!(first, again);
}

#[test]
fn classification_ignores_the_order_of_logs() {
    let a = analyze("n", "h", &transaction(&["0xdead", "Uniswap", "0xbeef"]));
    let b = analyze("n", "h", &transaction(&["0xbeef", "0xdead", "Uniswap"]));
    assert_eq!(a.tx_type, b.tx_type);
    assert_eq!(a.protocol, b.protocol);
}

#[test]
fn explanation_of_a_swap() {
    let a = analyze("ethereum-mainnet", "0xabc123", &transaction(&["0xUniswapV3Pool..."]));
    assert_eq!(
        a.natural_language_explanation,
        "This is a placeholder analysis for transaction 0xabc123 on ethereum-mainnet.\n\
         Heuristic classification: DEX_SWAP, protocol Uniswap (detected heuristically).\n\
         In the next version, an AI model will interpret on-chain data, classify the \
         transaction type, and assess risk using LLM reasoning."
    );
}

#[test]
fn explanation_of_a_transfer() {
    let a = analyze("ethereum-mainnet", "0xabc123", &transaction(&[]));
    assert_eq!(
        a.natural_language_explanation,
        "This is a placeholder analysis for transaction 0xabc123 on ethereum-mainnet.\n\
         Heuristic classification: TRANSFER, no known protocol.\n\
         In the next version, an AI model will interpret on-chain data, classify the \
         transaction type, and assess risk using LLM reasoning."
    );
}

#[test]
fn explanation_mentions_hash_network_and_tag() {
    let a = analyze("polygon", "0x77", &transaction(&["Uniswap"]));
    assert!(a.natural_language_explanation.contains("0x77"));
    assert!(a.natural_language_explanation.contains("polygon"));
    assert!(a.natural_language_explanation.contains("DEX_SWAP"));
}

#[test]
fn explain_writes_any_tag_and_protocol() {
    assert_eq!(
        explain("net", "hash", "TAG", &Some("Proto".to_string())),
        "This is a placeholder analysis for transaction hash on net.\n\
         Heuristic classification: TAG, protocol Proto.\n\
         In the next version, an AI model will interpret on-chain data, classify the \
         transaction type, and assess risk using LLM reasoning."
    );
    assert_eq!(
        explain("", "", "", &None),
        "This is a placeholder analysis for transaction  on .\n\
         Heuristic classification: , no known protocol.\n\
         In the next version, an AI model will interpret on-chain data, classify the \
         transaction type, and assess risk using LLM reasoning."
    );
}

#[test]
fn llm_failure_message_carries_the_detail() {
    let err = AiError::LlmCallFailed("timeout".to_string());
    assert_eq!(err.message(), "LLM call failed: timeout");
}
