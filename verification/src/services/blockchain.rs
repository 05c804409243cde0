use vstd::prelude::*;

use crate::models::{LogEntry, LogEntryView, NormalizedTransaction, NormalizedTransactionView, TxStatus};
use crate::text::same_text;

verus! {

/// What a caller is told who gave no transaction hash.
pub const EMPTY_TX_HASH_MESSAGE: &'static str = "Transaction hash must not be empty";

/// Why a transaction could not be fetched.
#[derive(Debug, Clone, PartialEq, Eq)]
pub enum BlockchainError {
    /// The caller named a chain this fetcher does not serve. Asking again
    /// will not help.
    UnsupportedNetwork(String),
    /// The caller gave no transaction hash. Asking again will not help.
    EmptyTxHash,
    /// The chain's data source could not be reached, or answered with
    /// something unusable. Asking again later may help.
    RpcError(String),
}

/// Mathematical content of a [`BlockchainError`].
pub enum BlockchainErrorView {
    UnsupportedNetwork(Seq<char>),
    EmptyTxHash,
    RpcError(Seq<char>),
}

impl BlockchainErrorView {
    /// The text shown to a person for this error.
    pub open spec fn message(self) -> Seq<char> {
        match self {
            BlockchainErrorView::UnsupportedNetwork(network) => "Unsupported network: "@ + network,
            BlockchainErrorView::EmptyTxHash => EMPTY_TX_HASH_MESSAGE@,
            BlockchainErrorView::RpcError(detail) => "RPC error: "@ + detail,
        }
    }

    /// A request that was wrong as the caller wrote it: it fails the same
    /// way however often it is sent.
    pub open spec fn is_invalid_input(self) -> bool {
        self is UnsupportedNetwork || self is EmptyTxHash
    }

    /// Only a fault of the data source is worth a second attempt.
    pub open spec fn is_retryable(self) -> bool {
        self is RpcError
    }
}

impl View for BlockchainError {
    type V = BlockchainErrorView;

    open spec fn view(&self) -> BlockchainErrorView {
        match self {
            BlockchainError::UnsupportedNetwork(network) => BlockchainErrorView::UnsupportedNetwork(
                network@,
            ),
            BlockchainError::EmptyTxHash => BlockchainErrorView::EmptyTxHash,
            BlockchainError::RpcError(detail) => BlockchainErrorView::RpcError(detail@),
        }
    }
}

impl BlockchainError {
    /// The text shown to a person for this error.
    pub fn message(&self) -> (text: String)
        ensures
            text@ == self@.message(),
    {
        match self {
            BlockchainError::UnsupportedNetwork(network) => {
                let mut text = "Unsupported network: ".to_owned();
                text.append(network.as_str());
                text
            },
            BlockchainError::EmptyTxHash => EMPTY_TX_HASH_MESSAGE.to_owned(),
            BlockchainError::RpcError(detail) => {
                let mut text = "RPC error: ".to_owned();
                text.append(detail.as_str());
                text
            },
        }
    }

    /// Whether the same request may succeed if it is sent again.
    pub fn is_retryable(&self) -> (retry: bool)
        ensures
            retry == self@.is_retryable(),
    {
        match self {
            BlockchainError::UnsupportedNetwork(_) => false,
            BlockchainError::EmptyTxHash => false,
            BlockchainError::RpcError(_) => true,
        }
    }
}

/// The one chain that is served.
pub const ETHEREUM_MAINNET: &'static str = "ethereum-mainnet";

/// The chains the fetcher serves, by exact name.
pub open spec fn is_supported_network(network: Seq<char>) -> bool {
    network == ETHEREUM_MAINNET@
}

/// Whether `network` names a chain the fetcher serves.
pub fn supports_network(network: &str) -> (supported: bool)
    ensures
        supported == is_supported_network(network@),
{
    same_text(network, ETHEREUM_MAINNET)
}

/// The record every lookup on a served chain yields: fixed sample contents
/// around the hash that was asked for.
pub open spec fn sample_record(tx_hash: Seq<char>) -> NormalizedTransactionView {
    NormalizedTransactionView {
        hash: tx_hash,
        from: "0x1234...abcd"@,
        to: "0xabcd...1234"@,
        value: "1.5 ETH"@,
        gas_used: 21000,
        status: TxStatus::Success,
        logs: seq![
            LogEntryView {
                address: "0xUniswapV3Pool..."@,
                topics: seq!["Swap"@, "..."@],
                data: "..."@,
            },
        ],
    }
}

/// What a fetch yields. The chain is looked at first: one that is not
/// served is refused with its name, whatever the hash. On a served chain the
/// hash must not be empty; beyond that it is not inspected.
pub open spec fn fetch_outcome(network: Seq<char>, tx_hash: Seq<char>) -> Result<
    NormalizedTransactionView,
    BlockchainErrorView,
> {
    if !is_supported_network(network) {
        Err(BlockchainErrorView::UnsupportedNetwork(network))
    } else if tx_hash.len() == 0 {
        Err(BlockchainErrorView::EmptyTxHash)
    } else {
        Ok(sample_record(tx_hash))
    }
}

/// Fetches the transaction `tx_hash` from `network` and brings it into the
/// common shape.
///
/// A chain that is not served is refused with its name, whatever the hash.
/// An empty hash names no transaction and is refused. Any other hash is
/// handed on as given and comes back in the record.
pub fn fetch_transaction(network: &str, tx_hash: &str) -> (fetched: Result<
    NormalizedTransaction,
    BlockchainError,
>)
    ensures
        match fetched {
            Ok(tx) => fetch_outcome(network@, tx_hash@) == Ok::<
                NormalizedTransactionView,
                BlockchainErrorView,
            >(tx@),
            Err(e) => fetch_outcome(network@, tx_hash@) == Err::<
                NormalizedTransactionView,
                BlockchainErrorView,
            >(e@),
        },
        fetched is Ok <==> is_supported_network(network@) && tx_hash@.len() > 0,
        fetched matches Ok(tx) ==> tx@.hash == tx_hash@ && tx@ == sample_record(tx_hash@),
        fetched matches Err(e) ==> e@.is_invalid_input() && (e@ is UnsupportedNetwork
            <==> !is_supported_network(network@)),
        !is_supported_network(network@) ==> (fetched matches Err(e) && e@
            == BlockchainErrorView::UnsupportedNetwork(network@)),
        is_supported_network(network@) && tx_hash@.len() == 0 ==> (fetched matches Err(e) && e@
            == BlockchainErrorView::EmptyTxHash),
{
    if !supports_network(network) {
        return Err(BlockchainError::UnsupportedNetwork(network.to_owned()));
    }
    if tx_hash.is_empty() {
        return Err(BlockchainError::EmptyTxHash);
    }
    let mut topics: Vec<String> = Vec::new();
    topics.push("Swap".to_owned());
    topics.push("...".to_owned());
    let log = LogEntry { address: "0xUniswapV3Pool...".to_owned(), topics, data: "...".to_owned() };
    assert(log@.topics =~= seq!["Swap"@, "..."@]);
    let mut logs: Vec<LogEntry> = Vec::new();
    logs.push(log);
    let tx = NormalizedTransaction {
        hash: tx_hash.to_owned(),
        from: "0x1234...abcd".to_owned(),
        to: "0xabcd...1234".to_owned(),
        value: "1.5 ETH".to_owned(),
        gas_used: 21000,
        status: TxStatus::Success,
        logs,
    };
    assert(tx@.logs =~= sample_record(tx_hash@).logs);
    Ok(tx)
}

} // verus!
