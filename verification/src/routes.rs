use vstd::prelude::*;

use crate::models::{
    AnalyzeTxRequest, AnalyzeTxResponse, AnalyzeTxResponseView, TX_TYPE_DEX_SWAP,
};
use crate::services::ai::{
    analyze_transaction, analysis_of, has_dex_log, is_dex_log, is_first_dex_log, AiError,
    AiErrorView, UNISWAP_LABEL, UNISWAP_SIGNATURE,
};
use crate::services::blockchain::{
    fetch_outcome, fetch_transaction, is_supported_network, sample_record, BlockchainError,
    BlockchainErrorView, EMPTY_TX_HASH_MESSAGE,
};
use crate::text::occurs_at;

verus! {

/// Status of a request that the caller must change before sending it again.
pub const STATUS_BAD_REQUEST: u16 = 400;

/// Status of a request that failed inside the service.
pub const STATUS_INTERNAL_SERVER_ERROR: u16 = 500;

/// Status of a request that failed because the chain's data source did.
pub const STATUS_BAD_GATEWAY: u16 = 502;

/// A status that puts the fault with the caller.
pub open spec fn is_client_fault(status: int) -> bool {
    400 <= status < 500
}

/// A status that puts the fault with the service or what it depends on.
pub open spec fn is_server_fault(status: int) -> bool {
    500 <= status < 600
}

/// The status and message a failed fetch is answered with.
pub open spec fn fetch_failure(error: BlockchainErrorView) -> (int, Seq<char>) {
    (
        if error.is_retryable() {
            STATUS_BAD_GATEWAY as int
        } else {
            STATUS_BAD_REQUEST as int
        },
        "Failed to fetch tx details: "@ + error.message(),
    )
}

/// The status and message a failed analysis is answered with.
pub open spec fn analysis_failure(error: AiErrorView) -> (int, Seq<char>) {
    (STATUS_INTERNAL_SERVER_ERROR as int, "AI analysis failed: "@ + error.message())
}

/// What a request is answered with: the assessment of the fetched
/// transaction, or the failure of the fetch.
pub open spec fn outcome_of(network: Seq<char>, tx_hash: Seq<char>) -> Result<
    AnalyzeTxResponseView,
    (int, Seq<char>),
> {
    match fetch_outcome(network, tx_hash) {
        Ok(tx) => Ok(analysis_of(network, tx_hash, tx)),
        Err(error) => Err(fetch_failure(error)),
    }
}

/// The record that the fetcher yields holds a log from an exchange
/// contract, so a request that can be served is assessed as a swap.
pub proof fn lemma_sample_record_is_swap(tx_hash: Seq<char>)
    ensures
        is_first_dex_log(sample_record(tx_hash).logs, 0),
        has_dex_log(sample_record(tx_hash).logs),
{
    reveal_strlit("0xUniswapV3Pool...");
    reveal_strlit("Uniswap");
    let logs = sample_record(tx_hash).logs;
    assert(logs[0].address.subrange(2, 9) =~= UNISWAP_SIGNATURE@);
    assert(occurs_at(logs[0].address, UNISWAP_SIGNATURE@, 2));
    assert(is_dex_log(logs[0]));
}

/// The message of a failure tells the stage that failed: no failed fetch
/// reads like a failed analysis.
pub proof fn lemma_failures_name_their_stage(fetch: BlockchainErrorView, analysis: AiErrorView)
    ensures
        fetch_failure(fetch).1 != analysis_failure(analysis).1,
        is_client_fault(fetch_failure(fetch).0) <==> fetch.is_invalid_input(),
        is_server_fault(fetch_failure(fetch).0) <==> fetch.is_retryable(),
        is_server_fault(analysis_failure(analysis).0),
{
    reveal_strlit("Failed to fetch tx details: ");
    reveal_strlit("AI analysis failed: ");
    assert(fetch_failure(fetch).1[0] == 'F');
    assert(analysis_failure(analysis).1[0] == 'A');
}

/// The body of the liveness probe.
pub fn health() -> (body: &'static str)
    ensures
        body@ == "OK"@,
{
    "OK"
}

/// Turns a failed fetch into the status and message for the caller: a
/// request for a chain that is not served, or without a hash, is the
/// caller's fault; a failing data source is not. The message says that the
/// fetch failed, and why.
pub fn fetch_failure_response(error: &BlockchainError) -> (reply: (u16, String))
    ensures
        (reply.0 as int, reply.1@) == fetch_failure(error@),
        error@.is_invalid_input() ==> reply.0 == STATUS_BAD_REQUEST && is_client_fault(
            reply.0 as int,
        ),
        error@.is_retryable() ==> reply.0 == STATUS_BAD_GATEWAY && is_server_fault(
            reply.0 as int,
        ),
{
    let status = if error.is_retryable() {
        STATUS_BAD_GATEWAY
    } else {
        STATUS_BAD_REQUEST
    };
    let mut message = "Failed to fetch tx details: ".to_owned();
    message.append(error.message().as_str());
    (status, message)
}

/// Turns a failed analysis into the status and message for the caller: the
/// fault is the service's. The message says that the analysis failed, and
/// why.
pub fn analysis_failure_response(error: &AiError) -> (reply: (u16, String))
    ensures
        (reply.0 as int, reply.1@) == analysis_failure(error@),
        is_server_fault(reply.0 as int),
{
    let mut message = "AI analysis failed: ".to_owned();
    message.append(error.message().as_str());
    (STATUS_INTERNAL_SERVER_ERROR, message)
}

/// Answers one request: fetches the transaction, then assesses it.
///
/// The analysis runs only on a transaction that was fetched. When the
/// fetch fails, for a chain that is not served or for want of a hash, the
/// answer is that failure, and the analyzer is not reached.
pub fn analyze_tx(payload: AnalyzeTxRequest) -> (outcome: Result<AnalyzeTxResponse, (u16, String)>)
    ensures
        match outcome {
            Ok(analysis) => outcome_of(payload.network@, payload.tx_hash@) == Ok::<
                AnalyzeTxResponseView,
                (int, Seq<char>),
            >(analysis@),
            Err(reply) => outcome_of(payload.network@, payload.tx_hash@) == Err::<
                AnalyzeTxResponseView,
                (int, Seq<char>),
            >((reply.0 as int, reply.1@)),
        },
        outcome is Ok <==> is_supported_network(payload.network@) && payload.tx_hash@.len() > 0,
        outcome matches Ok(analysis) ==> {
            &&& analysis@.well_formed()
            &&& analysis@.tx_hash == payload.tx_hash@
            &&& analysis@.network == payload.network@
            &&& analysis@.tx_type == TX_TYPE_DEX_SWAP@
            &&& analysis@.protocol == Some(UNISWAP_LABEL@)
        },
        outcome matches Err(reply) ==> reply.0 == STATUS_BAD_REQUEST,
        !is_supported_network(payload.network@) ==> (outcome matches Err(reply) && reply.1@
            == "Failed to fetch tx details: Unsupported network: "@ + payload.network@),
        is_supported_network(payload.network@) && payload.tx_hash@.len() == 0 ==> (
        outcome matches Err(reply) && reply.1@ == "Failed to fetch tx details: "@
            + EMPTY_TX_HASH_MESSAGE@),
{
    let tx_details = match fetch_transaction(payload.network.as_str(), payload.tx_hash.as_str()) {
        Ok(tx) => tx,
        Err(error) => {
            proof {
                reveal_strlit("Failed to fetch tx details: ");
                reveal_strlit("Unsupported network: ");
                reveal_strlit("Failed to fetch tx details: Unsupported network: ");
                assert("Failed to fetch tx details: "@ + "Unsupported network: "@
                    =~= "Failed to fetch tx details: Unsupported network: "@);
                assert("Failed to fetch tx details: "@ + ("Unsupported network: "@
                    + payload.network@) =~= "Failed to fetch tx details: "@
                    + "Unsupported network: "@ + payload.network@);
            }
            return Err(fetch_failure_response(&error));
        },
    };
    proof {
        lemma_sample_record_is_swap(payload.tx_hash@);
    }
    match analyze_transaction(payload.network.as_str(), payload.tx_hash.as_str(), &tx_details) {
        Ok(analysis) => Ok(analysis),
        Err(error) => Err(analysis_failure_response(&error)),
    }
}

} // verus!
