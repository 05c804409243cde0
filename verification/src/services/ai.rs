use vstd::prelude::*;

use crate::models::{
    optional_text, AnalyzeTxResponse, AnalyzeTxResponseView, LogEntryView, NormalizedTransaction,
    NormalizedTransactionView, RiskScore, RISK_SCORE_SCALE, TX_TYPE_DEX_SWAP, TX_TYPE_TRANSFER,
};
use crate::text::{chars_of, contains_chars, is_substring, lemma_substring_of_concat};

verus! {

/// Why an analysis could not be produced. The fault lies with the engine,
/// never with the transaction it was given.
#[derive(Debug, Clone, PartialEq, Eq)]
pub enum AiError {
    /// The scoring backend failed or gave an answer that cannot be used.
    LlmCallFailed(String),
}

/// Mathematical content of an [`AiError`].
pub enum AiErrorView {
    LlmCallFailed(Seq<char>),
}

impl AiErrorView {
    /// The text shown to a person for this error.
    pub open spec fn message(self) -> Seq<char> {
        match self {
            AiErrorView::LlmCallFailed(detail) => "LLM call failed: "@ + detail,
        }
    }
}

impl View for AiError {
    type V = AiErrorView;

    open spec fn view(&self) -> AiErrorView {
        match self {
            AiError::LlmCallFailed(detail) => AiErrorView::LlmCallFailed(detail@),
        }
    }
}

impl AiError {
    /// The text shown to a person for this error.
    pub fn message(&self) -> (text: String)
        ensures
            text@ == self@.message(),
    {
        match self {
            AiError::LlmCallFailed(detail) => {
                let mut text = "LLM call failed: ".to_owned();
                text.append(detail.as_str());
                text
            },
        }
    }
}

/// What the address of a log must contain for the transaction to count as a
/// swap on a decentralised exchange.
pub const UNISWAP_SIGNATURE: &'static str = "Uniswap";

/// How the protocol is named in an assessment; the name says that it was
/// guessed from the address.
pub const UNISWAP_LABEL: &'static str = "Uniswap (detected heuristically)";

/// The score every transaction gets while no risk model is attached:
/// 0.2, in thousandths.
pub const BASELINE_RISK: u16 = 200;

/// The one reason given for the baseline score.
pub const BASELINE_REASON: &'static str = "Heuristic analysis only; no AI risk model yet";

/// How every explanation begins, up to the hash of the transaction.
pub const EXPLANATION_OPENING: &'static str = "This is a placeholder analysis for transaction ";

/// How every explanation ends.
pub const EXPLANATION_CLOSING: &'static str =
    "In the next version, an AI model will interpret on-chain data, classify the transaction type, and assess risk using LLM reasoning.";

/// A log that an exchange contract emitted, going by its address alone.
pub open spec fn is_dex_log(log: LogEntryView) -> bool {
    is_substring(log.address, UNISWAP_SIGNATURE@)
}

/// Some log of the sequence was emitted by an exchange contract.
pub open spec fn has_dex_log(logs: Seq<LogEntryView>) -> bool {
    exists|i: int| 0 <= i < logs.len() && #[trigger] is_dex_log(logs[i])
}

/// `at` is the earliest log that an exchange contract emitted.
pub open spec fn is_first_dex_log(logs: Seq<LogEntryView>, at: int) -> bool {
    &&& 0 <= at < logs.len()
    &&& is_dex_log(logs[at])
    &&& forall|j: int| 0 <= j < at ==> !#[trigger] is_dex_log(logs[j])
}

/// The classification tag of a transaction.
pub open spec fn classified_tx_type(tx: NormalizedTransactionView) -> Seq<char> {
    if has_dex_log(tx.logs) {
        TX_TYPE_DEX_SWAP@
    } else {
        TX_TYPE_TRANSFER@
    }
}

/// The protocol a transaction is attributed to, if any.
pub open spec fn detected_protocol(tx: NormalizedTransactionView) -> Option<Seq<char>> {
    if has_dex_log(tx.logs) {
        Some(UNISWAP_LABEL@)
    } else {
        None
    }
}

/// The sentence of the explanation that tells how the transaction was
/// classified.
pub open spec fn classification_summary(tx_type: Seq<char>, protocol: Option<Seq<char>>) -> Seq<
    char,
> {
    "Heuristic classification: "@ + tx_type + match protocol {
        Some(name) => ", protocol "@ + name,
        None => ", no known protocol"@,
    } + ".\n"@
}

/// The explanation handed back with an assessment: which transaction on
/// which chain, how it was classified, and what is to come.
pub open spec fn explanation_text(
    network: Seq<char>,
    tx_hash: Seq<char>,
    tx_type: Seq<char>,
    protocol: Option<Seq<char>>,
) -> Seq<char> {
    EXPLANATION_OPENING@ + tx_hash + " on "@ + network + ".\n"@ + classification_summary(
        tx_type,
        protocol,
    ) + EXPLANATION_CLOSING@
}

/// The assessment of `tx`, asked for as `tx_hash` on `network`.
pub open spec fn analysis_of(
    network: Seq<char>,
    tx_hash: Seq<char>,
    tx: NormalizedTransactionView,
) -> AnalyzeTxResponseView {
    AnalyzeTxResponseView {
        tx_hash,
        network,
        tx_type: classified_tx_type(tx),
        protocol: detected_protocol(tx),
        risk_score: BASELINE_RISK as nat,
        risk_reasons: seq![BASELINE_REASON@],
        natural_language_explanation: explanation_text(
            network,
            tx_hash,
            classified_tx_type(tx),
            detected_protocol(tx),
        ),
    }
}

/// Looks for the earliest log that an exchange contract emitted.
pub fn find_dex_log(tx: &NormalizedTransaction) -> (found: Option<usize>)
    ensures
        match found {
            Some(at) => is_first_dex_log(tx@.logs, at as int),
            None => !has_dex_log(tx@.logs),
        },
{
    let signature = chars_of(UNISWAP_SIGNATURE);
    let mut at: usize = 0;
    while at < tx.logs.len()
        invariant
            signature@ == UNISWAP_SIGNATURE@,
            at <= tx.logs@.len(),
            forall|j: int| 0 <= j < at ==> !#[trigger] is_dex_log(tx@.logs[j]),
        decreases tx.logs@.len() - at,
    {
        let address = chars_of(tx.logs[at].address.as_str());
        if contains_chars(&address, &signature) {
            return Some(at);
        }
        at += 1;
    }
    None
}

/// Writes the explanation for an assessment.
pub fn explain(network: &str, tx_hash: &str, tx_type: &str, protocol: &Option<String>) -> (text:
    String)
    ensures
        text@ == explanation_text(network@, tx_hash@, tx_type@, optional_text(*protocol)),
{
    let mut summary = "Heuristic classification: ".to_owned();
    summary.append(tx_type);
    match protocol {
        Some(name) => {
            let mut clause = ", protocol ".to_owned();
            clause.append(name.as_str());
            summary.append(clause.as_str());
        },
        None => {
            summary.append(", no known protocol");
        },
    }
    summary.append(".\n");

    let mut text = EXPLANATION_OPENING.to_owned();
    text.append(tx_hash);
    text.append(" on ");
    text.append(network);
    text.append(".\n");
    text.append(summary.as_str());
    text.append(EXPLANATION_CLOSING);
    text
}

/// Every assessment the engine can produce is well formed.
pub proof fn lemma_analysis_well_formed(
    network: Seq<char>,
    tx_hash: Seq<char>,
    tx: NormalizedTransactionView,
)
    ensures
        analysis_of(network, tx_hash, tx).well_formed(),
        analysis_of(network, tx_hash, tx).risk_score <= RISK_SCORE_SCALE,
        analysis_of(network, tx_hash, tx).risk_reasons.len() > 0,
{
    reveal_strlit("Heuristic analysis only; no AI risk model yet");
    reveal_strlit("DEX_SWAP");
    reveal_strlit("TRANSFER");
}

/// A transaction with a log from an exchange contract is a swap attributed
/// to a protocol; every other transaction is a plain transfer attributed to
/// none. The two tags differ, so the tag alone tells the cases apart.
pub proof fn lemma_classification(
    network: Seq<char>,
    tx_hash: Seq<char>,
    tx: NormalizedTransactionView,
)
    ensures
        has_dex_log(tx.logs) ==> analysis_of(network, tx_hash, tx).tx_type
            == TX_TYPE_DEX_SWAP@ && analysis_of(network, tx_hash, tx).protocol is Some,
        !has_dex_log(tx.logs) ==> analysis_of(network, tx_hash, tx).tx_type
            == TX_TYPE_TRANSFER@ && analysis_of(network, tx_hash, tx).protocol is None,
        TX_TYPE_DEX_SWAP@ != TX_TYPE_TRANSFER@,
{
    reveal_strlit("DEX_SWAP");
    reveal_strlit("TRANSFER");
    assert(TX_TYPE_DEX_SWAP@[0] == 'D');
    assert(TX_TYPE_TRANSFER@[0] == 'T');
}

/// A log from an exchange contract is found again however the logs are
/// rearranged.
proof fn lemma_dex_log_survives_reordering(before: Seq<LogEntryView>, after: Seq<LogEntryView>)
    requires
        before.to_multiset() == after.to_multiset(),
        has_dex_log(before),
    ensures
        has_dex_log(after),
{
    let i = choose|i: int| 0 <= i < before.len() && #[trigger] is_dex_log(before[i]);
    let log = before[i];
    before.to_multiset_ensures();
    after.to_multiset_ensures();
    assert(before.contains(log));
    assert(before.to_multiset().count(log) > 0);
    assert(after.to_multiset().count(log) > 0);
    assert(after.contains(log));
    let j = choose|j: int| 0 <= j < after.len() && after[j] == log;
    assert(is_dex_log(after[j]));
}

/// The classification looks at which logs a transaction holds, not at the
/// order they stand in.
pub proof fn lemma_classification_ignores_order(
    tx_a: NormalizedTransactionView,
    tx_b: NormalizedTransactionView,
)
    requires
        tx_a.logs.to_multiset() == tx_b.logs.to_multiset(),
    ensures
        classified_tx_type(tx_a) == classified_tx_type(tx_b),
        detected_protocol(tx_a) == detected_protocol(tx_b),
{
    if has_dex_log(tx_a.logs) {
        lemma_dex_log_survives_reordering(tx_a.logs, tx_b.logs);
    }
    if has_dex_log(tx_b.logs) {
        lemma_dex_log_survives_reordering(tx_b.logs, tx_a.logs);
    }
}

/// Two assessments of the same transaction, asked for under the same hash
/// on the same chain, are equal field for field and character for
/// character: nothing but the three arguments enters an assessment.
pub proof fn lemma_analysis_deterministic(
    network: Seq<char>,
    tx_hash: Seq<char>,
    tx: NormalizedTransactionView,
    first: AnalyzeTxResponseView,
    second: AnalyzeTxResponseView,
)
    requires
        first == analysis_of(network, tx_hash, tx),
        second == analysis_of(network, tx_hash, tx),
    ensures
        first == second,
        first.tx_hash == second.tx_hash,
        first.network == second.network,
        first.tx_type == second.tx_type,
        first.protocol == second.protocol,
        first.risk_score == second.risk_score,
        first.risk_reasons == second.risk_reasons,
        first.natural_language_explanation == second.natural_language_explanation,
{
}

/// The explanation names the transaction, the chain and the classification
/// it reports.
pub proof fn lemma_explanation_mentions(
    network: Seq<char>,
    tx_hash: Seq<char>,
    tx_type: Seq<char>,
    protocol: Option<Seq<char>>,
)
    ensures
        is_substring(explanation_text(network, tx_hash, tx_type, protocol), tx_hash),
        is_substring(explanation_text(network, tx_hash, tx_type, protocol), network),
        is_substring(explanation_text(network, tx_hash, tx_type, protocol), tx_type),
{
    let text = explanation_text(network, tx_hash, tx_type, protocol);
    let opening = EXPLANATION_OPENING@;
    let closing = EXPLANATION_CLOSING@;
    let summary = classification_summary(tx_type, protocol);
    let clause = match protocol {
        Some(name) => ", protocol "@ + name,
        None => ", no known protocol"@,
    };

    let after_hash = " on "@ + network + ".\n"@ + summary + closing;
    assert(text =~= opening + tx_hash + after_hash);
    lemma_substring_of_concat(opening, tx_hash, after_hash);

    let before_network = opening + tx_hash + " on "@;
    let after_network = ".\n"@ + summary + closing;
    assert(text =~= before_network + network + after_network);
    lemma_substring_of_concat(before_network, network, after_network);

    let before_tag = opening + tx_hash + " on "@ + network + ".\n"@
        + "Heuristic classification: "@;
    let after_tag = clause + ".\n"@ + closing;
    assert(text =~= before_tag + tx_type + after_tag);
    lemma_substring_of_concat(before_tag, tx_type, after_tag);
}

/// Assesses the transaction `tx_details`, which was fetched as `tx_hash`
/// from `network`.
///
/// The transaction is classified by its logs: one log whose address contains
/// the exchange signature makes it a swap. The score is the baseline, with
/// the reason for it, and the explanation names the transaction, the chain
/// and the classification. Nothing but the three arguments enters the
/// result.
pub fn analyze_transaction(
    network: &str,
    tx_hash: &str,
    tx_details: &NormalizedTransaction,
) -> (analysis: Result<AnalyzeTxResponse, AiError>)
    ensures
        analysis is Ok,
        analysis matches Ok(a) ==> {
            &&& a@ == analysis_of(network@, tx_hash@, tx_details@)
            &&& a@.well_formed()
            &&& a@.risk_score <= RISK_SCORE_SCALE
            &&& a@.risk_reasons.len() > 0
            &&& a@.tx_hash == tx_hash@
            &&& a@.network == network@
            &&& has_dex_log(tx_details@.logs) ==> a@.tx_type == TX_TYPE_DEX_SWAP@
                && a@.protocol is Some
            &&& !has_dex_log(tx_details@.logs) ==> a@.tx_type == TX_TYPE_TRANSFER@
                && a@.protocol is None
            &&& is_substring(a@.natural_language_explanation, tx_hash@)
            &&& is_substring(a@.natural_language_explanation, network@)
            &&& is_substring(a@.natural_language_explanation, a@.tx_type)
        },
{
    let (tx_type, protocol) = match find_dex_log(tx_details) {
        Some(_) => (TX_TYPE_DEX_SWAP.to_owned(), Some(UNISWAP_LABEL.to_owned())),
        None => (TX_TYPE_TRANSFER.to_owned(), None),
    };
    // A score outside the scale never leaves the engine: the call fails.
    let risk_score = match RiskScore::from_per_mille(BASELINE_RISK) {
        Some(score) => score,
        None => {
            return Err(AiError::LlmCallFailed("risk score out of range".to_owned()));
        },
    };
    let mut risk_reasons: Vec<String> = Vec::new();
    risk_reasons.push(BASELINE_REASON.to_owned());
    let natural_language_explanation = explain(network, tx_hash, tx_type.as_str(), &protocol);

    let response = AnalyzeTxResponse {
        tx_hash: tx_hash.to_owned(),
        network: network.to_owned(),
        tx_type,
        protocol,
        risk_score,
        risk_reasons,
        natural_language_explanation,
    };
    proof {
        let wanted = analysis_of(network@, tx_hash@, tx_details@);
        assert(response@.risk_reasons =~= wanted.risk_reasons);
        lemma_analysis_well_formed(network@, tx_hash@, tx_details@);
        lemma_classification(network@, tx_hash@, tx_details@);
        lemma_explanation_mentions(
            network@,
            tx_hash@,
            classified_tx_type(tx_details@),
            detected_protocol(tx_details@),
        );
    }
    Ok(response)
}

} // verus!
