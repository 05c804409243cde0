use vstd::prelude::*;

verus! {

/// What a caller sends: the chain to look at and the transaction to assess.
#[derive(Debug, Clone, PartialEq, Eq)]
pub struct AnalyzeTxRequest {
    pub network: String,
    pub tx_hash: String,
}

/// How the chain reported the outcome of a transaction.
#[derive(Debug, Clone, Copy, PartialEq, Eq, Structural)]
pub enum TxStatus {
    Success,
    Failure,
    Pending,
}

/// One event emitted while the transaction ran. Only the emitting address is
/// interpreted; topics and data are carried as they came.
#[derive(Debug, Clone, PartialEq, Eq)]
pub struct LogEntry {
    pub address: String,
    pub topics: Vec<String>,
    pub data: String,
}

/// Mathematical content of a [`LogEntry`].
pub struct LogEntryView {
    pub address: Seq<char>,
    pub topics: Seq<Seq<char>>,
    pub data: Seq<char>,
}

impl View for LogEntry {
    type V = LogEntryView;

    open spec fn view(&self) -> LogEntryView {
        LogEntryView {
            address: self.address@,
            topics: self.topics@.map_values(|t: String| t@),
            data: self.data@,
        }
    }
}

/// A transaction in the one shape every chain is brought to before analysis.
#[derive(Debug, Clone, PartialEq, Eq)]
pub struct NormalizedTransaction {
    pub hash: String,
    pub from: String,
    pub to: String,
    pub value: String,
    pub gas_used: u64,
    pub status: TxStatus,
    pub logs: Vec<LogEntry>,
}

/// Mathematical content of a [`NormalizedTransaction`].
pub struct NormalizedTransactionView {
    pub hash: Seq<char>,
    pub from: Seq<char>,
    pub to: Seq<char>,
    pub value: Seq<char>,
    pub gas_used: nat,
    pub status: TxStatus,
    pub logs: Seq<LogEntryView>,
}

impl View for NormalizedTransaction {
    type V = NormalizedTransactionView;

    open spec fn view(&self) -> NormalizedTransactionView {
        NormalizedTransactionView {
            hash: self.hash@,
            from: self.from@,
            to: self.to@,
            value: self.value@,
            gas_used: self.gas_used as nat,
            status: self.status,
            logs: self.logs@.map_values(|l: LogEntry| l@),
        }
    }
}

/// The largest risk score: certainty, written in thousandths.
pub const RISK_SCORE_SCALE: u16 = 1000;

/// A risk estimate between 0 and 1 inclusive, held exactly as a count of
/// thousandths.
#[derive(Debug, Clone, Copy, PartialEq, Eq)]
pub struct RiskScore {
    thousandths: u16,
}

impl View for RiskScore {
    type V = nat;

    /// The score as a number of thousandths.
    closed spec fn view(&self) -> nat {
        self.thousandths as nat
    }
}

impl RiskScore {
    #[verifier::type_invariant]
    spec fn in_range(self) -> bool {
        self.thousandths <= RISK_SCORE_SCALE
    }

    /// Builds a score from a count of thousandths; anything above 1000 is
    /// not a score.
    pub fn from_per_mille(thousandths: u16) -> (score: Option<RiskScore>)
        ensures
            score is Some <==> thousandths <= RISK_SCORE_SCALE,
            score matches Some(s) ==> s@ == thousandths,
    {
        if thousandths <= RISK_SCORE_SCALE {
            Some(RiskScore { thousandths })
        } else {
            None
        }
    }

    /// The score as a number of thousandths; never more than 1000.
    pub fn per_mille(&self) -> (thousandths: u16)
        ensures
            thousandths == self@,
            thousandths <= RISK_SCORE_SCALE,
    {
        proof {
            use_type_invariant(self);
        }
        self.thousandths
    }
}

/// Classification tag of a transaction that went through a decentralised
/// exchange.
pub const TX_TYPE_DEX_SWAP: &'static str = "DEX_SWAP";

/// Classification tag of every transaction in which no known pattern was
/// found.
pub const TX_TYPE_TRANSFER: &'static str = "TRANSFER";

/// The classification tags an analysis may carry.
pub open spec fn is_known_tx_type(tag: Seq<char>) -> bool {
    tag == TX_TYPE_DEX_SWAP@ || tag == TX_TYPE_TRANSFER@
}

/// The characters of a text that may be absent.
pub open spec fn optional_text(text: Option<String>) -> Option<Seq<char>> {
    match text {
        Some(t) => Some(t@),
        None => None,
    }
}

/// The assessment of one transaction, as it is handed back to the caller.
#[derive(Debug, Clone, PartialEq, Eq)]
pub struct AnalyzeTxResponse {
    pub tx_hash: String,
    pub network: String,
    pub tx_type: String,
    pub protocol: Option<String>,
    pub risk_score: RiskScore,
    pub risk_reasons: Vec<String>,
    pub natural_language_explanation: String,
}

/// Mathematical content of an [`AnalyzeTxResponse`]; the score is in
/// thousandths.
pub struct AnalyzeTxResponseView {
    pub tx_hash: Seq<char>,
    pub network: Seq<char>,
    pub tx_type: Seq<char>,
    pub protocol: Option<Seq<char>>,
    pub risk_score: nat,
    pub risk_reasons: Seq<Seq<char>>,
    pub natural_language_explanation: Seq<char>,
}

impl AnalyzeTxResponseView {
    /// What every assessment that leaves the engine satisfies: a score
    /// between 0 and 1, a classification tag that is known and not blank,
    /// and at least one reason, none of them blank.
    pub open spec fn well_formed(self) -> bool {
        &&& self.risk_score <= RISK_SCORE_SCALE
        &&& is_known_tx_type(self.tx_type)
        &&& self.tx_type.len() > 0
        &&& self.risk_reasons.len() > 0
        &&& forall|i: int| 0 <= i < self.risk_reasons.len() ==> self.risk_reasons[i].len() > 0
    }
}

impl View for AnalyzeTxResponse {
    type V = AnalyzeTxResponseView;

    open spec fn view(&self) -> AnalyzeTxResponseView {
        AnalyzeTxResponseView {
            tx_hash: self.tx_hash@,
            network: self.network@,
            tx_type: self.tx_type@,
            protocol: optional_text(self.protocol),
            risk_score: self.risk_score@,
            risk_reasons: self.risk_reasons@.map_values(|r: String| r@),
            natural_language_explanation: self.natural_language_explanation@,
        }
    }
}

} // verus!
