//! AI usage log contracts: per-call token/latency accounting for every typed
//! LLM execution (API and harness routes), surfaced to the operator.

use vstd::prelude::*;

verus! {

#[derive(Debug, Clone, PartialEq, Eq)]
pub struct AiUsageRow {
    pub usage_id: String,
    /// What the call was for ("email_ai_triage", "calendar_event_extract", ...).
    pub purpose: String,
    /// "api" | "harness".
    pub route: String,
    pub provider: String,
    pub model: String,
    pub tokens_in: Option<u64>,
    pub tokens_out: Option<u64>,
    pub total_tokens: Option<u64>,
    pub cost_micros: Option<u64>,
    pub latency_ms: u64,
    pub success: bool,
    pub error_code: Option<String>,
    pub correlation_id: String,
    pub recorded_at_ms: u64,
}

/// Aggregates over a window of usage rows.
#[derive(Debug, Clone, PartialEq, Eq)]
pub struct AiUsageTotals {
    pub calls: u64,
    pub failures: u64,
    pub tokens_in: u64,
    pub tokens_out: u64,
    pub cost_micros: u64,
}

#[derive(Debug, Clone, PartialEq, Eq)]
pub struct AiUsageResponse {
    pub rows: Vec<AiUsageRow>,
    pub totals_all_time: AiUsageTotals,
    pub totals_last_24h: AiUsageTotals,
}

} // verus!
