//! Shared enrichment waterfall contracts. Draft slices use these types to
//! describe field-scoped enrichment plans and durable diagnostics.

use vstd::prelude::*;

verus! {

#[derive(Debug, Clone, Copy, PartialEq, Eq, Structural)]
pub enum EnrichmentRunStatus {
    Started,
    Completed,
    Partial,
    Skipped,
    Failed,
}

#[derive(Debug, Clone, Copy, PartialEq, Eq, Structural)]
pub enum EnrichmentTier {
    Local,
    Provider,
    WebSearch,
    Research,
}

#[derive(Debug, Clone, Copy, PartialEq, Eq, Structural)]
pub enum EnrichmentMode {
    Standard,
    Research,
}

#[derive(Debug, Clone, Copy, PartialEq, Eq, Structural)]
pub enum EnrichmentEligibility {
    MissingOnly,
    WeakPrefill,
    AlwaysCompare,
}

#[derive(Debug, Clone, Copy, PartialEq, Eq, Structural)]
pub enum EnrichmentConfidence {
    Low,
    Medium,
    High,
}

#[derive(Debug, Clone, PartialEq, Eq)]
pub struct EnrichmentFieldSpec {
    pub field_id: String,
    pub value_kind: String,
    pub eligibility: EnrichmentEligibility,
    pub min_confidence: EnrichmentConfidence,
    pub provenance_required: bool,
    pub operator_override: bool,
}

#[derive(Debug, Clone, PartialEq, Eq)]
pub struct EnrichmentSeedEvidence {
    pub source_id: String,
    pub label: String,
    pub quote: Option<String>,
}

#[derive(Debug, Clone, PartialEq, Eq)]
pub struct EnrichmentPlan {
    pub subject: String,
    pub fields: Vec<EnrichmentFieldSpec>,
    pub seed_evidence: Vec<EnrichmentSeedEvidence>,
    pub enabled_tiers: Vec<EnrichmentTier>,
    pub stop_policy: Vec<String>,
}

#[derive(Debug, Clone, PartialEq, Eq)]
pub struct EnrichmentTierEvent {
    pub event_type: String,
    pub tier: EnrichmentTier,
    pub step: Option<u32>,
    pub action_kind: Option<String>,
    pub budget_remaining: Option<u32>,
    pub refusal_code: Option<String>,
    pub field_id: Option<String>,
    pub status: Option<String>,
    pub reason: Option<String>,
    pub source_id: Option<String>,
    pub url: Option<String>,
    pub final_url: Option<String>,
    pub query: Option<String>,
    pub rank: Option<u32>,
    pub title: Option<String>,
    pub snippet: Option<String>,
    pub proposed_value: Option<String>,
    pub confidence: Option<EnrichmentConfidence>,
    pub quote: Option<String>,
    pub latency_ms: Option<u64>,
    pub bytes: Option<u64>,
    pub cost_micros: Option<u64>,
}

#[derive(Debug, Clone, PartialEq, Eq)]
pub struct EnrichmentFieldProposal {
    pub field_id: String,
    pub proposed_value: String,
    pub source_tier: EnrichmentTier,
    pub confidence: EnrichmentConfidence,
    pub provenance_refs: Vec<String>,
    pub accepted: bool,
    pub reason: String,
}

#[derive(Debug, Clone, PartialEq, Eq)]
pub struct EnrichmentRun {
    pub run_id: String,
    pub slice_id: String,
    pub draft_id: String,
    pub item_id: String,
    pub subject: String,
    pub status: EnrichmentRunStatus,
    pub started_at_ms: u64,
    pub finished_at_ms: Option<u64>,
    pub plan: EnrichmentPlan,
    pub diagnostics: Vec<EnrichmentTierEvent>,
    pub proposals: Vec<EnrichmentFieldProposal>,
    pub cost_micros: u64,
    pub created_by: String,
}

#[derive(Debug, Clone, PartialEq, Eq)]
pub struct EnrichmentRunsResponse {
    pub runs: Vec<EnrichmentRun>,
}

#[derive(Debug, Clone, PartialEq, Eq)]
pub struct EnrichmentKickoffRequest {
    pub idempotency_key: String,
    pub domain_seed: Option<String>,
    pub mode: Option<EnrichmentMode>,
}

#[derive(Debug, Clone, PartialEq, Eq)]
pub struct EnrichmentKickoffResponse {
    pub run_id: String,
    pub already_running: bool,
}

impl Default for EnrichmentTierEvent {
    fn default() -> (r: Self)
        ensures
            r.event_type@.len() == 0,
            r.tier == EnrichmentTier::Local,
            r.step is None,
            r.action_kind is None,
            r.budget_remaining is None,
            r.refusal_code is None,
            r.field_id is None,
            r.status is None,
            r.reason is None,
            r.source_id is None,
            r.url is None,
            r.final_url is None,
            r.query is None,
            r.rank is None,
            r.title is None,
            r.snippet is None,
            r.proposed_value is None,
            r.confidence is None,
            r.quote is None,
            r.latency_ms is None,
            r.bytes is None,
            r.cost_micros is None,
    {
        EnrichmentTierEvent {
            event_type: String::new(),
            tier: EnrichmentTier::Local,
            step: None,
            action_kind: None,
            budget_remaining: None,
            refusal_code: None,
            field_id: None,
            status: None,
            reason: None,
            source_id: None,
            url: None,
            final_url: None,
            query: None,
            rank: None,
            title: None,
            snippet: None,
            proposed_value: None,
            confidence: None,
            quote: None,
            latency_ms: None,
            bytes: None,
            cost_micros: None,
        }
    }
}

} // verus!
