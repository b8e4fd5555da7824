//! Packet proposal contracts: one bounded AI call proposes which packet kinds
//! are warranted and returns typed draft payloads for the existing produce
//! gates to stage.

use vstd::prelude::*;

verus! {

#[derive(Debug, Clone, Copy, PartialEq, Eq, Structural)]
pub enum PacketProposalDecisionMode {
    AiDecides,
    FillFixed,
}

#[derive(Debug, Clone, Copy, PartialEq, Eq, Structural)]
pub enum PacketProposalExecutionMode {
    BoundedTyped,
    ToolLoopAgentic,
}

#[derive(Debug, Clone, Copy, PartialEq, Eq, Structural)]
pub enum PacketProposalRunStatus {
    Running,
    Completed,
    Failed,
}

#[derive(Debug, Clone, Copy, PartialEq, Eq, Structural)]
pub enum PacketProposalKindOutcomeStatus {
    Drafted,
    Unavailable,
    RejectedByGate,
}

#[derive(Debug, Clone, Copy, PartialEq, Eq, Structural)]
pub enum PacketProposalReasonCode {
    ActiveDraftExists,
    CategoryInvalid,
    ContextUnavailable,
    GateRejected,
    KindNotEnabled,
    KindNotRequested,
    LowConfidence,
    ModelOutputInvalid,
    SourceMissing,
    SourceUnsupported,
    StageFailed,
}

#[derive(Debug, Clone, PartialEq, Eq)]
pub struct PacketProposalKindOutcome {
    pub packet_kind: String,
    pub status: PacketProposalKindOutcomeStatus,
    pub reason_code: Option<PacketProposalReasonCode>,
    pub message: Option<String>,
    pub draft_id: Option<String>,
}

#[derive(Debug, Clone, PartialEq, Eq)]
pub struct PacketProposalRun {
    pub run_id: String,
    pub source_kind: String,
    pub source_ref: String,
    pub item_id: Option<String>,
    pub resolved_decision_mode: PacketProposalDecisionMode,
    pub execution_mode: PacketProposalExecutionMode,
    pub status: PacketProposalRunStatus,
    pub candidate_packet_kinds: Vec<String>,
    pub outcomes: Vec<PacketProposalKindOutcome>,
    pub model: Option<String>,
    pub confidence: Option<String>,
    pub error_code: Option<String>,
    pub created_at_ms: u64,
    pub updated_at_ms: u64,
}

#[derive(Debug, Clone, PartialEq, Eq)]
pub struct SmartDraftRequest {
    pub source_kind: String,
    pub source_ref: String,
    pub idempotency_key: String,
    pub expected_revision: Option<u64>,
    pub actor_id: Option<String>,
}

#[derive(Debug, Clone, PartialEq, Eq)]
pub struct SmartDraftSourceStateRequest {
    pub source_kind: String,
    pub source_ref: String,
    pub run_id: Option<String>,
}

#[derive(Debug, Clone, PartialEq, Eq)]
pub struct SmartDraftSourceStateResponse {
    pub item: Option<super::work_queue::WorkItemWithRevision>,
    pub expected_revision: Option<u64>,
    pub run: Option<PacketProposalRun>,
}

#[derive(Debug, Clone, PartialEq, Eq)]
pub struct SmartDraftResponse {
    pub run: PacketProposalRun,
    pub item: Option<super::work_queue::WorkItemWithRevision>,
}

} // verus!
