use vstd::prelude::*;

verus! {

#[derive(Debug, Clone, Copy, PartialEq, Eq, Structural)]
pub enum WorkflowRunStatus {
    Running,
    Staged,
    NeedsOperatorInput,
    Failed,
    Approved,
    Rejected,
}

#[derive(Debug, Clone, Copy, PartialEq, Eq, Structural)]
pub enum QuoteDraftStatus {
    Staged,
    Approved,
    Rejected,
}

#[derive(Debug, Clone, PartialEq, Eq)]
pub struct QuoteLineItem {
    pub sku: String,
    pub product_line: Option<String>,
    pub description: String,
    pub quantity: u32,
    pub unit_cents: i64,
    pub total_cents: i64,
    pub source_quote: String,
}

#[derive(Debug, Clone, Copy, PartialEq, Eq, Structural)]
pub enum QuoteGuardrailStatus {
    WithinGuardrails,
    NeedsApproval,
}

#[derive(Debug, Clone, Copy, PartialEq, Eq, Structural)]
pub enum QuoteGuardrailSeverity {
    Info,
    Review,
    ApprovalRequired,
    Major,
}

#[derive(Debug, Clone, PartialEq, Eq)]
pub struct QuoteGuardrailFinding {
    pub code: String,
    pub severity: QuoteGuardrailSeverity,
    pub message: String,
    pub line_sku: Option<String>,
    pub product_line: Option<String>,
    pub customer_tier: Option<String>,
    pub list_unit_cents: Option<i64>,
    pub quoted_unit_cents: Option<i64>,
    pub delta_bps: Option<i32>,
    pub required_approver_id: Option<String>,
}

#[derive(Debug, Clone, PartialEq, Eq)]
pub struct QuoteApprovalRoute {
    pub approver_id: String,
    pub reason: String,
}

#[derive(Debug, Clone, PartialEq, Eq)]
pub struct QuoteWorkflowRunRequest {
    pub source_kind: String,
    pub source_ref: String,
    pub customer_name: String,
    pub customer_tier: Option<String>,
    pub request_text: String,
    pub idempotency_key: String,
    pub actor_id: Option<String>,
}

#[derive(Debug, Clone, Copy, PartialEq, Eq, Structural)]
pub enum QuoteDraftActionKind {
    Approve,
    Reject,
}

#[derive(Debug, Clone, PartialEq, Eq)]
pub struct QuoteDraftActionRequest {
    pub action: QuoteDraftActionKind,
    pub expected_revision: Option<u64>,
    pub idempotency_key: String,
    pub actor_id: Option<String>,
}

} // verus!
