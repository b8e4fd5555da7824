//! CRM sales-intent draft contracts: a separate produce -> approve workflow for
//! pipeline intent (`crm_sales_intent`). A lead is not a durable address-book
//! contact; approval writes a provider sales object only when the configured CRM
//! supports the selected target.

use vstd::prelude::*;

use super::calendar_drafts::{DraftFieldProvenance, OutboxJobSummary};

verus! {

#[derive(Debug, Clone, Copy, PartialEq, Eq, Structural)]
pub enum CrmSalesIntentDraftStatus {
    Staged,
    Approved,
    Rejected,
}

#[derive(Debug, Clone, Copy, PartialEq, Eq, Structural)]
pub enum CrmSalesIntentProviderTarget {
    Lead,
    Deal,
    TaskOnly,
}

#[derive(Debug, Clone, PartialEq, Eq)]
pub struct CrmSalesIntentDraft {
    /// "csi_<item_id>_<attempt>" - one active (non-rejected) draft per item.
    pub draft_id: String,
    pub item_id: String,
    pub source_kind: String,
    pub source_ref: String,
    pub source_user_id: Option<String>,
    pub status: CrmSalesIntentDraftStatus,
    pub company_name: Option<String>,
    pub contact_name: Option<String>,
    pub contact_email: Option<String>,
    pub lead_title: String,
    pub intent_summary: String,
    pub rationale: String,
    pub qualification_status: String,
    pub next_step_text: String,
    pub follow_up_due_date: Option<String>,
    pub provider_target: CrmSalesIntentProviderTarget,
    pub create_businessos_task: bool,
    pub provenance: Vec<DraftFieldProvenance>,
    pub model: String,
    pub confidence: String,
    pub outbox_job_id: Option<String>,
    pub created_at_ms: u64,
    pub updated_at_ms: u64,
}

#[derive(Debug, Clone, PartialEq, Eq)]
pub struct CrmSalesIntentDraftWithRevision {
    pub draft: CrmSalesIntentDraft,
    pub revision: u64,
    pub outbox_job: Option<OutboxJobSummary>,
}

#[derive(Debug, Clone, PartialEq, Eq)]
pub struct CrmSalesIntentDraftsResponse {
    pub drafts: Vec<CrmSalesIntentDraftWithRevision>,
}

#[derive(Debug, Clone, PartialEq, Eq)]
pub struct CrmSalesIntentProduceRequest {
    pub item_id: String,
    pub idempotency_key: String,
    pub actor_id: Option<String>,
}

#[derive(Debug, Clone, PartialEq, Eq)]
pub struct CrmSalesIntentProduceResponse {
    pub draft: CrmSalesIntentDraftWithRevision,
}

#[derive(Debug, Clone, Copy, PartialEq, Eq, Structural)]
pub enum CrmSalesIntentActionKind {
    Approve,
    Reject,
}

#[derive(Debug, Clone, PartialEq, Eq)]
pub struct CrmSalesIntentActionRequest {
    pub action: CrmSalesIntentActionKind,
    pub expected_revision: Option<u64>,
    pub idempotency_key: String,
    pub actor_id: Option<String>,
}

#[derive(Debug, Clone, PartialEq, Eq)]
pub struct CrmSalesIntentUpdateRequest {
    pub company_name: Option<String>,
    pub contact_name: Option<String>,
    pub contact_email: Option<String>,
    pub lead_title: String,
    pub intent_summary: String,
    pub rationale: String,
    pub qualification_status: String,
    pub next_step_text: String,
    pub follow_up_due_date: Option<String>,
    pub provider_target: CrmSalesIntentProviderTarget,
    pub create_businessos_task: bool,
    pub expected_revision: Option<u64>,
    pub idempotency_key: String,
    pub actor_id: Option<String>,
}

} // verus!
