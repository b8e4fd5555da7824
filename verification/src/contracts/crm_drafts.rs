//! CRM note draft contracts: the produce → approve → provider-write vertical
//! for the `crm_activity` packet kind (HubSpot note logging the source
//! call/email). Write-gated like the calendar vertical: approval enqueues an
//! outbox job; the HubSpot client dry-runs until writes are switched on.

use vstd::prelude::*;

use super::calendar_drafts::{DraftFieldProvenance, OutboxJobSummary};

verus! {

#[derive(Debug, Clone, Copy, PartialEq, Eq, Structural)]
pub enum CrmDraftStatus {
    Staged,
    Approved,
    Rejected,
}

#[derive(Debug, Clone, PartialEq, Eq)]
pub struct CrmNoteDraft {
    /// "cnd_<item_id>_<attempt>" — one active (non-rejected) draft per item.
    pub draft_id: String,
    pub item_id: String,
    pub source_kind: String,
    pub source_ref: String,
    /// Operator user this draft is bound to, inherited from the originating
    /// work item. Null = legacy rows / all-scope-only.
    pub source_user_id: Option<String>,
    pub status: CrmDraftStatus,
    /// The CRM-ready note text.
    pub note_body: String,
    /// Contact the note concerns, when determinable (rides in the note body
    /// on write — the free-tier posture avoids the associations API).
    pub contact_email: Option<String>,
    /// RFC3339 timestamp the note is logged at (grounded from the source
    /// email's date, never model-invented).
    pub occurred_at: String,
    pub provenance: Vec<DraftFieldProvenance>,
    pub model: String,
    pub confidence: String,
    pub outbox_job_id: Option<String>,
    pub created_at_ms: u64,
    pub updated_at_ms: u64,
}

#[derive(Debug, Clone, PartialEq, Eq)]
pub struct CrmDraftWithRevision {
    pub draft: CrmNoteDraft,
    pub revision: u64,
    pub outbox_job: Option<OutboxJobSummary>,
}

#[derive(Debug, Clone, PartialEq, Eq)]
pub struct CrmDraftsResponse {
    pub drafts: Vec<CrmDraftWithRevision>,
}

#[derive(Debug, Clone, PartialEq, Eq)]
pub struct CrmDraftProduceRequest {
    pub item_id: String,
    pub idempotency_key: String,
    pub actor_id: Option<String>,
}

#[derive(Debug, Clone, PartialEq, Eq)]
pub struct CrmDraftProduceResponse {
    pub draft: CrmDraftWithRevision,
}

#[derive(Debug, Clone, Copy, PartialEq, Eq, Structural)]
pub enum CrmDraftActionKind {
    Approve,
    Reject,
}

#[derive(Debug, Clone, PartialEq, Eq)]
pub struct CrmDraftActionRequest {
    pub action: CrmDraftActionKind,
    pub expected_revision: Option<u64>,
    pub idempotency_key: String,
    pub actor_id: Option<String>,
}

/// Operator edit of a STAGED draft's AI-filled fields ("AI-produced fields
/// remain editable until accepted"). occurred_at stays grounded from the
/// source email's date — not editable.
#[derive(Debug, Clone, PartialEq, Eq)]
pub struct CrmDraftUpdateRequest {
    pub note_body: String,
    pub contact_email: Option<String>,
    pub expected_revision: Option<u64>,
    pub idempotency_key: String,
    pub actor_id: Option<String>,
}

} // verus!
