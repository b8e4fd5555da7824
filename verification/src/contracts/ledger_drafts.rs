//! Ledger entry draft contracts: the produce → approve → provider-write
//! vertical for the `ledger_entry` packet kind (recording a received payment
//! — e.g. a Stripe receipt email — into the accounting provider). Money is
//! grounded: the amount must carry a literal provenance quote from the
//! source. Write-gated like every provider vertical: approval enqueues an
//! outbox job; the Invoice Ninja client dry-runs until writes are switched on.

use vstd::prelude::*;

use super::calendar_drafts::{DraftFieldProvenance, OutboxJobSummary};

verus! {

#[derive(Debug, Clone, Copy, PartialEq, Eq, Structural)]
pub enum LedgerDraftStatus {
    Staged,
    Approved,
    Rejected,
}

#[derive(Debug, Clone, PartialEq, Eq)]
pub struct LedgerEntryDraft {
    /// "led_<item_id>_<attempt>" — one active (non-rejected) draft per item.
    pub draft_id: String,
    pub item_id: String,
    pub source_kind: String,
    pub source_ref: String,
    pub status: LedgerDraftStatus,
    /// Who paid (client/customer name in the accounting system).
    pub payer_name: String,
    pub payer_email: Option<String>,
    /// Integer cents — REQUIRES a literal provenance quote from the source.
    pub amount_cents: i64,
    /// YYYY-MM-DD; defaults to the source email's date when the source
    /// doesn't state one explicitly (grounded, never model-invented).
    pub paid_date: String,
    /// What the payment was for (the invoice line / payment note).
    pub description: String,
    pub provenance: Vec<DraftFieldProvenance>,
    pub model: String,
    pub confidence: String,
    pub outbox_job_id: Option<String>,
    pub created_at_ms: u64,
    pub updated_at_ms: u64,
}

#[derive(Debug, Clone, PartialEq, Eq)]
pub struct LedgerDraftWithRevision {
    pub draft: LedgerEntryDraft,
    pub revision: u64,
    pub outbox_job: Option<OutboxJobSummary>,
}

#[derive(Debug, Clone, PartialEq, Eq)]
pub struct LedgerDraftsResponse {
    pub drafts: Vec<LedgerDraftWithRevision>,
}

#[derive(Debug, Clone, PartialEq, Eq)]
pub struct LedgerDraftProduceRequest {
    pub item_id: String,
    pub idempotency_key: String,
    pub actor_id: Option<String>,
}

#[derive(Debug, Clone, PartialEq, Eq)]
pub struct LedgerDraftProduceResponse {
    pub draft: LedgerDraftWithRevision,
}

#[derive(Debug, Clone, Copy, PartialEq, Eq, Structural)]
pub enum LedgerDraftActionKind {
    Approve,
    Reject,
}

#[derive(Debug, Clone, PartialEq, Eq)]
pub struct LedgerDraftActionRequest {
    pub action: LedgerDraftActionKind,
    pub expected_revision: Option<u64>,
    pub idempotency_key: String,
    pub actor_id: Option<String>,
}

/// Operator edit of a STAGED draft's AI-filled fields. Everything is
/// editable — the human IS the grounding when they change a value.
#[derive(Debug, Clone, PartialEq, Eq)]
pub struct LedgerDraftUpdateRequest {
    pub payer_name: String,
    pub payer_email: Option<String>,
    pub amount_cents: i64,
    pub paid_date: String,
    pub description: String,
    pub expected_revision: Option<u64>,
    pub idempotency_key: String,
    pub actor_id: Option<String>,
}

} // verus!
