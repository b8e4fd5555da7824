//! Invoice draft contracts: the produce → approve → provider-write vertical
//! for the `invoice_draft` packet kind (drafting a Stripe invoice from a
//! note/email that describes billable work — Avery's own invoicing, not a
//! Demo workflow). Money is grounded: every line item's amount must carry a
//! literal provenance quote from the source, and line/total math is
//! recomputed deterministically — the model never does arithmetic. Approval
//! enqueues a Stripe create-invoice-draft outbox job; the client dry-runs
//! until BOS_STRIPE_WRITE_ENABLED opens, and even live the invoice stays a
//! Stripe DRAFT (finalize/send is a human action in the Stripe dashboard).

use vstd::prelude::*;

use super::calendar_drafts::{DraftFieldProvenance, OutboxJobSummary};

verus! {

#[derive(Debug, Clone, Copy, PartialEq, Eq, Structural)]
pub enum InvoiceDraftStatus {
    Staged,
    Approved,
    Rejected,
}

#[derive(Debug, Clone, PartialEq, Eq)]
pub struct InvoiceDraftLineItem {
    /// 1-based; stable across edits (feeds the per-line idempotency key).
    pub line_number: u32,
    pub label: String,
    pub description: Option<String>,
    pub quantity: u32,
    /// Integer cents — REQUIRES a literal provenance quote from the source
    /// (field "line_{n}_amount") when AI-filled; the human is the grounding
    /// after an edit.
    pub unit_amount_cents: i64,
    /// Always recomputed server-side as quantity × unit_amount_cents.
    pub line_total_cents: i64,
}

#[derive(Debug, Clone, PartialEq, Eq)]
pub struct InvoiceDraft {
    /// "inv_<item_id>_<attempt>" — one active (non-rejected) draft per item.
    pub draft_id: String,
    pub item_id: String,
    pub source_kind: String,
    pub source_ref: String,
    pub status: InvoiceDraftStatus,
    /// Who gets billed (Stripe customer name).
    pub customer_name: String,
    /// Required for approval — Stripe's find-or-create key.
    pub customer_email: Option<String>,
    /// ISO 4217 (v1 stages "usd").
    pub currency: String,
    pub line_items: Vec<InvoiceDraftLineItem>,
    /// Recomputed server-side from the line items; equals total in v1
    /// (no tax/discount lines yet).
    pub subtotal_cents: i64,
    pub total_cents: i64,
    /// YYYY-MM-DD, only when the source states one (never invented).
    pub due_date: Option<String>,
    /// Lands on the Stripe invoice's description/memo field.
    pub memo: String,
    pub provenance: Vec<DraftFieldProvenance>,
    pub model: String,
    pub confidence: String,
    pub outbox_job_id: Option<String>,
    pub created_at_ms: u64,
    pub updated_at_ms: u64,
}

#[derive(Debug, Clone, PartialEq, Eq)]
pub struct InvoiceDraftWithRevision {
    pub draft: InvoiceDraft,
    pub revision: u64,
    pub outbox_job: Option<OutboxJobSummary>,
}

#[derive(Debug, Clone, PartialEq, Eq)]
pub struct InvoiceDraftsResponse {
    pub drafts: Vec<InvoiceDraftWithRevision>,
}

#[derive(Debug, Clone, PartialEq, Eq)]
pub struct InvoiceDraftProduceRequest {
    pub item_id: String,
    pub idempotency_key: String,
    pub actor_id: Option<String>,
}

#[derive(Debug, Clone, PartialEq, Eq)]
pub struct InvoiceDraftProduceResponse {
    pub draft: InvoiceDraftWithRevision,
}

#[derive(Debug, Clone, Copy, PartialEq, Eq, Structural)]
pub enum InvoiceDraftActionKind {
    Approve,
    Reject,
}

#[derive(Debug, Clone, PartialEq, Eq)]
pub struct InvoiceDraftActionRequest {
    pub action: InvoiceDraftActionKind,
    pub expected_revision: Option<u64>,
    pub idempotency_key: String,
    pub actor_id: Option<String>,
}

/// Operator edit of a STAGED draft. Line items are replaced wholesale; the
/// server recomputes totals and re-validates the math — the human IS the
/// grounding when they change an amount.
#[derive(Debug, Clone, PartialEq, Eq)]
pub struct InvoiceDraftUpdateRequest {
    pub customer_name: String,
    pub customer_email: Option<String>,
    pub due_date: Option<String>,
    pub memo: String,
    pub line_items: Vec<InvoiceDraftLineItem>,
    pub expected_revision: Option<u64>,
    pub idempotency_key: String,
    pub actor_id: Option<String>,
}

/// Operator-configurable invoicing defaults (Settings → Invoicing). The
/// default payment term in days (Net N), when set, is applied to a produced
/// invoice when the source states no explicit due date and no "Net N" term.
/// None = no default (due date stays blank).
#[derive(Debug, Clone, PartialEq, Eq)]
pub struct InvoiceSettingsResponse {
    pub revision: Option<u64>,
    pub default_due_days: Option<u32>,
}

#[derive(Debug, Clone, PartialEq, Eq)]
pub struct InvoiceSettingsUpdateRequest {
    pub expected_revision: Option<u64>,
    pub idempotency_key: String,
    pub actor_id: Option<String>,
    pub default_due_days: Option<u32>,
}

} // verus!
