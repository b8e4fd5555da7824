//! Calendar event draft contracts: the produce → approve → provider-write
//! vertical for the `calendar_event_draft` packet kind.
//!
//! Pipeline position: work item accepted → **produce** (typed Extract stages a
//! draft) → operator approves → outbox job → Google Calendar client (write-
//! gated; dry-run until the operator enables provider writes).

use vstd::prelude::*;

verus! {

#[derive(Debug, Clone, Copy, PartialEq, Eq, Structural)]
pub enum CalendarDraftStatus {
    Staged,
    Approved,
    Rejected,
}

/// Per-field provenance: the literal source-message quote the extractor based
/// the field on. Empty quote = the model inferred it (UI flags those).
#[derive(Debug, Clone, PartialEq, Eq)]
pub struct DraftFieldProvenance {
    pub field: String,
    pub quote: String,
}

#[derive(Debug, Clone, PartialEq, Eq)]
pub struct CalendarEventDraft {
    /// "ced_<item_id>_<attempt>" — one active (non-rejected) draft per item.
    pub draft_id: String,
    pub item_id: String,
    pub source_kind: String,
    pub source_ref: String,
    /// Operator user this draft is bound to, inherited from the originating
    /// work item. Null = legacy rows / all-scope-only.
    pub source_user_id: Option<String>,
    pub status: CalendarDraftStatus,
    pub title: String,
    /// RFC3339 timestamps (what the Google Calendar API consumes).
    pub start_at: String,
    pub end_at: String,
    pub timezone: Option<String>,
    pub location: Option<String>,
    pub description: Option<String>,
    /// Calendar the approved event writes to. None = the server default
    /// (BOS_GOOGLE_CALENDAR_ID). Operator-editable while staged, picked from
    /// the connected account's writable calendars.
    pub calendar_id: Option<String>,
    pub attendees: Vec<String>,
    pub send_invitations: bool,
    pub provenance: Vec<DraftFieldProvenance>,
    /// Model that produced the extraction (audit display).
    pub model: String,
    /// Extractor's own confidence: "high" | "medium" | "low".
    pub confidence: String,
    /// Set when approved: the outbox job carrying the provider write.
    pub outbox_job_id: Option<String>,
    pub created_at_ms: u64,
    pub updated_at_ms: u64,
}

/// Delivery state of the approved draft's outbox job, surfaced so the operator
/// sees "queued → delivered (dry-run)" without a separate outbox view.
#[derive(Debug, Clone, PartialEq, Eq)]
pub struct OutboxJobSummary {
    pub job_id: String,
    /// "pending" | "delivered" | "failed_terminal" |
    /// "delivery_outcome_unknown" (manual provider reconciliation required).
    pub status: String,
    pub attempts: u32,
    pub last_error: Option<String>,
    /// True when the delivery executed against the dry-run client (provider
    /// write gate closed) — the event was NOT created on the provider.
    pub dry_run: Option<bool>,
    /// Provider object id (Google event id) once delivered for real.
    pub provider_object_id: Option<String>,
}

#[derive(Debug, Clone, PartialEq, Eq)]
pub struct CalendarDraftWithRevision {
    pub draft: CalendarEventDraft,
    pub revision: u64,
    pub outbox_job: Option<OutboxJobSummary>,
}

#[derive(Debug, Clone, PartialEq, Eq)]
pub struct CalendarDraftsResponse {
    pub drafts: Vec<CalendarDraftWithRevision>,
}

#[derive(Debug, Clone, PartialEq, Eq)]
pub struct CalendarDraftProduceRequest {
    pub item_id: String,
    pub idempotency_key: String,
    pub actor_id: Option<String>,
}

#[derive(Debug, Clone, PartialEq, Eq)]
pub struct CalendarDraftProduceResponse {
    pub draft: CalendarDraftWithRevision,
}

#[derive(Debug, Clone, Copy, PartialEq, Eq, Structural)]
pub enum CalendarDraftActionKind {
    Approve,
    Reject,
}

#[derive(Debug, Clone, PartialEq, Eq)]
pub struct CalendarDraftActionRequest {
    pub action: CalendarDraftActionKind,
    pub expected_revision: Option<u64>,
    pub idempotency_key: String,
    pub actor_id: Option<String>,
}

/// Operator edit of a STAGED draft's AI-filled fields ("AI-produced fields
/// remain editable until accepted"). Full replacement of the editable set;
/// grounded/audit fields (source, provenance, model) are not editable.
#[derive(Debug, Clone, PartialEq, Eq)]
pub struct CalendarDraftUpdateRequest {
    pub title: String,
    pub start_at: String,
    pub end_at: String,
    pub timezone: Option<String>,
    pub location: Option<String>,
    pub description: Option<String>,
    /// None = write to the server default calendar.
    pub calendar_id: Option<String>,
    pub attendees: Vec<String>,
    pub send_invitations: bool,
    pub expected_revision: Option<u64>,
    pub idempotency_key: String,
    pub actor_id: Option<String>,
}

/// One calendar the connected account can write to (the event-draft picker).
#[derive(Debug, Clone, PartialEq, Eq)]
pub struct CalendarOption {
    pub id: String,
    pub summary: String,
    pub primary: bool,
}

#[derive(Debug, Clone, PartialEq, Eq)]
pub struct CalendarListResponse {
    pub calendars: Vec<CalendarOption>,
    /// The server default target (BOS_GOOGLE_CALENDAR_ID) — what None means.
    pub default_calendar_id: String,
}

} // verus!
