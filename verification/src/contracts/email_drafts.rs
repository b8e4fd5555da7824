//! Email reply draft contracts: the produce → approve → provider-write
//! vertical for the `email_draft_reply` packet kind. Approval creates a
//! Gmail DRAFT in the operator's mailbox (never sends); sending stays a
//! human act in Gmail — the DRAFT→approver posture for customer-facing mail.

use vstd::prelude::*;

use super::calendar_drafts::{DraftFieldProvenance, OutboxJobSummary};
use super::work_queue::WorkItemWithRevision;

verus! {

#[derive(Debug, Clone, Copy, PartialEq, Eq, Structural)]
pub enum EmailDraftStatus {
    Staged,
    Approved,
    Rejected,
}

#[derive(Debug, Clone, PartialEq, Eq)]
pub struct EmailReplyDraft {
    /// "erd_<item_id>_<attempt>" — one active (non-rejected) draft per item.
    pub draft_id: String,
    pub item_id: String,
    pub source_kind: String,
    pub source_ref: String,
    /// Operator user this draft is bound to, inherited from the originating
    /// work item. Null = legacy rows / all-scope-only.
    pub source_user_id: Option<String>,
    pub status: EmailDraftStatus,
    /// Reply recipient — source-grounded on inbound replies, operator-authored
    /// for blank drafts, and never model-chosen.
    pub to_addr: String,
    /// Reply-all Cc recipients grounded from the source message's To/Cc,
    /// excluding the source mailbox when known.
    pub cc_addrs: Vec<String>,
    /// Source-grounded on inbound replies or operator-authored for blank
    /// drafts; never model-chosen.
    pub subject: String,
    pub body_text: String,
    /// Gmail thread the draft attaches to (reply threading).
    pub thread_id: Option<String>,
    /// RFC Message-ID of the source message. Used for Gmail reply drafts'
    /// In-Reply-To header; source-grounded and not operator-editable.
    pub reply_message_id: Option<String>,
    /// RFC References chain for the source conversation, with the source
    /// Message-ID appended. Source-grounded and not operator-editable.
    pub reference_message_ids: Vec<String>,
    pub provenance: Vec<DraftFieldProvenance>,
    pub model: String,
    pub confidence: String,
    pub outbox_job_id: Option<String>,
    pub created_at_ms: u64,
    pub updated_at_ms: u64,
}

#[derive(Debug, Clone, PartialEq, Eq)]
pub struct EmailDraftWithRevision {
    pub draft: EmailReplyDraft,
    pub revision: u64,
    pub outbox_job: Option<OutboxJobSummary>,
    pub follow_up: Option<EmailOutboundFollowUpSummary>,
}

#[derive(Debug, Clone, PartialEq, Eq)]
pub struct EmailDraftsResponse {
    pub drafts: Vec<EmailDraftWithRevision>,
}

#[derive(Debug, Clone, PartialEq, Eq)]
pub struct EmailDraftProduceRequest {
    pub item_id: String,
    pub idempotency_key: String,
    pub actor_id: Option<String>,
}

#[derive(Debug, Clone, PartialEq, Eq)]
pub struct EmailDraftProduceResponse {
    pub draft: EmailDraftWithRevision,
}

/// Stage an operator-authored email draft for an already accepted work item.
/// This is the blank/manual Output Composer path; no model call occurs.
#[derive(Debug, Clone, PartialEq, Eq)]
pub struct EmailDraftManualStageRequest {
    pub item_id: String,
    pub to_addr: String,
    pub cc_addrs: Vec<String>,
    pub subject: String,
    pub body_text: String,
    pub idempotency_key: String,
    pub actor_id: Option<String>,
}

/// Exact-revision AI rewrite of a staged email body. Recipient and subject
/// remain operator-owned typed fields; the model has no approval authority.
#[derive(Debug, Clone, PartialEq, Eq)]
pub struct EmailDraftRewriteRequest {
    pub instructions: String,
    pub expected_revision: Option<u64>,
    pub idempotency_key: String,
    pub actor_id: Option<String>,
}

#[derive(Debug, Clone, PartialEq, Eq)]
pub struct EmailDraftRewriteResponse {
    pub draft: EmailDraftWithRevision,
}

#[derive(Debug, Clone, Copy, PartialEq, Eq, Structural)]
pub enum EmailDraftActionKind {
    Approve,
    Reject,
}

#[derive(Debug, Clone, PartialEq, Eq)]
pub struct EmailDraftActionRequest {
    pub action: EmailDraftActionKind,
    pub expected_revision: Option<u64>,
    pub idempotency_key: String,
    pub actor_id: Option<String>,
    pub follow_up: Option<EmailDraftFollowUpRequest>,
}

#[derive(Debug, Clone, PartialEq, Eq)]
pub struct EmailDraftFollowUpRequest {
    pub enabled: bool,
    /// ISO date (YYYY-MM-DD), computed by the frontend/overlay.
    pub due_date: Option<String>,
    pub title: String,
    pub context: String,
    pub create_follow_up_draft: bool,
}

#[derive(Debug, Clone, Copy, PartialEq, Eq, Structural)]
pub enum EmailOutboundFollowUpStatus {
    Active,
    Resolved,
    Cancelled,
    Stale,
}

#[derive(Debug, Clone, Copy, PartialEq, Eq, Structural)]
pub enum GmailThreadFollowUpState {
    DraftCreated,
    SentWaitingReply,
    RepliedAfterSend,
    StaleUnknown,
    NotApplicable,
}

#[derive(Debug, Clone, PartialEq, Eq)]
pub struct EmailOutboundFollowUpSummary {
    pub follow_up_id: String,
    pub email_draft_id: String,
    pub follow_up_task_id: Option<String>,
    pub item_id: String,
    pub thread_id: Option<String>,
    pub status: EmailOutboundFollowUpStatus,
    pub thread_state: GmailThreadFollowUpState,
    pub due_date: String,
    pub follow_up_title: String,
    pub create_follow_up_draft: bool,
    pub sent_message_id: Option<String>,
    pub sent_at_ms: Option<u64>,
    pub reply_message_id: Option<String>,
    pub reply_at_ms: Option<u64>,
    pub resolution_reason: Option<String>,
    pub last_checked_at_ms: Option<u64>,
    pub last_check_error: Option<String>,
}

#[derive(Debug, Clone, PartialEq, Eq)]
pub struct EmailOutboundFollowUpsResponse {
    pub follow_ups: Vec<EmailOutboundFollowUpSummary>,
}

#[derive(Debug, Clone, PartialEq, Eq)]
pub struct EmailOutboundFollowUpActionRequest {
    pub idempotency_key: String,
    pub actor_id: Option<String>,
}

#[derive(Debug, Clone, PartialEq, Eq)]
pub struct EmailOutboundFollowUpCheckResponse {
    pub follow_up: EmailOutboundFollowUpSummary,
}

#[derive(Debug, Clone, PartialEq, Eq)]
pub struct EmailOutboundFollowUpDraftResponse {
    pub item: WorkItemWithRevision,
}

/// Operator edit of a STAGED draft. Typed recipient, Cc, subject, and body
/// fields remain editable until approval; threading metadata stays grounded.
#[derive(Debug, Clone, PartialEq, Eq)]
pub struct EmailDraftUpdateRequest {
    pub to_addr: String,
    pub cc_addrs: Vec<String>,
    pub subject: String,
    pub body_text: String,
    pub expected_revision: Option<u64>,
    pub idempotency_key: String,
    pub actor_id: Option<String>,
}

} // verus!
