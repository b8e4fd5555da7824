//! Follow-up task contracts: the produce → approve → LOCAL write vertical for
//! the `follow_up_task` packet kind.
//!
//! Pipeline position: work item accepted → **produce** (typed fill stages a
//! draft) → operator approves → row in the local tasks table. No provider is
//! touched — approval is the write, executed in the same receipted mutation.

use vstd::prelude::*;

use super::calendar_drafts::DraftFieldProvenance;
use super::email_drafts::EmailOutboundFollowUpSummary;

verus! {

#[derive(Debug, Clone, Copy, PartialEq, Eq, Structural)]
pub enum FollowUpDraftStatus {
    Staged,
    Approved,
    Rejected,
}

#[derive(Debug, Clone, PartialEq, Eq)]
pub struct FollowUpDraft {
    /// "fud_<item_id>_<attempt>" — one active (non-rejected) draft per item.
    pub draft_id: String,
    pub item_id: String,
    pub source_kind: String,
    pub source_ref: String,
    pub source_user_id: Option<String>,
    pub status: FollowUpDraftStatus,
    pub title: String,
    /// ISO date (YYYY-MM-DD); None when the source gives no deadline.
    pub due_date: Option<String>,
    /// One or two sentences of operator-useful context.
    pub context: String,
    pub provenance: Vec<DraftFieldProvenance>,
    pub model: String,
    /// Extractor's own confidence: "high" | "medium" | "low".
    pub confidence: String,
    /// Set when approved: the local task the approval created.
    pub task_id: Option<String>,
    pub created_at_ms: u64,
    pub updated_at_ms: u64,
}

#[derive(Debug, Clone, PartialEq, Eq)]
pub struct FollowUpDraftWithRevision {
    pub draft: FollowUpDraft,
    pub revision: u64,
}

#[derive(Debug, Clone, PartialEq, Eq)]
pub struct FollowUpDraftsResponse {
    pub drafts: Vec<FollowUpDraftWithRevision>,
}

#[derive(Debug, Clone, PartialEq, Eq)]
pub struct FollowUpDraftProduceRequest {
    pub item_id: String,
    pub idempotency_key: String,
    pub actor_id: Option<String>,
}

#[derive(Debug, Clone, PartialEq, Eq)]
pub struct FollowUpDraftProduceResponse {
    pub draft: FollowUpDraftWithRevision,
}

/// Stage an operator-authored task draft for an accepted work item without a
/// model call. Approval still creates the local task through the normal gate.
#[derive(Debug, Clone, PartialEq, Eq)]
pub struct FollowUpDraftManualStageRequest {
    pub item_id: String,
    pub title: String,
    pub due_date: Option<String>,
    pub context: String,
    pub idempotency_key: String,
    pub actor_id: Option<String>,
}

#[derive(Debug, Clone, Copy, PartialEq, Eq, Structural)]
pub enum FollowUpDraftActionKind {
    Approve,
    Reject,
}

#[derive(Debug, Clone, PartialEq, Eq)]
pub struct FollowUpDraftActionRequest {
    pub action: FollowUpDraftActionKind,
    pub expected_revision: Option<u64>,
    pub idempotency_key: String,
    pub actor_id: Option<String>,
}

// --- the local task itself ---

#[derive(Debug, Clone, Copy, PartialEq, Eq, Structural)]
pub enum TaskStatus {
    Open,
    Done,
}

#[derive(Debug, Clone, PartialEq, Eq)]
pub struct TaskRecord {
    pub task_id: String,
    pub title: String,
    pub due_date: Option<String>,
    pub context: String,
    /// Where the task came from ("email" + message id via the draft).
    pub source_kind: String,
    pub source_ref: String,
    pub source_user_id: Option<String>,
    /// Originating work item when the task was created from an approved
    /// follow-up draft. Null for tracking tasks created directly by other
    /// slices.
    pub source_item_id: Option<String>,
    pub status: TaskStatus,
    pub created_at_ms: u64,
    pub updated_at_ms: u64,
}

/// Due lane for the Tasks view, computed server-side against the operator's
/// local date (`?today=YYYY-MM-DD` on GET /api/tasks).
#[derive(Debug, Clone, Copy, PartialEq, Eq, Structural)]
pub enum TaskDueLane {
    Overdue,
    DueToday,
    Upcoming,
    NoDueDate,
}

/// Watchdog escalation level for an overdue task. The thresholds:
/// overdue below the escalation threshold is "missed", at/after it
/// "escalated", at/after the critical threshold "critical".
#[derive(Debug, Clone, Copy, PartialEq, Eq, Structural)]
pub enum TaskEscalationLevel {
    NotOverdue,
    Missed,
    Escalated,
    Critical,
}

#[derive(Debug, Clone, PartialEq, Eq)]
pub struct TaskEscalation {
    pub lane: TaskDueLane,
    pub level: TaskEscalationLevel,
    /// Days past due (0 unless overdue).
    pub days_overdue: i64,
    /// Days until due (0 unless upcoming).
    pub days_until_due: i64,
    /// Operator-facing escalation reason (None when not escalated).
    pub reason: Option<String>,
}

#[derive(Debug, Clone, PartialEq, Eq)]
pub struct TaskWithRevision {
    pub task: TaskRecord,
    pub revision: u64,
    /// Present on open tasks when the request supplied `today`; done tasks
    /// and undated requests carry None.
    pub escalation: Option<TaskEscalation>,
    /// Present for tasks spawned by an approved outbound email draft's
    /// "follow up if no reply" workflow.
    pub follow_up: Option<EmailOutboundFollowUpSummary>,
}

#[derive(Debug, Clone, PartialEq, Eq)]
pub struct TasksResponse {
    pub tasks: Vec<TaskWithRevision>,
}

#[derive(Debug, Clone, Copy, PartialEq, Eq, Structural)]
pub enum TaskActionKind {
    Complete,
    Reopen,
}

#[derive(Debug, Clone, PartialEq, Eq)]
pub struct TaskActionRequest {
    pub action: TaskActionKind,
    pub expected_revision: Option<u64>,
    pub idempotency_key: String,
    pub actor_id: Option<String>,
}

/// Operator edit of a STAGED draft's AI-filled fields ("AI-produced fields
/// remain editable until accepted"). Full replacement of the editable set.
#[derive(Debug, Clone, PartialEq, Eq)]
pub struct FollowUpDraftUpdateRequest {
    pub title: String,
    /// ISO date (YYYY-MM-DD) or null for no deadline.
    pub due_date: Option<String>,
    pub context: String,
    pub expected_revision: Option<u64>,
    pub idempotency_key: String,
    pub actor_id: Option<String>,
}

} // verus!
