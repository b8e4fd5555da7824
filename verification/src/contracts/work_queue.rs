//! Work queue contracts: the items an operator decides on, the policies that
//! create them, and the requests that change them.

use vstd::prelude::*;

use super::email_identity::AttentionLevel;
use super::email_triage::{EmailTriageGmailCategory, InboundMessageRecord};

verus! {

/// Stands for "every enabled packet kind" in a policy's AI-suggestible kinds.
/// It is not a catalog id.
pub const AI_SUGGEST_ALL_SENTINEL: &'static str = "*";

#[derive(Debug, Clone, Copy, PartialEq, Eq, Structural)]
pub enum WorkItemStatus {
    Open,
    Accepted,
    Dismissed,
}

#[derive(Debug, Clone, Copy, PartialEq, Eq, Structural)]
pub enum WorkItemAcceptActor {
    Operator,
    System,
}

#[derive(Debug, Clone, Copy, PartialEq, Eq, Structural)]
pub enum WorkItemActionKind {
    Accept,
    Dismiss,
    Reopen,
    Trash,
}

#[derive(Debug, Clone, Copy, PartialEq, Eq, Structural)]
pub enum WorkItemAssignActionKind {
    AssignToMe,
    AssignToUser,
    Unassign,
}

#[derive(Debug, Clone, PartialEq, Eq)]
pub struct WorkItem {
    pub item_id: String,
    pub source_kind: String,
    pub source_ref: String,
    pub category_id: String,
    pub title: String,
    pub summary: String,
    /// Packet kinds suggested for this item.
    pub packet_kinds: Vec<String>,
    pub status: WorkItemStatus,
    /// Who accepted the item; none unless it is accepted.
    pub accept_actor: Option<WorkItemAcceptActor>,
    pub ai_suggested: bool,
    pub rationale: String,
    /// Operator-authored context handed to every produce-stage call.
    pub produce_guidance: String,
    /// Operator user whose input sourced the item.
    pub source_user_id: Option<String>,
    pub assignee_user_id: Option<String>,
    pub visible_to_user_ids: Vec<String>,
    pub created_at_ms: u64,
    pub updated_at_ms: u64,
}

#[derive(Debug, Clone, PartialEq, Eq)]
pub struct WorkItemFailureNotification {
    pub notification_id: String,
    pub source: String,
    pub packet_kind: Option<String>,
    pub title: String,
    pub message: String,
    pub next_action: Option<String>,
    pub diagnostic_href: Option<String>,
    pub diagnostic_id: Option<String>,
    pub error_code: Option<String>,
    pub occurred_at_ms: u64,
}

#[derive(Debug, Clone, PartialEq, Eq)]
pub struct WorkItemAttentionSummary {
    pub level: AttentionLevel,
    pub label: String,
    pub detail: Option<String>,
}

/// A stored item with its revision and the signals the feed decorates it with.
#[derive(Debug, Clone, PartialEq, Eq)]
pub struct WorkItemWithRevision {
    pub item: WorkItem,
    pub revision: u64,
    pub staged_draft_kinds: Vec<String>,
    pub pending_produce_kinds: Vec<String>,
    pub failure_notifications: Vec<WorkItemFailureNotification>,
    pub attention: Option<WorkItemAttentionSummary>,
}

#[derive(Debug, Clone, Copy, PartialEq, Eq, Structural)]
pub enum WorkItemSourceBodyFormat {
    PlainText,
    Html,
}

#[derive(Debug, Clone, PartialEq, Eq)]
pub struct WorkItemSourceResponse {
    pub source_kind: String,
    pub source_body: String,
    pub source_body_format: WorkItemSourceBodyFormat,
    pub message: InboundMessageRecord,
}

#[derive(Debug, Clone, Copy, PartialEq, Eq, Structural)]
pub enum WorkQueueAiGmailScope {
    Default,
    All,
    Selected,
}

/// What a category's classified inputs turn into.
#[derive(Debug, Clone, PartialEq, Eq)]
pub struct WorkQueuePolicy {
    pub category_id: String,
    pub create_work_item: bool,
    pub packet_kinds: Vec<String>,
    pub auto_produce: bool,
    pub ai_suggestible_packet_kinds: Vec<String>,
    pub ai_suggestible_gmail_scope: WorkQueueAiGmailScope,
    pub ai_suggestible_gmail_categories: Vec<EmailTriageGmailCategory>,
}

#[derive(Debug, Clone, PartialEq, Eq)]
pub struct PacketKindRecord {
    pub kind_id: String,
    pub title: String,
    pub description: String,
    pub produce_available: bool,
}

#[derive(Debug, Clone, PartialEq, Eq)]
pub struct LaunchAgentRequest {
    pub context: String,
    pub work_dir: Option<String>,
    pub attachment_ids: Vec<String>,
    pub idempotency_key: String,
}

#[derive(Debug, Clone, PartialEq, Eq)]
pub struct LaunchAgentResponse {
    pub session_id: String,
    pub thread_id: Option<String>,
    pub monitor_url: Option<String>,
    pub staged_evidence_paths: Vec<String>,
}

} // verus!
