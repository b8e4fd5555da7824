//! Content planning contracts: local plan items that queue normal
//! `content_draft` work, plus advisory duplicate/cannibalization summaries.
//! Publishing remains manual. Inventory rows are local projection/manual rows
//! used for advisory duplicate/cannibalization warnings.

use vstd::prelude::*;

verus! {

#[derive(Debug, Clone, Copy, PartialEq, Eq, Structural)]
pub enum ContentPlanStatus {
    Planned,
    Queued,
    Published,
    Cancelled,
}

#[derive(Debug, Clone, Copy, PartialEq, Eq, Structural)]
pub enum ContentPlanDraftState {
    NoDraft,
    Staged,
    Approved,
}

#[derive(Debug, Clone, Copy, PartialEq, Eq, Structural)]
pub enum ContentInventorySourceKind {
    PlanItem,
    SearchConsolePage,
    Manual,
}

#[derive(Debug, Clone, Copy, PartialEq, Eq, Structural)]
pub enum ContentInventoryStatus {
    Pipeline,
    Published,
    Archived,
}

#[derive(Debug, Clone, PartialEq)]
pub struct ContentInventoryItem {
    pub inventory_id: String,
    pub source_kind: ContentInventorySourceKind,
    pub source_ref: String,
    pub status: ContentInventoryStatus,
    pub title: String,
    pub target_query: Option<String>,
    pub url: Option<String>,
    pub summary: Option<String>,
    pub canonical_key: String,
    pub metrics_json: String,
    pub last_seen_at_ms: Option<u64>,
    pub created_at_ms: u64,
    pub updated_at_ms: u64,
}

#[derive(Debug, Clone, PartialEq)]
pub struct ContentInventoryItemWithRevision {
    pub item: ContentInventoryItem,
    pub revision: u64,
}

#[derive(Debug, Clone, PartialEq)]
pub struct ContentInventoryResponse {
    pub items: Vec<ContentInventoryItemWithRevision>,
}

#[derive(Debug, Clone, PartialEq, Eq)]
pub struct ContentPlanItemCreateRequest {
    pub topic: String,
    pub angle: Option<String>,
    pub format: Option<String>,
    pub target_query: Option<String>,
    pub audience: Option<String>,
    pub notes: Option<String>,
    pub idempotency_key: String,
    pub actor_id: Option<String>,
}

#[derive(Debug, Clone, PartialEq, Eq)]
pub struct ContentPlanItemUpdateRequest {
    pub topic: String,
    pub angle: Option<String>,
    pub format: Option<String>,
    pub target_query: Option<String>,
    pub audience: Option<String>,
    pub notes: Option<String>,
    pub expected_revision: Option<u64>,
    pub idempotency_key: String,
    pub actor_id: Option<String>,
}

#[derive(Debug, Clone, PartialEq, Eq)]
pub struct ContentPlanItemQueueRequest {
    pub expected_revision: Option<u64>,
    pub idempotency_key: String,
    pub actor_id: Option<String>,
}

#[derive(Debug, Clone, PartialEq, Eq)]
pub struct ContentPlanItemCheckRequest {
    pub expected_revision: Option<u64>,
    pub idempotency_key: String,
    pub actor_id: Option<String>,
}

#[derive(Debug, Clone, PartialEq, Eq)]
pub struct ContentPlanItemMarkPublishedRequest {
    pub published_url: String,
    pub expected_revision: Option<u64>,
    pub idempotency_key: String,
    pub actor_id: Option<String>,
}

#[derive(Debug, Clone, PartialEq, Eq)]
pub struct ContentInventoryManualAddRequest {
    pub title: String,
    pub target_query: Option<String>,
    pub url: Option<String>,
    pub summary: Option<String>,
    pub idempotency_key: String,
    pub actor_id: Option<String>,
}

#[derive(Debug, Clone, PartialEq, Eq)]
pub struct ContentInventoryArchiveRequest {
    pub expected_revision: Option<u64>,
    pub idempotency_key: String,
    pub actor_id: Option<String>,
}

#[derive(Debug, Clone, PartialEq, Eq)]
pub struct ContentInventoryRefreshRequest {
    pub idempotency_key: String,
    pub actor_id: Option<String>,
}

/// Operator intent for the blog adapter. Both variants authorize the external
/// blog write; `schedule` leaves timing to the adapter's `published_at` field.
#[derive(Debug, Clone, Copy, PartialEq, Eq, Structural)]
pub enum ContentCampaignLaunchMode {
    PublishNow,
    Schedule,
}

#[derive(Debug, Clone, Copy, PartialEq, Eq, Structural)]
pub enum ContentCampaignPublicationStatus {
    AwaitingBlog,
    BlogDryRun,
    SocialEnqueued,
    Completed,
    RequiresReview,
}

/// Generate/continue the article half of one plan in-place. A planned item is
/// queued as operator-accepted in the same receipted mutation before the normal
/// content_drafts producer runs.
#[derive(Debug, Clone, PartialEq, Eq)]
pub struct ContentCampaignGenerateRequest {
    pub expected_revision: u64,
    pub idempotency_key: String,
    pub actor_id: Option<String>,
}

/// Explicit human approval of the exact article revision, social revision,
/// selected destinations, expected live URL, and launch timing.
#[derive(Debug, Clone, PartialEq, Eq)]
pub struct ContentCampaignPublishRequest {
    pub content_draft_id: String,
    pub expected_content_draft_revision: u64,
    pub social_proposal_id: Option<String>,
    pub expected_social_proposal_revision: Option<u64>,
    pub selected_channel_ids: Vec<String>,
    pub slug: String,
    pub published_at: String,
    pub expected_canonical_url: String,
    pub launch_mode: ContentCampaignLaunchMode,
    pub idempotency_key: String,
    pub actor_id: Option<String>,
}

} // verus!
