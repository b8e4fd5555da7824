//! QBO customer-tier to Shopify customer-segment sync contracts. QBO remains
//! source of truth; Shopify writes are staged as operator-approved outbox jobs
//! and dry-run until the Shopify write gate opens.

use vstd::prelude::*;

use super::calendar_drafts::OutboxJobSummary;

verus! {

#[derive(Debug, Clone, PartialEq, Eq)]
pub struct CustomerTierSyncPreviewRequest {
    pub idempotency_key: String,
}

#[derive(Debug, Clone, PartialEq, Eq)]
pub struct CustomerTierSyncApproveRequest {
    pub idempotency_key: String,
    pub expected_revision: u64,
}

#[derive(Debug, Clone, PartialEq, Eq)]
pub struct CustomerTierSyncRun {
    pub run_id: String,
    pub status: CustomerTierSyncStatus,
    pub revision: u64,
    pub plan: CustomerTierSyncPlan,
    pub outbox_job_id: Option<String>,
    pub outbox_job: Option<OutboxJobSummary>,
    pub created_at_ms: u64,
    pub updated_at_ms: u64,
}

#[derive(Debug, Clone, PartialEq, Eq)]
pub enum CustomerTierSyncStatus {
    Staged,
    Approved,
    Rejected,
}

#[derive(Debug, Clone, PartialEq, Eq)]
pub struct CustomerTierSyncPlan {
    pub source_provider: String,
    pub target_provider: String,
    pub mapping_version: String,
    pub actions: Vec<CustomerTierSyncAction>,
    pub skipped: Vec<CustomerTierSyncSkippedCustomer>,
}

#[derive(Debug, Clone, PartialEq, Eq)]
pub struct CustomerTierSyncAction {
    pub qbo_customer_id: String,
    pub display_name: String,
    pub email: Option<String>,
    pub qbo_tier: String,
    pub shopify: ShopifyTierTarget,
}

#[derive(Debug, Clone, PartialEq, Eq)]
pub struct ShopifyTierTarget {
    pub tag: Option<String>,
    pub exclusive_tag_prefix: Option<String>,
    pub metafield_namespace: Option<String>,
    pub metafield_key: Option<String>,
    pub metafield_value: Option<String>,
    pub segment_query: Option<String>,
}

#[derive(Debug, Clone, PartialEq, Eq)]
pub struct CustomerTierSyncSkippedCustomer {
    pub qbo_customer_id: String,
    pub display_name: String,
    pub reason: String,
    pub qbo_tier: Option<String>,
}

#[derive(Debug, Clone, PartialEq, Eq)]
pub struct CustomerTierSyncListResponse {
    pub runs: Vec<CustomerTierSyncRun>,
}

} // verus!
