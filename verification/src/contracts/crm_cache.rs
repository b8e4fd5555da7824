//! Cached CRM contact/deal read models. These are local snapshot views only;
//! sync is the only path that talks to the CRM provider.

use vstd::prelude::*;

verus! {

#[derive(Debug, Clone, PartialEq, Eq)]
pub struct CrmCacheSyncInfo {
    pub provider: String,
    pub sync_enabled: bool,
    pub in_flight: bool,
    pub contact_count: u64,
    pub deal_count: u64,
    pub last_synced_at_ms: Option<u64>,
    pub last_requests_used: u32,
    pub next_sync_allowed_at_ms: u64,
    pub last_error: Option<String>,
}

#[derive(Debug, Clone, PartialEq, Eq)]
pub struct CrmCacheSyncNowResponse {
    pub accepted: bool,
    pub reason: Option<String>,
    pub next_allowed_at_ms: u64,
}

#[derive(Debug, Clone, PartialEq, Eq)]
pub struct CrmContactSnapshotsResponse {
    pub contacts: Vec<CrmContactSnapshot>,
}

#[derive(Debug, Clone, PartialEq, Eq)]
pub struct CrmDealSnapshotsResponse {
    pub deals: Vec<CrmDealSnapshot>,
}

#[derive(Debug, Clone, PartialEq, Eq)]
pub struct CrmContextResponse {
    pub contacts: Vec<CrmContactSnapshot>,
    pub deals: Vec<CrmDealSnapshot>,
    pub lookup_email: Option<String>,
    pub skipped_reason: Option<String>,
    pub hubspot_links_configured: bool,
}

#[derive(Debug, Clone, PartialEq, Eq)]
pub struct CrmContactSnapshot {
    pub provider: String,
    pub provider_contact_id: String,
    pub contact_url: Option<String>,
    pub email: Option<String>,
    pub name: Option<String>,
    pub company: Option<String>,
    pub phone: Option<String>,
    pub lifecycle_stage: Option<String>,
    pub owner: Option<String>,
    pub last_activity_at: Option<String>,
}

#[derive(Debug, Clone, PartialEq, Eq)]
pub struct CrmDealSnapshot {
    pub provider: String,
    pub provider_deal_id: String,
    pub deal_url: Option<String>,
    pub name: Option<String>,
    pub stage: Option<String>,
    pub amount_cents: Option<i64>,
    pub currency: Option<String>,
    pub amount_visible: bool,
    pub pipeline: Option<String>,
    pub close_date: Option<String>,
    pub associated_contact_email: Option<String>,
    pub associated_contact_company: Option<String>,
}

} // verus!
