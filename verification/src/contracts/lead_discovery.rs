//! Lead discovery contracts: approved-source findings staged for human review.

use vstd::prelude::*;

use super::source::SourceKind;

verus! {

#[derive(Debug, Clone, Copy, PartialEq, Eq, Structural)]
pub enum LeadDiscoverySourceKind {
    Forum,
    Reddit,
    GoogleAlert,
    FacebookGroup,
    Other,
}

#[derive(Debug, Clone, PartialEq, Eq)]
pub struct LeadDiscoverySourceConfig {
    pub source_id: String,
    pub display_name: String,
    pub kind: LeadDiscoverySourceKind,
    pub url: Option<String>,
    pub approved: bool,
    pub enabled: bool,
    pub auto_poll: bool,
    pub feed_url: Option<String>,
    pub approval_note: Option<String>,
    pub tags: Vec<String>,
}

#[derive(Debug, Clone, Default, PartialEq, Eq)]
pub struct LeadDiscoveryCriteria {
    pub lead_markets: Vec<String>,
    pub intent_terms: Vec<String>,
    pub prohibited_sources: Vec<String>,
    pub routing_packet_kinds: Vec<String>,
}

#[derive(Debug, Clone, PartialEq, Eq)]
pub struct LeadDiscoveryStatusResponse {
    pub configured: bool,
    pub enabled_sources: usize,
    pub pending_sources: usize,
    pub sources: Vec<LeadDiscoverySourceConfig>,
    pub criteria: LeadDiscoveryCriteria,
    pub auto_poll_last_checked_at_ms: Option<u64>,
}

#[derive(Debug, Clone, Copy, PartialEq, Eq, Structural)]
pub enum LeadFindingStatus {
    Staged,
    Accepted,
    Rejected,
}

#[derive(Debug, Clone, PartialEq, Eq)]
pub struct LeadFindingStageRequest {
    pub source_id: String,
    pub title: String,
    pub summary: String,
    pub contact_hint: Option<String>,
    pub company_hint: Option<String>,
    pub matched_terms: Vec<String>,
    pub item_url: Option<String>,
    pub evidence_quote: String,
    pub captured_at_ms: Option<u64>,
    pub idempotency_key: String,
    pub actor_id: Option<String>,
}

#[derive(Debug, Clone, Copy, PartialEq, Eq, Structural)]
pub enum LeadFindingActionKind {
    Accept,
    Reject,
}

#[derive(Debug, Clone, PartialEq, Eq)]
pub struct LeadFindingActionRequest {
    pub action: LeadFindingActionKind,
    pub expected_revision: Option<u64>,
    pub idempotency_key: String,
    pub actor_id: Option<String>,
}

/// The general source kind of a lead's source.
pub open spec fn general_source_kind(kind: LeadDiscoverySourceKind) -> SourceKind {
    match kind {
        LeadDiscoverySourceKind::Forum => SourceKind::Forum,
        LeadDiscoverySourceKind::Reddit => SourceKind::Reddit,
        LeadDiscoverySourceKind::GoogleAlert => SourceKind::GoogleAlert,
        LeadDiscoverySourceKind::FacebookGroup => SourceKind::FacebookGroup,
        LeadDiscoverySourceKind::Other => SourceKind::Other,
    }
}

impl From<LeadDiscoverySourceKind> for SourceKind {
    fn from(kind: LeadDiscoverySourceKind) -> (r: Self) {
        match kind {
            LeadDiscoverySourceKind::Forum => SourceKind::Forum,
            LeadDiscoverySourceKind::Reddit => SourceKind::Reddit,
            LeadDiscoverySourceKind::GoogleAlert => SourceKind::GoogleAlert,
            LeadDiscoverySourceKind::FacebookGroup => SourceKind::FacebookGroup,
            LeadDiscoverySourceKind::Other => SourceKind::Other,
        }
    }
}

impl vstd::std_specs::convert::FromSpecImpl<LeadDiscoverySourceKind> for SourceKind {
    open spec fn obeys_from_spec() -> bool {
        true
    }

    open spec fn from_spec(kind: LeadDiscoverySourceKind) -> Self {
        general_source_kind(kind)
    }
}

} // verus!
