//! Claim packet contracts (packet kind `claim_draft`): provider-
//! neutral shipping damage packet drafting. Shipment, order, and evidence
//! fields are DETERMINISTIC (cached source data — never model-chosen); the
//! model writes only the damage narrative + item description, grounded on
//! the damage report. A completeness gate blocks approval of packets
//! missing evidence. Approval stages a Gmail draft addressed to the filing
//! mailbox and creates a follow-up task to track the claim; no provider
//! submission is performed.

use vstd::prelude::*;

use super::calendar_drafts::{DraftFieldProvenance, OutboxJobSummary};

verus! {

#[derive(Debug, Clone, Copy, PartialEq, Eq, Structural)]
pub enum ClaimDraftStatus {
    Staged,
    Approved,
    Rejected,
}

/// Evidence assembled from local shipment/order caches — URLs, never bytes.
#[derive(Debug, Clone, Default, PartialEq, Eq)]
pub struct ClaimEvidence {
    /// Damage photos from the damage report (customer or pack station).
    pub damage_photo_urls: Vec<String>,
    /// Pack-time photos of the pack-station container (when fetched).
    pub pack_photo_urls: Vec<String>,
    /// The order board's pack-photo count — packing proof may exist in the
    /// source system even when the URLs above are not (yet) cached.
    pub pack_photo_count: i64,
}

/// The harvested completeness rule over provider-neutral evidence roles.
#[derive(Debug, Clone, PartialEq, Eq)]
pub struct ClaimPacketGate {
    /// True only when every required role is present — approval requires it.
    pub ready: bool,
    /// Missing roles: order_reference | packing_proof | tracking_reference |
    /// damage_photo.
    pub missing_roles: Vec<String>,
}

/// Provider-neutral shipment references supplied by StockForge. Legacy scalar
/// fields stay on the draft for compatibility; this envelope carries parcel,
/// LTL, and shipping-platform identifiers without BOS knowing provider internals.
#[derive(Debug, Clone, Default, PartialEq, Eq)]
pub struct ClaimShipmentRefs {
    pub shipping_platform: Option<String>,
    pub platform_shipment_id: Option<String>,
    pub carrier: Option<String>,
    pub carrier_service: Option<String>,
    pub mode: Option<String>,
    pub tracking_number: Option<String>,
    pub pro_number: Option<String>,
    pub bol_number: Option<String>,
    pub tracking_url: Option<String>,
    pub document_refs: Vec<ClaimShipmentDocumentRef>,
    pub claim_platform: Option<String>,
    pub claim_api_supported: Option<bool>,
}

#[derive(Debug, Clone, PartialEq, Eq)]
pub struct ClaimShipmentDocumentRef {
    pub kind: String,
    pub url: String,
}

#[derive(Debug, Clone, PartialEq, Eq)]
pub struct ClaimDraft {
    /// "clm_<item_id>_<attempt>" — one active (non-rejected) draft per item.
    pub draft_id: String,
    pub item_id: String,
    pub source_kind: String,
    pub source_ref: String,
    pub status: ClaimDraftStatus,
    pub tracking_number: Option<String>,
    pub carrier: Option<String>,
    pub shipment_number: Option<String>,
    /// Local shipment/damage source that supplied this context, currently
    /// "stockforge" for the shipped adapter.
    pub shipment_context_source: Option<String>,
    pub shipment_refs: Option<ClaimShipmentRefs>,
    pub order_number: Option<String>,
    /// Order system from the cached order card, for example "shopify".
    pub order_platform: Option<String>,
    /// Provider-native order id when known, for example the Shopify order id.
    pub external_order_id: Option<String>,
    pub customer_name: Option<String>,
    pub order_total_cents: Option<i64>,
    pub ship_date: Option<String>,
    pub damage_type: String,
    pub damage_severity: String,
    pub damage_reported_at: Option<String>,
    /// Claimed amount: the damage report's amount when stated, else the
    /// order total — grounded, never model-invented. Editable (the human is
    /// the grounding when they change it).
    pub claim_amount_cents: i64,
    /// Model-written claim narrative (grounded on the damage report).
    pub damage_narrative: String,
    /// Model-written description of the damaged item(s).
    pub item_description: String,
    pub evidence: ClaimEvidence,
    pub packet: ClaimPacketGate,
    pub provenance: Vec<DraftFieldProvenance>,
    pub model: String,
    pub confidence: String,
    pub outbox_job_id: Option<String>,
    pub follow_up_task_id: Option<String>,
    pub created_at_ms: u64,
    pub updated_at_ms: u64,
}

#[derive(Debug, Clone, PartialEq, Eq)]
pub struct ClaimDraftWithRevision {
    pub draft: ClaimDraft,
    pub revision: u64,
    pub outbox_job: Option<OutboxJobSummary>,
}

#[derive(Debug, Clone, PartialEq, Eq)]
pub struct ClaimDraftsResponse {
    pub drafts: Vec<ClaimDraftWithRevision>,
}

#[derive(Debug, Clone, PartialEq, Eq)]
pub struct ClaimDraftProduceRequest {
    pub item_id: String,
    pub idempotency_key: String,
    pub actor_id: Option<String>,
}

#[derive(Debug, Clone, PartialEq, Eq)]
pub struct ClaimDraftProduceResponse {
    pub draft: ClaimDraftWithRevision,
}

#[derive(Debug, Clone, Copy, PartialEq, Eq, Structural)]
pub enum ClaimDraftActionKind {
    Approve,
    Reject,
}

#[derive(Debug, Clone, PartialEq, Eq)]
pub struct ClaimDraftActionRequest {
    pub action: ClaimDraftActionKind,
    pub expected_revision: Option<u64>,
    pub idempotency_key: String,
    pub actor_id: Option<String>,
}

/// Operator edit of a STAGED draft's model-filled/judgment fields. Shipment
/// and evidence fields are immutable — they are the cached provider truth.
#[derive(Debug, Clone, PartialEq, Eq)]
pub struct ClaimDraftUpdateRequest {
    pub damage_narrative: String,
    pub item_description: String,
    pub claim_amount_cents: i64,
    pub expected_revision: Option<u64>,
    pub idempotency_key: String,
    pub actor_id: Option<String>,
}

} // verus!
