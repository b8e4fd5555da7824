//! CRM record-create draft contracts: the produce → approve → provider-write
//! vertical for the `crm_record_create` packet kind. A note that references a
//! company and/or people who are NOT yet in the CRM yields one or more drafts
//! proposing the missing records; each approval runs one ensure-chain write
//! (account → contact) against the configured CRM. Names are grounded — a
//! record with an invented name is refused. Both providers run the ensure-chain:
//! EspoCRM (Account → Contact) and HubSpot (Company → Contact + default
//! association), each behind its own write gate.

use vstd::prelude::*;

use super::calendar_drafts::{DraftFieldProvenance, OutboxJobSummary};
use super::enrichment::EnrichmentConfidence;

verus! {

#[derive(Debug, Clone, Copy, PartialEq, Eq, Structural)]
pub enum CrmRecordDraftStatus {
    Staged,
    Approved,
    Rejected,
}

/// One field the website-enrichment pass filled, with where it came from — the
/// operator-facing "why this value" record.
#[derive(Debug, Clone, PartialEq, Eq)]
pub struct CrmEnrichmentTraceItem {
    /// Draft field the value was applied to (e.g. "company_phone").
    pub field: String,
    /// Previous value when enrichment replaced a weak prefill instead of
    /// filling an empty field.
    pub previous_value: Option<String>,
    pub value: String,
    /// Provenance: "page:<url>" for the deterministic pass, or the literal page
    /// quote the LLM grounded against.
    pub source: String,
    /// "deterministic" (schema.org/OpenGraph/regex) or "ai" (gap-filler).
    pub via: String,
}

/// One search result considered by web-search enrichment before any fetched
/// page text is handed to a typed transform.
#[derive(Debug, Clone, PartialEq, Eq)]
pub struct CrmSearchTraceResult {
    pub query: String,
    pub title: String,
    pub url: String,
    pub snippet: String,
}

/// Per-field Tier-4 research provenance surfaced beside the editable draft
/// value. This mirrors the exact span accepted by the engine; the UI does not
/// re-derive confidence, sensitivity, or provenance.
#[derive(Debug, Clone, PartialEq, Eq)]
pub struct CrmResearchFieldAnnotation {
    pub field_id: String,
    pub confidence: EnrichmentConfidence,
    pub source_domain: String,
    pub quote: String,
    pub person_sensitive: bool,
}

/// A bounded, temporary record of one enrichment run, shown in the panel so the
/// operator can see exactly what the crawl read and what was fed to the model.
/// Cleared on approval (review aid, not durable state).
#[derive(Debug, Clone, PartialEq, Eq)]
pub struct CrmEnrichmentTrace {
    pub captured_at_ms: u64,
    /// The domain the note named (the crawl seed).
    pub domain: String,
    /// URLs actually fetched (homepage first).
    pub pages: Vec<String>,
    /// Fields the run produced, deterministic + AI, with provenance.
    pub items: Vec<CrmEnrichmentTraceItem>,
    /// Whether the bounded LLM gap-filler ran (false = deterministic covered
    /// everything, or nothing was missing).
    pub llm_ran: bool,
    /// Size of the stripped page text handed to the gap-filler.
    pub llm_input_chars: u32,
    /// Bounded preview of that text (head), so the operator can see what the
    /// model actually read without storing whole pages.
    pub llm_input_preview: String,
    /// Whether gated web search ran after crawler evidence was insufficient.
    pub search_ran: bool,
    /// Why search was eligible for this contract/field.
    pub search_reason: Option<String>,
    /// Purpose-scoped queries issued to the configured search endpoint.
    pub search_queries: Vec<String>,
    /// Bounded search results retained for diagnostics/provenance.
    pub search_results: Vec<CrmSearchTraceResult>,
    /// Search/crawl/model failures that were non-fatal to draft production.
    pub failures: Vec<String>,
    /// Tier-4 research annotations for fields actually surfaced to the draft.
    pub research_annotations: Vec<CrmResearchFieldAnnotation>,
}

/// Provider record ids resolved by the ensure-chain at delivery time (the
/// account is created/found first, then the contact linked to it).
#[derive(Debug, Clone, Default, PartialEq, Eq)]
pub struct CrmRecordProviderIds {
    pub account_id: Option<String>,
    pub contact_id: Option<String>,
}

#[derive(Debug, Clone, PartialEq, Eq)]
pub struct CrmRecordDraft {
    /// "crd_<item_id>_<attempt>[_<contact_index>]" — multiple active drafts
    /// are allowed when one source names multiple missing contacts.
    pub draft_id: String,
    pub item_id: String,
    pub source_kind: String,
    pub source_ref: String,
    pub status: CrmRecordDraftStatus,
    /// Propose creating a Company record (false when one already matched).
    pub create_company: bool,
    pub company_name: Option<String>,
    pub company_website: Option<String>,
    pub company_phone: Option<String>,
    pub company_address: Option<String>,
    pub company_description: Option<String>,
    /// Propose creating a Contact record (false when one already matched).
    pub create_contact: bool,
    pub contact_first_name: Option<String>,
    pub contact_last_name: Option<String>,
    pub contact_email: Option<String>,
    pub contact_phone: Option<String>,
    pub contact_title: Option<String>,
    /// Filled on delivery (empty until then).
    pub provider_ids: CrmRecordProviderIds,
    pub provenance: Vec<DraftFieldProvenance>,
    /// Website-enrichment trace (what the crawl read + fed the model). Present
    /// only while staged with an enrichment run; cleared on approval.
    pub enrichment_trace: Option<CrmEnrichmentTrace>,
    /// Tier-4 research provenance keyed by draft field. Empty for standard
    /// enrichment and skipped on the wire to preserve existing DTO bytes.
    pub research_annotations: Vec<CrmResearchFieldAnnotation>,
    pub model: String,
    pub confidence: String,
    pub outbox_job_id: Option<String>,
    pub created_at_ms: u64,
    pub updated_at_ms: u64,
}

#[derive(Debug, Clone, PartialEq, Eq)]
pub struct CrmRecordDraftWithRevision {
    pub draft: CrmRecordDraft,
    pub revision: u64,
    pub outbox_job: Option<OutboxJobSummary>,
}

#[derive(Debug, Clone, PartialEq, Eq)]
pub struct CrmRecordDraftsResponse {
    pub drafts: Vec<CrmRecordDraftWithRevision>,
}

#[derive(Debug, Clone, PartialEq, Eq)]
pub struct CrmRecordDraftProduceRequest {
    pub item_id: String,
    pub idempotency_key: String,
    pub actor_id: Option<String>,
}

#[derive(Debug, Clone, PartialEq, Eq)]
pub struct CrmRecordDraftProduceResponse {
    pub draft: CrmRecordDraftWithRevision,
}

#[derive(Debug, Clone, Copy, PartialEq, Eq, Structural)]
pub enum CrmRecordDraftActionKind {
    Approve,
    Reject,
}

#[derive(Debug, Clone, PartialEq, Eq)]
pub struct CrmRecordDraftActionRequest {
    pub action: CrmRecordDraftActionKind,
    pub expected_revision: Option<u64>,
    pub idempotency_key: String,
    pub actor_id: Option<String>,
}

/// Operator edit of a STAGED draft. The proposed-record set and every field
/// stay editable until approval (AI proposes, the human disposes); the server
/// re-validates that each proposed record carries a non-empty name.
#[derive(Debug, Clone, PartialEq, Eq)]
pub struct CrmRecordDraftUpdateRequest {
    pub create_company: bool,
    pub company_name: Option<String>,
    pub company_website: Option<String>,
    pub company_phone: Option<String>,
    pub company_address: Option<String>,
    pub company_description: Option<String>,
    pub create_contact: bool,
    pub contact_first_name: Option<String>,
    pub contact_last_name: Option<String>,
    pub contact_email: Option<String>,
    pub contact_phone: Option<String>,
    pub contact_title: Option<String>,
    pub expected_revision: Option<u64>,
    pub idempotency_key: String,
    pub actor_id: Option<String>,
}

} // verus!
