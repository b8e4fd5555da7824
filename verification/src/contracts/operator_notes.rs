//! Operator note contracts: manually logged notes — the second work-item
//! source family after email (`operator_note`).
//! Creating a note immediately emits a work item; produce kinds (CRM note,
//! follow-up task, calendar draft) then run over the note text.

use vstd::prelude::*;

verus! {

#[derive(Debug, Clone, PartialEq, Eq)]
pub struct OperatorNote {
    pub note_id: String,
    pub body: String,
    /// Work-queue category the note's item lands in.
    pub category_id: String,
    pub created_by: String,
    pub created_at_ms: u64,
}

#[derive(Debug, Clone, PartialEq, Eq)]
pub struct OperatorNotesResponse {
    pub notes: Vec<OperatorNote>,
}

#[derive(Debug, Clone, PartialEq, Eq)]
pub struct OperatorNoteCreateRequest {
    pub body: String,
    pub idempotency_key: String,
    pub actor_id: Option<String>,
    /// Packet kinds the operator chose to spin up from this note (the form's
    /// CRM · Invoice · Follow-up checkboxes). Each is validated against the
    /// packet-kind catalog; selecting one accepts the item and produces that
    /// kind immediately — selection IS the consent to spend the LLM call.
    /// Empty defaults to `["crm_activity"]` server-side.
    pub actions: Vec<String>,
    /// Defaults to true for the existing Log note flow. The blank Output
    /// Composer sets false when it will stage an operator-authored typed draft
    /// itself; this prevents an unnecessary model call and produce race.
    pub auto_produce: Option<bool>,
}

#[derive(Debug, Clone, PartialEq, Eq)]
pub struct OperatorNoteCreateResponse {
    pub note: OperatorNote,
    /// Stable accepted work item created for the note. Blank/manual composers
    /// use this to stage the typed draft in its owning slice.
    pub work_item_id: String,
    /// The work item the note emitted (false when an item for this note
    /// already existed — an idempotent replay).
    pub work_item_emitted: bool,
}

} // verus!
