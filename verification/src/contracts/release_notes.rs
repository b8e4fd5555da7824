//! Operator-facing release notes created by the fleet when a deployment's
//! running build changes.

use vstd::prelude::*;

verus! {

#[derive(Debug, Clone, PartialEq, Eq)]
pub struct ReleaseNote {
    pub release_note_id: String,
    pub title: String,
    pub summary: String,
    pub body: Option<String>,
    pub build_sha: Option<String>,
    pub created_at_ms: u64,
}

#[derive(Debug, Clone, PartialEq, Eq)]
pub struct ReleaseNotesResponse {
    pub notes: Vec<ReleaseNote>,
}

#[derive(Debug, Clone, PartialEq, Eq)]
pub struct ReleaseNoteCreateRequest {
    pub release_note_id: Option<String>,
    pub idempotency_key: String,
    pub title: String,
    pub summary: String,
    pub body: Option<String>,
    pub build_sha: Option<String>,
}

#[derive(Debug, Clone, PartialEq, Eq)]
pub struct ReleaseNoteDismissRequest {
    pub idempotency_key: String,
    pub actor_id: Option<String>,
}

} // verus!
