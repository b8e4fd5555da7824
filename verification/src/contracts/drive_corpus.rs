//! Drive RAG corpus contracts (drive_corpus slice): corpus/sync status and
//! lexical search over the local chunk index. The browser never talks to
//! Google Drive — only to the local snapshot/FTS tables the sync pump fills.

use vstd::prelude::*;

use super::mutation::MutationOutcomeKind;

verus! {

/// Corpus configuration + sync state, for the operator status surface.
#[derive(Debug, Clone, PartialEq, Eq)]
pub struct DriveCorpusStatus {
    /// True when folder ids or include-file ids are configured.
    pub configured: bool,
    pub revision: Option<u64>,
    pub credential_user_id: Option<String>,
    pub folder_ids: Vec<String>,
    pub folder_names: Vec<DriveCorpusFolderName>,
    pub include_file_ids: Vec<String>,
    /// True when BOS_DRIVE_CORPUS_FOLDER_IDS pins the active folders. Overlay
    /// folder ids are defaults; the settings UI can override them.
    pub folder_selection_pinned: bool,
    /// The background pump's env gate (manual sync works regardless).
    pub sync_enabled: bool,
    /// A Google credential resolves for the corpus reader.
    pub credential_connected: bool,
    /// drive.readonly present on the resolved credential. None = scope list
    /// unknown (legacy env credential).
    pub drive_scope_granted: Option<bool>,
    pub in_flight: bool,
    /// False until the initial folder walk completes.
    pub backfill_complete: bool,
    pub doc_counts: DriveCorpusDocCounts,
    pub chunk_count: u64,
    pub last_attempt_ms: Option<u64>,
    pub last_outcome: Option<String>,
    pub last_error: Option<String>,
    pub next_sync_allowed_at_ms: u64,
}

#[derive(Debug, Clone, PartialEq, Eq)]
pub struct DriveCorpusFolderName {
    pub folder_id: String,
    pub name: String,
}

#[derive(Debug, Clone, PartialEq, Eq)]
pub struct DriveCorpusSettingsUpdateRequest {
    pub expected_revision: Option<u64>,
    pub idempotency_key: String,
    pub actor_id: Option<String>,
    pub drive_folder_id: Option<String>,
    pub drive_folder_name: Option<String>,
}

#[derive(Debug, Clone, PartialEq, Eq)]
pub struct DriveCorpusSettingsUpdateResponse {
    pub outcome: MutationOutcomeKind,
    pub receipt_id: String,
    pub revision: Option<u64>,
    pub sync_started: bool,
    pub sync_refusal_reason: Option<String>,
}

/// Document counts by index status.
#[derive(Debug, Clone, Default, PartialEq, Eq)]
pub struct DriveCorpusDocCounts {
    pub indexed: u64,
    pub stale: u64,
    pub skipped: u64,
    pub error: u64,
    pub removed: u64,
}

/// 202/409 envelope for the manual Sync-now kick.
#[derive(Debug, Clone, PartialEq, Eq)]
pub struct DriveSyncNowResponse {
    pub accepted: bool,
    pub reason: Option<String>,
    pub next_allowed_at_ms: u64,
}

} // verus!
