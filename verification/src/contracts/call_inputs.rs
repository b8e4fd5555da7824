//! Call input contracts: consent-gated call logs, transcripts, and selected
//! recordings staged as auditable source inputs before normal queue work.

use vstd::prelude::*;

verus! {

#[derive(Debug, Clone, Copy, PartialEq, Eq, Structural)]
pub enum CallInputSourceKind {
    DriveTranscript,
    DriveRecording,
    FolderTranscript,
    FolderRecording,
    RubySummary,
    ManualTranscript,
    Other,
}

#[derive(Debug, Clone, PartialEq, Eq)]
pub struct CallInputSourceConfig {
    pub source_id: String,
    pub display_name: String,
    pub kind: CallInputSourceKind,
    pub location_hint: Option<String>,
    pub enabled: bool,
    pub consent_basis: Option<String>,
}

#[derive(Debug, Clone, Default, PartialEq, Eq)]
pub struct CallInputsRouting {
    pub packet_kinds: Vec<String>,
}

#[derive(Debug, Clone, PartialEq, Eq)]
pub struct CallInputsStatusResponse {
    pub configured: bool,
    pub enabled_sources: usize,
    pub pending_sources: usize,
    pub sources: Vec<CallInputSourceConfig>,
    pub routing: CallInputsRouting,
}

#[derive(Debug, Clone, PartialEq, Eq)]
pub struct CallInputsDriveSettingsResponse {
    pub revision: Option<u64>,
    pub credential_user_id: Option<String>,
    pub drive_folder_id: Option<String>,
    pub drive_folder_name: Option<String>,
    pub ingestion_enabled: bool,
    pub interval_secs: Option<u64>,
    pub credential_connected: bool,
    pub drive_scope_granted: Option<bool>,
}

#[derive(Debug, Clone, PartialEq, Eq)]
pub struct CallInputsDriveSettingsUpdateRequest {
    pub expected_revision: Option<u64>,
    pub idempotency_key: String,
    pub actor_id: Option<String>,
    pub drive_folder_id: Option<String>,
    pub drive_folder_name: Option<String>,
    pub ingestion_enabled: bool,
    pub interval_secs: Option<u64>,
}

#[derive(Debug, Clone, Copy, PartialEq, Eq, Structural)]
pub enum CallInputKind {
    CallLog,
    Transcript,
    Recording,
}

#[derive(Debug, Clone, Copy, PartialEq, Eq, Structural)]
pub enum CallInputStatus {
    Staged,
    Accepted,
    Rejected,
}

#[derive(Debug, Clone, PartialEq, Eq)]
pub struct CallInputTranscriptionMeta {
    pub engine: String,
    pub executable: String,
    pub executable_version: String,
    pub model: String,
    pub model_hash: Option<String>,
    pub source_content_hash: Option<String>,
    pub audio_bytes: u64,
    pub runtime_ms: u64,
    pub exit_status: String,
}

#[derive(Debug, Clone, Copy, PartialEq, Eq, Structural)]
pub enum CallInputActionKind {
    Accept,
    Reject,
}

#[derive(Debug, Clone, PartialEq, Eq)]
pub struct CallInputActionRequest {
    pub action: CallInputActionKind,
    pub packet_kinds: Vec<String>,
    pub expected_revision: Option<u64>,
    pub idempotency_key: String,
    pub actor_id: Option<String>,
}

} // verus!
