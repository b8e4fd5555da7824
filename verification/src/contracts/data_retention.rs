//! Automatic SQLite retention and storage-maintenance contracts.

use vstd::prelude::*;

verus! {

#[derive(Debug, Clone, Copy, PartialEq, Eq, Structural)]
pub enum SqliteAutoVacuumMode {
    Off,
    Full,
    Incremental,
    Unknown,
}

#[derive(Debug, Clone, PartialEq, Eq)]
pub struct DataRetentionStatus {
    pub enabled: bool,
    pub interval_secs: u64,
    pub email_body_retention_days: u64,
    pub receipt_payload_retention_days: u64,
    pub batch_size: u64,
    pub max_rows_per_cycle: u64,
    pub incremental_vacuum_pages: u64,
    pub email_body_cutoff_ms: u64,
    pub receipt_payload_cutoff_ms: u64,
    pub eligible_email_bodies: u64,
    pub eligible_receipt_payloads: u64,
    pub database_bytes: u64,
    pub page_size_bytes: u64,
    pub page_count: u64,
    pub freelist_pages: u64,
    pub freelist_bytes: u64,
    pub wal_bytes: u64,
    pub auto_vacuum_mode: SqliteAutoVacuumMode,
    pub attended_full_vacuum_required: bool,
    pub in_flight: bool,
    pub last_attempt_ms: Option<u64>,
    pub last_outcome: Option<String>,
    pub last_duration_ms: Option<u64>,
    pub last_units_compacted: u64,
    pub next_allowed_at_ms: u64,
    pub last_retention_receipt_at_ms: Option<u64>,
    pub last_retention_receipt_outcome: Option<String>,
}

#[derive(Debug, Clone, PartialEq, Eq)]
pub struct DataRetentionRunRequest {
    pub actor_id: Option<String>,
    pub idempotency_key: String,
}

#[derive(Debug, Clone, Copy, PartialEq, Eq, Structural)]
pub enum DataRetentionRunStatus {
    Spawned,
    Replayed,
    AlreadyRunning,
}

#[derive(Debug, Clone, PartialEq, Eq)]
pub struct DataRetentionRunResponse {
    pub status: DataRetentionRunStatus,
    pub run_id: Option<String>,
    pub reason: Option<String>,
}

} // verus!
