//! Operator debug diagnostics. This is a general backend-error projection over
//! auditable sources; individual rows identify their source table/type.

use vstd::prelude::*;

verus! {

#[derive(Debug, Clone, PartialEq, Eq)]
pub struct DebugDiagnosticRow {
    pub diagnostic_id: String,
    /// "receipt" | "outbox" | "llm" | "sync" | "drive".
    pub source: String,
    /// "error" | "warning".
    pub severity: String,
    /// Broad subsystem: mutation, provider_delivery, llm, sync, document_index.
    pub category: String,
    pub entity_kind: Option<String>,
    pub entity_id: Option<String>,
    pub operation: Option<String>,
    pub error_code: String,
    pub error_message: Option<String>,
    pub correlation_id: Option<String>,
    pub reference_id: Option<String>,
    pub occurred_at_ms: u64,
}

#[derive(Debug, Clone, PartialEq, Eq)]
pub struct DebugDiagnosticsResponse {
    pub rows: Vec<DebugDiagnosticRow>,
}

#[derive(Debug, Clone, PartialEq, Eq)]
pub struct DebugSpawnAgentRequest {
    pub diagnostic_id: String,
    pub idempotency_key: String,
}

#[derive(Debug, Clone, PartialEq, Eq)]
pub struct DebugSpawnAgentResponse {
    pub session_id: String,
    pub thread_id: Option<String>,
    pub monitor_url: Option<String>,
}

} // verus!
