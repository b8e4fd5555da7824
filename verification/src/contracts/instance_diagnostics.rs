//! Instance diagnostics contracts: the structured health surface every
//! instance exposes for the support hub — `/readyz` (unauthenticated
//! liveness) and `/api/diagnostics/health` (operator-gated full signal).

use vstd::prelude::*;

verus! {

/// `GET /readyz` — unauthenticated structured liveness.
#[derive(Debug, Clone, PartialEq, Eq)]
pub struct ReadyzResponse {
    pub client_id: String,
    /// Client-facing brand name from the overlay identity ("Example Company");
    /// the SPA titles itself with it. Empty = pre-branding payload.
    pub display_name: String,
    /// "ok" | "degraded".
    pub status: String,
    pub schema_version: u32,
    pub uptime_ms: u64,
    // Slice ids enabled for this client (from the overlay). The SPA uses this
    // to hide UI for slices a client doesn't run (e.g. Settings sections). Not
    // sensitive: feature names only, no secrets.
    pub enabled_slices: Vec<String>,
    /// True when accepting a work item may kick automatic draft production.
    pub auto_produce_enabled: bool,
    /// True when unmatched email can be examined by the bounded AI triage pass.
    pub ai_triage_enabled: bool,
    /// True when the operator may launch a Agent Monitor agent session from a
    /// work item (operator power tool; off on client instances).
    pub agent_launch_enabled: bool,
}

/// One background pump's in-memory guard state.
#[derive(Debug, Clone, PartialEq, Eq)]
pub struct PumpStatusDto {
    /// "accounting_sync" | "stockforge_sync" | "drive_sync" | "claims_sync"
    /// | "report_generate".
    pub pump: String,
    pub in_flight: bool,
    pub last_attempt_ms: Option<u64>,
    /// "ok" / "ok (...)" / "rate-limited ..." / "error: ..."; None = never ran.
    pub last_outcome: Option<String>,
    pub next_allowed_at_ms: u64,
}

/// LLM failures within the window, grouped by purpose + error code.
#[derive(Debug, Clone, PartialEq, Eq)]
pub struct LlmErrorRollupDto {
    pub purpose: String,
    pub error_code: Option<String>,
    pub count: u64,
}

/// Error counts over one trailing window, computed from existing tables
/// (receipts, ai_usage_log) — nothing is stored for this.
#[derive(Debug, Clone, PartialEq, Eq)]
pub struct ErrorRollupDto {
    pub window_ms: u64,
    pub failed_receipts: u64,
    pub conflict_receipts: u64,
    pub llm_failures: u64,
    pub llm_errors: Vec<LlmErrorRollupDto>,
}

/// Point-in-time outbox backlog (terminal jobs persist, so no window).
#[derive(Debug, Clone, PartialEq, Eq)]
pub struct OutboxBacklogDto {
    pub pending_jobs: u64,
    pub terminal_jobs: u64,
    pub last_terminal_error: Option<String>,
}

/// `GET /api/diagnostics/health` — the full operator-gated signal the
/// support hub polls.
#[derive(Debug, Clone, PartialEq, Eq)]
pub struct InstanceHealth {
    pub client_id: String,
    /// Client-facing brand name from the overlay identity.
    pub display_name: String,
    /// Server crate version (build identity).
    pub version: String,
    /// Git sha of the deployed build (BOS_BUILD_SHA, stamped by the deploy
    /// image). None = local/unstamped build.
    pub build_sha: Option<String>,
    pub started_at_ms: u64,
    pub uptime_ms: u64,
    /// Instance clock at response time (lets the hub spot skew).
    pub now_ms: u64,
    pub schema_version: u32,
    /// "ok" | "degraded" — the instance's own cheap readiness; deeper
    /// judgement (down/unreachable, trends) is the hub's job.
    pub status: String,
    pub pumps: Vec<PumpStatusDto>,
    pub outbox: OutboxBacklogDto,
    pub errors_1h: ErrorRollupDto,
    pub errors_24h: ErrorRollupDto,
    pub enabled_slices: Vec<String>,
    /// Enabled slices after applying the authenticated operator's visibility
    /// policy. The SPA uses this to hide tabs whose routes would reject this
    /// user.
    pub visible_slices: Vec<String>,
}

} // verus!
