//! Operator user contracts: named operators (Jordan, Casey, …) with personal
//! bearer tokens, so every mutation receipt records WHO acted and per-user
//! provider credentials become possible. Tokens are write-only on the wire:
//! returned exactly once at create/rotate, never readable afterward.

use vstd::prelude::*;

verus! {

#[derive(Debug, Clone, PartialEq, Eq)]
pub struct OperatorUser {
    /// Stable id ("user_jordan") — the actor_id stamped on receipts.
    pub user_id: String,
    pub display_name: String,
    pub active: bool,
    /// Soft-deleted users stay auditable but are hidden from the default
    /// operator list and cannot authenticate.
    pub archived_at_ms: Option<u64>,
    /// Calendar this user's approved event drafts target when the draft
    /// doesn't pick one. Null = BOS_GOOGLE_CALENDAR_ID, then "primary".
    pub default_calendar_id: Option<String>,
    pub created_at_ms: u64,
    pub updated_at_ms: u64,
}

#[derive(Debug, Clone, PartialEq, Eq)]
pub struct OperatorUsersResponse {
    pub users: Vec<OperatorUser>,
}

#[derive(Debug, Clone, PartialEq, Eq)]
pub struct OperatorUserCreateRequest {
    pub display_name: String,
    pub idempotency_key: String,
    pub actor_id: Option<String>,
}

#[derive(Debug, Clone, PartialEq, Eq)]
pub struct OperatorUserCreateResponse {
    pub user: OperatorUser,
    /// Personal bearer token — shown ONCE; store it now.
    pub token: String,
}

#[derive(Debug, Clone, Copy, PartialEq, Eq, Structural)]
pub enum OperatorUserActionKind {
    Disable,
    Enable,
    Archive,
}

#[derive(Debug, Clone, PartialEq, Eq)]
pub struct OperatorUserActionRequest {
    pub action: OperatorUserActionKind,
    pub expected_revision: Option<u64>,
    pub idempotency_key: String,
    pub actor_id: Option<String>,
}

/// Set (or clear, with null) the user's default calendar.
#[derive(Debug, Clone, PartialEq, Eq)]
pub struct OperatorUserDefaultCalendarRequest {
    pub calendar_id: Option<String>,
    pub expected_revision: Option<u64>,
    pub idempotency_key: String,
    pub actor_id: Option<String>,
}

#[derive(Debug, Clone, PartialEq, Eq)]
pub struct OperatorUserRotateTokenRequest {
    pub idempotency_key: String,
    pub actor_id: Option<String>,
}

#[derive(Debug, Clone, PartialEq, Eq)]
pub struct OperatorUserRotateTokenResponse {
    /// The replacement token — shown ONCE; the old token stops working.
    pub token: String,
}

#[derive(Debug, Clone, PartialEq, Eq)]
pub struct OperatorSessionLoginRequest {
    /// Existing shared/personal operator token. Exchanged once for an
    /// HttpOnly browser session cookie; browser JavaScript does not store it.
    pub token: String,
}

#[derive(Debug, Clone, PartialEq, Eq)]
pub struct OperatorSessionResponse {
    pub ok: bool,
}

#[derive(Debug, Clone, PartialEq, Eq)]
pub struct OperatorSessionVisibilityResponse {
    /// Slice ids enabled for this client after applying the authenticated
    /// operator's UI visibility policy.
    pub visible_slices: Vec<String>,
}

/// Who the presented bearer token authenticates as.
#[derive(Debug, Clone, PartialEq, Eq)]
pub struct WhoAmIResponse {
    /// "operator" for the shared/env token or open dev mode; the user_id for
    /// personal tokens.
    pub actor_id: String,
    pub display_name: String,
}

} // verus!
