//! Operator-configurable typed-LLM routing settings.

use vstd::prelude::*;

verus! {

#[derive(Debug, Clone, PartialEq, Eq)]
pub struct LlmRouteSettingsResponse {
    pub revision: Option<u64>,
    pub api_provider: String,
    /// Whether the local command-line backend is available on this
    /// instance. Availability is derived from the configured default backend
    /// or a per-purpose route override selecting harness. When false the SPA
    /// hides the api/harness backend selector entirely — a deployed client
    /// instance has no harness, so "api" is the only valid backend.
    pub harness_available: bool,
    pub global: LlmGlobalRouteSettings,
    pub purposes: Vec<LlmPurposeRouteSettings>,
}

#[derive(Debug, Clone, PartialEq, Eq)]
pub struct LlmGlobalRouteSettings {
    pub backend: String,
    pub model: Option<String>,
    pub max_tokens: u32,
    pub timeout_ms: u64,
    pub source: String,
}

#[derive(Debug, Clone, PartialEq, Eq)]
pub struct LlmPurposeRouteSettings {
    pub purpose: String,
    pub label: String,
    pub description: String,
    pub effective_backend: String,
    pub effective_model: Option<String>,
    pub override_backend: Option<String>,
    pub override_model: Option<String>,
}

#[derive(Debug, Clone, PartialEq, Eq)]
pub struct LlmRouteSettingsUpdateRequest {
    pub expected_revision: Option<u64>,
    pub idempotency_key: String,
    pub actor_id: Option<String>,
    pub global: LlmGlobalRouteSettingsUpdate,
    pub overrides: Vec<LlmPurposeRouteOverrideUpdate>,
}

#[derive(Debug, Clone, PartialEq, Eq)]
pub struct LlmGlobalRouteSettingsUpdate {
    pub backend: String,
    pub model: Option<String>,
    pub max_tokens: u32,
    pub timeout_ms: u64,
}

#[derive(Debug, Clone, PartialEq, Eq)]
pub struct LlmPurposeRouteOverrideUpdate {
    pub purpose: String,
    pub backend: String,
    pub model: Option<String>,
}

/// Subscription credential state of the configured command-line backend.
/// Tokens and provider identifiers are intentionally never returned.
#[derive(Debug, Clone, PartialEq, Eq)]
pub struct ClaudeSubscriptionStatus {
    /// The configured program can be invoked on this instance.
    pub available: bool,
    /// The program reports a live subscription credential.
    pub connected: bool,
    /// Safe provider-reported authentication label.
    pub auth_method: Option<String>,
    /// Safe plan label such as "pro" or "max"; no account email is exposed.
    pub subscription_type: Option<String>,
    /// An attended OAuth flow is currently waiting for its authorization code.
    pub authorization_pending: bool,
}

#[derive(Debug, Clone, PartialEq, Eq)]
pub struct ClaudeSubscriptionAuthStartRequest {
    pub idempotency_key: String,
    pub actor_id: Option<String>,
}

#[derive(Debug, Clone, PartialEq, Eq)]
pub struct ClaudeSubscriptionAuthStartResponse {
    pub flow_id: String,
    pub authorization_url: String,
}

#[derive(Debug, Clone, PartialEq, Eq)]
pub struct ClaudeSubscriptionAuthCompleteRequest {
    pub flow_id: String,
    /// One-time code returned by the authorization page. It is sent
    /// directly to the waiting CLI process and is never persisted or logged.
    pub authorization_code: String,
    pub idempotency_key: String,
    pub actor_id: Option<String>,
}

} // verus!
