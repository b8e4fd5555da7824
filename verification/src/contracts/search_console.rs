//! Google Search Console cached traffic contracts. The browser reads only
//! BusinessOS snapshots; provider access is read-only and handled by the
//! search_console slice.

use vstd::prelude::*;

verus! {

#[derive(Debug, Clone, Default, PartialEq, Eq)]
pub struct SearchConsoleMetricTotals {
    pub clicks: i64,
    pub impressions: i64,
    pub ctr_micros: i64,
    pub position_micros: i64,
}

#[derive(Debug, Clone, PartialEq, Eq)]
pub struct SearchConsoleBreakdownRow {
    pub value: String,
    pub metrics: SearchConsoleMetricTotals,
}

#[derive(Debug, Clone, Default, PartialEq, Eq)]
pub struct AnalyticsMetricTotals {
    pub sessions: i64,
    pub total_users: i64,
    pub event_count: i64,
    pub conversions: i64,
}

#[derive(Debug, Clone, PartialEq, Eq)]
pub struct AnalyticsBreakdownRow {
    pub value: String,
    pub metrics: AnalyticsMetricTotals,
}

#[derive(Debug, Clone, PartialEq, Eq)]
pub struct SearchConsoleProperty {
    pub site_url: String,
    pub permission_level: String,
    pub selected: bool,
    pub discovered_at_ms: Option<u64>,
    pub last_seen_at_ms: Option<u64>,
}

#[derive(Debug, Clone, PartialEq, Eq)]
pub struct SearchConsoleTrafficOverview {
    pub configured: bool,
    pub property_url: Option<String>,
    pub property_source: Option<String>,
    pub properties: Vec<SearchConsoleProperty>,
    pub selection_revision: Option<u64>,
    pub credential_connected: bool,
    pub scope_granted: Option<bool>,
    pub in_flight: bool,
    pub last_synced_at_ms: Option<u64>,
    pub last_error: Option<String>,
    pub next_sync_allowed_at_ms: u64,
    pub week: SearchConsoleMetricTotals,
    pub month_to_date: SearchConsoleMetricTotals,
    pub branded_week: SearchConsoleMetricTotals,
    pub nonbranded_week: SearchConsoleMetricTotals,
    pub top_queries_week: Vec<SearchConsoleBreakdownRow>,
    pub top_pages_week: Vec<SearchConsoleBreakdownRow>,
    pub analytics_configured: bool,
    pub analytics_property_id: Option<String>,
    pub analytics_last_synced_at_ms: Option<u64>,
    pub analytics_last_error: Option<String>,
    pub analytics_week: AnalyticsMetricTotals,
    pub analytics_month_to_date: AnalyticsMetricTotals,
    pub analytics_excluded_referrer_spam_week: AnalyticsMetricTotals,
    pub analytics_excluded_referrer_spam_month_to_date: AnalyticsMetricTotals,
    pub top_landing_pages_week: Vec<AnalyticsBreakdownRow>,
    pub top_sources_week: Vec<AnalyticsBreakdownRow>,
}

#[derive(Debug, Clone, PartialEq, Eq)]
pub struct SearchConsoleSyncNowResponse {
    pub accepted: bool,
    pub reason: Option<String>,
    pub next_allowed_at_ms: u64,
}

#[derive(Debug, Clone, PartialEq, Eq)]
pub struct SearchConsolePropertySelectRequest {
    pub site_url: String,
    pub expected_revision: Option<u64>,
    pub idempotency_key: String,
}

} // verus!
