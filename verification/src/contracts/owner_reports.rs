//! Owner reporting digest contracts: a deterministic weekly +
//! month-to-date digest assembled from the LOCAL caches. Every money figure
//! is READ from the accounting snapshots (the digest mirrors the Accounting
//! view's basis labeling, including the invoice_totals caveat) — the ONE
//! LLM transform writes prose only (headline/narrative/callouts), and any
//! dollar amount in that prose must literally appear in the input metrics.

use vstd::prelude::*;

use super::calendar_drafts::OutboxJobSummary;
use super::search_console::{AnalyticsBreakdownRow, AnalyticsMetricTotals, SearchConsoleMetricTotals};

verus! {

#[derive(Debug, Clone, Copy, PartialEq, Eq, Structural)]
pub enum OwnerReportPeriodKind {
    Weekly,
    Mtd,
}

#[derive(Debug, Clone, Copy, PartialEq, Eq, Structural)]
pub enum OwnerReportStatus {
    /// Metrics + narration both present.
    Complete,
    /// Metrics present; the narration transform failed (digest still usable).
    NarrationFailed,
}

/// Sales plus the configured management metric, read from the accounting
/// slice's cached snapshots — the same numbers the Accounting tab shows,
/// basis labeled the same way.
#[derive(Debug, Clone, PartialEq, Eq)]
pub struct DigestSalesMetrics {
    /// "quickbooks_pnl" | "invoice_totals" (invoice_totals counts invoices
    /// only — no sales receipts/credit notes; margin fields absent).
    pub basis: String,
    /// Configured management metric basis ("gross_margin" |
    /// "adjusted_gross_sales" | "invoice_totals").
    pub metric_basis: String,
    /// Operator-facing label for the configured management metric.
    pub metric_basis_label: String,
    /// Sales for THIS report's period (week-to-date or month-to-date).
    pub period_sales_cents: i64,
    /// The prior comparable period (full prior week / prior month-to-date
    /// equivalent per the accounting view's comparison).
    pub prior_period_sales_cents: Option<i64>,
    pub mtd_gross_profit_cents: Option<i64>,
    /// Avg monthly margin of the previous four completed quarters — the
    /// pilot baseline. None until all twelve months are cached.
    pub baseline_monthly_margin_cents: Option<i64>,
    /// THE pilot payment metric (read from the accounting slice, never
    /// recomputed here).
    pub margin_above_baseline_cents: Option<i64>,
    pub metric_value_cents: Option<i64>,
    pub metric_baseline_cents: Option<i64>,
    pub metric_above_baseline_cents: Option<i64>,
    pub metric_pending_reason: Option<String>,
    pub baseline_months_cached: u32,
    /// Accounting cache freshness at assembly time (honesty: stale cache =
    /// stale digest).
    pub last_synced_at_ms: Option<u64>,
}

/// Incoming call volume from a configured email-derived category.
#[derive(Debug, Clone, PartialEq, Eq)]
pub struct DigestCallMetrics {
    /// Inbound messages in the configured call-summary category within the period.
    pub call_log_messages: u64,
    /// Calls whose Ruby summary says the caller was successfully transferred.
    pub transfer_successful: u64,
    /// Calls whose Ruby summary says someone needs to call/contact the caller.
    pub callback_needed: u64,
    /// Calls whose Ruby summary says no callback is needed.
    pub no_callback_needed: u64,
    /// Calls whose Ruby summary did not expose a supported outcome signal.
    pub unknown_outcome: u64,
    /// Operator-facing metric label, configured per client.
    pub label: String,
    /// Source/coverage explanation, e.g. "Ruby-summary calls, not direct calls".
    pub source_label: String,
    /// False when the required email-triage category config is missing; the
    /// count must be rendered as pending data instead of as zero.
    pub configured: bool,
    pub pending_reason: Option<String>,
}

/// Follow-up completion: stored open/done counts plus the watchdog's
/// read-time escalation lanes (follow_up_tasks slice classification).
#[derive(Debug, Clone, PartialEq, Eq)]
pub struct DigestFollowUpMetrics {
    /// Open tasks right now (point-in-time, not windowed).
    pub open: u64,
    /// Tasks marked done within the period.
    pub done_in_period: u64,
    pub due_today: u64,
    /// All overdue open tasks (missed + escalated + critical).
    pub overdue: u64,
    /// Overdue past the escalation threshold (excludes critical).
    pub escalated: u64,
    /// Overdue past the critical threshold.
    pub critical: u64,
}

/// Order control from the cached Stockforge order board. Orders-in-period is
/// windowed by order date; the flag counts are the CURRENT backlog.
#[derive(Debug, Clone, PartialEq, Eq)]
pub struct DigestOrderMetrics {
    pub configured: bool,
    pub pending_reason: Option<String>,
    pub orders_in_period: u64,
    pub exceptions: u64,
    pub deduction_failed: u64,
    /// SKU reconciliation backlog (orders needing mapping).
    pub needs_mapping: u64,
    pub packed_missing_photo: u64,
    pub blocked: u64,
}

/// Point-in-time inventory health from the same cached computation as the
/// Inventory tab. This is a first-class owner-digest section, not a second
/// reporting stack.
#[derive(Debug, Clone, Default, PartialEq, Eq)]
pub struct DigestInventoryMetrics {
    pub configured: bool,
    pub pending_reason: Option<String>,
    pub stocked_sku_count: u64,
    pub out_of_stock_count: u64,
    pub critical_count: u64,
    /// Stocked/monitored valuation, matching InventoryStockKpis.
    pub stock_value_cents: i64,
    /// Total estimated cost of POs that are not RECEIVED/CANCELLED.
    pub inbound_open_po_cents: i64,
}

#[derive(Debug, Clone, PartialEq, Eq)]
pub struct DigestSeverityCount {
    pub severity: String,
    pub count: u64,
}

#[derive(Debug, Clone, PartialEq, Eq)]
pub struct DigestStatusCount {
    pub status: String,
    pub count: u64,
}

#[derive(Debug, Clone, PartialEq, Eq)]
pub struct DigestDamageTypeCount {
    pub damage_type: String,
    pub count: u64,
}

/// Damage/claims activity from the cached damage snapshots + claim drafts.
/// This is reporting only: it describes observed damage, queue lifecycle, and
/// local claim-packet status. It does not imply carrier/insurance submission.
#[derive(Debug, Clone, PartialEq, Eq)]
pub struct DigestClaimMetrics {
    pub configured: bool,
    pub pending_reason: Option<String>,
    pub damage_events_in_period: u64,
    /// Damage rows whose source status is still open.
    pub damage_open: u64,
    /// Damage rows whose source status is present and no longer open.
    pub damage_resolved: u64,
    pub damage_by_severity: Vec<DigestSeverityCount>,
    pub damage_by_status: Vec<DigestStatusCount>,
    pub damage_by_type: Vec<DigestDamageTypeCount>,
    /// Current BusinessOS queue state for damage items in the period.
    pub queue_open: u64,
    pub queue_accepted: u64,
    pub queue_dismissed: u64,
    pub claims_drafted_in_period: u64,
    pub claims_approved_in_period: u64,
    pub claim_drafts_by_status: Vec<DigestStatusCount>,
}

#[derive(Debug, Clone, PartialEq, Eq)]
pub struct DigestTrafficMetrics {
    /// Search Console property/access configured for organic-search reporting.
    pub configured: bool,
    pub property_url: Option<String>,
    pub has_data: bool,
    pub last_synced_at_ms: Option<u64>,
    pub totals: SearchConsoleMetricTotals,
    pub branded: SearchConsoleMetricTotals,
    pub nonbranded: SearchConsoleMetricTotals,
    /// GA4-style behavior/acquisition reporting is configured separately from
    /// Search Console. False means BOS should render a pending setup state,
    /// not zero sessions.
    pub behavior_configured: bool,
    pub behavior_pending_reason: Option<String>,
    /// Conversion events are a separate setup step from installing analytics.
    pub conversion_tracking_configured: bool,
    pub conversion_tracking_pending_reason: Option<String>,
    /// Retargeting pixels/audiences are marketing implementation outside BOS
    /// provider writes unless separately designed and approved.
    pub retargeting_configured: bool,
    pub retargeting_pending_reason: Option<String>,
    pub behavior_has_data: bool,
    pub behavior_week: AnalyticsMetricTotals,
    pub behavior_month_to_date: AnalyticsMetricTotals,
    pub top_landing_pages_week: Vec<AnalyticsBreakdownRow>,
    pub top_sources_week: Vec<AnalyticsBreakdownRow>,
}

#[derive(Debug, Clone, Copy, Default, PartialEq, Eq, Structural)]
pub enum DigestDealMetricsStatus {
    Available,
    #[default]
    PendingConfig,
    LimitedData,
}

/// HubSpot deal close-rate reporting. The pipeline, stage ids, date fields,
/// and optional segment cuts are deployment config; BusinessOS only computes
/// from that mapping and reports when the data is unavailable or incomplete.
#[derive(Debug, Clone, PartialEq, Eq, Default)]
pub struct DigestDealMetrics {
    pub status: DigestDealMetricsStatus,
    pub source: String,
    pub message: String,
    pub closed_deals: Option<u64>,
    pub won_deals: Option<u64>,
    pub lost_deals: Option<u64>,
    pub close_rate_bps: Option<u32>,
    pub avg_contact_to_close_days: Option<u32>,
    pub contact_to_close_sample: Option<u64>,
    pub segment_cuts: Vec<String>,
}

/// The full deterministic metric set for one digest period — the narration
/// transform's ONLY input, and the grounding set for its dollar amounts.
#[derive(Debug, Clone, PartialEq, Eq)]
pub struct OwnerDigestMetrics {
    /// Ordered metric ids active for this report profile. Empty means a
    /// historical report generated before profile scoping existed.
    pub metric_sections: Vec<String>,
    pub sales: DigestSalesMetrics,
    pub calls: DigestCallMetrics,
    pub follow_ups: DigestFollowUpMetrics,
    pub orders: DigestOrderMetrics,
    pub inventory: DigestInventoryMetrics,
    pub claims: DigestClaimMetrics,
    pub traffic: DigestTrafficMetrics,
    pub deals: DigestDealMetrics,
}

#[derive(Debug, Clone, PartialEq, Eq)]
pub struct OwnerReport {
    /// "owr_<kind>_<period_start>" — deterministic; regeneration upserts.
    pub report_id: String,
    pub period_kind: OwnerReportPeriodKind,
    pub period_start: String,
    /// Inclusive end of the data window (the as-of date for current periods).
    pub period_end: String,
    /// The civil date the metrics were assembled (stale when != today).
    pub as_of_date: String,
    pub status: OwnerReportStatus,
    pub metrics: OwnerDigestMetrics,
    pub headline: Option<String>,
    pub narrative: Option<String>,
    pub callouts: Vec<String>,
    pub confidence: Option<String>,
    pub model: Option<String>,
    pub narration_error: Option<String>,
    pub outbox_job_id: Option<String>,
    pub generated_at_ms: u64,
    pub created_at_ms: u64,
    pub updated_at_ms: u64,
}

#[derive(Debug, Clone, PartialEq, Eq)]
pub struct OwnerReportWithRevision {
    pub report: OwnerReport,
    pub revision: u64,
    /// Delivery state of the digest email's Gmail-draft job, when staged.
    pub outbox_job: Option<OutboxJobSummary>,
}

#[derive(Debug, Clone, PartialEq, Eq)]
pub struct OwnerReportsResponse {
    pub reports: Vec<OwnerReportWithRevision>,
}

#[derive(Debug, Clone, PartialEq, Eq)]
pub struct OwnerReportGenerateResponse {
    pub accepted: bool,
    pub reason: Option<String>,
}

#[derive(Debug, Clone, PartialEq, Eq)]
pub struct OwnerReportEmailRequest {
    pub idempotency_key: String,
    pub expected_revision: Option<u64>,
    pub actor_id: Option<String>,
}

/// The label of the call metric where a client configures none.
pub fn default_call_metric_label() -> (r: String)
    ensures
        r@ == "Incoming calls"@,
{
    "Incoming calls".to_owned()
}

/// The source label of the call metric where a client configures none.
pub fn default_call_metric_source_label() -> (r: String)
    ensures
        r@ == "Email-derived call summaries"@,
{
    "Email-derived call summaries".to_owned()
}

/// The call metric is configured unless a report says otherwise.
pub fn default_call_metric_configured() -> (r: bool)
    ensures
        r,
{
    true
}

/// A metric is configured unless a report says otherwise.
pub fn default_metric_configured() -> (r: bool)
    ensures
        r,
{
    true
}

} // verus!
