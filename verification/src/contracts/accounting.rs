//! Accounting view contracts (provider-agnostic: QuickBooks, Invoice Ninja, …): connector status, sync state, and the
//! cached invoice/aging/sales/customer read models. Every response that
//! renders accounting data carries [`AccountingSyncInfo`] so the UI can say how fresh the
//! numbers are — the browser never talks to QBO, only to the local cache.

use vstd::prelude::*;

verus! {

#[derive(Debug, Clone, PartialEq, Eq)]
pub struct AccountingConnectorStatus {
    /// Which accounting provider this instance talks to ("qbo" | "invoice_ninja").
    pub provider: String,
    pub connected: bool,
    /// True when the stored OAuth grant cannot refresh and the operator must
    /// complete the provider consent flow again.
    pub reconnect_required: bool,
    /// Safe machine-readable cause. This field never contains provider tokens
    /// or raw provider responses.
    pub connection_error_code: Option<String>,
    pub realm_id: Option<String>,
    pub environment: Option<String>,
    pub connected_by: Option<String>,
    /// When the rotating refresh token dies if never used again (~100 days
    /// from the last refresh) — the UI warns as it approaches.
    pub refresh_token_expires_at_ms: Option<u64>,
    /// Present when connection or reconnection is available.
    pub connect_url: Option<String>,
    pub blocked_reason: Option<String>,
}

/// Sync freshness attached to every QBO view response.
#[derive(Debug, Clone, PartialEq, Eq)]
pub struct AccountingSyncInfo {
    /// The background pump's env gate (manual sync works regardless).
    pub sync_enabled: bool,
    pub in_flight: bool,
    /// False until the initial full walk of both entities completes.
    pub backfill_complete: bool,
    pub last_synced_at_ms: Option<u64>,
    pub invoice_count: u64,
    pub customer_count: u64,
    /// QBO API requests spent by the most recent cycle (budget visibility).
    pub last_requests_used: u32,
    pub next_sync_allowed_at_ms: u64,
    pub last_error: Option<String>,
}

#[derive(Debug, Clone, PartialEq, Eq)]
pub struct AccountingInvoiceRow {
    pub invoice_id: String,
    pub doc_number: Option<String>,
    pub customer_name: Option<String>,
    pub txn_date: Option<String>,
    pub due_date: Option<String>,
    pub total_cents: i64,
    pub balance_cents: i64,
    /// open | overdue | paid | voided.
    pub status: String,
    /// Days past due (0 when not overdue or no due date).
    pub days_overdue: i64,
}

#[derive(Debug, Clone, PartialEq, Eq)]
pub struct AccountingInvoicesResponse {
    pub invoices: Vec<AccountingInvoiceRow>,
    pub sync: AccountingSyncInfo,
}

#[derive(Debug, Clone, PartialEq, Eq)]
pub struct AccountingAgingBucket {
    /// current | days_1_30 | days_31_60 | days_61_90 | days_90_plus | no_due_date.
    pub bucket: String,
    pub label: String,
    pub invoice_count: u32,
    pub balance_cents: i64,
}

#[derive(Debug, Clone, PartialEq, Eq)]
pub struct AccountingAgingResponse {
    pub buckets: Vec<AccountingAgingBucket>,
    pub total_open_cents: i64,
    pub sync: AccountingSyncInfo,
}

/// One cached month of ProfitAndLoss totals (the margin trend's bars).
#[derive(Debug, Clone, PartialEq, Eq)]
pub struct AccountingPnlMonth {
    /// First day of the month (YYYY-MM-DD).
    pub month_start: String,
    pub total_income_cents: i64,
    /// None for providers without cost data (basis "invoice_totals").
    pub total_cogs_cents: Option<i64>,
    pub gross_profit_cents: Option<i64>,
    /// False = the month is still in progress (partial totals).
    pub is_complete: bool,
}

/// Owner financials — sales pace plus the configured management metric. Gross
/// margin remains the default metric when P&L data exists; deployments may
/// configure another basis such as adjusted gross sales.
#[derive(Debug, Clone, PartialEq, Eq)]
pub struct AccountingFinancialsResponse {
    /// What the sales numbers come from ("quickbooks_pnl" | "invoice_totals").
    pub basis: String,
    /// Configured management metric basis ("gross_margin" |
    /// "adjusted_gross_sales" | "invoice_totals").
    pub metric_basis: String,
    /// Operator-facing label for the configured metric.
    pub metric_basis_label: String,
    pub week_to_date_cents: i64,
    /// The last FULL week's income (None until cached).
    pub prior_week_cents: Option<i64>,
    /// Prior week through the same weekday as `week_to_date_cents` where the
    /// provider cache has enough daily rows to compute it exactly.
    pub prior_week_to_date_cents: Option<i64>,
    pub month_to_date_cents: i64,
    /// Full prior completed month's income. Used for completed-month context,
    /// not for in-progress MTD deltas.
    pub prior_month_cents: Option<i64>,
    /// Prior month through the same day-of-month as `month_to_date_cents`
    /// where the provider cache has enough daily rows to compute it exactly.
    pub prior_month_to_date_cents: Option<i64>,
    /// None for providers without cost data (basis "invoice_totals").
    pub mtd_gross_profit_cents: Option<i64>,
    pub mtd_cogs_cents: Option<i64>,
    /// Average monthly gross margin of the previous four completed quarters
    /// — None until all twelve baseline months are cached.
    pub baseline_monthly_margin_cents: Option<i64>,
    /// How many of the twelve baseline months are cached so far.
    pub baseline_months_cached: u32,
    pub baseline_window_start: Option<String>,
    pub baseline_window_end: Option<String>,
    /// THE pilot payment metric: this month's gross margin minus the
    /// baseline. None until the baseline is computable.
    pub margin_above_baseline_cents: Option<i64>,
    /// Current month-to-date value for the configured management metric. None
    /// means the metric is pending/limited and `metric_pending_reason` explains why.
    pub metric_value_cents: Option<i64>,
    /// Baseline value for the configured management metric. For gross margin
    /// this is the computed trailing four-quarter average; for imported bases
    /// this can come from deployment config.
    pub metric_baseline_cents: Option<i64>,
    /// Configured metric minus its baseline.
    pub metric_above_baseline_cents: Option<i64>,
    /// Present when missing inputs or baseline make the configured metric
    /// limited rather than computable.
    pub metric_pending_reason: Option<String>,
    /// All cached months oldest-first (trend bars; includes the partial
    /// current month flagged is_complete=false).
    pub months: Vec<AccountingPnlMonth>,
    pub sync: AccountingSyncInfo,
}

#[derive(Debug, Clone, PartialEq, Eq)]
pub struct AccountingCustomerRow {
    pub customer_id: String,
    pub display_name: String,
    pub company_name: Option<String>,
    pub email: Option<String>,
    pub tier: Option<String>,
    pub active: bool,
}

#[derive(Debug, Clone, PartialEq, Eq)]
pub struct AccountingCustomersResponse {
    pub customers: Vec<AccountingCustomerRow>,
    pub sync: AccountingSyncInfo,
}

#[derive(Debug, Clone, PartialEq, Eq)]
pub struct AccountingSyncNowResponse {
    pub accepted: bool,
    /// Refusal reason when not accepted: sync_in_flight | sync_cooldown |
    /// qbo_not_connected.
    pub reason: Option<String>,
    pub next_allowed_at_ms: u64,
}

} // verus!
