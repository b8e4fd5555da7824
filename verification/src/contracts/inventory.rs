//! Inventory view contracts (Stockforge connector): connector status, sync
//! state, and the cached stock / low-stock / order-pipeline / inbound-PO read
//! models. Every response that renders inventory data carries
//! [`InventorySyncInfo`] so the UI can say how fresh the numbers are — the
//! browser never talks to Stockforge, only to the local cache.

use vstd::prelude::*;

verus! {

#[derive(Debug, Clone, PartialEq, Eq)]
pub struct StockforgeConnectorStatus {
    /// True when the env credential is present (base URL + service account).
    pub configured: bool,
    /// API base URL used by the read-only connector.
    pub base_url: Option<String>,
    /// User-facing Stockforge order board deep link.
    pub order_board_url: Option<String>,
    /// User-facing Stockforge inventory list (full report / export).
    pub inventory_url: Option<String>,
    /// Set after the first successful sync; the practical "connected" signal.
    pub has_synced: bool,
    pub blocked_reason: Option<String>,
}

/// Sync freshness attached to every inventory view response.
#[derive(Debug, Clone, PartialEq, Eq)]
pub struct InventorySyncInfo {
    /// The background pump's env gate (manual sync works regardless).
    pub sync_enabled: bool,
    pub in_flight: bool,
    /// False until the initial full material walk completes.
    pub backfill_complete: bool,
    pub last_synced_at_ms: Option<u64>,
    pub material_count: u64,
    pub order_count: u64,
    /// Stockforge API requests spent by the most recent cycle.
    pub last_requests_used: u32,
    pub next_sync_allowed_at_ms: u64,
    pub last_error: Option<String>,
    /// rate_limited | auth | timeout | error. Set from the StockforgeError
    /// variant at record time, not parsed from display text.
    pub last_error_class: Option<String>,
    pub last_error_at_ms: Option<u64>,
}

/// Headline numbers for the stock view's KPI cards.
#[derive(Debug, Clone, PartialEq, Eq)]
pub struct InventoryStockKpis {
    pub active_materials: u32,
    /// Active items eligible for independent low-stock alerts.
    pub monitored_materials: u32,
    /// Active built-to-order/non-replenished/legacy items excluded from alerts.
    pub not_monitored_count: u32,
    pub warning_count: u32,
    pub critical_count: u32,
    pub out_of_stock_count: u32,
    /// Stocked/monitored materials only — not raw catalog value.
    pub stock_value_cents: i64,
    /// All active catalog materials at cost, including non-stocked.
    pub catalog_value_cents: i64,
}

/// One order card from the cached live board window.
#[derive(Debug, Clone, PartialEq, Eq)]
pub struct InventoryOrderRow {
    pub order_id: String,
    pub order_number: String,
    pub external_order_id: Option<String>,
    pub platform: Option<String>,
    /// NEW | PICKING | PACKED | SHIPPED | DELIVERED | EXCEPTION.
    pub board_status: String,
    pub customer_name: Option<String>,
    pub customer_email: Option<String>,
    pub total_cents: i64,
    pub order_date: Option<String>,
    pub processed_at: Option<String>,
    pub item_count: i64,
    pub unit_count: i64,
    pub mapped_line_count: i64,
    pub carrier: Option<String>,
    pub tracking_number: Option<String>,
    /// Days the order has sat in a pre-shipment column (0 once shipped).
    pub age_days: i64,
    pub needs_mapping: bool,
    pub blocked: bool,
    pub deducted: bool,
    pub deduction_failed: bool,
    pub exception: bool,
    pub depletion_total: i64,
    pub depletion_applied: i64,
    pub depletion_failed: i64,
    pub depletion_reversed: i64,
    /// Why the order can't advance (empty when not blocked).
    pub blocked_reasons: Vec<String>,
    pub external_url: Option<String>,
}

/// Pipeline counts for the board summary strip (one per column).
#[derive(Debug, Clone, PartialEq, Eq)]
pub struct InventoryOrderPipeline {
    pub new_count: u32,
    pub picking_count: u32,
    pub packed_count: u32,
    pub shipped_count: u32,
    pub delivered_count: u32,
    pub exception_count: u32,
}

/// Order-controls rollup: the work-agreement "paid orders are visible,
/// fulfilled, and deducted" visibility numbers.
#[derive(Debug, Clone, PartialEq, Eq)]
pub struct InventoryOrderControls {
    /// Shopify-origin orders in the cached board window.
    pub shopify_order_count: u32,
    /// Orders with every reported line mapped and no mapping backlog.
    pub mapped_count: u32,
    /// Orders with all reported depletion rows applied.
    pub depleted_count: u32,
    /// Orders ready to deduct once their configured Stockforge trigger runs.
    pub awaiting_depletion_count: u32,
    /// Orders with at least one unmapped SKU line (reconciliation backlog).
    pub needs_mapping_count: u32,
    /// Orders whose inventory deduction failed (reconcile in Stockforge).
    pub deduction_failed_count: u32,
    /// Orders blocked from advancing for any reason.
    pub blocked_count: u32,
    /// Unshipped orders older than the stale threshold.
    pub stale_count: u32,
    /// Days before an unshipped order counts as stale.
    pub stale_after_days: u32,
}

#[derive(Debug, Clone, PartialEq, Eq)]
pub struct InventoryOrdersResponse {
    pub pipeline: InventoryOrderPipeline,
    pub controls: InventoryOrderControls,
    /// Orders needing operator attention first, then the rest of the window,
    /// newest first.
    pub orders: Vec<InventoryOrderRow>,
    /// How many days back the cached board window reaches.
    pub window_days: u32,
    pub sync: InventorySyncInfo,
}

/// One inbound purchase order.
#[derive(Debug, Clone, PartialEq, Eq)]
pub struct InventoryPurchaseOrderRow {
    pub po_id: String,
    pub vendor_name: Option<String>,
    /// DRAFT | PENDING_APPROVAL | SENT | CONFIRMED | RECEIVED | CANCELLED.
    pub status: String,
    pub total_cents: i64,
    pub freight_mode: Option<String>,
    pub line_count: i64,
    pub created_at: Option<String>,
    pub sent_at: Option<String>,
    pub external_url: Option<String>,
}

#[derive(Debug, Clone, PartialEq, Eq)]
pub struct InventoryPurchaseOrdersResponse {
    /// Open (not RECEIVED/CANCELLED) POs, newest first.
    pub purchase_orders: Vec<InventoryPurchaseOrderRow>,
    pub open_total_cents: i64,
    pub sync: InventorySyncInfo,
}

#[derive(Debug, Clone, PartialEq, Eq)]
pub struct InventorySyncNowResponse {
    pub accepted: bool,
    /// Refusal reason when not accepted: sync_in_flight | sync_cooldown |
    /// stockforge_not_configured.
    pub reason: Option<String>,
    pub next_allowed_at_ms: u64,
}

} // verus!
