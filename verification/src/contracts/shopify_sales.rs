//! Shopify sales cache contracts: connector status, sync state, and cached
//! order/customer read models. The browser and future grounding tools read
//! local snapshots only; Shopify is touched only by the sync path.

use vstd::prelude::*;

verus! {

#[derive(Debug, Clone, PartialEq, Eq)]
pub struct ShopifySalesConnectorStatus {
    pub configured: bool,
    pub shop_domain: Option<String>,
    pub has_synced: bool,
    pub blocked_reason: Option<String>,
}

#[derive(Debug, Clone, PartialEq, Eq)]
pub struct ShopifySalesSyncInfo {
    pub sync_enabled: bool,
    pub in_flight: bool,
    pub backfill_complete: bool,
    pub last_synced_at_ms: Option<u64>,
    pub order_count: u64,
    pub customer_count: u64,
    pub last_requests_used: u32,
    pub next_sync_allowed_at_ms: u64,
    pub last_error: Option<String>,
}

#[derive(Debug, Clone, PartialEq, Eq)]
pub struct ShopifyOrderLineItemSummary {
    pub title: String,
    pub sku: Option<String>,
    pub quantity: i64,
}

#[derive(Debug, Clone, PartialEq, Eq)]
pub struct ShopifyOrderSnapshotRow {
    pub order_id: String,
    pub order_number: String,
    pub customer_email: Option<String>,
    pub customer_name: Option<String>,
    pub total_cents: Option<i64>,
    pub currency: Option<String>,
    pub financial_status: Option<String>,
    pub fulfillment_status: Option<String>,
    pub tracking_number: Option<String>,
    pub carrier: Option<String>,
    pub line_items_summary: String,
    pub line_items: Vec<ShopifyOrderLineItemSummary>,
    pub created_at: Option<String>,
}

#[derive(Debug, Clone, PartialEq, Eq)]
pub struct ShopifyCustomerSnapshotRow {
    pub customer_id: String,
    pub email: Option<String>,
    pub name: Option<String>,
    pub phone: Option<String>,
    pub total_spent_cents: Option<i64>,
    pub orders_count: i64,
    pub tags: Vec<String>,
    pub tier: Option<String>,
}

#[derive(Debug, Clone, PartialEq, Eq)]
pub struct ShopifyOrdersResponse {
    pub orders: Vec<ShopifyOrderSnapshotRow>,
    pub sync: ShopifySalesSyncInfo,
}

#[derive(Debug, Clone, PartialEq, Eq)]
pub struct ShopifyCustomersResponse {
    pub customers: Vec<ShopifyCustomerSnapshotRow>,
    pub sync: ShopifySalesSyncInfo,
}

#[derive(Debug, Clone, PartialEq, Eq)]
pub struct ShopifySalesSyncNowResponse {
    pub accepted: bool,
    pub reason: Option<String>,
    pub next_allowed_at_ms: u64,
}

} // verus!
