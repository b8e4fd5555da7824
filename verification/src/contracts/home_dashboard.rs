//! Home dashboard contracts: per-operator widget preferences plus the
//! server-assembled, authorization-filtered widget data rendered by Home.

use vstd::prelude::*;

verus! {

#[derive(Debug, Clone, Copy, PartialEq, Eq, PartialOrd, Ord, Structural)]
pub enum HomeDashboardWidgetKind {
    BusinessSummary,
    SalesPipeline,
    SystemHealth,
    HelpShortcuts,
    SystemDiagnostics,
    OpenTasks,
    ImportantEmails,
    WorkQueueEvents,
    RecentOrders,
    FinancialOverview,
    InventoryAlerts,
}

#[derive(Debug, Clone, Copy, PartialEq, Eq, Structural)]
pub enum HomeDashboardWidgetState {
    Ready,
    Unavailable,
    PendingSetup,
}

#[derive(Debug, Clone, PartialEq, Eq)]
pub struct HomeDashboardWidgetPreference {
    pub kind: HomeDashboardWidgetKind,
    pub enabled: bool,
}

#[derive(Debug, Clone, PartialEq, Eq)]
pub struct HomeDashboardPreference {
    pub widgets: Vec<HomeDashboardWidgetPreference>,
    pub revision: Option<u64>,
}

#[derive(Debug, Clone, PartialEq, Eq)]
pub struct HomeDashboardMetric {
    pub label: String,
    pub value: Option<String>,
    pub cents: Option<i64>,
    /// When set, this metric is a clickable count that deep-links into the
    /// named view (e.g. KPI-ribbon figures). Reuses the 7317398 target
    /// contract; absent for plain read-only metrics.
    pub target: Option<HomeDashboardTarget>,
}

#[derive(Debug, Clone, PartialEq, Eq)]
pub struct HomeDashboardWidgetChartPoint {
    pub label: String,
    pub value: u32,
    pub color: Option<String>,
    pub target: Option<HomeDashboardTarget>,
}

#[derive(Debug, Clone, PartialEq, Eq)]
pub enum HomeDashboardWidgetChart {
    Donut {
        segments: Vec<HomeDashboardWidgetChartPoint>,
    },
    Bar {
        items: Vec<HomeDashboardWidgetChartPoint>,
    },
    Sparkline {
        points: Vec<HomeDashboardWidgetChartPoint>,
    },
    Funnel {
        stages: Vec<HomeDashboardWidgetChartPoint>,
    },
}

#[derive(Debug, Clone, Copy, PartialEq, Eq, Structural)]
pub enum HomeDashboardTargetView {
    Queue,
    Inbox,
    Tasks,
    Leads,
    Inventory,
    Accounting,
    Reports,
    Settings,
    Debug,
}

#[derive(Debug, Clone, PartialEq, Eq)]
pub struct HomeDashboardTarget {
    pub view: Option<HomeDashboardTargetView>,
    pub focus_id: Option<String>,
    pub external_url: Option<String>,
}

#[derive(Debug, Clone, PartialEq, Eq)]
pub struct HomeDashboardAction {
    pub label: String,
    pub target: HomeDashboardTarget,
}

#[derive(Debug, Clone, PartialEq, Eq)]
pub struct HomeDashboardWidgetItem {
    pub label: String,
    pub detail: Option<String>,
    pub tone: Option<String>,
    pub target: Option<HomeDashboardTarget>,
}

#[derive(Debug, Clone, PartialEq, Eq)]
pub struct HomeDashboardWidget {
    pub kind: HomeDashboardWidgetKind,
    pub title: String,
    pub state: HomeDashboardWidgetState,
    pub summary: Option<String>,
    pub metrics: Vec<HomeDashboardMetric>,
    pub items: Vec<HomeDashboardWidgetItem>,
    pub action: Option<HomeDashboardAction>,
    pub chart: Option<HomeDashboardWidgetChart>,
    pub error_code: Option<String>,
}

#[derive(Debug, Clone, PartialEq, Eq)]
pub struct HomeDashboardResponse {
    pub preferences: HomeDashboardPreference,
    pub available_widgets: Vec<HomeDashboardWidgetKind>,
    pub widgets: Vec<HomeDashboardWidget>,
}

#[derive(Debug, Clone, PartialEq, Eq)]
pub struct HomeDashboardPreferencesUpdateRequest {
    pub widgets: Vec<HomeDashboardWidgetPreference>,
    pub expected_revision: Option<u64>,
    pub idempotency_key: String,
    pub actor_id: Option<String>,
}

#[derive(Debug, Clone, PartialEq, Eq)]
pub struct HubSpotDealDatePropertyOption {
    pub name: String,
    pub label: String,
    pub field_type: String,
}

#[derive(Debug, Clone, PartialEq, Eq)]
pub struct HubSpotDealStageMapping {
    pub stage_id: String,
    pub label: Option<String>,
    pub status: HubSpotDealMappedStatus,
}

#[derive(Debug, Clone, Copy, PartialEq, Eq, Structural)]
pub enum HubSpotDealMappedStatus {
    Open,
    Won,
    Lost,
}

#[derive(Debug, Clone, PartialEq, Eq)]
pub struct HubSpotDealPipelineMapping {
    pub pipeline_id: String,
    pub stage_mappings: Vec<HubSpotDealStageMapping>,
    pub started_date_property: String,
    pub closed_date_property: String,
}

#[derive(Debug, Clone, PartialEq, Eq)]
pub struct HubSpotDealPipelineMappingResponse {
    pub mapping: Option<HubSpotDealPipelineMapping>,
    pub revision: Option<u64>,
}

#[derive(Debug, Clone, PartialEq, Eq)]
pub struct HubSpotDealPipelineMappingSaveRequest {
    pub mapping: HubSpotDealPipelineMapping,
    pub expected_revision: Option<u64>,
    pub idempotency_key: String,
    pub actor_id: Option<String>,
}

} // verus!
