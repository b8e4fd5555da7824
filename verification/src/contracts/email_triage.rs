//! Email triage rule contracts. Categories are data, so client-specific category
//! names stay in client overlays, not here.

use vstd::prelude::*;

use crate::text::{chars_of, is_blank};

verus! {

/// The category every classified input lands in. Categories are DATA, not an
/// enum: operators define them per client, and downstream stages key off the
/// id — packet policy (category -> permitted outputs), AI classification (the
/// catalog + descriptions form the classifier schema), and UI grouping.
pub const FALLBACK_CATEGORY_ID: &'static str = "inbound_email";

#[derive(Debug, Clone, PartialEq, Eq)]
pub struct CategoryRecord {
    /// Stable slug; rules and messages reference this.
    pub category_id: String,
    pub display_name: String,
    /// Operator-facing meaning. Doubles as the definition handed to the AI
    /// classifier when no deterministic rule matches — write it for an LLM.
    pub description: String,
    /// UI badge color (hex like "#38bdf8").
    pub color: String,
    pub sort: i32,
    /// System categories (the fallback) cannot be deleted.
    pub is_system: bool,
    /// Default working directory for work-item agent launches in this category.
    /// Empty means the server uses its built-in operator-workspace fallback.
    pub default_agent_dir: String,
    /// Editable notes prefilled into the Queue launch-agent panel.
    pub default_agent_context: String,
}

#[derive(Debug, Clone, PartialEq, Eq)]
pub struct CategoriesListResponse {
    pub categories: Vec<CategoryRecord>,
}

#[derive(Debug, Clone, PartialEq, Eq)]
pub struct CategoryUpsertRequest {
    pub category: CategoryRecord,
    /// Optional policy written atomically with the category. Used by flows that
    /// create both records as one operator action.
    pub policy: Option<super::work_queue::WorkQueuePolicy>,
    pub idempotency_key: String,
    pub actor_id: Option<String>,
}

#[derive(Debug, Clone, PartialEq, Eq)]
pub struct CategoryDeleteRequest {
    pub idempotency_key: String,
    pub actor_id: Option<String>,
}

#[derive(Debug, Clone, PartialEq, Eq)]
pub struct EmailTriageRuleSet {
    pub schema_version: u32,
    pub rules: Vec<EmailTriageRule>,
    pub fallback_category: String,
}

#[derive(Debug, Clone, PartialEq, Eq)]
pub struct EmailTriageRule {
    pub rule_id: String,
    pub conditions: Vec<EmailTriageCondition>,
    pub conditions_v2: Vec<EmailTriageConditionV2>,
    pub match_mode: EmailTriageMatchMode,
    pub priority: i32,
    pub enabled: bool,
    pub pinned_category: String,
}

#[derive(Debug, Clone, PartialEq, Eq)]
pub struct EmailTriageCondition {
    pub field: EmailTriageField,
    pub op: EmailTriageOperator,
    pub value: String,
    pub header_name: Option<String>,
}

#[derive(Debug, Clone, PartialEq, Eq)]
pub struct EmailTriageConditionV2 {
    pub condition_id: EmailTriageConditionId,
    pub op: EmailTriageConditionOperator,
    pub value: EmailTriageConditionValue,
}

#[derive(Debug, Clone, Copy, Default, PartialEq, Eq, Hash, Structural)]
pub enum EmailTriageConditionId {
    MessageFrom,
    MessageTo,
    MessageFromEmail,
    MessageFromDomain,
    MessageFromDomainIsBusiness,
    #[default]
    MessageSubject,
    MessageBody,
    MessageLabel,
    MessageHeader,
    SourceAccountUserId,
    SourceProvider,
    CrmSenderContactExists,
    CrmSenderCompanyExists,
    CrmSenderDealExists,
    CrmSenderDealStage,
    CrmSenderDealPipeline,
    AccountingSenderCustomerExists,
    AccountingSenderHasOpenInvoice,
    AccountingSenderHasOverdueInvoice,
    WorkflowThreadHasOpenItem,
    QuickKnownCustomer,
    QuickNewSalesLead,
    QuickBillingFollowup,
    QuickExistingWorkThread,
}

#[derive(Debug, Clone, Default, PartialEq, Eq)]
pub enum EmailTriageConditionValue {
    Text(String),
    Bool(bool),
    StringList(Vec<String>),
    Number(i64),
    MoneyCents(i64),
    Date(String),
    Header {
        name: String,
        value: String,
    },
    #[default]
    Empty,
}

#[derive(Debug, Clone, Copy, Default, PartialEq, Eq, Hash, Structural)]
pub enum EmailTriageConditionOperator {
    #[default]
    Contains,
    Equals,
    StartsWith,
    Regex,
    Exists,
    IsTrue,
    IsFalse,
    In,
    GreaterThan,
    LessThan,
    AtLeast,
    AtMost,
}

#[derive(Debug, Clone, Copy, PartialEq, Eq, Hash, Structural)]
pub enum EmailTriageConditionValueKind {
    Text,
    Bool,
    StringList,
    Number,
    MoneyCents,
    Date,
    Header,
    Empty,
}

#[derive(Debug, Clone, Copy, PartialEq, Eq, Hash, Structural)]
pub enum EmailTriageConditionGroupKind {
    Quick,
    Message,
    Source,
    Crm,
    Accounting,
    Workflow,
}

#[derive(Debug, Clone, PartialEq, Eq)]
pub struct EmailTriageConditionGroup {
    pub group: EmailTriageConditionGroupKind,
    pub label: String,
    pub items: Vec<EmailTriageConditionCatalogItem>,
}

#[derive(Debug, Clone, PartialEq, Eq)]
pub struct EmailTriageConditionCatalogItem {
    pub condition_id: EmailTriageConditionId,
    pub label: String,
    pub description: String,
    pub group: EmailTriageConditionGroupKind,
    pub value_kind: EmailTriageConditionValueKind,
    pub supported_ops: Vec<EmailTriageConditionOperator>,
    pub fact_dependencies: Vec<EmailTriageConditionId>,
    pub provider_dependency: Option<EmailTriageProviderDependency>,
    pub expansion: Option<EmailTriageAliasExpansion>,
}

#[derive(Debug, Clone, PartialEq, Eq)]
pub struct EmailTriageAliasExpansion {
    pub match_mode: EmailTriageMatchMode,
    pub conditions: Vec<EmailTriageAliasCondition>,
}

#[derive(Debug, Clone, PartialEq, Eq)]
pub struct EmailTriageAliasCondition {
    pub condition_id: EmailTriageConditionId,
    pub op: EmailTriageConditionOperator,
    pub value: EmailTriageConditionValue,
    pub label: String,
}

#[derive(Debug, Clone, Copy, PartialEq, Eq, Hash, Structural)]
pub enum EmailTriageProviderDependency {
    Crm,
}

#[derive(Debug, Clone, PartialEq, Eq)]
pub struct EmailTriageConditionCatalogResponse {
    pub groups: Vec<EmailTriageConditionGroup>,
}

#[derive(Debug, Clone, Copy, Default, PartialEq, Eq, Structural)]
pub enum EmailTriageMatchMode {
    #[default]
    All,
    Any,
}

#[derive(Debug, Clone, Copy, Default, PartialEq, Eq, Structural)]
pub enum EmailTriageField {
    Label,
    From,
    To,
    #[default]
    Subject,
    Body,
    Header,
    SenderInCrmContacts,
    SenderDomainInCrmCompanies,
}

#[derive(Debug, Clone, Copy, Default, PartialEq, Eq, Structural)]
pub enum EmailTriageOperator {
    #[default]
    Contains,
    Equals,
    StartsWith,
    Regex,
    Exists,
}

#[derive(Debug, Clone, Copy, PartialEq, Eq, Structural)]
pub enum EmailTriageRuleValidationError {
    SchemaVersion,
    BlankRuleId,
    EmptyConditions,
    ConditionValueRequired,
    HeaderNameRequired,
    HeaderNameNotAllowed,
    InvalidCategoryId,
}

/// The fields of a message the rules can see (dry-run samples + live ingest).
#[derive(Debug, Clone, Default, PartialEq, Eq)]
pub struct MessageView {
    /// Optional stored inbound message id. Dry-run samples omit this unless
    /// they came from the inbox read model.
    pub message_id: Option<String>,
    /// Optional connected mailbox user id for source-account conditions.
    pub source_user_id: Option<String>,
    pub subject: Option<String>,
    pub from: Option<String>,
    pub to: Option<String>,
    pub body: Option<String>,
    pub labels: Vec<String>,
    pub headers: Vec<(String, String)>,
}

#[derive(Debug, Clone, PartialEq, Eq)]
pub struct DryRunResult {
    pub resolved_category: String,
    pub matched_rule_id: Option<String>,
}

#[derive(Debug, Clone, PartialEq, Eq)]
pub struct RuleWithRevision {
    pub rule: EmailTriageRule,
    pub revision: u64,
}

#[derive(Debug, Clone, PartialEq, Eq)]
pub struct EmailTriageRulesListResponse {
    pub rules: Vec<RuleWithRevision>,
}

#[derive(Debug, Clone, PartialEq, Eq)]
pub struct EmailTriageRuleUpsertRequest {
    pub rule: EmailTriageRule,
    pub expected_revision: Option<u64>,
    pub idempotency_key: String,
    pub actor_id: Option<String>,
}

#[derive(Debug, Clone, Copy, PartialEq, Eq, Structural)]
pub enum EmailTriageRuleActionKind {
    Enable,
    Disable,
    Delete,
}

#[derive(Debug, Clone, PartialEq, Eq)]
pub struct EmailTriageRuleActionRequest {
    pub action: EmailTriageRuleActionKind,
    pub expected_revision: Option<u64>,
    pub idempotency_key: String,
    pub actor_id: Option<String>,
}

#[derive(Debug, Clone, Default, PartialEq, Eq)]
pub struct EmailTriageDryRunRequest {
    /// Proposed rules overlay stored rules with the same id, then evaluate in
    /// live priority order.
    pub proposed_rules: Vec<EmailTriageRule>,
    pub fallback_category: Option<String>,
    pub samples: Vec<MessageView>,
}

#[derive(Debug, Clone, PartialEq, Eq)]
pub struct EmailTriageDryRunResponse {
    pub results: Vec<DryRunResult>,
    pub traces: Vec<EmailTriageDryRunTrace>,
}

#[derive(Debug, Clone, PartialEq, Eq)]
pub struct EmailTriageDryRunTrace {
    pub sample_index: u32,
    pub resolved_category: String,
    pub matched_rule_id: Option<String>,
    pub needs_fact_refresh: bool,
    pub rule_traces: Vec<EmailTriageRuleTrace>,
    pub fact_traces: Vec<EmailTriageFactTrace>,
}

#[derive(Debug, Clone, PartialEq, Eq)]
pub struct EmailTriageRuleTrace {
    pub rule_id: String,
    pub result: EmailTriageTriValue,
    pub matched: bool,
    pub condition_traces: Vec<EmailTriageConditionTrace>,
}

#[derive(Debug, Clone, PartialEq, Eq)]
pub struct EmailTriageConditionTrace {
    pub condition_id: EmailTriageConditionId,
    pub label: String,
    pub result: EmailTriageTriValue,
    pub detail: String,
}

#[derive(Debug, Clone, PartialEq, Eq)]
pub struct EmailTriageFactTrace {
    pub condition_id: EmailTriageConditionId,
    pub label: String,
    pub value: EmailTriageTriValue,
    pub source: EmailTriageFactSource,
    pub detail: String,
}

#[derive(Debug, Clone, Copy, PartialEq, Eq, Hash, Structural)]
pub enum EmailTriageTriValue {
    True,
    False,
    Unknown,
}

#[derive(Debug, Clone, Copy, PartialEq, Eq, Hash, Structural)]
pub enum EmailTriageFactSource {
    Message,
    Source,
    AccountingSnapshot,
    Workflow,
    CrmCache,
    CrmLive,
    NotChecked,
}

/// Gmail inbox tab categories. Gmail exposes these as system label ids; the UI
/// treats them as first-class tabs.
#[derive(Debug, Clone, Copy, PartialEq, Eq, Hash, Structural)]
pub enum EmailTriageGmailCategory {
    Primary,
    Updates,
    Social,
    Promotions,
    Forums,
}

#[derive(Debug, Clone, PartialEq, Eq)]
pub struct EmailTriageGmailCategoryOption {
    pub category: EmailTriageGmailCategory,
    pub display_name: String,
    pub count: u32,
}

#[derive(Debug, Clone, PartialEq, Eq)]
pub struct EmailTriageDashboardCategoryOption {
    pub category_id: String,
    pub count: u32,
}

#[derive(Debug, Clone, PartialEq, Eq)]
pub struct EmailTriageLabelOption {
    pub label: String,
    pub count: u32,
}

#[derive(Debug, Clone, PartialEq, Eq)]
pub struct EmailTriageMailboxOption {
    pub source_user_id: Option<String>,
    pub display_name: String,
    pub count: u32,
}

#[derive(Debug, Clone, PartialEq, Eq)]
pub struct EmailTriageCrmDealFacetOption {
    pub value: String,
    pub count: u32,
}

#[derive(Debug, Clone, PartialEq, Eq)]
pub struct EmailTriageInboxDefaults {
    pub categories: Vec<EmailTriageGmailCategory>,
    pub label: Option<String>,
    pub source_user_id: Option<String>,
    pub limit: u32,
}

#[derive(Debug, Clone, PartialEq, Eq)]
pub struct EmailTriageInboxOptionsResponse {
    pub categories: Vec<EmailTriageGmailCategoryOption>,
    pub visible_gmail_categories: Vec<EmailTriageGmailCategory>,
    pub dashboard_categories: Vec<EmailTriageDashboardCategoryOption>,
    pub labels: Vec<EmailTriageLabelOption>,
    pub mailboxes: Vec<EmailTriageMailboxOption>,
    pub crm_deal_stages: Vec<EmailTriageCrmDealFacetOption>,
    pub crm_deal_pipelines: Vec<EmailTriageCrmDealFacetOption>,
    pub defaults: EmailTriageInboxDefaults,
}

#[derive(Debug, Clone, PartialEq, Eq)]
pub struct EmailTriageInboxSettingsResponse {
    pub revision: Option<u64>,
    pub visible_gmail_categories: Vec<EmailTriageGmailCategory>,
}

#[derive(Debug, Clone, PartialEq, Eq)]
pub struct EmailTriageInboxSettingsUpdateRequest {
    pub expected_revision: Option<u64>,
    pub idempotency_key: String,
    pub actor_id: Option<String>,
    pub visible_gmail_categories: Vec<EmailTriageGmailCategory>,
}

/// Safe metadata for an inbound Gmail attachment. This intentionally carries
/// provider ids and display metadata only; bytes are fetched lazily through an
/// audited BusinessOS route when an operator or launched agent needs them.
#[derive(Debug, Clone, PartialEq, Eq)]
pub struct EmailAttachmentRecord {
    pub attachment_id: String,
    pub part_id: Option<String>,
    pub filename: String,
    pub mime_type: Option<String>,
    pub size_bytes: Option<u64>,
    pub inline: bool,
    pub content_id: Option<String>,
}

/// A classified inbound message as served by the inbox read model.
#[derive(Debug, Clone, PartialEq, Eq)]
pub struct InboundMessageRecord {
    /// BusinessOS-stable source identity. Legacy rows equal `message_id`; newer
    /// per-user Gmail rows include the mailbox provenance so identical Gmail ids
    /// from different connected users do not collide.
    pub source_key: String,
    /// Raw Gmail message id. Kept raw for provider fetch/reply calls.
    pub message_id: String,
    pub thread_id: Option<String>,
    pub internal_date_ms: Option<i64>,
    pub from_addr: Option<String>,
    pub to_addr: Option<String>,
    pub subject: Option<String>,
    pub body_excerpt: String,
    /// Raw persisted body for server-side AI/produce grounding. API responses
    /// keep using body_excerpt so list/source UI stays bounded.
    pub body_full: String,
    /// Safe, bounded headers retained for server-side automated-sender rules.
    /// Not serialized to the browser; raw/full header payloads stay provider-side.
    pub headers: Vec<(String, String)>,
    pub labels: Vec<String>,
    pub resolved_category: String,
    pub matched_rule_id: Option<String>,
    pub ingested_at_ms: u64,
    /// Tier-2 AI triage state: null = not yet examined, "suggested",
    /// "no_suggestion", or "error".
    pub ai_triage_status: Option<String>,
    pub ai_triage_rationale: Option<String>,
    /// Attachments are metadata only. Attachment bytes stay in Gmail until an
    /// explicit, audited evidence-staging request fetches one.
    pub attachments: Vec<EmailAttachmentRecord>,
    /// Operator user whose connected Gmail account this message came from.
    /// Null = ingested before multi-user accounts or via the env credential.
    pub source_user_id: Option<String>,
}

#[derive(Debug, Clone, PartialEq, Eq)]
pub struct EmailTriageInboxResponse {
    pub messages: Vec<InboundMessageRecord>,
}

#[derive(Debug, Clone, PartialEq, Eq)]
pub struct EmailManualFollowUpRequest {
    pub idempotency_key: String,
    pub actor_id: Option<String>,
}

/// Explicit operator request to move one source message to Gmail Trash.
/// This is separate from queue dismissal, which only changes BusinessOS state.
#[derive(Debug, Clone, PartialEq, Eq)]
pub struct EmailTrashRequest {
    pub expected_revision: Option<u64>,
    pub idempotency_key: String,
    pub actor_id: Option<String>,
}

#[derive(Debug, Clone, PartialEq, Eq)]
pub struct EmailAttachmentEvidenceRequest {
    pub session_id: String,
    pub item_id: Option<String>,
    pub target_dir: Option<String>,
    pub idempotency_key: String,
}

#[derive(Debug, Clone, PartialEq, Eq)]
pub struct EmailAttachmentEvidenceResponse {
    pub evidence_id: String,
    pub session_id: String,
    pub message_id: String,
    pub attachment_id: String,
    pub filename: String,
    pub mime_type: Option<String>,
    pub size_bytes: u64,
    pub path: String,
    pub retention_until_ms: u64,
}

/// Result of re-running the current rules over all stored inbound messages.
#[derive(Debug, Clone, PartialEq, Eq)]
pub struct ReclassifyResponse {
    pub examined: u64,
    pub reclassified: u64,
    pub work_items_emitted: u64,
}

/// Which AI-triage verdicts a reset clears for re-examination.
#[derive(Debug, Clone, Copy, PartialEq, Eq, Structural)]
pub enum AiRetriageResetScope {
    /// One specific message (any verdict).
    Message,
    /// `no_suggestion` verdicts older than the newest category change, plus
    /// all errors — "the catalog changed; re-examine what AI saw nothing in".
    Stale,
    /// Every `no_suggestion` and `error` verdict.
    All,
}

#[derive(Debug, Clone, PartialEq, Eq)]
pub struct AiRetriageResetRequest {
    pub scope: AiRetriageResetScope,
    /// Required when scope is `message`. This is the BusinessOS source key,
    /// not the raw provider message id.
    pub source_key: Option<String>,
    /// Legacy alias for `source_key`.
    pub message_id: Option<String>,
    pub idempotency_key: String,
    pub actor_id: Option<String>,
}

#[derive(Debug, Clone, PartialEq, Eq)]
pub struct AiRetriageResetResponse {
    /// Messages whose verdict was cleared (the next pump cycle re-examines
    /// them, up to its per-cycle budget).
    pub reset: u64,
}

/// A character that a category id may hold.
pub open spec fn is_category_char(c: char) -> bool {
    'a' <= c <= 'z' || '0' <= c <= '9' || c == '_'
}

/// A category id: one to sixty-four lower-case letters, digits and underscores.
pub open spec fn is_category_id(raw: Seq<char>) -> bool {
    &&& 0 < raw.len() <= 64
    &&& forall|i: int| 0 <= i < raw.len() ==> is_category_char(#[trigger] raw[i])
}

pub fn validate_category_id(raw: &str) -> (r: bool)
    ensures
        r == is_category_id(raw@),
{
    let chars: Vec<char> = chars_of(raw);
    if chars.len() == 0 || chars.len() > 64 {
        return false;
    }
    let mut i: usize = 0;
    while i < chars.len()
        invariant
            i <= chars.len(),
            chars@ == raw@,
            forall|j: int| 0 <= j < i ==> is_category_char(#[trigger] raw@[j]),
        decreases chars.len() - i,
    {
        let c: char = chars[i];
        if !(('a' <= c && c <= 'z') || ('0' <= c && c <= '9') || c == '_') {
            assert(!is_category_char(raw@[i as int]));
            return false;
        }
        i += 1;
    }
    true
}

impl Default for EmailTriageRuleSet {
    fn default() -> (r: Self)
        ensures
            r.schema_version == 1,
            r.rules@.len() == 0,
            r.fallback_category@ == FALLBACK_CATEGORY_ID@,
    {
        EmailTriageRuleSet {
            schema_version: 1,
            rules: Vec::new(),
            fallback_category: FALLBACK_CATEGORY_ID.to_owned(),
        }
    }
}

impl Default for EmailTriageRule {
    fn default() -> (r: Self)
        ensures
            r.rule_id@.len() == 0,
            r.conditions@.len() == 0,
            r.conditions_v2@.len() == 0,
            r.match_mode == EmailTriageMatchMode::All,
            r.priority == 0,
            r.enabled,
            r.pinned_category@ == FALLBACK_CATEGORY_ID@,
    {
        EmailTriageRule {
            rule_id: String::new(),
            conditions: Vec::new(),
            conditions_v2: Vec::new(),
            match_mode: EmailTriageMatchMode::All,
            priority: 0,
            enabled: default_true(),
            pinned_category: FALLBACK_CATEGORY_ID.to_owned(),
        }
    }
}

impl Default for EmailTriageCondition {
    fn default() -> (r: Self)
        ensures
            r.field == EmailTriageField::Subject,
            r.op == EmailTriageOperator::Contains,
            r.value@.len() == 0,
            r.header_name is None,
    {
        EmailTriageCondition {
            field: EmailTriageField::Subject,
            op: EmailTriageOperator::Contains,
            value: String::new(),
            header_name: None,
        }
    }
}

impl Default for EmailTriageConditionV2 {
    fn default() -> (r: Self)
        ensures
            r.condition_id == EmailTriageConditionId::MessageSubject,
            r.op == EmailTriageConditionOperator::Contains,
            r.value is Text,
            r.value->Text_0@.len() == 0,
    {
        EmailTriageConditionV2 {
            condition_id: EmailTriageConditionId::MessageSubject,
            op: EmailTriageConditionOperator::Contains,
            value: EmailTriageConditionValue::Text(String::new()),
        }
    }
}

/// A rule is enabled unless it says otherwise.
pub fn default_true() -> (r: bool)
    ensures
        r,
{
    true
}

/// A header name is given.
pub open spec fn names_header(header_name: Option<Seq<char>>) -> bool {
    header_name is Some && !is_blank(header_name->Some_0)
}

/// What is wrong with a condition.
pub open spec fn condition_fault(condition: EmailTriageCondition) -> Option<
    EmailTriageRuleValidationError,
> {
    if condition.op != EmailTriageOperator::Exists && is_blank(condition.value@) {
        Some(EmailTriageRuleValidationError::ConditionValueRequired)
    } else if condition.field == EmailTriageField::Header && !names_header(
        condition.header_name.deep_view(),
    ) {
        Some(EmailTriageRuleValidationError::HeaderNameRequired)
    } else if condition.field != EmailTriageField::Header && names_header(
        condition.header_name.deep_view(),
    ) {
        Some(EmailTriageRuleValidationError::HeaderNameNotAllowed)
    } else {
        None
    }
}

/// The fault that a validation reports.
pub open spec fn fault_of(r: Result<(), EmailTriageRuleValidationError>) -> Option<
    EmailTriageRuleValidationError,
> {
    match r {
        Ok(_) => None,
        Err(fault) => Some(fault),
    }
}

impl EmailTriageCondition {
    pub fn validate(&self) -> (r: Result<(), EmailTriageRuleValidationError>)
        ensures
            fault_of(r) == condition_fault(*self),
    {
        if self.op != EmailTriageOperator::Exists && self.value.as_str().trim().is_empty() {
            return Err(EmailTriageRuleValidationError::ConditionValueRequired);
        }
        let named: bool = match &self.header_name {
            Some(name) => !name.as_str().trim().is_empty(),
            None => false,
        };
        match self.field {
            EmailTriageField::Header => {
                if !named {
                    return Err(EmailTriageRuleValidationError::HeaderNameRequired);
                }
            },
            _ => {
                if named {
                    return Err(EmailTriageRuleValidationError::HeaderNameNotAllowed);
                }
            },
        }
        Ok(())
    }
}

/// The operator compares with a value.
pub open spec fn compares_with_value(op: EmailTriageConditionOperator) -> bool {
    !(op == EmailTriageConditionOperator::Exists || op == EmailTriageConditionOperator::IsTrue
        || op == EmailTriageConditionOperator::IsFalse)
}

impl EmailTriageConditionOperator {
    pub fn requires_value(self) -> (r: bool)
        ensures
            r == compares_with_value(self),
    {
        match self {
            EmailTriageConditionOperator::Exists => false,
            EmailTriageConditionOperator::IsTrue => false,
            EmailTriageConditionOperator::IsFalse => false,
            _ => true,
        }
    }
}

/// A condition value that holds nothing to compare with.
pub open spec fn holds_nothing(value: EmailTriageConditionValue) -> bool {
    match value {
        EmailTriageConditionValue::Text(text) => is_blank(text@),
        EmailTriageConditionValue::Date(text) => is_blank(text@),
        EmailTriageConditionValue::StringList(values) => forall|i: int|
            0 <= i < values@.len() ==> is_blank(#[trigger] values@[i]@),
        EmailTriageConditionValue::Header { name, value } => is_blank(name@) || is_blank(value@),
        EmailTriageConditionValue::Bool(_) => false,
        EmailTriageConditionValue::Number(_) => false,
        EmailTriageConditionValue::MoneyCents(_) => false,
        EmailTriageConditionValue::Empty => true,
    }
}

fn all_blank(values: &Vec<String>) -> (r: bool)
    ensures
        r == (forall|i: int| 0 <= i < values@.len() ==> is_blank(#[trigger] values@[i]@)),
{
    let mut i: usize = 0;
    while i < values.len()
        invariant
            i <= values.len(),
            forall|j: int| 0 <= j < i ==> is_blank(#[trigger] values@[j]@),
        decreases values.len() - i,
    {
        if !values[i].as_str().trim().is_empty() {
            assert(!is_blank(values@[i as int]@));
            return false;
        }
        i += 1;
    }
    true
}

impl EmailTriageConditionValue {
    pub fn is_empty(&self) -> (r: bool)
        ensures
            r == holds_nothing(*self),
    {
        match self {
            EmailTriageConditionValue::Text(value) => value.as_str().trim().is_empty(),
            EmailTriageConditionValue::Date(value) => value.as_str().trim().is_empty(),
            EmailTriageConditionValue::StringList(values) => all_blank(values),
            EmailTriageConditionValue::Header { name, value } => name.as_str().trim().is_empty()
                || value.as_str().trim().is_empty(),
            EmailTriageConditionValue::Bool(_) => false,
            EmailTriageConditionValue::Number(_) => false,
            EmailTriageConditionValue::MoneyCents(_) => false,
            EmailTriageConditionValue::Empty => true,
        }
    }
}

/// What is wrong with a catalog condition.
pub open spec fn condition_v2_fault(condition: EmailTriageConditionV2) -> Option<
    EmailTriageRuleValidationError,
> {
    if compares_with_value(condition.op) && holds_nothing(condition.value) {
        Some(EmailTriageRuleValidationError::ConditionValueRequired)
    } else if condition.condition_id == EmailTriageConditionId::MessageHeader
        && !(condition.value is Header) {
        Some(EmailTriageRuleValidationError::HeaderNameRequired)
    } else {
        None
    }
}

impl EmailTriageConditionV2 {
    pub fn validate(&self) -> (r: Result<(), EmailTriageRuleValidationError>)
        ensures
            fault_of(r) == condition_v2_fault(*self),
    {
        if self.op.requires_value() && self.value.is_empty() {
            return Err(EmailTriageRuleValidationError::ConditionValueRequired);
        }
        let header_value: bool = match &self.value {
            EmailTriageConditionValue::Header { .. } => true,
            _ => false,
        };
        if self.condition_id == EmailTriageConditionId::MessageHeader && !header_value {
            return Err(EmailTriageRuleValidationError::HeaderNameRequired);
        }
        Ok(())
    }
}

/// The first fault of a rule's conditions.
pub open spec fn first_condition_fault(conditions: Seq<EmailTriageCondition>) -> Option<
    EmailTriageRuleValidationError,
>
    decreases conditions.len(),
{
    if conditions.len() == 0 {
        None
    } else if condition_fault(conditions[0]) is Some {
        condition_fault(conditions[0])
    } else {
        first_condition_fault(conditions.drop_first())
    }
}

/// The first fault of a rule's catalog conditions.
pub open spec fn first_condition_v2_fault(conditions: Seq<EmailTriageConditionV2>) -> Option<
    EmailTriageRuleValidationError,
>
    decreases conditions.len(),
{
    if conditions.len() == 0 {
        None
    } else if condition_v2_fault(conditions[0]) is Some {
        condition_v2_fault(conditions[0])
    } else {
        first_condition_v2_fault(conditions.drop_first())
    }
}

/// What is wrong with a rule.
pub open spec fn rule_fault(rule: EmailTriageRule) -> Option<EmailTriageRuleValidationError> {
    if is_blank(rule.rule_id@) {
        Some(EmailTriageRuleValidationError::BlankRuleId)
    } else if rule.conditions@.len() == 0 && rule.conditions_v2@.len() == 0 {
        Some(EmailTriageRuleValidationError::EmptyConditions)
    } else if first_condition_fault(rule.conditions@) is Some {
        first_condition_fault(rule.conditions@)
    } else if first_condition_v2_fault(rule.conditions_v2@) is Some {
        first_condition_v2_fault(rule.conditions_v2@)
    } else if !is_category_id(rule.pinned_category@) {
        Some(EmailTriageRuleValidationError::InvalidCategoryId)
    } else {
        None
    }
}

impl EmailTriageRule {
    pub fn validate(&self) -> (r: Result<(), EmailTriageRuleValidationError>)
        ensures
            fault_of(r) == rule_fault(*self),
    {
        if self.rule_id.as_str().trim().is_empty() {
            return Err(EmailTriageRuleValidationError::BlankRuleId);
        }
        if self.conditions.len() == 0 && self.conditions_v2.len() == 0 {
            return Err(EmailTriageRuleValidationError::EmptyConditions);
        }
        let mut i: usize = 0;
        assert(self.conditions@.skip(0) =~= self.conditions@);
        while i < self.conditions.len()
            invariant
                i <= self.conditions.len(),
                !is_blank(self.rule_id@),
                self.conditions@.len() > 0 || self.conditions_v2@.len() > 0,
                first_condition_fault(self.conditions@) == first_condition_fault(
                    self.conditions@.skip(i as int),
                ),
            decreases self.conditions.len() - i,
        {
            assert(self.conditions@.skip(i as int)[0] == self.conditions@[i as int]);
            assert(self.conditions@.skip(i as int).drop_first() =~= self.conditions@.skip(i + 1));
            if let Err(fault) = self.conditions[i].validate() {
                return Err(fault);
            }
            i += 1;
        }
        let mut j: usize = 0;
        assert(self.conditions_v2@.skip(0) =~= self.conditions_v2@);
        while j < self.conditions_v2.len()
            invariant
                j <= self.conditions_v2.len(),
                !is_blank(self.rule_id@),
                self.conditions@.len() > 0 || self.conditions_v2@.len() > 0,
                first_condition_fault(self.conditions@) is None,
                first_condition_v2_fault(self.conditions_v2@) == first_condition_v2_fault(
                    self.conditions_v2@.skip(j as int),
                ),
            decreases self.conditions_v2.len() - j,
        {
            assert(self.conditions_v2@.skip(j as int)[0] == self.conditions_v2@[j as int]);
            assert(self.conditions_v2@.skip(j as int).drop_first() =~= self.conditions_v2@.skip(
                j + 1,
            ));
            if let Err(fault) = self.conditions_v2[j].validate() {
                return Err(fault);
            }
            j += 1;
        }
        if !validate_category_id(self.pinned_category.as_str()) {
            return Err(EmailTriageRuleValidationError::InvalidCategoryId);
        }
        Ok(())
    }
}

/// The first fault of the rules.
pub open spec fn first_rule_fault(rules: Seq<EmailTriageRule>) -> Option<
    EmailTriageRuleValidationError,
>
    decreases rules.len(),
{
    if rules.len() == 0 {
        None
    } else if rule_fault(rules[0]) is Some {
        rule_fault(rules[0])
    } else {
        first_rule_fault(rules.drop_first())
    }
}

impl EmailTriageRuleSet {
    pub fn validate(&self) -> (r: Result<(), EmailTriageRuleValidationError>)
        ensures
            fault_of(r) == (if self.schema_version != 1 {
                Some(EmailTriageRuleValidationError::SchemaVersion)
            } else {
                first_rule_fault(self.rules@)
            }),
    {
        if self.schema_version != 1 {
            return Err(EmailTriageRuleValidationError::SchemaVersion);
        }
        let mut i: usize = 0;
        assert(self.rules@.skip(0) =~= self.rules@);
        while i < self.rules.len()
            invariant
                i <= self.rules.len(),
                self.schema_version == 1,
                first_rule_fault(self.rules@) == first_rule_fault(self.rules@.skip(i as int)),
            decreases self.rules.len() - i,
        {
            assert(self.rules@.skip(i as int)[0] == self.rules@[i as int]);
            assert(self.rules@.skip(i as int).drop_first() =~= self.rules@.skip(i + 1));
            if let Err(fault) = self.rules[i].validate() {
                return Err(fault);
            }
            i += 1;
        }
        Ok(())
    }
}

impl EmailTriageRuleValidationError {
    pub fn code(self) -> (r: &'static str)
        ensures
            r@ == (match self {
                EmailTriageRuleValidationError::SchemaVersion =>
                    "email_triage_rule_set_schema_version_invalid"@,
                EmailTriageRuleValidationError::BlankRuleId => "email_triage_rule_id_required"@,
                EmailTriageRuleValidationError::EmptyConditions =>
                    "email_triage_rule_conditions_required"@,
                EmailTriageRuleValidationError::ConditionValueRequired =>
                    "email_triage_condition_value_required"@,
                EmailTriageRuleValidationError::HeaderNameRequired =>
                    "email_triage_header_name_required"@,
                EmailTriageRuleValidationError::HeaderNameNotAllowed =>
                    "email_triage_header_name_not_allowed"@,
                EmailTriageRuleValidationError::InvalidCategoryId =>
                    "email_triage_category_id_invalid"@,
            }),
    {
        match self {
            EmailTriageRuleValidationError::SchemaVersion =>
                "email_triage_rule_set_schema_version_invalid",
            EmailTriageRuleValidationError::BlankRuleId => "email_triage_rule_id_required",
            EmailTriageRuleValidationError::EmptyConditions =>
                "email_triage_rule_conditions_required",
            EmailTriageRuleValidationError::ConditionValueRequired =>
                "email_triage_condition_value_required",
            EmailTriageRuleValidationError::HeaderNameRequired =>
                "email_triage_header_name_required",
            EmailTriageRuleValidationError::HeaderNameNotAllowed =>
                "email_triage_header_name_not_allowed",
            EmailTriageRuleValidationError::InvalidCategoryId => "email_triage_category_id_invalid",
        }
    }
}

} // verus!
