//! Launching an agent from a work item. A launch is a chain of steps: each step
//! says what to read or do next, and what comes back decides the step behind it.

use vstd::prelude::*;

use crate::contracts::email_triage::{CategoryRecord, EmailAttachmentEvidenceRequest};
use crate::contracts::work_queue::{
    LaunchAgentRequest, LaunchAgentResponse, WorkItem, WorkItemSourceResponse,
};
use crate::lists::unique_ids;
use crate::outbox::{
    AttemptOutcome, AttemptView, ClaimedJob, JobView, NewOutboxJob, STATUS_DELIVERED,
};
use crate::store_core::{MutationOutcome, StoreError};
use crate::text::{same_text, trimmed};
use super::agent_launch::{
    build_outbox_job, build_prompt, chosen_work_dir, combined_context, effective_work_dir, job_id,
    job_id_text, launch_identity, launch_job, payload_json, prompt, sha256_of, work_dir_of,
    LaunchResponseView,
};
use super::model::ItemView;
use super::service::{
    category_defaults, context_with_files, context_with_staged_evidence, dedupe_ids,
    resolve_agent_launch_defaults, AgentLaunchDefaults,
};
use super::store::AGENT_LAUNCH_ENTITY_KIND;
use super::SOURCE_KIND_EMAIL;

verus! {

/// How long a launch holds the job that it delivers.
pub const CLAIM_LEASE_MS: u64 = 120_000;

/// Why an attachment was not staged.
#[derive(Debug, Clone, PartialEq, Eq)]
pub enum AttachmentEvidenceError {
    AttachmentNotFound,
    CredentialMissing,
    AttachmentTooLarge,
    /// Any other refusal, with the HTTP status and the code that it is answered
    /// with.
    Refused { status: u16, code: String },
}

/// Why an agent was not launched.
#[derive(Debug)]
pub enum LaunchAgentError {
    Disabled,
    MonitorUnconfigured,
    ItemNotFound,
    PayloadBuild,
    AlreadyRequested,
    AttachmentStageFailed(AttachmentEvidenceError),
    ResultInvalid,
    JobNotClaimable,
    DeliveryFailed,
    JoinFailed,
    Store(StoreError),
}

/// What a launch is asked for, and how it is configured.
#[derive(Debug)]
pub struct LaunchContext<'a> {
    pub client_id: &'a str,
    pub item_id: &'a str,
    pub request: &'a LaunchAgentRequest,
    pub launch_enabled: bool,
    pub monitor_url: Option<&'a str>,
    /// The server of the MCP configuration, where one is configured.
    pub mcp_server_url: Option<&'a str>,
}

/// The item of a launch, once it is found.
#[derive(Debug)]
pub struct FoundItem {
    pub monitor_url: String,
    pub job_id: String,
    pub item: WorkItem,
}

/// What a [`FoundItem`] says.
pub struct FoundView {
    pub monitor_url: Seq<char>,
    pub job_id: Seq<char>,
    pub item: ItemView,
}

impl DeepView for FoundItem {
    type V = FoundView;

    open spec fn deep_view(&self) -> FoundView {
        FoundView {
            monitor_url: self.monitor_url@,
            job_id: self.job_id@,
            item: self.item.deep_view(),
        }
    }
}

/// A launch whose attachments are being staged.
#[derive(Debug)]
pub struct PreparedLaunch {
    pub found: FoundItem,
    pub source: Option<WorkItemSourceResponse>,
    pub defaults: AgentLaunchDefaults,
    /// The attachments still to stage.
    pub left: Vec<String>,
    /// The paths of the staged ones.
    pub staged: Vec<String>,
}

/// What a [`PreparedLaunch`] says.
pub struct PreparedView {
    pub found: FoundView,
    pub source: Option<WorkItemSourceResponse>,
    pub context: Seq<char>,
    pub work_dir: Seq<char>,
    pub left: Seq<Seq<char>>,
    pub staged: Seq<Seq<char>>,
}

impl DeepView for PreparedLaunch {
    type V = PreparedView;

    open spec fn deep_view(&self) -> PreparedView {
        PreparedView {
            found: self.found.deep_view(),
            source: self.source,
            context: self.defaults.context@,
            work_dir: self.defaults.work_dir@,
            left: self.left.deep_view(),
            staged: self.staged.deep_view(),
        }
    }
}

/// What an [`EmailAttachmentEvidenceRequest`] says.
pub struct EvidenceRequestView {
    pub session_id: Seq<char>,
    pub item_id: Option<Seq<char>>,
    pub target_dir: Option<Seq<char>>,
    pub idempotency_key: Seq<char>,
}

impl DeepView for EmailAttachmentEvidenceRequest {
    type V = EvidenceRequestView;

    open spec fn deep_view(&self) -> EvidenceRequestView {
        EvidenceRequestView {
            session_id: self.session_id@,
            item_id: self.item_id.deep_view(),
            target_dir: self.target_dir.deep_view(),
            idempotency_key: self.idempotency_key@,
        }
    }
}

/// What a launch does next.
#[derive(Debug)]
pub enum LaunchStep {
    /// Read the item in the operator's scope.
    ReadItem { monitor_url: String },
    /// Read the result of the launch's job.
    ReadResult { found: FoundItem },
    /// Look whether the launch's job exists.
    ReadJob { found: FoundItem },
    /// Read the item's source and its category.
    ReadSource { found: FoundItem },
    /// Stage one attachment of the item's email.
    StageAttachment {
        attachment_id: String,
        source_ref: String,
        evidence: EmailAttachmentEvidenceRequest,
        prepared: PreparedLaunch,
    },
    /// Record the request and enqueue its job.
    Record { job: NewOutboxJob, operator_context: String, staged: Vec<String> },
    /// Read the result of the job of a request that was recorded before.
    ReadReplay { job_id: String },
    /// Read the evidence paths of a session that was launched before.
    ReadPaths { session_id: String, response: LaunchAgentResponse },
    /// Claim the job.
    Claim { job_id: String, staged: Vec<String> },
    /// Deliver the job and record the attempt.
    Deliver { job: ClaimedJob, staged: Vec<String> },
    /// Answer.
    Finish { answer: Result<LaunchAgentResponse, LaunchAgentError> },
}

/// What a [`LaunchStep`] says.
pub enum LaunchStepView {
    ReadItem { monitor_url: Seq<char> },
    ReadResult { found: FoundView },
    ReadJob { found: FoundView },
    ReadSource { found: FoundView },
    StageAttachment {
        attachment_id: Seq<char>,
        source_ref: Seq<char>,
        evidence: EvidenceRequestView,
        prepared: PreparedView,
    },
    Record { job: JobView, operator_context: Seq<char>, staged: Seq<Seq<char>> },
    ReadReplay { job_id: Seq<char> },
    ReadPaths { session_id: Seq<char>, response: LaunchResponseView },
    Claim { job_id: Seq<char>, staged: Seq<Seq<char>> },
    Deliver { job: ClaimedJob, staged: Seq<Seq<char>> },
    Finish { answer: Result<LaunchResponseView, LaunchAgentError> },
}

impl DeepView for LaunchStep {
    type V = LaunchStepView;

    open spec fn deep_view(&self) -> LaunchStepView {
        match self {
            LaunchStep::ReadItem { monitor_url } => LaunchStepView::ReadItem {
                monitor_url: monitor_url@,
            },
            LaunchStep::ReadResult { found } => LaunchStepView::ReadResult {
                found: found.deep_view(),
            },
            LaunchStep::ReadJob { found } => LaunchStepView::ReadJob { found: found.deep_view() },
            LaunchStep::ReadSource { found } => LaunchStepView::ReadSource {
                found: found.deep_view(),
            },
            LaunchStep::StageAttachment { attachment_id, source_ref, evidence, prepared } =>
                LaunchStepView::StageAttachment {
                attachment_id: attachment_id@,
                source_ref: source_ref@,
                evidence: evidence.deep_view(),
                prepared: prepared.deep_view(),
            },
            LaunchStep::Record { job, operator_context, staged } => LaunchStepView::Record {
                job: job.deep_view(),
                operator_context: operator_context@,
                staged: staged.deep_view(),
            },
            LaunchStep::ReadReplay { job_id } => LaunchStepView::ReadReplay { job_id: job_id@ },
            LaunchStep::ReadPaths { session_id, response } => LaunchStepView::ReadPaths {
                session_id: session_id@,
                response: response.deep_view(),
            },
            LaunchStep::Claim { job_id, staged } => LaunchStepView::Claim {
                job_id: job_id@,
                staged: staged.deep_view(),
            },
            LaunchStep::Deliver { job, staged } => LaunchStepView::Deliver {
                job: *job,
                staged: staged.deep_view(),
            },
            LaunchStep::Finish { answer } => LaunchStepView::Finish {
                answer: match answer {
                    Ok(response) => Ok(response.deep_view()),
                    Err(err) => Err(*err),
                },
            },
        }
    }
}

/// The launch ends with this error.
pub open spec fn ends(err: LaunchAgentError) -> LaunchStepView {
    LaunchStepView::Finish { answer: Err(err) }
}

fn end(err: LaunchAgentError) -> (r: LaunchStep)
    ensures
        r.deep_view() == ends(err),
{
    LaunchStep::Finish { answer: Err(err) }
}

/// `s` without the slashes it ends with.
pub open spec fn without_slashes(s: Seq<char>) -> Seq<char>
    decreases s.len(),
{
    if s.len() > 0 && s.last() == '/' {
        without_slashes(s.drop_last())
    } else {
        s
    }
}

fn strip_slashes(s: &str) -> (r: &str)
    ensures
        r@ == without_slashes(s@),
{
    let all: usize = s.unicode_len();
    let mut n: usize = all;
    proof {
        assert(s@.take(all as int) =~= s@);
    }
    while n > 0
        invariant
            n <= all,
            all == s@.len(),
            without_slashes(s@) == without_slashes(s@.take(n as int)),
        ensures
            n <= all,
            without_slashes(s@) == s@.take(n as int),
        decreases n,
    {
        if s.get_char(n - 1) != '/' {
            break;
        }
        proof {
            assert(s@.take(n as int).drop_last() =~= s@.take(n - 1));
        }
        n -= 1;
    }
    if n == all {
        proof {
            assert(s@.take(n as int) =~= s@);
        }
        return s;
    }
    s.substring_char(0, n)
}

/// Where a launch starts: nowhere while launching is off or no monitor is
/// configured, else at its item.
pub open spec fn first_step(ctx: LaunchContext<'_>) -> LaunchStepView {
    if !ctx.launch_enabled {
        ends(LaunchAgentError::Disabled)
    } else {
        match ctx.monitor_url {
            Some(raw) => {
                let url = without_slashes(trimmed(raw@));
                if url.len() == 0 {
                    ends(LaunchAgentError::MonitorUnconfigured)
                } else {
                    LaunchStepView::ReadItem { monitor_url: url }
                }
            },
            None => ends(LaunchAgentError::MonitorUnconfigured),
        }
    }
}

/// Where a launch starts.
pub fn launch_agent_from_item(ctx: &LaunchContext<'_>) -> (r: LaunchStep)
    ensures
        r.deep_view() == first_step(*ctx),
{
    if !ctx.launch_enabled {
        return end(LaunchAgentError::Disabled);
    }
    match ctx.monitor_url {
        Some(raw) => {
            let url: &str = strip_slashes(raw.trim());
            if url.is_empty() {
                end(LaunchAgentError::MonitorUnconfigured)
            } else {
                LaunchStep::ReadItem { monitor_url: url.to_owned() }
            }
        },
        None => end(LaunchAgentError::MonitorUnconfigured),
    }
}

/// The id of the launch's job.
pub open spec fn launch_job_id(ctx: LaunchContext<'_>) -> Seq<char> {
    job_id_text(
        ctx.item_id@,
        sha256_of(launch_identity(ctx.item_id@, ctx.request.idempotency_key@)),
    )
}

/// What follows the item: the end where it is not in scope, else its launch's
/// result.
pub open spec fn after_item(
    ctx: LaunchContext<'_>,
    monitor_url: Seq<char>,
    item: Result<Option<WorkItem>, StoreError>,
) -> LaunchStepView {
    match item {
        Err(err) => ends(LaunchAgentError::Store(err)),
        Ok(None) => ends(LaunchAgentError::ItemNotFound),
        Ok(Some(found)) => LaunchStepView::ReadResult {
            found: FoundView {
                monitor_url,
                job_id: launch_job_id(ctx),
                item: found.deep_view(),
            },
        },
    }
}

/// What follows the item.
pub fn item_read(
    ctx: &LaunchContext<'_>,
    monitor_url: String,
    item: Result<Option<WorkItem>, StoreError>,
) -> (r: LaunchStep)
    ensures
        r.deep_view() == after_item(*ctx, monitor_url@, item),
{
    match item {
        Err(err) => end(LaunchAgentError::Store(err)),
        Ok(None) => end(LaunchAgentError::ItemNotFound),
        Ok(Some(found)) => LaunchStep::ReadResult {
            found: FoundItem {
                monitor_url,
                job_id: job_id(ctx.item_id, ctx.request.idempotency_key.as_str()),
                item: found,
            },
        },
    }
}

/// What follows the result of a job that was launched before: the paths of its
/// evidence, or the end where the result cannot be read.
pub open spec fn after_known_result(session_id: Seq<char>, response: Option<LaunchAgentResponse>) -> LaunchStepView {
    match response {
        Some(response) => LaunchStepView::ReadPaths {
            session_id,
            response: response.deep_view(),
        },
        None => ends(LaunchAgentError::ResultInvalid),
    }
}

fn known_result(session_id: String, response: Option<LaunchAgentResponse>) -> (r: LaunchStep)
    ensures
        r.deep_view() == after_known_result(session_id@, response),
{
    match response {
        Some(response) => LaunchStep::ReadPaths { session_id, response },
        None => end(LaunchAgentError::ResultInvalid),
    }
}

/// What follows the result of the launch's job. `result` is the job's result,
/// where it has one; `Some(None)` where it is no launch response.
pub open spec fn after_result(
    found: FoundView,
    result: Result<Option<Option<LaunchAgentResponse>>, StoreError>,
) -> LaunchStepView {
    match result {
        Err(err) => ends(LaunchAgentError::Store(err)),
        Ok(Some(response)) => after_known_result(found.job_id, response),
        Ok(None) => LaunchStepView::ReadJob { found },
    }
}

/// What follows the result of the launch's job.
pub fn result_read(
    found: FoundItem,
    result: Result<Option<Option<LaunchAgentResponse>>, StoreError>,
) -> (r: LaunchStep)
    ensures
        r.deep_view() == after_result(found.deep_view(), result),
{
    match result {
        Err(err) => end(LaunchAgentError::Store(err)),
        Ok(Some(response)) => known_result(found.job_id, response),
        Ok(None) => LaunchStep::ReadJob { found },
    }
}

/// What follows the look for the launch's job: the end where it exists.
pub open spec fn after_job(found: FoundView, exists: Result<bool, StoreError>) -> LaunchStepView {
    match exists {
        Err(err) => ends(LaunchAgentError::Store(err)),
        Ok(true) => ends(LaunchAgentError::AlreadyRequested),
        Ok(false) => LaunchStepView::ReadSource { found },
    }
}

/// What follows the look for the launch's job.
pub fn job_read(found: FoundItem, exists: Result<bool, StoreError>) -> (r: LaunchStep)
    ensures
        r.deep_view() == after_job(found.deep_view(), exists),
{
    match exists {
        Err(err) => end(LaunchAgentError::Store(err)),
        Ok(true) => end(LaunchAgentError::AlreadyRequested),
        Ok(false) => LaunchStep::ReadSource { found },
    }
}

/// The attachments that a launch stages: those of its request, for an email.
pub open spec fn wanted_attachments(ctx: LaunchContext<'_>, item: ItemView) -> Seq<Seq<char>> {
    if item.source_kind == SOURCE_KIND_EMAIL@ {
        unique_ids(ctx.request.attachment_ids.deep_view())
    } else {
        Seq::empty()
    }
}

/// The job of a launch whose attachments are staged.
pub open spec fn prepared_job(ctx: LaunchContext<'_>, prepared: PreparedView) -> JobView {
    let item = prepared.found.item;
    launch_job(
        item.item_id,
        ctx.request.idempotency_key@,
        payload_json(
            prepared.found.monitor_url,
            "BusinessOS work item "@ + item.item_id,
            prompt(
                ctx.client_id@,
                item,
                prepared.source,
                context_with_files(prepared.context, prepared.staged),
                prepared.work_dir,
                ctx.mcp_server_url.deep_view(),
            ),
            work_dir_of(prepared.work_dir),
        ),
        AGENT_LAUNCH_ENTITY_KIND@,
        item.item_id,
        Some(item.item_id),
    )
}

/// What a launch does with its attachments: it stages the next one, and records
/// the request when none is left.
pub open spec fn after_preparation(ctx: LaunchContext<'_>, prepared: PreparedView) -> LaunchStepView {
    if prepared.left.len() == 0 {
        LaunchStepView::Record {
            job: prepared_job(ctx, prepared),
            operator_context: context_with_files(prepared.context, prepared.staged),
            staged: prepared.staged,
        }
    } else {
        LaunchStepView::StageAttachment {
            attachment_id: prepared.left[0],
            source_ref: prepared.found.item.source_ref,
            evidence: EvidenceRequestView {
                session_id: prepared.found.job_id,
                item_id: Some(prepared.found.item.item_id),
                target_dir: Some(work_dir_of(prepared.work_dir)),
                idempotency_key: ctx.request.idempotency_key@ + ":attachment:"@ + prepared.left[0],
            },
            prepared: PreparedView { left: prepared.left.drop_first(), ..prepared },
        }
    }
}

fn prepared_next(ctx: &LaunchContext<'_>, prepared: PreparedLaunch) -> (r: LaunchStep)
    ensures
        r.deep_view() == after_preparation(*ctx, prepared.deep_view()),
{
    let ghost before = prepared.deep_view();
    let mut prepared: PreparedLaunch = prepared;
    if prepared.left.len() > 0 {
        let ghost ids = prepared.left.deep_view();
        let attachment_id: String = prepared.left.remove(0);
        proof {
            assert(attachment_id@ == ids[0]);
            assert(prepared.left.deep_view() =~= ids.drop_first());
        }
        let evidence: EmailAttachmentEvidenceRequest = EmailAttachmentEvidenceRequest {
            session_id: prepared.found.job_id.clone(),
            item_id: Some(prepared.found.item.item_id.clone()),
            target_dir: Some(effective_work_dir(prepared.defaults.work_dir.as_str()).to_owned()),
            idempotency_key: ctx.request.idempotency_key.clone().concat(":attachment:").concat(
                attachment_id.as_str(),
            ),
        };
        return LaunchStep::StageAttachment {
            attachment_id,
            source_ref: prepared.found.item.source_ref.clone(),
            evidence,
            prepared,
        };
    }
    let operator_context: String = context_with_staged_evidence(
        prepared.defaults.context.as_str(),
        &prepared.staged,
    );
    let item_id: &str = prepared.found.item.item_id.as_str();
    let display_name: String = "BusinessOS work item ".to_owned().concat(item_id);
    let source: Option<&WorkItemSourceResponse> = match &prepared.source {
        Some(source) => Some(source),
        None => None,
    };
    let initial_prompt: String = build_prompt(
        ctx.client_id,
        &prepared.found.item,
        source,
        operator_context.as_str(),
        prepared.defaults.work_dir.as_str(),
        ctx.mcp_server_url,
    );
    match build_outbox_job(
        item_id,
        ctx.request.idempotency_key.as_str(),
        prepared.found.monitor_url.as_str(),
        display_name.as_str(),
        initial_prompt.as_str(),
        prepared.defaults.work_dir.as_str(),
    ) {
        Ok(job) => LaunchStep::Record { job, operator_context, staged: prepared.staged },
        Err(_) => end(LaunchAgentError::PayloadBuild),
    }
}

/// What follows the source and the category: the attachments, and behind them the
/// request. A source that does not resolve does not stop a launch.
pub open spec fn after_source(
    ctx: LaunchContext<'_>,
    found: FoundView,
    source: Option<WorkItemSourceResponse>,
    category: Result<Option<CategoryRecord>, StoreError>,
) -> LaunchStepView {
    match category {
        Err(err) => ends(LaunchAgentError::Store(err)),
        Ok(category) => after_preparation(
            ctx,
            PreparedView {
                found,
                source,
                context: combined_context(category_defaults(category).0, ctx.request.context@),
                work_dir: work_dir_of(
                    chosen_work_dir(
                        ctx.request.work_dir.deep_view(),
                        category_defaults(category).1,
                    ),
                ),
                left: wanted_attachments(ctx, found.item),
                staged: Seq::empty(),
            },
        ),
    }
}

/// What follows the source and the category.
pub fn source_read(
    ctx: &LaunchContext<'_>,
    found: FoundItem,
    source: Option<WorkItemSourceResponse>,
    category: Result<Option<CategoryRecord>, StoreError>,
) -> (r: LaunchStep)
    ensures
        r.deep_view() == after_source(*ctx, found.deep_view(), source, category),
{
    let category: Option<CategoryRecord> = match category {
        Err(err) => return end(LaunchAgentError::Store(err)),
        Ok(category) => category,
    };
    let category: Option<&CategoryRecord> = match &category {
        Some(record) => Some(record),
        None => None,
    };
    let defaults: AgentLaunchDefaults = resolve_agent_launch_defaults(category, ctx.request);
    let staged: Vec<String> = Vec::new();
    let left: Vec<String> = if same_text(found.item.source_kind.as_str(), SOURCE_KIND_EMAIL) {
        dedupe_ids(&ctx.request.attachment_ids)
    } else {
        Vec::new()
    };
    proof {
        assert(staged.deep_view() =~= Seq::<Seq<char>>::empty());
        if found.item.source_kind@ != SOURCE_KIND_EMAIL@ {
            assert(left.deep_view() =~= Seq::<Seq<char>>::empty());
        }
    }
    prepared_next(ctx, PreparedLaunch { found, source, defaults, left, staged })
}

/// What follows a staged attachment. The first one that cannot be staged ends the
/// launch.
pub open spec fn after_staging(
    ctx: LaunchContext<'_>,
    prepared: PreparedView,
    path: Result<Seq<char>, AttachmentEvidenceError>,
) -> LaunchStepView {
    match path {
        Err(err) => ends(LaunchAgentError::AttachmentStageFailed(err)),
        Ok(path) => after_preparation(
            ctx,
            PreparedView { staged: prepared.staged.push(path), ..prepared },
        ),
    }
}

/// What follows a staged attachment.
pub fn attachment_staged(
    ctx: &LaunchContext<'_>,
    prepared: PreparedLaunch,
    path: Result<String, AttachmentEvidenceError>,
) -> (r: LaunchStep)
    ensures
        r.deep_view() == after_staging(
            *ctx,
            prepared.deep_view(),
            (match path {
                Ok(path) => Ok(path@),
                Err(err) => Err(err),
            }),
        ),
{
    match path {
        Err(err) => end(LaunchAgentError::AttachmentStageFailed(err)),
        Ok(path) => {
            let mut prepared: PreparedLaunch = prepared;
            let ghost before = prepared.staged.deep_view();
            let ghost said = path@;
            prepared.staged.push(path);
            proof {
                assert(prepared.staged.deep_view() =~= before.push(said));
            }
            prepared_next(ctx, prepared)
        },
    }
}

/// What follows the recording of a request: only one that was applied now is
/// delivered.
pub open spec fn after_recording(
    job_id: Seq<char>,
    staged: Seq<Seq<char>>,
    outcome: Result<MutationOutcome, StoreError>,
) -> LaunchStepView {
    match outcome {
        Ok(MutationOutcome::Applied { .. }) => LaunchStepView::Claim { job_id, staged },
        Ok(MutationOutcome::ReplayedIdempotent { .. }) => LaunchStepView::ReadReplay { job_id },
        Ok(MutationOutcome::RevisionConflict { .. }) => ends(LaunchAgentError::AlreadyRequested),
        Err(err) => ends(LaunchAgentError::Store(err)),
    }
}

/// What follows the recording of a request.
pub fn request_recorded(
    job_id: String,
    staged: Vec<String>,
    outcome: Result<MutationOutcome, StoreError>,
) -> (r: LaunchStep)
    ensures
        r.deep_view() == after_recording(job_id@, staged.deep_view(), outcome),
{
    match outcome {
        Ok(MutationOutcome::Applied { .. }) => LaunchStep::Claim { job_id, staged },
        Ok(MutationOutcome::ReplayedIdempotent { .. }) => LaunchStep::ReadReplay { job_id },
        Ok(MutationOutcome::RevisionConflict { .. }) => end(LaunchAgentError::AlreadyRequested),
        Err(err) => end(LaunchAgentError::Store(err)),
    }
}

/// What follows the result of the job of a request that was recorded before.
pub open spec fn after_replay(
    job_id: Seq<char>,
    result: Result<Option<Option<LaunchAgentResponse>>, StoreError>,
) -> LaunchStepView {
    match result {
        Err(err) => ends(LaunchAgentError::Store(err)),
        Ok(None) => ends(LaunchAgentError::AlreadyRequested),
        Ok(Some(response)) => after_known_result(job_id, response),
    }
}

/// What follows the result of the job of a request that was recorded before.
pub fn replay_read(
    job_id: String,
    result: Result<Option<Option<LaunchAgentResponse>>, StoreError>,
) -> (r: LaunchStep)
    ensures
        r.deep_view() == after_replay(job_id@, result),
{
    match result {
        Err(err) => end(LaunchAgentError::Store(err)),
        Ok(None) => end(LaunchAgentError::AlreadyRequested),
        Ok(Some(response)) => known_result(job_id, response),
    }
}

/// The answer for a session that was launched before: its response, with the
/// evidence that is kept for it.
pub fn launch_response_with_staged_paths(
    response: LaunchAgentResponse,
    paths: Result<Vec<String>, StoreError>,
) -> (r: Result<LaunchAgentResponse, LaunchAgentError>)
    ensures
        match paths {
            Err(err) => r == Err::<LaunchAgentResponse, _>(LaunchAgentError::Store(err)),
            Ok(paths) => r == Ok::<_, LaunchAgentError>(
                LaunchAgentResponse { staged_evidence_paths: paths, ..response },
            ),
        },
{
    match paths {
        Err(err) => Err(LaunchAgentError::Store(err)),
        Ok(paths) => {
            let mut response: LaunchAgentResponse = response;
            response.staged_evidence_paths = paths;
            Ok(response)
        },
    }
}

/// What follows the claim: the end where the job is not to be had.
pub open spec fn after_claim(
    staged: Seq<Seq<char>>,
    claimed: Result<Option<ClaimedJob>, StoreError>,
) -> LaunchStepView {
    match claimed {
        Err(err) => ends(LaunchAgentError::Store(err)),
        Ok(None) => ends(LaunchAgentError::JobNotClaimable),
        Ok(Some(job)) => LaunchStepView::Deliver { job, staged },
    }
}

/// What follows the claim.
pub fn job_claimed(staged: Vec<String>, claimed: Result<Option<ClaimedJob>, StoreError>) -> (r:
    LaunchStep)
    ensures
        r.deep_view() == after_claim(staged.deep_view(), claimed),
{
    match claimed {
        Err(err) => end(LaunchAgentError::Store(err)),
        Ok(None) => end(LaunchAgentError::JobNotClaimable),
        Ok(Some(job)) => LaunchStep::Deliver { job, staged },
    }
}

/// The answer of a launch whose attempt is recorded. `status` is the job's status
/// behind the attempt, and `response` what the delivered result reads as.
pub open spec fn launched(
    staged: Seq<Seq<char>>,
    outcome: AttemptView,
    status: Result<Seq<char>, StoreError>,
    response: Option<LaunchResponseView>,
) -> Result<LaunchResponseView, LaunchAgentError> {
    match status {
        Err(err) => Err(LaunchAgentError::Store(err)),
        Ok(status) => if status != STATUS_DELIVERED@ || !(outcome is Delivered) {
            Err(LaunchAgentError::DeliveryFailed)
        } else {
            match response {
                Some(response) => Ok(
                    LaunchResponseView { staged_evidence_paths: staged, ..response },
                ),
                None => Err(LaunchAgentError::ResultInvalid),
            }
        },
    }
}

/// The answer of a launch whose attempt is recorded.
pub fn launch_claimed_agent_job(
    staged: Vec<String>,
    outcome: &AttemptOutcome,
    status: Result<String, StoreError>,
    response: Option<LaunchAgentResponse>,
) -> (r: Result<LaunchAgentResponse, LaunchAgentError>)
    ensures
        (match r {
            Ok(response) => Ok(response.deep_view()),
            Err(err) => Err(err),
        }) == launched(
            staged.deep_view(),
            outcome.deep_view(),
            (match status {
                Ok(status) => Ok(status@),
                Err(err) => Err(err),
            }),
            response.deep_view(),
        ),
{
    let status: String = match status {
        Err(err) => return Err(LaunchAgentError::Store(err)),
        Ok(status) => status,
    };
    let delivered: bool = match outcome {
        AttemptOutcome::Delivered { .. } => true,
        _ => false,
    };
    if !delivered || !same_text(status.as_str(), STATUS_DELIVERED) {
        return Err(LaunchAgentError::DeliveryFailed);
    }
    match response {
        Some(response) => {
            let mut response: LaunchAgentResponse = response;
            response.staged_evidence_paths = staged;
            Ok(response)
        },
        None => Err(LaunchAgentError::ResultInvalid),
    }
}

/// A launch is claimed for delivery if and only if its request was applied: one
/// that was recorded before, that conflicts, or that failed is not delivered.
pub proof fn only_applied_requests_are_delivered(
    job_id: Seq<char>,
    staged: Seq<Seq<char>>,
    outcome: Result<MutationOutcome, StoreError>,
)
    ensures
        after_recording(job_id, staged, outcome) is Claim <==> (outcome is Ok
            && outcome->Ok_0 is Applied),
{
}

/// A launch whose job has a result, or exists, is not recorded again.
pub proof fn known_launches_are_not_recorded_again(
    found: FoundView,
    result: Result<Option<Option<LaunchAgentResponse>>, StoreError>,
    exists: Result<bool, StoreError>,
)
    ensures
        result is Ok && result->Ok_0 is Some ==> after_result(found, result) is ReadPaths
            || after_result(found, result) is Finish,
        exists == Ok::<bool, StoreError>(true) ==> after_job(found, exists) == ends(
            LaunchAgentError::AlreadyRequested,
        ),
{
}

/// The step that a launch comes to when these attachments are staged, one after
/// the other.
pub open spec fn staged_through(
    ctx: LaunchContext<'_>,
    step: LaunchStepView,
    paths: Seq<Seq<char>>,
) -> LaunchStepView
    decreases paths.len(),
{
    if paths.len() == 0 {
        step
    } else {
        match step {
            LaunchStepView::StageAttachment { prepared, .. } => staged_through(
                ctx,
                after_staging(ctx, prepared, Ok(paths[0])),
                paths.drop_first(),
            ),
            _ => step,
        }
    }
}

/// A request is recorded when every attachment it wants is staged, and not
/// before: with fewer of them staged the launch stages the next one, and with all
/// of them staged it records a request that lists their paths in order.
pub proof fn every_attachment_is_staged_before_recording(
    ctx: LaunchContext<'_>,
    found: FoundView,
    source: Option<WorkItemSourceResponse>,
    category: Option<CategoryRecord>,
    paths: Seq<Seq<char>>,
)
    requires
        paths.len() <= wanted_attachments(ctx, found.item).len(),
    ensures
        ({
            let step = staged_through(ctx, after_source(ctx, found, source, Ok(category)), paths);
            let wanted = wanted_attachments(ctx, found.item);
            if paths.len() < wanted.len() {
                step is StageAttachment && step->attachment_id == wanted[paths.len() as int]
            } else {
                step is Record && step->Record_staged == paths
            }
        }),
{
    let prepared = PreparedView {
        found,
        source,
        context: combined_context(category_defaults(category).0, ctx.request.context@),
        work_dir: work_dir_of(
            chosen_work_dir(ctx.request.work_dir.deep_view(), category_defaults(category).1),
        ),
        left: wanted_attachments(ctx, found.item),
        staged: Seq::empty(),
    };
    staging_goes_through(ctx, prepared, paths);
    assert(prepared.staged + paths =~= paths);
}

proof fn staging_goes_through(ctx: LaunchContext<'_>, prepared: PreparedView, paths: Seq<Seq<char>>)
    requires
        paths.len() <= prepared.left.len(),
    ensures
        ({
            let step = staged_through(ctx, after_preparation(ctx, prepared), paths);
            if paths.len() < prepared.left.len() {
                step is StageAttachment && step->attachment_id == prepared.left[paths.len() as int]
            } else {
                step is Record && step->Record_staged == prepared.staged + paths
            }
        }),
    decreases paths.len(),
{
    if paths.len() == 0 {
        assert(prepared.staged + paths =~= prepared.staged);
    } else {
        let next = PreparedView {
            left: prepared.left.drop_first(),
            staged: prepared.staged.push(paths[0]),
            ..prepared
        };
        staging_goes_through(ctx, next, paths.drop_first());
        assert(next.staged + paths.drop_first() =~= prepared.staged + paths);
    }
}

/// A launch from anything but an email stages nothing.
pub proof fn only_emails_have_attachments(ctx: LaunchContext<'_>, item: ItemView)
    requires
        item.source_kind != SOURCE_KIND_EMAIL@,
    ensures
        wanted_attachments(ctx, item).len() == 0,
{
}

} // verus!
