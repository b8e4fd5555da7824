//! What the queue's HTTP handlers decide: what a query asks for, and how a
//! refusal is answered.

use vstd::prelude::*;

use crate::contracts::email_identity::AttentionLevel;
use crate::contracts::email_triage::InboundMessageRecord;
use crate::contracts::work_queue::{
    WorkItemActionKind, WorkItemSourceResponse, WorkItemStatus, WorkItemWithRevision,
};
use crate::http::OperatorScope;
use crate::store_core::StoreError;
use crate::text::{is_blank, same_text};
use super::feed::{
    asks_attention, asks_level, attention_feed, fed, feed, narrowed, source_attention_feed,
    FeedOptions, FeedSignals,
};
use super::launch::{AttachmentEvidenceError, LaunchAgentError};
use super::model::EntryView;
use super::service::ItemSourceError;
use super::store::{optional_str, ItemAction};
use super::SOURCE_KIND_EMAIL;

verus! {

pub const BAD_REQUEST: u16 = 400;

pub const NOT_FOUND: u16 = 404;

pub const CONFLICT: u16 = 409;

pub const PAYLOAD_TOO_LARGE: u16 = 413;

pub const UNPROCESSABLE_ENTITY: u16 = 422;

pub const INTERNAL_SERVER_ERROR: u16 = 500;

pub const BAD_GATEWAY: u16 = 502;

/// How many entries the queue shows.
pub const QUEUE_LIMIT: usize = 200;

/// An error as a handler answers it: a refusal with its HTTP status and code, or
/// an error of the store.
#[derive(Debug)]
pub enum ErrorAnswer {
    Refused { status: u16, code: String },
    Store(StoreError),
}

/// What an [`ErrorAnswer`] says.
pub enum ErrorAnswerView {
    Refused { status: u16, code: Seq<char> },
    Store(StoreError),
}

impl DeepView for ErrorAnswer {
    type V = ErrorAnswerView;

    open spec fn deep_view(&self) -> ErrorAnswerView {
        match self {
            ErrorAnswer::Refused { status, code } => ErrorAnswerView::Refused {
                status: *status,
                code: code@,
            },
            ErrorAnswer::Store(err) => ErrorAnswerView::Store(*err),
        }
    }
}

fn error_response(status: u16, code: &str) -> (r: ErrorAnswer)
    ensures
        r.deep_view() == (ErrorAnswerView::Refused { status, code: code@ }),
{
    ErrorAnswer::Refused { status, code: code.to_owned() }
}

/// The query of the queue.
#[derive(Debug, Clone, PartialEq, Eq)]
pub struct QueueQuery {
    pub status: Option<String>,
    pub needs_attention: Option<bool>,
    pub attention_level: Option<String>,
}

/// Which entries of the feed are asked for.
#[derive(Debug, Clone, Copy, PartialEq, Eq, Structural)]
pub enum QueueView {
    /// Every entry.
    All,
    /// Those that wait for the operator.
    NeedsAttention,
    /// Those whose source asks for one level of attention.
    SourceAttention(AttentionLevel),
}

/// What a query asks for.
#[derive(Debug, Clone, Copy, PartialEq, Eq, Structural)]
pub struct QueueRequest {
    pub status: Option<WorkItemStatus>,
    pub view: QueueView,
}

/// The status that a query names; `Err` where it names none there is.
pub open spec fn asked_status(status: Option<Seq<char>>) -> Result<Option<WorkItemStatus>, ()> {
    match status {
        None => Ok(None),
        Some(name) => if name == "open"@ {
            Ok(Some(WorkItemStatus::Open))
        } else if name == "accepted"@ {
            Ok(Some(WorkItemStatus::Accepted))
        } else if name == "dismissed"@ {
            Ok(Some(WorkItemStatus::Dismissed))
        } else {
            Err(())
        },
    }
}

fn status_named(status: Option<&str>) -> (r: Result<Option<WorkItemStatus>, ()>)
    ensures
        r == asked_status(status.deep_view()),
{
    match status {
        None => Ok(None),
        Some(name) => if same_text(name, "open") {
            Ok(Some(WorkItemStatus::Open))
        } else if same_text(name, "accepted") {
            Ok(Some(WorkItemStatus::Accepted))
        } else if same_text(name, "dismissed") {
            Ok(Some(WorkItemStatus::Dismissed))
        } else {
            Err(())
        },
    }
}

/// The attention level that a query names; `Err` where it names none there is.
pub open spec fn asked_level(level: Option<Seq<char>>) -> Result<Option<AttentionLevel>, ()> {
    match level {
        None => Ok(None),
        Some(name) => if name == "lower"@ {
            Ok(Some(AttentionLevel::Lower))
        } else if name == "normal"@ {
            Ok(Some(AttentionLevel::Normal))
        } else if name == "higher"@ {
            Ok(Some(AttentionLevel::Higher))
        } else {
            Err(())
        },
    }
}

fn level_named(level: Option<&str>) -> (r: Result<Option<AttentionLevel>, ()>)
    ensures
        r == asked_level(level.deep_view()),
{
    match level {
        None => Ok(None),
        Some(name) => if same_text(name, "lower") {
            Ok(Some(AttentionLevel::Lower))
        } else if same_text(name, "normal") {
            Ok(Some(AttentionLevel::Normal))
        } else if same_text(name, "higher") {
            Ok(Some(AttentionLevel::Higher))
        } else {
            Err(())
        },
    }
}

/// What a query asks for. A status is looked at before an attention level, and an
/// attention level goes before `needs_attention`.
pub open spec fn asked(query: QueueQuery) -> Result<QueueRequest, ErrorAnswerView> {
    match (asked_status(query.status.deep_view()), asked_level(query.attention_level.deep_view())) {
        (Err(_), _) => Err(
            ErrorAnswerView::Refused { status: BAD_REQUEST, code: "work_queue_status_invalid"@ },
        ),
        (Ok(_), Err(_)) => Err(
            ErrorAnswerView::Refused { status: BAD_REQUEST, code: "attention_level_invalid"@ },
        ),
        (Ok(status), Ok(level)) => Ok(
            QueueRequest {
                status,
                view: match level {
                    Some(level) => QueueView::SourceAttention(level),
                    None => if query.needs_attention == Some(true) {
                        QueueView::NeedsAttention
                    } else {
                        QueueView::All
                    },
                },
            },
        ),
    }
}

/// What a query asks for.
pub fn queue_request(query: &QueueQuery) -> (r: Result<QueueRequest, ErrorAnswer>)
    ensures
        (match r {
            Ok(request) => Ok(request),
            Err(err) => Err(err.deep_view()),
        }) == asked(*query),
{
    let status: Option<WorkItemStatus> = match status_named(optional_str(&query.status)) {
        Ok(status) => status,
        Err(_) => return Err(error_response(BAD_REQUEST, "work_queue_status_invalid")),
    };
    let level: Option<AttentionLevel> = match level_named(optional_str(&query.attention_level)) {
        Ok(level) => level,
        Err(_) => return Err(error_response(BAD_REQUEST, "attention_level_invalid")),
    };
    let view: QueueView = match level {
        Some(level) => QueueView::SourceAttention(level),
        None => match query.needs_attention {
            Some(true) => QueueView::NeedsAttention,
            _ => QueueView::All,
        },
    };
    Ok(QueueRequest { status, view })
}

/// How many items a view lists: a view that narrows the feed lists every one, so
/// that its limit counts what passes.
pub fn listing_limit(view: QueueView) -> (r: usize)
    ensures
        r == (if view == QueueView::All {
            QUEUE_LIMIT
        } else {
            i64::MAX as usize
        }),
{
    match view {
        QueueView::All => QUEUE_LIMIT,
        _ => i64::MAX as usize,
    }
}

/// The queue as a view shows it, over the items that the view lists.
pub open spec fn shown_queue(entries: Seq<EntryView>, view: QueueView) -> Seq<EntryView> {
    match view {
        QueueView::All => entries,
        QueueView::NeedsAttention => narrowed(
            entries,
            QUEUE_LIMIT as nat,
            |entry: EntryView| asks_attention(entry),
        ),
        QueueView::SourceAttention(level) => narrowed(
            entries,
            QUEUE_LIMIT as nat,
            |entry: EntryView| asks_level(entry, level),
        ),
    }
}

/// The queue as a view shows it.
pub fn queue_list(
    view: QueueView,
    items: &Vec<WorkItemWithRevision>,
    scope: &OperatorScope,
    signals: &FeedSignals,
    options: &FeedOptions<'_>,
) -> (r: Vec<WorkItemWithRevision>)
    ensures
        r.deep_view() == shown_queue(
            fed(items.deep_view(), scope.deep_view(), *signals, *options),
            view,
        ),
{
    match view {
        QueueView::SourceAttention(level) => source_attention_feed(
            items,
            level,
            QUEUE_LIMIT,
            scope,
            signals,
            options,
        ),
        QueueView::NeedsAttention => attention_feed(items, QUEUE_LIMIT, scope, signals, options),
        QueueView::All => feed(items, scope, signals, options),
    }
}

/// A mutation wants an idempotency key: a blank one is refused.
pub fn require_idempotency_key(idempotency_key: &str) -> (r: Result<(), ErrorAnswer>)
    ensures
        match r {
            Ok(_) => !is_blank(idempotency_key@),
            Err(err) => is_blank(idempotency_key@) && err.deep_view()
                == (ErrorAnswerView::Refused {
                status: BAD_REQUEST,
                code: "idempotency_key_required"@,
            }),
        },
{
    if idempotency_key.trim().is_empty() {
        Err(error_response(BAD_REQUEST, "idempotency_key_required"))
    } else {
        Ok(())
    }
}

/// How an attachment that was not staged is answered.
pub open spec fn attachment_answer(err: AttachmentEvidenceError) -> ErrorAnswerView {
    match err {
        AttachmentEvidenceError::AttachmentNotFound => ErrorAnswerView::Refused {
            status: NOT_FOUND,
            code: "email_attachment_not_found"@,
        },
        AttachmentEvidenceError::CredentialMissing => ErrorAnswerView::Refused {
            status: UNPROCESSABLE_ENTITY,
            code: "gmail_credential_missing"@,
        },
        AttachmentEvidenceError::AttachmentTooLarge => ErrorAnswerView::Refused {
            status: PAYLOAD_TOO_LARGE,
            code: "email_attachment_too_large"@,
        },
        AttachmentEvidenceError::Refused { status, code } => ErrorAnswerView::Refused {
            status,
            code: code@,
        },
    }
}

pub fn attachment_evidence_error_response(err: AttachmentEvidenceError) -> (r: ErrorAnswer)
    ensures
        r.deep_view() == attachment_answer(err),
{
    match err {
        AttachmentEvidenceError::AttachmentNotFound => error_response(
            NOT_FOUND,
            "email_attachment_not_found",
        ),
        AttachmentEvidenceError::CredentialMissing => error_response(
            UNPROCESSABLE_ENTITY,
            "gmail_credential_missing",
        ),
        AttachmentEvidenceError::AttachmentTooLarge => error_response(
            PAYLOAD_TOO_LARGE,
            "email_attachment_too_large",
        ),
        AttachmentEvidenceError::Refused { status, code } => ErrorAnswer::Refused { status, code },
    }
}

/// How a launch that failed is answered. One that is switched off answers as a
/// route that is not there.
pub open spec fn launch_answer(err: LaunchAgentError) -> ErrorAnswerView {
    match err {
        LaunchAgentError::Disabled => ErrorAnswerView::Refused {
            status: NOT_FOUND,
            code: "route_not_found"@,
        },
        LaunchAgentError::MonitorUnconfigured => ErrorAnswerView::Refused {
            status: UNPROCESSABLE_ENTITY,
            code: "agent_monitor_unconfigured"@,
        },
        LaunchAgentError::ItemNotFound => ErrorAnswerView::Refused {
            status: NOT_FOUND,
            code: "work_item_not_found"@,
        },
        LaunchAgentError::PayloadBuild => ErrorAnswerView::Refused {
            status: INTERNAL_SERVER_ERROR,
            code: "work_queue_agent_payload_build_failed"@,
        },
        LaunchAgentError::AlreadyRequested => ErrorAnswerView::Refused {
            status: CONFLICT,
            code: "agent_launch_already_requested"@,
        },
        LaunchAgentError::AttachmentStageFailed(err) => attachment_answer(err),
        LaunchAgentError::ResultInvalid => ErrorAnswerView::Refused {
            status: BAD_GATEWAY,
            code: "work_queue_agent_result_invalid"@,
        },
        LaunchAgentError::JobNotClaimable => ErrorAnswerView::Refused {
            status: BAD_GATEWAY,
            code: "work_queue_agent_job_not_claimable"@,
        },
        LaunchAgentError::DeliveryFailed => ErrorAnswerView::Refused {
            status: BAD_GATEWAY,
            code: "work_queue_agent_monitor_delivery_failed"@,
        },
        LaunchAgentError::JoinFailed => ErrorAnswerView::Refused {
            status: INTERNAL_SERVER_ERROR,
            code: "work_queue_agent_spawn_join_failed"@,
        },
        LaunchAgentError::Store(err) => ErrorAnswerView::Store(err),
    }
}

pub fn launch_agent_error_response(err: LaunchAgentError) -> (r: ErrorAnswer)
    ensures
        r.deep_view() == launch_answer(err),
{
    match err {
        LaunchAgentError::Disabled => error_response(NOT_FOUND, "route_not_found"),
        LaunchAgentError::MonitorUnconfigured => error_response(
            UNPROCESSABLE_ENTITY,
            "agent_monitor_unconfigured",
        ),
        LaunchAgentError::ItemNotFound => error_response(NOT_FOUND, "work_item_not_found"),
        LaunchAgentError::PayloadBuild => error_response(
            INTERNAL_SERVER_ERROR,
            "work_queue_agent_payload_build_failed",
        ),
        LaunchAgentError::AlreadyRequested => error_response(
            CONFLICT,
            "agent_launch_already_requested",
        ),
        LaunchAgentError::AttachmentStageFailed(err) => attachment_evidence_error_response(err),
        LaunchAgentError::ResultInvalid => error_response(
            BAD_GATEWAY,
            "work_queue_agent_result_invalid",
        ),
        LaunchAgentError::JobNotClaimable => error_response(
            BAD_GATEWAY,
            "work_queue_agent_job_not_claimable",
        ),
        LaunchAgentError::DeliveryFailed => error_response(
            BAD_GATEWAY,
            "work_queue_agent_monitor_delivery_failed",
        ),
        LaunchAgentError::JoinFailed => error_response(
            INTERNAL_SERVER_ERROR,
            "work_queue_agent_spawn_join_failed",
        ),
        LaunchAgentError::Store(err) => ErrorAnswer::Store(err),
    }
}

/// How a source that cannot be shown is answered. `unsupported` is the code for
/// a source that the route does not serve.
pub open spec fn source_answer(err: ItemSourceError, unsupported: Seq<char>) -> ErrorAnswerView {
    match err {
        ItemSourceError::ItemNotFound => ErrorAnswerView::Refused {
            status: NOT_FOUND,
            code: "work_item_not_found"@,
        },
        ItemSourceError::SourceMissing => ErrorAnswerView::Refused {
            status: NOT_FOUND,
            code: "work_item_source_missing"@,
        },
        ItemSourceError::SourceUnsupported => ErrorAnswerView::Refused {
            status: UNPROCESSABLE_ENTITY,
            code: unsupported,
        },
        ItemSourceError::Store(err) => ErrorAnswerView::Store(err),
    }
}

fn source_error_response(err: ItemSourceError, unsupported: &str) -> (r: ErrorAnswer)
    ensures
        r.deep_view() == source_answer(err, unsupported@),
{
    match err {
        ItemSourceError::ItemNotFound => error_response(NOT_FOUND, "work_item_not_found"),
        ItemSourceError::SourceMissing => error_response(NOT_FOUND, "work_item_source_missing"),
        ItemSourceError::SourceUnsupported => error_response(UNPROCESSABLE_ENTITY, unsupported),
        ItemSourceError::Store(err) => ErrorAnswer::Store(err),
    }
}

/// How the source route answers a source that cannot be shown.
pub fn item_source_error_response(err: ItemSourceError) -> (r: ErrorAnswer)
    ensures
        r.deep_view() == source_answer(err, "produce_source_unsupported"@),
{
    source_error_response(err, "produce_source_unsupported")
}

/// The item action that a request names; none for a source email's move to the
/// trash, which is no action on the item.
pub fn item_action(kind: WorkItemActionKind) -> (r: Option<ItemAction>)
    ensures
        r == (match kind {
            WorkItemActionKind::Accept => Some(ItemAction::Accept),
            WorkItemActionKind::Dismiss => Some(ItemAction::Dismiss),
            WorkItemActionKind::Reopen => Some(ItemAction::Reopen),
            WorkItemActionKind::Trash => None,
        }),
{
    match kind {
        WorkItemActionKind::Accept => Some(ItemAction::Accept),
        WorkItemActionKind::Dismiss => Some(ItemAction::Dismiss),
        WorkItemActionKind::Reopen => Some(ItemAction::Reopen),
        WorkItemActionKind::Trash => None,
    }
}

/// The message that moves to the trash: that of an email's source, and of no
/// other.
pub fn trash_message(source: Result<WorkItemSourceResponse, ItemSourceError>) -> (r: Result<
    InboundMessageRecord,
    ErrorAnswer,
>)
    ensures
        match source {
            Ok(source) => if source.source_kind@ == SOURCE_KIND_EMAIL@ {
                r == Ok::<_, ErrorAnswer>(source.message)
            } else {
                r is Err && r->Err_0.deep_view() == (ErrorAnswerView::Refused {
                    status: UNPROCESSABLE_ENTITY,
                    code: "email_trash_source_unsupported"@,
                })
            },
            Err(err) => r is Err && r->Err_0.deep_view() == source_answer(
                err,
                "email_trash_source_unsupported"@,
            ),
        },
{
    match source {
        Ok(source) => if same_text(source.source_kind.as_str(), SOURCE_KIND_EMAIL) {
            Ok(source.message)
        } else {
            Err(error_response(UNPROCESSABLE_ENTITY, "email_trash_source_unsupported"))
        },
        Err(err) => Err(source_error_response(err, "email_trash_source_unsupported")),
    }
}

} // verus!
