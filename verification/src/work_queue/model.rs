//! What the records of the queue say: their mathematical views, and copies of
//! them.

use vstd::prelude::*;

use crate::contracts::email_identity::AttentionLevel;
use crate::contracts::email_triage::EmailTriageGmailCategory;
use crate::contracts::work_queue::{
    WorkItem, WorkItemAcceptActor, WorkItemAttentionSummary, WorkItemFailureNotification,
    WorkItemStatus, WorkItemWithRevision, WorkQueueAiGmailScope, WorkQueuePolicy,
};

verus! {

/// What a [`WorkItem`] says.
pub struct ItemView {
    pub item_id: Seq<char>,
    pub source_kind: Seq<char>,
    pub source_ref: Seq<char>,
    pub category_id: Seq<char>,
    pub title: Seq<char>,
    pub summary: Seq<char>,
    pub packet_kinds: Seq<Seq<char>>,
    pub status: WorkItemStatus,
    pub accept_actor: Option<WorkItemAcceptActor>,
    pub ai_suggested: bool,
    pub rationale: Seq<char>,
    pub produce_guidance: Seq<char>,
    pub source_user_id: Option<Seq<char>>,
    pub assignee_user_id: Option<Seq<char>>,
    pub visible_to_user_ids: Seq<Seq<char>>,
    pub created_at_ms: u64,
    pub updated_at_ms: u64,
}

impl DeepView for WorkItem {
    type V = ItemView;

    open spec fn deep_view(&self) -> ItemView {
        ItemView {
            item_id: self.item_id@,
            source_kind: self.source_kind@,
            source_ref: self.source_ref@,
            category_id: self.category_id@,
            title: self.title@,
            summary: self.summary@,
            packet_kinds: self.packet_kinds.deep_view(),
            status: self.status,
            accept_actor: self.accept_actor,
            ai_suggested: self.ai_suggested,
            rationale: self.rationale@,
            produce_guidance: self.produce_guidance@,
            source_user_id: self.source_user_id.deep_view(),
            assignee_user_id: self.assignee_user_id.deep_view(),
            visible_to_user_ids: self.visible_to_user_ids.deep_view(),
            created_at_ms: self.created_at_ms,
            updated_at_ms: self.updated_at_ms,
        }
    }
}

/// What a [`WorkItemFailureNotification`] says.
pub struct FailureView {
    pub notification_id: Seq<char>,
    pub source: Seq<char>,
    pub packet_kind: Option<Seq<char>>,
    pub title: Seq<char>,
    pub message: Seq<char>,
    pub next_action: Option<Seq<char>>,
    pub diagnostic_href: Option<Seq<char>>,
    pub diagnostic_id: Option<Seq<char>>,
    pub error_code: Option<Seq<char>>,
    pub occurred_at_ms: u64,
}

impl DeepView for WorkItemFailureNotification {
    type V = FailureView;

    open spec fn deep_view(&self) -> FailureView {
        FailureView {
            notification_id: self.notification_id@,
            source: self.source@,
            packet_kind: self.packet_kind.deep_view(),
            title: self.title@,
            message: self.message@,
            next_action: self.next_action.deep_view(),
            diagnostic_href: self.diagnostic_href.deep_view(),
            diagnostic_id: self.diagnostic_id.deep_view(),
            error_code: self.error_code.deep_view(),
            occurred_at_ms: self.occurred_at_ms,
        }
    }
}

/// What a [`WorkItemAttentionSummary`] says.
pub struct AttentionView {
    pub level: AttentionLevel,
    pub label: Seq<char>,
    pub detail: Option<Seq<char>>,
}

impl DeepView for WorkItemAttentionSummary {
    type V = AttentionView;

    open spec fn deep_view(&self) -> AttentionView {
        AttentionView {
            level: self.level,
            label: self.label@,
            detail: self.detail.deep_view(),
        }
    }
}

/// What a [`WorkItemWithRevision`] says.
pub struct EntryView {
    pub item: ItemView,
    pub revision: u64,
    pub staged_draft_kinds: Seq<Seq<char>>,
    pub pending_produce_kinds: Seq<Seq<char>>,
    pub failure_notifications: Seq<FailureView>,
    pub attention: Option<AttentionView>,
}

impl DeepView for WorkItemWithRevision {
    type V = EntryView;

    open spec fn deep_view(&self) -> EntryView {
        EntryView {
            item: self.item.deep_view(),
            revision: self.revision,
            staged_draft_kinds: self.staged_draft_kinds.deep_view(),
            pending_produce_kinds: self.pending_produce_kinds.deep_view(),
            failure_notifications: self.failure_notifications.deep_view(),
            attention: self.attention.deep_view(),
        }
    }
}

/// What a [`WorkQueuePolicy`] says.
pub struct PolicyView {
    pub category_id: Seq<char>,
    pub create_work_item: bool,
    pub packet_kinds: Seq<Seq<char>>,
    pub auto_produce: bool,
    pub ai_suggestible_packet_kinds: Seq<Seq<char>>,
    pub ai_suggestible_gmail_scope: WorkQueueAiGmailScope,
    pub ai_suggestible_gmail_categories: Seq<EmailTriageGmailCategory>,
}

impl DeepView for WorkQueuePolicy {
    type V = PolicyView;

    open spec fn deep_view(&self) -> PolicyView {
        PolicyView {
            category_id: self.category_id@,
            create_work_item: self.create_work_item,
            packet_kinds: self.packet_kinds.deep_view(),
            auto_produce: self.auto_produce,
            ai_suggestible_packet_kinds: self.ai_suggestible_packet_kinds.deep_view(),
            ai_suggestible_gmail_scope: self.ai_suggestible_gmail_scope,
            ai_suggestible_gmail_categories: self.ai_suggestible_gmail_categories@,
        }
    }
}

/// A copy of a list of texts.
pub fn copy_texts(list: &Vec<String>) -> (r: Vec<String>)
    ensures
        r.deep_view() == list.deep_view(),
{
    let copy: Vec<String> = list.clone();
    proof {
        assert(copy.deep_view() =~= list.deep_view());
    }
    copy
}

impl WorkItem {
    pub fn copy(&self) -> (r: WorkItem)
        ensures
            r.deep_view() == self.deep_view(),
    {
        WorkItem {
            item_id: self.item_id.clone(),
            source_kind: self.source_kind.clone(),
            source_ref: self.source_ref.clone(),
            category_id: self.category_id.clone(),
            title: self.title.clone(),
            summary: self.summary.clone(),
            packet_kinds: copy_texts(&self.packet_kinds),
            status: self.status,
            accept_actor: self.accept_actor,
            ai_suggested: self.ai_suggested,
            rationale: self.rationale.clone(),
            produce_guidance: self.produce_guidance.clone(),
            source_user_id: self.source_user_id.clone(),
            assignee_user_id: self.assignee_user_id.clone(),
            visible_to_user_ids: copy_texts(&self.visible_to_user_ids),
            created_at_ms: self.created_at_ms,
            updated_at_ms: self.updated_at_ms,
        }
    }
}

} // verus!
