//! Emission logic: a classified inbound message becomes a work item when its
//! category's policy says so. It runs for every candidate message (new AND
//! already-ingested), so a policy turned on later still backfills items on the
//! next poll — the source-existence check keeps re-emits receipt-quiet.

use vstd::prelude::*;

use crate::contracts::email_identity::AttentionSignal;
use crate::contracts::email_triage::InboundMessageRecord;
use crate::contracts::work_queue::{
    WorkItem, WorkItemAcceptActor, WorkItemStatus, WorkQueuePolicy,
};
use crate::lists::{filled, filled_texts, merge_into, merged, push_new};
use crate::overlay::{SharedInboxOverlay, WorkQueueOverlay};
use crate::text::{is_blank, list_has, same_text};
use super::model::ItemView;
use super::service::{
    gate_packet_kinds_for_attention, gated_kinds, head, item_summary, item_title, signal_level,
    stable_visibility_key, summary_of_message, text_head, title_of, visibility_key,
    SUMMARY_MAX_CHARS,
};
use super::store::{ids_or_source, optional_str, or_source_user};
use super::SOURCE_KIND_EMAIL;

verus! {

/// Mail to one of the inbox's addresses.
pub open spec fn inbox_matches(inbox: SharedInboxOverlay, to_addresses: Seq<Seq<char>>) -> bool {
    exists|i: int|
        0 <= i < inbox.match_to.deep_view().len() && to_addresses.contains(
            #[trigger] inbox.match_to.deep_view()[i],
        )
}

/// The users that the matching inboxes show a message to, each once.
pub open spec fn shown_by(inboxes: Seq<SharedInboxOverlay>, to_addresses: Seq<Seq<char>>) -> Seq<
    Seq<char>,
>
    decreases inboxes.len(),
{
    if inboxes.len() == 0 {
        Seq::empty()
    } else {
        let so_far = shown_by(inboxes.drop_last(), to_addresses);
        if inbox_matches(inboxes.last(), to_addresses) {
            merged(so_far, filled(inboxes.last().visible_to_user_ids.deep_view()))
        } else {
            so_far
        }
    }
}

/// Who sees a message's item: the users of the shared inboxes it was sent to, or
/// the user whose mailbox it came from where there are none.
pub open spec fn visible_users(
    message: InboundMessageRecord,
    overlay: WorkQueueOverlay,
    to_addresses: Seq<Seq<char>>,
) -> Seq<Seq<char>> {
    ids_or_source(
        shown_by(overlay.shared_inboxes@, to_addresses),
        message.source_user_id.deep_view(),
    )
}

fn matches_inbox(inbox: &SharedInboxOverlay, to_addresses: &Vec<String>) -> (r: bool)
    ensures
        r == inbox_matches(*inbox, to_addresses.deep_view()),
{
    let ghost all = inbox.match_to.deep_view();
    let mut i: usize = 0;
    while i < inbox.match_to.len()
        invariant
            i <= inbox.match_to.len(),
            all == inbox.match_to.deep_view(),
            forall|j: int| 0 <= j < i ==> !to_addresses.deep_view().contains(#[trigger] all[j]),
        decreases inbox.match_to.len() - i,
    {
        if list_has(to_addresses, inbox.match_to[i].as_str()) {
            assert(to_addresses.deep_view().contains(all[i as int]));
            return true;
        }
        assert(all[i as int] == inbox.match_to[i as int]@);
        i += 1;
    }
    false
}

/// Who sees a message's item. `to_addresses` are the normalized addresses of the
/// message's recipients.
pub fn visible_users_for_message(
    message: &InboundMessageRecord,
    overlay: &WorkQueueOverlay,
    to_addresses: &Vec<String>,
) -> (r: Vec<String>)
    ensures
        r.deep_view() == visible_users(*message, *overlay, to_addresses.deep_view()),
{
    let mut visible: Vec<String> = Vec::new();
    let ghost to = to_addresses.deep_view();
    let ghost inboxes = overlay.shared_inboxes@;
    let mut i: usize = 0;
    proof {
        assert(visible.deep_view() =~= shown_by(inboxes.take(0), to));
    }
    while i < overlay.shared_inboxes.len()
        invariant
            i <= overlay.shared_inboxes.len(),
            to == to_addresses.deep_view(),
            inboxes == overlay.shared_inboxes@,
            visible.deep_view() == shown_by(inboxes.take(i as int), to),
        decreases overlay.shared_inboxes.len() - i,
    {
        proof {
            assert(inboxes.take(i + 1).drop_last() =~= inboxes.take(i as int));
            assert(inboxes.take(i + 1).last() == inboxes[i as int]);
        }
        let shared: &SharedInboxOverlay = &overlay.shared_inboxes[i];
        if matches_inbox(shared, to_addresses) {
            merge_into(&mut visible, &filled_texts(&shared.visible_to_user_ids));
        }
        i += 1;
    }
    proof {
        assert(inboxes.take(i as int) =~= inboxes);
    }
    or_source_user(visible, optional_str(&message.source_user_id))
}

/// The id of the item of an email with this source key.
pub open spec fn email_item_id(source_key: Seq<char>) -> Seq<char> {
    "wi_email_"@ + source_key
}

/// The open item of an email.
pub open spec fn email_item(
    message: InboundMessageRecord,
    title: Seq<char>,
    summary: Seq<char>,
    packet_kinds: Seq<Seq<char>>,
    ai_suggested: bool,
    rationale: Seq<char>,
    visible_to_user_ids: Seq<Seq<char>>,
    now_ms: u64,
) -> ItemView {
    ItemView {
        item_id: email_item_id(message.source_key@),
        source_kind: SOURCE_KIND_EMAIL@,
        source_ref: message.source_key@,
        category_id: message.resolved_category@,
        title,
        summary,
        packet_kinds,
        status: WorkItemStatus::Open,
        accept_actor: None,
        ai_suggested,
        rationale,
        produce_guidance: Seq::<char>::empty(),
        source_user_id: message.source_user_id.deep_view(),
        assignee_user_id: None,
        visible_to_user_ids,
        created_at_ms: now_ms,
        updated_at_ms: now_ms,
    }
}

fn new_email_item(
    message: &InboundMessageRecord,
    title: String,
    summary: String,
    packet_kinds: Vec<String>,
    ai_suggested: bool,
    rationale: &str,
    visible_to_user_ids: Vec<String>,
    now_ms: u64,
) -> (r: WorkItem)
    ensures
        r.deep_view() == email_item(
            *message,
            title@,
            summary@,
            packet_kinds.deep_view(),
            ai_suggested,
            rationale@,
            visible_to_user_ids.deep_view(),
            now_ms,
        ),
{
    WorkItem {
        item_id: "wi_email_".to_owned().concat(message.source_key.as_str()),
        source_kind: SOURCE_KIND_EMAIL.to_owned(),
        source_ref: message.source_key.clone(),
        category_id: message.resolved_category.clone(),
        title,
        summary,
        packet_kinds,
        status: WorkItemStatus::Open,
        accept_actor: None,
        ai_suggested,
        rationale: rationale.to_owned(),
        produce_guidance: String::new(),
        source_user_id: message.source_user_id.clone(),
        assignee_user_id: None,
        visible_to_user_ids,
        created_at_ms: now_ms,
        updated_at_ms: now_ms,
    }
}

/// The message id under which an older item of the message may be stored; `None`
/// where it is the source key itself.
pub fn message_id_lookup(message: &InboundMessageRecord) -> (r: Option<&str>)
    ensures
        r.deep_view() == (if message.source_key@ != message.message_id@ {
            Some(message.message_id@)
        } else {
            None
        }),
{
    if same_text(message.source_key.as_str(), message.message_id.as_str()) {
        None
    } else {
        Some(message.message_id.as_str())
    }
}

/// What an emission reads besides the message. What is not needed is not looked
/// at: nothing but `existing` where there is an item, nothing behind `policy` where
/// that creates no items.
#[derive(Debug)]
pub struct EmissionReads {
    /// The item of the message's source, where there is one.
    pub existing: Option<WorkItem>,
    /// The policy of the message's category.
    pub policy: Option<WorkQueuePolicy>,
    /// Display hints of the message's parsers.
    pub title_hint: Option<String>,
    pub summary_hint: Option<String>,
    /// The strongest attention signal of the message.
    pub attention: Option<AttentionSignal>,
}

/// What an emission does.
#[derive(Debug)]
pub enum Emission {
    Nothing,
    /// The item exists: show it to these users.
    SyncVisibility {
        item_id: String,
        user_ids: Vec<String>,
        actor_id: String,
        idempotency_key: String,
    },
    Emit(WorkItem),
}

/// What an [`Emission`] says.
pub enum EmissionView {
    Nothing,
    SyncVisibility {
        item_id: Seq<char>,
        user_ids: Seq<Seq<char>>,
        actor_id: Seq<char>,
        idempotency_key: Seq<char>,
    },
    Emit(ItemView),
}

impl DeepView for Emission {
    type V = EmissionView;

    open spec fn deep_view(&self) -> EmissionView {
        match self {
            Emission::Nothing => EmissionView::Nothing,
            Emission::SyncVisibility { item_id, user_ids, actor_id, idempotency_key } =>
                EmissionView::SyncVisibility {
                item_id: item_id@,
                user_ids: user_ids.deep_view(),
                actor_id: actor_id@,
                idempotency_key: idempotency_key@,
            },
            Emission::Emit(item) => EmissionView::Emit(item.deep_view()),
        }
    }
}

/// What an emission does: an existing item is only shown to whom it is for; else
/// the category's policy decides, and attention may leave it nothing to suggest.
pub open spec fn emission(
    message: InboundMessageRecord,
    overlay: WorkQueueOverlay,
    to_addresses: Seq<Seq<char>>,
    reads: EmissionReads,
    now_ms: u64,
) -> EmissionView {
    let visible = visible_users(message, overlay, to_addresses);
    match reads.existing {
        Some(item) => EmissionView::SyncVisibility {
            item_id: item.item_id@,
            user_ids: visible,
            actor_id: "work_queue_visibility_sync"@,
            idempotency_key: "visibility:"@ + item.source_kind@ + ":"@ + item.source_ref@ + ":"@
                + visibility_key(visible),
        },
        None => match reads.policy {
            None => EmissionView::Nothing,
            Some(policy) => {
                let kinds = gated_kinds(
                    policy.packet_kinds.deep_view(),
                    signal_level(reads.attention),
                );
                if !policy.create_work_item || kinds.len() == 0 {
                    EmissionView::Nothing
                } else {
                    EmissionView::Emit(
                        email_item(
                            message,
                            match reads.title_hint {
                                Some(hint) => hint@,
                                None => title_of(message),
                            },
                            match reads.summary_hint {
                                Some(hint) => hint@,
                                None => summary_of_message(message),
                            },
                            kinds,
                            false,
                            Seq::<char>::empty(),
                            visible,
                            now_ms,
                        ),
                    )
                }
            },
        },
    }
}

/// Decide whether a classified message gets a work item: if policy applies and none
/// exists yet. Client-specific email parsers may have attached attention metadata,
/// but this path only consumes the neutral persisted contract.
pub fn emit_for_inbound_message_with_overlay(
    message: &InboundMessageRecord,
    overlay: &WorkQueueOverlay,
    to_addresses: &Vec<String>,
    reads: EmissionReads,
    now_ms: u64,
) -> (r: Emission)
    ensures
        r.deep_view() == emission(
            *message,
            *overlay,
            to_addresses.deep_view(),
            reads,
            now_ms,
        ),
{
    if let Some(existing) = &reads.existing {
        let visible: Vec<String> = visible_users_for_message(message, overlay, to_addresses);
        let idempotency_key: String = "visibility:".to_owned().concat(
            existing.source_kind.as_str(),
        ).concat(":").concat(existing.source_ref.as_str()).concat(":").concat(
            stable_visibility_key(&visible).as_str(),
        );
        return Emission::SyncVisibility {
            item_id: existing.item_id.clone(),
            user_ids: visible,
            actor_id: "work_queue_visibility_sync".to_owned(),
            idempotency_key,
        };
    }
    match reads.policy {
        None => Emission::Nothing,
        Some(policy) => {
            if !policy.create_work_item {
                return Emission::Nothing;
            }
            let packet_kinds: Vec<String> = gate_packet_kinds_for_attention(
                policy.packet_kinds,
                &reads.attention,
            );
            if packet_kinds.len() == 0 {
                return Emission::Nothing;
            }
            let title: String = match reads.title_hint {
                Some(hint) => hint,
                None => item_title(message),
            };
            let summary: String = match reads.summary_hint {
                Some(hint) => hint,
                None => item_summary(message),
            };
            proof {
                reveal_strlit("");
                assert(""@ =~= Seq::<char>::empty());
            }
            Emission::Emit(
                new_email_item(
                    message,
                    title,
                    summary,
                    packet_kinds,
                    false,
                    "",
                    visible_users_for_message(message, overlay, to_addresses),
                    now_ms,
                ),
            )
        },
    }
}

/// [`emit_for_inbound_message_with_overlay`] where the client has no overlay.
pub fn emit_for_inbound_message(
    message: &InboundMessageRecord,
    to_addresses: &Vec<String>,
    reads: EmissionReads,
    now_ms: u64,
) -> (r: Emission)
    ensures
        forall|overlay: WorkQueueOverlay|
            overlay.shared_inboxes@.len() == 0 ==> r.deep_view() == #[trigger] emission(
                *message,
                overlay,
                to_addresses.deep_view(),
                reads,
                now_ms,
            ),
{
    let none: WorkQueueOverlay = WorkQueueOverlay::default();
    emit_for_inbound_message_with_overlay(message, &none, to_addresses, reads, now_ms)
}

/// Spec for an unconditional emission (operator-initiated sources).
pub struct UnconditionalEmit<'a> {
    pub source_kind: &'a str,
    pub source_ref: &'a str,
    pub category_id: &'a str,
    pub title: &'a str,
    pub summary: &'a str,
    /// Suggested kinds when the category has no (non-empty) policy row.
    pub default_kinds: Vec<String>,
    /// When true, a stored category policy can replace `default_kinds`.
    /// Operator-note actions set this false because the submitted checkboxes
    /// are the operator's explicit selection for that item.
    pub allow_policy_kinds: bool,
    /// Operator user whose input sourced the item (None = shared identity).
    pub source_user_id: Option<String>,
    /// Status the item lands in. Most sources open (operator decides);
    /// operator-note actions emit ACCEPTED — selecting an action accepts the
    /// self-authored note implicitly.
    pub status: WorkItemStatus,
}

/// The kinds of an unconditional emission: the policy's, where it may replace the
/// defaults and has any.
pub open spec fn unconditional_kinds(
    allow_policy_kinds: bool,
    policy_kinds: Option<Seq<Seq<char>>>,
    default_kinds: Seq<Seq<char>>,
) -> Seq<Seq<char>> {
    if allow_policy_kinds && policy_kinds is Some && policy_kinds->Some_0.len() > 0 {
        policy_kinds->Some_0
    } else {
        default_kinds
    }
}

/// A user id on its own, unless it is blank.
pub open spec fn lone_user(user_id: Option<Seq<char>>) -> Seq<Seq<char>> {
    match user_id {
        Some(id) => if is_blank(id) {
            Seq::empty()
        } else {
            seq![id]
        },
        None => Seq::empty(),
    }
}

/// The item of an unconditional emission.
pub open spec fn unconditional_item(
    spec: UnconditionalEmit<'_>,
    packet_kinds: Seq<Seq<char>>,
    now_ms: u64,
) -> ItemView {
    ItemView {
        item_id: "wi_"@ + spec.source_kind@ + "_"@ + spec.source_ref@,
        source_kind: spec.source_kind@,
        source_ref: spec.source_ref@,
        category_id: spec.category_id@,
        title: spec.title@,
        summary: head(spec.summary@, SUMMARY_MAX_CHARS as nat),
        packet_kinds,
        status: spec.status,
        accept_actor: if spec.status == WorkItemStatus::Accepted {
            Some(WorkItemAcceptActor::Operator)
        } else {
            None
        },
        ai_suggested: false,
        rationale: Seq::<char>::empty(),
        produce_guidance: Seq::<char>::empty(),
        source_user_id: spec.source_user_id.deep_view(),
        assignee_user_id: None,
        visible_to_user_ids: lone_user(spec.source_user_id.deep_view()),
        created_at_ms: now_ms,
        updated_at_ms: now_ms,
    }
}

/// The kinds of a policy, where there is one.
pub open spec fn kinds_of_policy(policy: Option<WorkQueuePolicy>) -> Option<Seq<Seq<char>>> {
    match policy {
        Some(p) => Some(p.packet_kinds.deep_view()),
        None => None,
    }
}

/// Emit a work item unconditionally (operator-initiated sources: the
/// operator created the input BECAUSE they want work from it, so the
/// quiet-by-default policy gate does not apply). The category's policy, when
/// present, still supplies the suggested packet kinds. One-item-per-source
/// still holds: nothing is emitted where `exists`.
pub fn emit_unconditional(
    spec: UnconditionalEmit<'_>,
    exists: bool,
    policy: Option<WorkQueuePolicy>,
    now_ms: u64,
) -> (r: Option<WorkItem>)
    ensures
        r.deep_view() == (if exists {
            None
        } else {
            Some(
                unconditional_item(
                    spec,
                    unconditional_kinds(
                        spec.allow_policy_kinds,
                        kinds_of_policy(policy),
                        spec.default_kinds.deep_view(),
                    ),
                    now_ms,
                ),
            )
        }),
        r is Some && !spec.allow_policy_kinds ==> r->Some_0.deep_view().packet_kinds
            == spec.default_kinds.deep_view(),
        r is Some && spec.allow_policy_kinds && policy is Some
            && policy->Some_0.packet_kinds.deep_view().len() > 0
            ==> r->Some_0.deep_view().packet_kinds == policy->Some_0.packet_kinds.deep_view(),
        r is Some && spec.allow_policy_kinds && (policy is None
            || policy->Some_0.packet_kinds.deep_view().len() == 0)
            ==> r->Some_0.deep_view().packet_kinds == spec.default_kinds.deep_view(),
{
    if exists {
        return None;
    }
    let policy_kinds: Option<Vec<String>> = match policy {
        Some(p) => Some(p.packet_kinds),
        None => None,
    };
    let accept_actor: Option<WorkItemAcceptActor> = if spec.status == WorkItemStatus::Accepted {
        Some(WorkItemAcceptActor::Operator)
    } else {
        None
    };
    let mut visible: Vec<String> = Vec::new();
    proof {
        assert(visible.deep_view() =~= Seq::<Seq<char>>::empty());
    }
    if let Some(user_id) = &spec.source_user_id {
        if !user_id.as_str().trim().is_empty() {
            visible.push(user_id.clone());
            proof {
                assert(visible.deep_view() =~= seq![user_id@]);
            }
        }
    }
    let item_id: String = "wi_".to_owned().concat(spec.source_kind).concat("_").concat(
        spec.source_ref,
    );
    let packet_kinds: Vec<String> = match policy_kinds {
        Some(kinds) => if spec.allow_policy_kinds && kinds.len() > 0 {
            kinds
        } else {
            spec.default_kinds
        },
        None => spec.default_kinds,
    };
    Some(
        WorkItem {
            item_id,
            source_kind: spec.source_kind.to_owned(),
            source_ref: spec.source_ref.to_owned(),
            category_id: spec.category_id.to_owned(),
            title: spec.title.to_owned(),
            summary: text_head(spec.summary, SUMMARY_MAX_CHARS).to_owned(),
            packet_kinds,
            status: spec.status,
            accept_actor,
            ai_suggested: false,
            rationale: String::new(),
            produce_guidance: String::new(),
            source_user_id: spec.source_user_id,
            assignee_user_id: None,
            visible_to_user_ids: visible,
            created_at_ms: now_ms,
            updated_at_ms: now_ms,
        },
    )
}

/// What an operator's follow-up request does.
#[derive(Debug)]
pub enum ManualFollowUp {
    /// The email has an item: set its kinds to these.
    UpdateKinds { item_id: String, packet_kinds: Vec<String> },
    Insert(WorkItem),
}

/// What a [`ManualFollowUp`] says.
pub enum ManualFollowUpView {
    UpdateKinds { item_id: Seq<char>, packet_kinds: Seq<Seq<char>> },
    Insert(ItemView),
}

impl DeepView for ManualFollowUp {
    type V = ManualFollowUpView;

    open spec fn deep_view(&self) -> ManualFollowUpView {
        match self {
            ManualFollowUp::UpdateKinds { item_id, packet_kinds } =>
                ManualFollowUpView::UpdateKinds {
                item_id: item_id@,
                packet_kinds: packet_kinds.deep_view(),
            },
            ManualFollowUp::Insert(item) => ManualFollowUpView::Insert(item.deep_view()),
        }
    }
}

/// What an operator's follow-up request does.
pub open spec fn manual_follow_up(
    message: InboundMessageRecord,
    overlay: WorkQueueOverlay,
    to_addresses: Seq<Seq<char>>,
    existing: Option<WorkItem>,
    now_ms: u64,
) -> ManualFollowUpView {
    match existing {
        Some(item) => ManualFollowUpView::UpdateKinds {
            item_id: item.item_id@,
            packet_kinds: merged(item.packet_kinds.deep_view(), seq!["follow_up_task"@]),
        },
        None => ManualFollowUpView::Insert(
            email_item(
                message,
                title_of(message),
                summary_of_message(message),
                seq!["follow_up_task"@],
                false,
                Seq::<char>::empty(),
                visible_users(message, overlay, to_addresses),
                now_ms,
            ),
        ),
    }
}

/// Operator-requested follow-up from the inbox. If the email already has a
/// work item, `follow_up_task` is appended through the normal revisioned item
/// mutation. Otherwise one open item is created for that source email.
pub fn add_manual_follow_up_for_email(
    message: &InboundMessageRecord,
    overlay: &WorkQueueOverlay,
    to_addresses: &Vec<String>,
    existing: Option<WorkItem>,
    now_ms: u64,
) -> (r: ManualFollowUp)
    ensures
        r.deep_view() == manual_follow_up(
            *message,
            *overlay,
            to_addresses.deep_view(),
            existing,
            now_ms,
        ),
{
    match existing {
        Some(item) => {
            let ghost had = item.packet_kinds.deep_view();
            let mut kinds: Vec<String> = item.packet_kinds;
            push_new(&mut kinds, "follow_up_task");
            proof {
                let one = seq!["follow_up_task"@];
                assert(one.drop_last() =~= Seq::<Seq<char>>::empty());
                assert(one.last() == "follow_up_task"@);
                assert(merged(had, one.drop_last()) == had);
            }
            ManualFollowUp::UpdateKinds { item_id: item.item_id, packet_kinds: kinds }
        },
        None => {
            let kinds: Vec<String> = vec!["follow_up_task".to_owned()];
            proof {
                assert(kinds.deep_view() =~= seq!["follow_up_task"@]);
                reveal_strlit("");
                assert(""@ =~= Seq::<char>::empty());
            }
            ManualFollowUp::Insert(
                new_email_item(
                    message,
                    item_title(message),
                    item_summary(message),
                    kinds,
                    false,
                    "",
                    visible_users_for_message(message, overlay, to_addresses),
                    now_ms,
                ),
            )
        },
    }
}

/// What an AI suggestion does.
#[derive(Debug)]
pub enum AiSuggestion {
    /// The email has an item: append the missing kinds to it.
    Append { item_id: String, packet_kinds: Vec<String> },
    Insert(WorkItem),
}

/// What an [`AiSuggestion`] says.
pub enum AiSuggestionView {
    Append { item_id: Seq<char>, packet_kinds: Seq<Seq<char>> },
    Insert(ItemView),
}

impl DeepView for AiSuggestion {
    type V = AiSuggestionView;

    open spec fn deep_view(&self) -> AiSuggestionView {
        match self {
            AiSuggestion::Append { item_id, packet_kinds } => AiSuggestionView::Append {
                item_id: item_id@,
                packet_kinds: packet_kinds.deep_view(),
            },
            AiSuggestion::Insert(item) => AiSuggestionView::Insert(item.deep_view()),
        }
    }
}

/// What an AI suggestion does.
pub open spec fn ai_suggestion(
    message: InboundMessageRecord,
    overlay: WorkQueueOverlay,
    to_addresses: Seq<Seq<char>>,
    existing: Option<WorkItem>,
    packet_kinds: Seq<Seq<char>>,
    rationale: Seq<char>,
    now_ms: u64,
) -> AiSuggestionView {
    match existing {
        Some(item) => AiSuggestionView::Append { item_id: item.item_id@, packet_kinds },
        None => AiSuggestionView::Insert(
            email_item(
                message,
                title_of(message),
                summary_of_message(message),
                packet_kinds,
                true,
                rationale,
                visible_users(message, overlay, to_addresses),
                now_ms,
            ),
        ),
    }
}

/// Emit or extend an AI-suggested work item (tier-2 triage). Bypasses
/// deterministic packet policy — the AI's confidence gate already decided —
/// but preserves the one-item-per-source invariant by appending missing kinds
/// to an existing item.
pub fn emit_ai_suggested_item(
    message: &InboundMessageRecord,
    overlay: &WorkQueueOverlay,
    to_addresses: &Vec<String>,
    existing: &Option<WorkItem>,
    packet_kinds: Vec<String>,
    rationale: &str,
    now_ms: u64,
) -> (r: AiSuggestion)
    ensures
        r.deep_view() == ai_suggestion(
            *message,
            *overlay,
            to_addresses.deep_view(),
            *existing,
            packet_kinds.deep_view(),
            rationale@,
            now_ms,
        ),
{
    match existing {
        Some(item) => AiSuggestion::Append { item_id: item.item_id.clone(), packet_kinds },
        None => AiSuggestion::Insert(
            new_email_item(
                message,
                item_title(message),
                item_summary(message),
                packet_kinds,
                true,
                rationale,
                visible_users_for_message(message, overlay, to_addresses),
                now_ms,
            ),
        ),
    }
}

/// One item for each source: where the source has an item, no emission makes
/// another.
pub proof fn existing_items_are_not_emitted_again(
    message: InboundMessageRecord,
    overlay: WorkQueueOverlay,
    to_addresses: Seq<Seq<char>>,
    reads: EmissionReads,
    now_ms: u64,
)
    requires
        reads.existing is Some,
    ensures
        !(emission(message, overlay, to_addresses, reads, now_ms) is Emit),
{
}

/// Nothing is emitted without a policy that creates work items, whatever the
/// message's enrichment says.
pub proof fn emission_wants_a_policy(
    message: InboundMessageRecord,
    overlay: WorkQueueOverlay,
    to_addresses: Seq<Seq<char>>,
    reads: EmissionReads,
    now_ms: u64,
)
    requires
        emission(message, overlay, to_addresses, reads, now_ms) is Emit,
    ensures
        reads.existing is None,
        reads.policy is Some,
        reads.policy->Some_0.create_work_item,
        ({
            let item = emission(message, overlay, to_addresses, reads, now_ms)->Emit_0;
            &&& item.packet_kinds.len() > 0
            &&& item.status == WorkItemStatus::Open
            &&& item.source_ref == message.source_key@
        }),
{
}

/// A policy that creates work items emits one for every message of its category
/// that has none, whenever it was turned on, unless the message's attention leaves
/// it no kind to suggest.
pub proof fn enabled_policies_backfill(
    message: InboundMessageRecord,
    overlay: WorkQueueOverlay,
    to_addresses: Seq<Seq<char>>,
    reads: EmissionReads,
    now_ms: u64,
)
    requires
        reads.existing is None,
        reads.policy is Some,
        reads.policy->Some_0.create_work_item,
        gated_kinds(
            reads.policy->Some_0.packet_kinds.deep_view(),
            signal_level(reads.attention),
        ).len() > 0,
    ensures
        emission(message, overlay, to_addresses, reads, now_ms) is Emit,
        emission(message, overlay, to_addresses, reads, now_ms)->Emit_0.packet_kinds == gated_kinds(
            reads.policy->Some_0.packet_kinds.deep_view(),
            signal_level(reads.attention),
        ),
{
}

/// Emails share the id of their item exactly where they share their source.
pub proof fn email_items_are_named_by_their_source(a: Seq<char>, b: Seq<char>)
    ensures
        email_item_id(a) == email_item_id(b) <==> a == b,
{
    let n = "wi_email_"@.len() as int;
    assert(email_item_id(a).skip(n) =~= a);
    assert(email_item_id(b).skip(n) =~= b);
}

} // verus!
