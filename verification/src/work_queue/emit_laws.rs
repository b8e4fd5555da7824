//! What an input's item says, whom it is shown to, and what it suggests.

use vstd::prelude::*;

use crate::contracts::email_identity::AttentionLevel;
use crate::contracts::email_triage::InboundMessageRecord;
use crate::contracts::work_queue::{WorkItemAcceptActor, WorkItemStatus};
use crate::lists::{filled, merged, merging_extends};
use crate::overlay::{SharedInboxOverlay, WorkQueueOverlay};
use crate::text::{is_blank, trimmed};
use super::emit::{
    ai_suggestion, emission, inbox_matches, manual_follow_up, shown_by, unconditional_item,
    unconditional_kinds, visible_users, EmissionReads, UnconditionalEmit,
};
use super::service::{gated_kinds, head, summary_of_message, title_of};

verus! {

/// What a message's item says of it where nothing else is said: who wrote, where that
/// is known, and the first two hundred characters of the excerpt.
pub open spec fn sums_up(summary: Seq<char>, message: InboundMessageRecord) -> bool {
    let lead = match message.from_addr {
        Some(from) => "From "@ + from@ + " — "@,
        None => Seq::<char>::empty(),
    };
    let excerpt = message.body_excerpt@;
    let shown = if excerpt.len() <= 200 {
        excerpt
    } else {
        excerpt.take(200)
    };
    &&& summary.len() == lead.len() + shown.len()
    &&& lead.is_prefix_of(summary)
    &&& summary.skip(lead.len() as int) == shown
}

/// A message's summary ends with its excerpt, cut to two hundred characters, and
/// starts with its sender where that is known.
pub proof fn summaries_show_the_excerpt(message: InboundMessageRecord)
    ensures
        sums_up(summary_of_message(message), message),
{
    let lead = match message.from_addr {
        Some(from) => "From "@ + from@ + " — "@,
        None => Seq::<char>::empty(),
    };
    let excerpt = message.body_excerpt@;
    let shown = if excerpt.len() <= 200 {
        excerpt
    } else {
        excerpt.take(200)
    };
    let summary = summary_of_message(message);
    assert(summary == lead + shown);
    assert(summary.skip(lead.len() as int) =~= shown);
    assert(summary.take(lead.len() as int) =~= lead);
}

/// A message's title is its trimmed subject, or names its sender where the subject is
/// blank or missing.
pub proof fn titles_show_the_subject(message: InboundMessageRecord)
    ensures
        message.subject is Some && trimmed(message.subject->Some_0@).len() > 0 ==> title_of(message)
            == trimmed(message.subject->Some_0@),
        (message.subject is None || trimmed(message.subject->Some_0@).len() == 0)
            && message.from_addr is Some ==> title_of(message) == "Email from "@
            + message.from_addr->Some_0@,
        (message.subject is None || trimmed(message.subject->Some_0@).len() == 0)
            && message.from_addr is None ==> title_of(message) == "Email from unknown sender"@,
{
    reveal_strlit("Email from ");
    reveal_strlit("unknown sender");
    reveal_strlit("Email from unknown sender");
    assert("Email from "@ + "unknown sender"@ =~= "Email from unknown sender"@);
}

/// A kind that an input of this attention may suggest: every one, but for follow-ups
/// and calendar events where less attention is wanted.
pub open spec fn may_suggest(kind: Seq<char>, attention: Option<AttentionLevel>) -> bool {
    attention != Some(AttentionLevel::Lower) || (kind != "follow_up_task"@ && kind
        != "calendar_event_draft"@)
}

/// The kinds that an input's attention leaves are those that it may suggest, in their
/// order.
pub proof fn attention_leaves_what_may_be_suggested(
    kinds: Seq<Seq<char>>,
    attention: Option<AttentionLevel>,
)
    ensures
        gated_kinds(kinds, attention) == kinds.filter(
            |kind: Seq<char>| may_suggest(kind, attention),
        ),
    decreases kinds.len(),
{
    let f = |kind: Seq<char>| may_suggest(kind, attention);
    reveal(Seq::filter);
    if kinds.len() > 0 {
        let front = kinds.drop_last();
        attention_leaves_what_may_be_suggested(front, attention);
        if attention != Some(AttentionLevel::Lower) {
            assert(front.push(kinds.last()) =~= kinds);
        }
    }
}

/// An email's item is open, unassigned, accepted by nobody and without guidance, and
/// it is its message's: of its source, its category and its mailbox's user, created
/// and updated now.
pub open spec fn is_fresh_item_of(
    item: super::model::ItemView,
    message: InboundMessageRecord,
    now_ms: u64,
) -> bool {
    &&& item.item_id == "wi_email_"@ + message.source_key@
    &&& item.source_kind == "email"@
    &&& item.source_ref == message.source_key@
    &&& item.category_id == message.resolved_category@
    &&& item.status == WorkItemStatus::Open
    &&& item.accept_actor is None
    &&& item.assignee_user_id is None
    &&& item.produce_guidance.len() == 0
    &&& item.source_user_id == message.source_user_id.deep_view()
    &&& item.created_at_ms == now_ms
    &&& item.updated_at_ms == now_ms
}

/// A message becomes an item exactly where it has none, its category's policy creates
/// work items, and a kind is left to suggest. The item suggests the policy's kinds
/// that its attention leaves, is not the AI's, and says what the hints say, else what
/// the message does.
pub proof fn messages_become_items_by_policy(
    message: InboundMessageRecord,
    overlay: WorkQueueOverlay,
    to_addresses: Seq<Seq<char>>,
    reads: EmissionReads,
    now_ms: u64,
)
    ensures
        ({
            let out = emission(message, overlay, to_addresses, reads, now_ms);
            let level = match reads.attention {
                Some(signal) => Some(signal.level),
                None => None,
            };
            let kinds = reads.policy->Some_0.packet_kinds.deep_view().filter(
                |kind: Seq<char>| may_suggest(kind, level),
            );
            &&& out is Emit <==> {
                &&& reads.existing is None
                &&& reads.policy is Some
                &&& reads.policy->Some_0.create_work_item
                &&& kinds.len() > 0
            }
            &&& out is SyncVisibility <==> reads.existing is Some
            &&& out is Emit ==> {
                let item = out->Emit_0;
                &&& is_fresh_item_of(item, message, now_ms)
                &&& item.packet_kinds == kinds
                &&& !item.ai_suggested
                &&& item.rationale.len() == 0
                &&& item.visible_to_user_ids == visible_users(message, overlay, to_addresses)
                &&& reads.summary_hint is Some ==> item.summary == reads.summary_hint->Some_0@
                &&& reads.summary_hint is None ==> sums_up(item.summary, message)
                &&& reads.title_hint is Some ==> item.title == reads.title_hint->Some_0@
                &&& reads.title_hint is None && message.subject is Some && trimmed(
                    message.subject->Some_0@,
                ).len() > 0 ==> item.title == trimmed(message.subject->Some_0@)
            }
        }),
{
    let level = match reads.attention {
        Some(signal) => Some(signal.level),
        None => None,
    };
    if reads.policy is Some {
        attention_leaves_what_may_be_suggested(
            reads.policy->Some_0.packet_kinds.deep_view(),
            level,
        );
    }
    summaries_show_the_excerpt(message);
    titles_show_the_subject(message);
}

/// A message whose item exists is shown to whom it is for, as that item, and under a
/// key that names the item's source.
pub proof fn existing_items_are_shown_to_their_users(
    message: InboundMessageRecord,
    overlay: WorkQueueOverlay,
    to_addresses: Seq<Seq<char>>,
    reads: EmissionReads,
    now_ms: u64,
)
    requires
        reads.existing is Some,
    ensures
        ({
            let out = emission(message, overlay, to_addresses, reads, now_ms);
            let item = reads.existing->Some_0;
            &&& out is SyncVisibility
            &&& out->item_id == item.item_id@
            &&& out->user_ids == visible_users(message, overlay, to_addresses)
            &&& out->actor_id == "work_queue_visibility_sync"@
            &&& ("visibility:"@ + item.source_kind@ + ":"@ + item.source_ref@
                + ":"@).is_prefix_of(out->idempotency_key)
        }),
{
    let out = emission(message, overlay, to_addresses, reads, now_ms);
    let item = reads.existing->Some_0;
    let head = "visibility:"@ + item.source_kind@ + ":"@ + item.source_ref@ + ":"@;
    assert(out->idempotency_key.take(head.len() as int) =~= head);
}

/// Mail to one of these addresses reaches the inbox.
pub open spec fn mail_reaches(inbox: SharedInboxOverlay, to_addresses: Seq<Seq<char>>) -> bool {
    exists|j: int|
        0 <= j < inbox.match_to.deep_view().len() && to_addresses.contains(
            #[trigger] inbox.match_to.deep_view()[j],
        )
}

/// The inbox is shared with the user.
pub open spec fn is_shared_with(inbox: SharedInboxOverlay, user_id: Seq<char>) -> bool {
    user_id.len() > 0 && exists|j: int|
        0 <= j < inbox.visible_to_user_ids.deep_view().len() && trimmed(
            #[trigger] inbox.visible_to_user_ids.deep_view()[j],
        ) == user_id
}

/// A shared inbox that the mail reaches is shared with the user.
pub open spec fn is_shown_by(
    inboxes: Seq<SharedInboxOverlay>,
    to_addresses: Seq<Seq<char>>,
    user_id: Seq<char>,
) -> bool {
    exists|i: int|
        0 <= i < inboxes.len() && mail_reaches(#[trigger] inboxes[i], to_addresses)
            && is_shared_with(inboxes[i], user_id)
}

/// Filling a list leaves its texts, trimmed, where they are not blank.
pub proof fn filled_texts_are_trimmed(list: Seq<Seq<char>>, x: Seq<char>)
    ensures
        filled(list).contains(x) <==> x.len() > 0 && exists|j: int|
            0 <= j < list.len() && trimmed(#[trigger] list[j]) == x,
    decreases list.len(),
{
    if list.len() > 0 {
        let front = list.drop_last();
        let so_far = filled(front);
        let all = filled(list);
        filled_texts_are_trimmed(front, x);
        assert(list[list.len() - 1] == list.last());
        if so_far.contains(x) {
            let k = choose|k: int| 0 <= k < so_far.len() && so_far[k] == x;
            assert(all[k] == x);
            let j = choose|j: int| 0 <= j < front.len() && trimmed(#[trigger] front[j]) == x;
            assert(list[j] == front[j]);
        }
        if trimmed(list.last()) == x && x.len() > 0 {
            assert(all[so_far.len() as int] == x);
        }
        if all.contains(x) {
            let k = choose|k: int| 0 <= k < all.len() && all[k] == x;
            if k < so_far.len() {
                assert(so_far[k] == x);
            }
        }
        if x.len() > 0 && exists|j: int| 0 <= j < list.len() && trimmed(#[trigger] list[j]) == x {
            let j = choose|j: int| 0 <= j < list.len() && trimmed(#[trigger] list[j]) == x;
            if j < front.len() {
                assert(front[j] == list[j]);
            }
        }
    }
}

proof fn shown_users_share_an_inbox(
    inboxes: Seq<SharedInboxOverlay>,
    to_addresses: Seq<Seq<char>>,
)
    ensures
        shown_by(inboxes, to_addresses).no_duplicates(),
        forall|user_id: Seq<char>| #[trigger]
            shown_by(inboxes, to_addresses).contains(user_id) <==> is_shown_by(
                inboxes,
                to_addresses,
                user_id,
            ),
    decreases inboxes.len(),
{
    if inboxes.len() > 0 {
        let front = inboxes.drop_last();
        let last = inboxes.last();
        let so_far = shown_by(front, to_addresses);
        let more = filled(last.visible_to_user_ids.deep_view());
        shown_users_share_an_inbox(front, to_addresses);
        merging_extends(so_far, more);
        assert(inboxes[inboxes.len() - 1] == last);
        assert forall|user_id: Seq<char>| #[trigger]
            shown_by(inboxes, to_addresses).contains(user_id) <==> is_shown_by(
                inboxes,
                to_addresses,
                user_id,
            ) by {
            filled_texts_are_trimmed(last.visible_to_user_ids.deep_view(), user_id);
            assert(so_far.contains(user_id) <==> is_shown_by(front, to_addresses, user_id));
            assert(inbox_matches(last, to_addresses) == mail_reaches(last, to_addresses));
            if is_shown_by(front, to_addresses, user_id) {
                let i = choose|i: int|
                    0 <= i < front.len() && mail_reaches(#[trigger] front[i], to_addresses)
                        && is_shared_with(front[i], user_id);
                assert(inboxes[i] == front[i]);
            }
            if is_shown_by(inboxes, to_addresses, user_id) {
                let i = choose|i: int|
                    0 <= i < inboxes.len() && mail_reaches(#[trigger] inboxes[i], to_addresses)
                        && is_shared_with(inboxes[i], user_id);
                if i < front.len() {
                    assert(front[i] == inboxes[i]);
                }
            }
        }
    }
}

/// A message's item is shown to the users of the shared inboxes that the mail
/// reaches, each once; where there are none, to the user whose mailbox it came from.
pub proof fn items_are_shown_to_the_inboxes_users(
    message: InboundMessageRecord,
    overlay: WorkQueueOverlay,
    to_addresses: Seq<Seq<char>>,
)
    ensures
        ({
            let users = visible_users(message, overlay, to_addresses);
            let inboxes = overlay.shared_inboxes@;
            let source = message.source_user_id;
            &&& users.no_duplicates()
            &&& (exists|user_id: Seq<char>| #[trigger] is_shown_by(inboxes, to_addresses, user_id))
                ==> forall|user_id: Seq<char>| #[trigger]
                users.contains(user_id) <==> is_shown_by(inboxes, to_addresses, user_id)
            &&& !(exists|user_id: Seq<char>| #[trigger]
                is_shown_by(inboxes, to_addresses, user_id)) ==> users == (if source is Some
                && trimmed(source->Some_0@).len() > 0 {
                seq![trimmed(source->Some_0@)]
            } else {
                Seq::empty()
            })
        }),
{
    let inboxes = overlay.shared_inboxes@;
    let shown = shown_by(inboxes, to_addresses);
    shown_users_share_an_inbox(inboxes, to_addresses);
    if exists|user_id: Seq<char>| #[trigger] is_shown_by(inboxes, to_addresses, user_id) {
        let user_id = choose|user_id: Seq<char>| #[trigger]
            is_shown_by(inboxes, to_addresses, user_id);
        assert(shown.contains(user_id));
    } else if shown.len() > 0 {
        assert(shown.contains(shown[0]));
    }
}

/// An unconditional emission suggests what the operator selected; a stored policy
/// replaces that only where it may, and only where it has kinds.
pub proof fn selected_kinds_win_unless_policies_may(
    default_kinds: Seq<Seq<char>>,
    policy_kinds: Option<Seq<Seq<char>>>,
)
    ensures
        unconditional_kinds(false, policy_kinds, default_kinds) == default_kinds,
        policy_kinds is None ==> unconditional_kinds(true, policy_kinds, default_kinds)
            == default_kinds,
        policy_kinds is Some && policy_kinds->Some_0.len() == 0 ==> unconditional_kinds(
            true,
            policy_kinds,
            default_kinds,
        ) == default_kinds,
        policy_kinds is Some && policy_kinds->Some_0.len() > 0 ==> unconditional_kinds(
            true,
            policy_kinds,
            default_kinds,
        ) == policy_kinds->Some_0,
{
}

/// The item of an unconditional emission is its source's, says what it was given, its
/// summary cut to two hundred characters, and is seen by the user it came from. One
/// that lands accepted was accepted by the operator.
pub proof fn unconditional_items_say_what_they_are_given(
    spec: UnconditionalEmit<'_>,
    packet_kinds: Seq<Seq<char>>,
    now_ms: u64,
)
    ensures
        ({
            let item = unconditional_item(spec, packet_kinds, now_ms);
            &&& item.item_id == "wi_"@ + spec.source_kind@ + "_"@ + spec.source_ref@
            &&& item.source_kind == spec.source_kind@
            &&& item.source_ref == spec.source_ref@
            &&& item.category_id == spec.category_id@
            &&& item.title == spec.title@
            &&& item.summary.is_prefix_of(spec.summary@)
            &&& spec.summary@.len() <= 200 ==> item.summary == spec.summary@
            &&& spec.summary@.len() > 200 ==> item.summary.len() == 200
            &&& item.packet_kinds == packet_kinds
            &&& item.status == spec.status
            &&& (item.accept_actor == Some(WorkItemAcceptActor::Operator)) == (spec.status
                == WorkItemStatus::Accepted)
            &&& spec.status != WorkItemStatus::Accepted ==> item.accept_actor is None
            &&& !item.ai_suggested
            &&& item.rationale.len() == 0
            &&& item.produce_guidance.len() == 0
            &&& item.assignee_user_id is None
            &&& item.source_user_id == spec.source_user_id.deep_view()
            &&& spec.source_user_id is Some && !is_blank(spec.source_user_id->Some_0@)
                ==> item.visible_to_user_ids == seq![spec.source_user_id->Some_0@]
            &&& spec.source_user_id is None ==> item.visible_to_user_ids.len() == 0
            &&& item.created_at_ms == now_ms
            &&& item.updated_at_ms == now_ms
        }),
{
    let text = spec.summary@;
    assert(text.take(text.len() as int) =~= text);
}

/// A follow-up that an operator asks for is added to the kinds that the email's item
/// has, or is the one kind of a new item of the email.
pub proof fn follow_ups_are_added(
    message: InboundMessageRecord,
    overlay: WorkQueueOverlay,
    to_addresses: Seq<Seq<char>>,
    existing: Option<crate::contracts::work_queue::WorkItem>,
    now_ms: u64,
)
    ensures
        ({
            let out = manual_follow_up(message, overlay, to_addresses, existing, now_ms);
            match existing {
                Some(item) => {
                    let had = item.packet_kinds.deep_view();
                    &&& out is UpdateKinds
                    &&& out->item_id == item.item_id@
                    &&& had.is_prefix_of(out->packet_kinds)
                    &&& forall|kind: Seq<char>| #[trigger]
                        out->packet_kinds.contains(kind) <==> had.contains(kind) || kind
                            == "follow_up_task"@
                    &&& had.contains("follow_up_task"@) ==> out->packet_kinds == had
                },
                None => {
                    &&& out is Insert
                    &&& is_fresh_item_of(out->Insert_0, message, now_ms)
                    &&& out->Insert_0.packet_kinds == seq!["follow_up_task"@]
                    &&& !out->Insert_0.ai_suggested
                    &&& out->Insert_0.rationale.len() == 0
                    &&& sums_up(out->Insert_0.summary, message)
                    &&& out->Insert_0.title == title_of(message)
                    &&& out->Insert_0.visible_to_user_ids == visible_users(
                        message,
                        overlay,
                        to_addresses,
                    )
                },
            }
        }),
{
    summaries_show_the_excerpt(message);
    if let Some(item) = existing {
        let had = item.packet_kinds.deep_view();
        let one = seq!["follow_up_task"@];
        merging_extends(had, one);
        assert(one[0] == "follow_up_task"@);
        assert forall|kind: Seq<char>| #[trigger] merged(had, one).contains(kind) <==> had.contains(
            kind,
        ) || kind == "follow_up_task"@ by {
            assert(one.contains(kind) <==> kind == "follow_up_task"@);
        }
        if had.contains("follow_up_task"@) {
            crate::lists::merging_again_adds_nothing(had, one);
        }
    }
}

/// What the AI suggests is appended to the email's item, or makes an item of the
/// email that says so, with the reason it was given.
pub proof fn suggestions_are_kept_as_the_ais(
    message: InboundMessageRecord,
    overlay: WorkQueueOverlay,
    to_addresses: Seq<Seq<char>>,
    existing: Option<crate::contracts::work_queue::WorkItem>,
    packet_kinds: Seq<Seq<char>>,
    rationale: Seq<char>,
    now_ms: u64,
)
    ensures
        ({
            let out = ai_suggestion(
                message,
                overlay,
                to_addresses,
                existing,
                packet_kinds,
                rationale,
                now_ms,
            );
            match existing {
                Some(item) => {
                    &&& out is Append
                    &&& out->item_id == item.item_id@
                    &&& out->packet_kinds == packet_kinds
                },
                None => {
                    &&& out is Insert
                    &&& is_fresh_item_of(out->Insert_0, message, now_ms)
                    &&& out->Insert_0.packet_kinds == packet_kinds
                    &&& out->Insert_0.ai_suggested
                    &&& out->Insert_0.rationale == rationale
                    &&& sums_up(out->Insert_0.summary, message)
                    &&& out->Insert_0.title == title_of(message)
                    &&& out->Insert_0.visible_to_user_ids == visible_users(
                        message,
                        overlay,
                        to_addresses,
                    )
                },
            }
        }),
{
    summaries_show_the_excerpt(message);
}

} // verus!
