//! What each change to an item asks for, and what it writes.

use vstd::prelude::*;

use crate::contracts::receipt::ActorKindDto;
use crate::contracts::work_queue::WorkItemAssignActionKind;
use crate::http::ScopeView;
use crate::json::{member, quoted, quoted_list, quoted_or_null};
use crate::lists::{filled, first_occurrences, merged, merging_extends, unique_ids};
use crate::outbox::JobView;
use crate::sql::SqlView;
use crate::store_core::{ErrorView, RequestView};
use crate::text::{decimal, has_text, trimmed};
use super::emit_laws::filled_texts_are_trimmed;
use super::model::ItemView;
use super::plan::{write_statements, ContextView, PlanView, WriteView};
use super::policy_laws::{all_known, unknown_kinds_are_found};
use super::prompt_laws::members_stand_in_the_object;
use super::store::{
    assignment_plan, emit_plan, guidance_plan, insert_plan, item_action_plan, launch_request_plan,
    packet_kinds_plan, suggestion_plan, system_accept_plan, visibility_additions, visibility_plan,
    ItemAction, ItemAssignmentRow, ItemGuidanceRow, ItemKindsRow, ItemStatusRow, ItemSuggestionRow,
};

verus! {

/// The operator sees an item: they see everything, the item came from them, or a
/// visibility row shows it to them.
pub open spec fn sees(
    scope: ScopeView,
    source_user_id: Option<Seq<char>>,
    visibility_row: bool,
) -> bool {
    scope is All || source_user_id == Some(scope->User_0) || visibility_row
}

/// The request is the operator's, on the item, under the key and the revision that
/// they gave.
pub open spec fn is_asked_by(request: RequestView, ctx: ContextView, item_id: Seq<char>) -> bool {
    &&& request.client_id == ctx.client_id
    &&& request.entity_kind == "work_item"@
    &&& request.entity_id == item_id
    &&& request.actor_id == ctx.actor_id
    &&& request.actor_kind == ActorKindDto::Operator
    &&& request.expected_revision == ctx.expected_revision
    &&& request.idempotency_key == ctx.idempotency_key
    &&& request.now_ms == ctx.now_ms
    &&& request.before_json is Some
    &&& request.after_json is Some
}

/// An operator decides on an item that they see: accepting, dismissing and reopening
/// lead to their statuses, an accepted item is the operator's, and the receipt keeps
/// the status before and after. Another item is refused.
pub proof fn decisions_lead_to_their_status(
    ctx: ContextView,
    item_id: Seq<char>,
    action: ItemAction,
    row: ItemStatusRow,
    visibility_row: bool,
)
    ensures
        ({
            let plan = item_action_plan(ctx, item_id, action, Some(row), visibility_row);
            let status = match action {
                ItemAction::Accept => "accepted"@,
                ItemAction::Dismiss => "dismissed"@,
                ItemAction::Reopen => "open"@,
            };
            &&& plan is Ok <==> sees(ctx.scope, row.source_user_id.deep_view(), visibility_row)
            &&& plan is Err ==> plan == Err::<PlanView, _>(ErrorView::Domain("scope_forbidden"@))
            &&& plan is Ok ==> {
                let request = plan->Ok_0.request;
                &&& is_asked_by(request, ctx, item_id)
                &&& request.change_kind == (match action {
                    ItemAction::Accept => "accept"@,
                    ItemAction::Dismiss => "dismiss"@,
                    ItemAction::Reopen => "reopen"@,
                })
                &&& plan->Ok_0.write is SetStatus
                &&& plan->Ok_0.write->status == status
                &&& plan->Ok_0.write->accept_actor == (if action == ItemAction::Accept {
                    Some("operator"@)
                } else {
                    None
                })
                &&& has_text(
                    request.before_json->Some_0,
                    quoted("status"@) + seq![':'] + quoted(row.status@),
                )
                &&& has_text(
                    request.after_json->Some_0,
                    quoted("status"@) + seq![':'] + quoted(status),
                )
                &&& action == ItemAction::Accept ==> has_text(
                    request.after_json->Some_0,
                    quoted("accept_actor"@) + seq![':'] + quoted("operator"@),
                )
                &&& action != ItemAction::Accept ==> has_text(
                    request.after_json->Some_0,
                    quoted("accept_actor"@) + seq![':'] + "null"@,
                )
            }
            &&& item_action_plan(ctx, item_id, action, None, visibility_row) == Err::<PlanView, _>(
                ErrorView::Domain("work_item_not_found"@),
            )
        }),
{
    let plan = item_action_plan(ctx, item_id, action, Some(row), visibility_row);
    if plan is Ok {
        status_stands_in_its_json(row.status@, row.accept_actor.deep_view());
        let write = plan->Ok_0.write;
        status_stands_in_its_json(write->status, write->accept_actor);
    }
}

proof fn status_stands_in_its_json(status: Seq<char>, accept_actor: Option<Seq<char>>)
    ensures
        has_text(
            super::store::status_json(status, accept_actor),
            quoted("status"@) + seq![':'] + quoted(status),
        ),
        accept_actor is Some ==> has_text(
            super::store::status_json(status, accept_actor),
            quoted("accept_actor"@) + seq![':'] + quoted(accept_actor->Some_0),
        ),
        accept_actor is None ==> has_text(
            super::store::status_json(status, accept_actor),
            quoted("accept_actor"@) + seq![':'] + "null"@,
        ),
{
    let members = seq![
        member("accept_actor"@, quoted_or_null(accept_actor)),
        member("status"@, quoted(status)),
    ];
    members_stand_in_the_object(members, 0);
    members_stand_in_the_object(members, 1);
}

/// The system accepts any item there is, in its own name, whatever its status.
pub proof fn the_system_accepts_in_its_own_name(
    client_id: Seq<char>,
    item_id: Seq<char>,
    actor_id: Seq<char>,
    expected_revision: Option<u64>,
    idempotency_key: Seq<char>,
    now_ms: u64,
    current: Option<ItemStatusRow>,
)
    ensures
        ({
            let plan = system_accept_plan(
                client_id,
                item_id,
                actor_id,
                expected_revision,
                idempotency_key,
                now_ms,
                current,
            );
            &&& plan is Ok <==> current is Some
            &&& plan is Err ==> plan == Err::<PlanView, _>(ErrorView::Domain("work_item_not_found"@))
            &&& plan is Ok ==> {
                let request = plan->Ok_0.request;
                &&& request.client_id == client_id
                &&& request.entity_kind == "work_item"@
                &&& request.entity_id == item_id
                &&& request.change_kind == "system_accept"@
                &&& request.actor_id == actor_id
                &&& request.actor_kind == ActorKindDto::System
                &&& request.expected_revision == expected_revision
                &&& request.idempotency_key == idempotency_key
                &&& request.now_ms == now_ms
                &&& plan->Ok_0.write == (WriteView::SetStatus {
                    status: "accepted"@,
                    accept_actor: Some("system"@),
                })
                &&& has_text(
                    request.before_json->Some_0,
                    quoted("status"@) + seq![':'] + quoted(current->Some_0.status@),
                )
            }
        }),
{
    if current is Some {
        status_stands_in_its_json(
            current->Some_0.status@,
            current->Some_0.accept_actor.deep_view(),
        );
    }
}

/// A list in which nothing occurs twice is its own list of first occurrences.
pub proof fn distinct_lists_are_kept(list: Seq<Seq<char>>)
    requires
        list.no_duplicates(),
    ensures
        first_occurrences(list) == list,
    decreases list.len(),
{
    if list.len() > 0 {
        let front = list.drop_last();
        assert(front.no_duplicates());
        distinct_lists_are_kept(front);
        assert(!front.contains(list.last())) by {
            if front.contains(list.last()) {
                let k = choose|k: int| 0 <= k < front.len() && front[k] == list.last();
                assert(list[k] == list[list.len() - 1]);
            }
        }
        assert(front.push(list.last()) =~= list);
    }
}

/// An operator replaces the kinds of an item that they see and that is not dismissed
/// with kinds of the catalog: those that they gave, each once, and as they gave them
/// where none is given twice.
pub proof fn operators_replace_the_kinds(
    ctx: ContextView,
    item_id: Seq<char>,
    packet_kinds: Seq<Seq<char>>,
    current: Option<ItemKindsRow>,
    visibility_row: bool,
)
    ensures
        ({
            let plan = packet_kinds_plan(ctx, item_id, packet_kinds, current, visibility_row);
            let kept = first_occurrences(packet_kinds);
            &&& plan is Ok <==> {
                &&& all_known(packet_kinds)
                &&& current is Some
                &&& sees(ctx.scope, current->Some_0.source_user_id.deep_view(), visibility_row)
                &&& current->Some_0.status@ != "dismissed"@
            }
            &&& plan is Ok ==> {
                &&& is_asked_by(plan->Ok_0.request, ctx, item_id)
                &&& plan->Ok_0.request.change_kind == "set_kinds"@
                &&& plan->Ok_0.write == (WriteView::SetPacketKinds {
                    packet_kinds_json: quoted_list(kept),
                })
                &&& plan->Ok_0.request.before_json == Some(
                    "{\"packet_kinds\":"@ + current->Some_0.packet_kinds_json@ + "}"@,
                )
                &&& plan->Ok_0.request.after_json == Some(
                    "{\"packet_kinds\":"@ + quoted_list(kept) + "}"@,
                )
            }
            &&& kept.no_duplicates()
            &&& forall|kind: Seq<char>| #[trigger]
                kept.contains(kind) <==> packet_kinds.contains(kind)
            &&& packet_kinds.no_duplicates() ==> kept == packet_kinds
            &&& all_known(packet_kinds) && current is None ==> plan == Err::<PlanView, _>(
                ErrorView::Domain("work_item_not_found"@),
            )
            &&& all_known(packet_kinds) && current is Some && !sees(
                ctx.scope,
                current->Some_0.source_user_id.deep_view(),
                visibility_row,
            ) ==> plan == Err::<PlanView, _>(ErrorView::Domain("scope_forbidden"@))
            &&& all_known(packet_kinds) && current is Some && sees(
                ctx.scope,
                current->Some_0.source_user_id.deep_view(),
                visibility_row,
            ) && plan is Err ==> plan == Err::<PlanView, _>(
                ErrorView::Domain("work_item_kinds_not_editable"@),
            )
        }),
{
    unknown_kinds_are_found(packet_kinds);
    merging_extends(Seq::empty(), packet_kinds);
    if packet_kinds.no_duplicates() {
        distinct_lists_are_kept(packet_kinds);
    }
}

/// An operator replaces the guidance of an item that they see and that is not
/// dismissed with a text of at most two thousand characters, trimmed.
pub proof fn operators_replace_the_guidance(
    ctx: ContextView,
    item_id: Seq<char>,
    produce_guidance: Seq<char>,
    current: Option<ItemGuidanceRow>,
    visibility_row: bool,
)
    ensures
        ({
            let plan = guidance_plan(ctx, item_id, produce_guidance, current, visibility_row);
            let text = trimmed(produce_guidance);
            &&& plan is Ok <==> {
                &&& text.len() <= 2000
                &&& current is Some
                &&& sees(ctx.scope, current->Some_0.source_user_id.deep_view(), visibility_row)
                &&& current->Some_0.status@ != "dismissed"@
            }
            &&& plan is Ok ==> {
                &&& is_asked_by(plan->Ok_0.request, ctx, item_id)
                &&& plan->Ok_0.request.change_kind == "set_guidance"@
                &&& plan->Ok_0.write == (WriteView::SetGuidance { produce_guidance: text })
                &&& has_text(
                    plan->Ok_0.request.before_json->Some_0,
                    quoted(current->Some_0.produce_guidance@),
                )
                &&& has_text(plan->Ok_0.request.after_json->Some_0, quoted(text))
            }
            &&& text.len() > 2000 ==> plan == Err::<PlanView, _>(
                ErrorView::Domain("work_item_guidance_too_long"@),
            )
            &&& text.len() <= 2000 && current is None ==> plan == Err::<PlanView, _>(
                ErrorView::Domain("work_item_not_found"@),
            )
        }),
{
    let text = trimmed(produce_guidance);
    guidance_stands_in_its_json(text);
    if current is Some {
        guidance_stands_in_its_json(current->Some_0.produce_guidance@);
    }
}

proof fn guidance_stands_in_its_json(text: Seq<char>)
    ensures
        has_text(super::store::guidance_json(text), quoted(text)),
{
    let one = member("produce_guidance"@, quoted(text));
    members_stand_in_the_object(seq![one], 0);
    value_stands_in_its_member("produce_guidance"@, quoted(text));
    super::prompt_laws::stands_within(super::store::guidance_json(text), one, quoted(text));
}

proof fn value_stands_in_its_member(key: Seq<char>, value: Seq<char>)
    ensures
        has_text(member(key, value), value),
{
    super::prompt_laws::stands_between(quoted(key) + seq![':'], value, Seq::empty());
    assert(quoted(key) + seq![':'] + value + Seq::<char>::empty() =~= member(key, value));
}

/// An item that the operator sees is assigned to themselves, where they are a named
/// user; to the user they name, where that one is active and sees the item; or to
/// nobody, where it is theirs or they see everything.
pub proof fn assignments_go_to_whom_they_are_for(
    ctx: ContextView,
    item_id: Seq<char>,
    action: WorkItemAssignActionKind,
    requested: Option<Seq<char>>,
    row: ItemAssignmentRow,
    visibility_row: bool,
    visible_user_ids: Seq<Seq<char>>,
    target_active: bool,
)
    ensures
        ({
            let plan = assignment_plan(
                ctx,
                item_id,
                action,
                requested,
                Some(row),
                visibility_row,
                visible_user_ids,
                target_active,
            );
            let named = requested is Some && trimmed(requested->Some_0).len() > 0;
            &&& plan is Ok <==> {
                &&& sees(ctx.scope, row.source_user_id.deep_view(), visibility_row)
                &&& match action {
                    WorkItemAssignActionKind::AssignToMe => ctx.scope is User && target_active,
                    WorkItemAssignActionKind::AssignToUser => named && target_active
                        && visible_user_ids.contains(trimmed(requested->Some_0)),
                    WorkItemAssignActionKind::Unassign => ctx.scope is All
                        || row.assignee_user_id.deep_view() == Some(ctx.scope->User_0),
                }
            }
            &&& plan is Ok ==> {
                &&& is_asked_by(plan->Ok_0.request, ctx, item_id)
                &&& plan->Ok_0.request.change_kind == "assign"@
                &&& plan->Ok_0.write == (WriteView::SetAssignee {
                    assignee_user_id: match action {
                        WorkItemAssignActionKind::AssignToMe => Some(ctx.scope->User_0),
                        WorkItemAssignActionKind::AssignToUser => Some(
                            trimmed(requested->Some_0),
                        ),
                        WorkItemAssignActionKind::Unassign => None,
                    },
                })
            }
            &&& !sees(ctx.scope, row.source_user_id.deep_view(), visibility_row) ==> plan
                == Err::<PlanView, _>(ErrorView::Domain("scope_forbidden"@))
            &&& assignment_plan(
                ctx,
                item_id,
                action,
                requested,
                None,
                visibility_row,
                visible_user_ids,
                target_active,
            ) == Err::<PlanView, _>(ErrorView::Domain("work_item_not_found"@))
        }),
{
}

/// A new item is stored as it is, created by its actor, and shown to the users it
/// names, trimmed and each once, or to the user it came from where it names none.
pub proof fn new_items_are_stored_and_shown(
    client_id: Seq<char>,
    item: ItemView,
    item_json: Seq<char>,
    actor_id: Seq<char>,
    actor_kind: ActorKindDto,
    idempotency_key: Seq<char>,
)
    ensures
        ({
            let plan = insert_plan(
                client_id,
                item,
                item_json,
                actor_id,
                actor_kind,
                idempotency_key,
            );
            let users = plan.write->InsertItem_visible_to_user_ids;
            &&& plan.request.client_id == client_id
            &&& plan.request.entity_kind == "work_item"@
            &&& plan.request.entity_id == item.item_id
            &&& plan.request.change_kind == "emit"@
            &&& plan.request.actor_id == actor_id
            &&& plan.request.actor_kind == actor_kind
            &&& plan.request.expected_revision is None
            &&& plan.request.idempotency_key == idempotency_key
            &&& plan.request.before_json is None
            &&& plan.request.after_json == Some(item_json)
            &&& plan.request.now_ms == item.created_at_ms
            &&& plan.write is InsertItem
            &&& plan.write->item == item
            &&& plan.write->InsertItem_packet_kinds_json == quoted_list(item.packet_kinds)
            &&& users.no_duplicates()
            &&& (exists|j: int|
                0 <= j < item.visible_to_user_ids.len() && trimmed(
                    #[trigger] item.visible_to_user_ids[j],
                ).len() > 0) ==> forall|user_id: Seq<char>| #[trigger]
                users.contains(user_id) <==> user_id.len() > 0 && exists|j: int|
                    0 <= j < item.visible_to_user_ids.len() && trimmed(
                        #[trigger] item.visible_to_user_ids[j],
                    ) == user_id
            &&& !(exists|j: int|
                0 <= j < item.visible_to_user_ids.len() && trimmed(
                    #[trigger] item.visible_to_user_ids[j],
                ).len() > 0) ==> users == (if item.source_user_id is Some && trimmed(
                item.source_user_id->Some_0,
            ).len() > 0 {
                seq![trimmed(item.source_user_id->Some_0)]
            } else {
                Seq::empty()
            })
        }),
{
    let named = item.visible_to_user_ids;
    let ids = unique_ids(named);
    merging_extends(Seq::empty(), filled(named));
    assert forall|user_id: Seq<char>| #[trigger] ids.contains(user_id) <==> user_id.len() > 0
        && exists|j: int| 0 <= j < named.len() && trimmed(#[trigger] named[j]) == user_id by {
        filled_texts_are_trimmed(named, user_id);
    }
    if exists|j: int| 0 <= j < named.len() && trimmed(#[trigger] named[j]).len() > 0 {
        let j = choose|j: int| 0 <= j < named.len() && trimmed(#[trigger] named[j]).len() > 0;
        assert(ids.contains(trimmed(named[j])));
    } else if ids.len() > 0 {
        assert(ids.contains(ids[0]));
    }
}

/// An emission is the emitter's, under a key that its source has for itself.
pub proof fn emissions_run_under_their_source(
    client_id: Seq<char>,
    item: ItemView,
    item_json: Seq<char>,
)
    ensures
        ({
            let plan = emit_plan(client_id, item, item_json);
            &&& plan.request.actor_id == "work_queue_emitter"@
            &&& plan.request.actor_kind == ActorKindDto::System
            &&& plan.request.idempotency_key == "emit:"@ + item.source_kind + ":"@
                + item.source_ref
            &&& plan.request.client_id == client_id
            &&& plan.request.entity_id == item.item_id
            &&& plan.request.after_json == Some(item_json)
            &&& plan.write is InsertItem
            &&& plan.write->item == item
        }),
{
}

/// An item is shown to exactly the users that are named, not blank, and do not see it
/// yet, each once; where there are none nothing is planned.
pub proof fn visibility_is_added_to_who_lacks_it(
    client_id: Seq<char>,
    item_id: Seq<char>,
    user_ids: Seq<Seq<char>>,
    stored: Seq<Seq<char>>,
    actor_id: Seq<char>,
    idempotency_key: Seq<char>,
    now_ms: u64,
)
    ensures
        ({
            let plan = visibility_plan(
                client_id,
                item_id,
                user_ids,
                stored,
                actor_id,
                idempotency_key,
                now_ms,
            );
            let more = visibility_additions(user_ids, stored);
            &&& more.no_duplicates()
            &&& forall|id: Seq<char>| #[trigger]
                more.contains(id) <==> id.len() > 0 && !stored.contains(id) && exists|j: int|
                    0 <= j < user_ids.len() && trimmed(#[trigger] user_ids[j]) == id
            &&& plan is Some <==> more.len() > 0
            &&& plan is Some ==> {
                let request = plan->Some_0.request;
                &&& request.client_id == client_id
                &&& request.entity_kind == "work_item"@
                &&& request.entity_id == item_id
                &&& request.change_kind == "set_visibility"@
                &&& request.actor_id == actor_id
                &&& request.actor_kind == ActorKindDto::System
                &&& request.idempotency_key == idempotency_key
                &&& request.expected_revision is None
                &&& request.now_ms == now_ms
                &&& plan->Some_0.write == (WriteView::AddVisibility { user_ids: more })
            }
        }),
{
    additions_are_what_is_missing(user_ids, stored);
}

proof fn additions_are_what_is_missing(user_ids: Seq<Seq<char>>, stored: Seq<Seq<char>>)
    ensures
        visibility_additions(user_ids, stored).no_duplicates(),
        forall|id: Seq<char>| #[trigger]
            visibility_additions(user_ids, stored).contains(id) <==> id.len() > 0
                && !stored.contains(id) && exists|j: int|
                0 <= j < user_ids.len() && trimmed(#[trigger] user_ids[j]) == id,
    decreases user_ids.len(),
{
    if user_ids.len() > 0 {
        let front = user_ids.drop_last();
        let so_far = visibility_additions(front, stored);
        let all = visibility_additions(user_ids, stored);
        let last = trimmed(user_ids.last());
        additions_are_what_is_missing(front, stored);
        assert(user_ids[user_ids.len() - 1] == user_ids.last());
        assert forall|id: Seq<char>| #[trigger] all.contains(id) <==> id.len() > 0
            && !stored.contains(id) && exists|j: int|
            0 <= j < user_ids.len() && trimmed(#[trigger] user_ids[j]) == id by {
            assert(so_far.contains(id) <==> id.len() > 0 && !stored.contains(id) && exists|j: int|
                0 <= j < front.len() && trimmed(#[trigger] front[j]) == id);
            if so_far.contains(id) {
                let k = choose|k: int| 0 <= k < so_far.len() && so_far[k] == id;
                assert(all[k] == id);
                let j = choose|j: int| 0 <= j < front.len() && trimmed(#[trigger] front[j]) == id;
                assert(user_ids[j] == front[j]);
            }
            if all.contains(id) {
                let k = choose|k: int| 0 <= k < all.len() && all[k] == id;
                if k < so_far.len() {
                    assert(so_far[k] == id);
                }
            }
            if id.len() > 0 && !stored.contains(id) && exists|j: int|
                0 <= j < user_ids.len() && trimmed(#[trigger] user_ids[j]) == id {
                let j = choose|j: int|
                    0 <= j < user_ids.len() && trimmed(#[trigger] user_ids[j]) == id;
                if j < front.len() {
                    assert(front[j] == user_ids[j]);
                } else if !so_far.contains(id) {
                    assert(all[so_far.len() as int] == id);
                }
            }
        }
    }
}

/// The AI's suggestion is its triage's, and the receipt keeps what the item said
/// before; unknown kinds and missing items are refused, a dismissed item is left
/// alone.
pub proof fn suggestions_are_the_triages(
    client_id: Seq<char>,
    item_id: Seq<char>,
    packet_kinds: Seq<Seq<char>>,
    rationale: Seq<char>,
    now_ms: u64,
    current: Option<ItemSuggestionRow>,
    spent: Seq<Seq<char>>,
)
    ensures
        ({
            let plan = suggestion_plan(
                client_id,
                item_id,
                packet_kinds,
                rationale,
                now_ms,
                current,
                spent,
            );
            &&& plan is Ok <==> all_known(packet_kinds) && current is Some
            &&& all_known(packet_kinds) && current is None ==> plan
                == Err::<Option<PlanView>, _>(ErrorView::Domain("work_item_not_found"@))
            &&& plan is Ok && current->Some_0.status@ == "dismissed"@ ==> plan->Ok_0 is None
            &&& plan is Ok && plan->Ok_0 is Some ==> {
                let request = plan->Ok_0->Some_0.request;
                &&& request.client_id == client_id
                &&& request.entity_kind == "work_item"@
                &&& request.entity_id == item_id
                &&& request.change_kind == "ai_add_kinds"@
                &&& request.actor_id == "ai_triage_pass"@
                &&& request.actor_kind == ActorKindDto::Agent
                &&& request.expected_revision is None
                &&& request.correlation_id == Some(item_id)
                &&& request.now_ms == now_ms
                &&& plan->Ok_0->Some_0.write is AddAiPacketKinds
                &&& plan->Ok_0->Some_0.write->rationale == rationale
                &&& has_text(
                    request.before_json->Some_0,
                    quoted("rationale"@) + seq![':'] + quoted(current->Some_0.rationale@),
                )
                &&& has_text(
                    request.after_json->Some_0,
                    quoted("rationale"@) + seq![':'] + quoted(rationale),
                )
                &&& has_text(
                    request.after_json->Some_0,
                    quoted("ai_suggested"@) + seq![':'] + "true"@,
                )
            }
        }),
{
    unknown_kinds_are_found(packet_kinds);
    let plan = suggestion_plan(
        client_id,
        item_id,
        packet_kinds,
        rationale,
        now_ms,
        current,
        spent,
    );
    if plan is Ok && plan->Ok_0 is Some {
        let row = current->Some_0;
        let before = crate::json::stored_strings(row.packet_kinds_json@);
        suggestion_json_says(
            super::store::receipted_json(row.packet_kinds_json@),
            row.ai_suggested,
            row.rationale@,
        );
        suggestion_json_says(quoted_list(merged(before, packet_kinds)), true, rationale);
    }
}

proof fn suggestion_json_says(kinds: Seq<char>, ai_suggested: bool, rationale: Seq<char>)
    ensures
        has_text(
            super::store::suggestion_json(kinds, ai_suggested, rationale),
            quoted("rationale"@) + seq![':'] + quoted(rationale),
        ),
        ai_suggested ==> has_text(
            super::store::suggestion_json(kinds, ai_suggested, rationale),
            quoted("ai_suggested"@) + seq![':'] + "true"@,
        ),
{
    let members = seq![
        member("ai_suggested"@, crate::json::bool_json(ai_suggested)),
        member("packet_kinds"@, kinds),
        member("rationale"@, quoted(rationale)),
    ];
    members_stand_in_the_object(members, 0);
    members_stand_in_the_object(members, 2);
}

/// A launch is recorded as the operator's, for its item and under its key, and
/// enqueues its job as it is; the receipt keeps how long the context was and which
/// job it is, not the context.
pub proof fn launches_are_recorded_with_their_job(
    client_id: Seq<char>,
    item_id: Seq<char>,
    actor_id: Seq<char>,
    operator_context: Seq<char>,
    job: JobView,
    idempotency_key: Seq<char>,
    now_ms: u64,
)
    ensures
        ({
            let plan = launch_request_plan(
                client_id,
                item_id,
                actor_id,
                operator_context,
                job,
                idempotency_key,
                now_ms,
            );
            &&& plan.request.client_id == client_id
            &&& plan.request.entity_kind == "work_item_agent_launch"@
            &&& plan.request.entity_id == item_id
            &&& plan.request.change_kind == "launch_agent"@
            &&& plan.request.actor_id == actor_id
            &&& plan.request.actor_kind == ActorKindDto::Operator
            &&& plan.request.idempotency_key == idempotency_key
            &&& plan.request.correlation_id == Some(item_id)
            &&& plan.request.expected_revision is None
            &&& plan.request.before_json is None
            &&& plan.request.now_ms == now_ms
            &&& plan.write == (WriteView::EnqueueJob { job })
            &&& has_text(
                plan.request.after_json->Some_0,
                quoted("context_chars"@) + seq![':'] + decimal(operator_context.len()),
            )
            &&& has_text(
                plan.request.after_json->Some_0,
                quoted("outbox_job_id"@) + seq![':'] + quoted(job.job_id),
            )
        }),
{
    let members = seq![
        member("context_chars"@, decimal(operator_context.len())),
        member("item_id"@, quoted(item_id)),
        member("outbox_job_id"@, quoted(job.job_id)),
    ];
    members_stand_in_the_object(members, 0);
    members_stand_in_the_object(members, 2);
}

/// A change to an item is one statement on the item's row, and binds what is written
/// and the moment it is written.
pub proof fn changes_bind_what_they_write(request: RequestView, write: WriteView)
    ensures
        ({
            let statements = write_statements(request, write);
            let client = SqlView::Text(request.client_id);
            let item = SqlView::Text(request.entity_id);
            let now = SqlView::Integer(request.now_ms as i64);
            match write {
                WriteView::SetStatus { status, accept_actor } => {
                    &&& statements.len() == 1
                    &&& statements[0].binds == seq![
                        client,
                        item,
                        SqlView::Text(status),
                        match accept_actor {
                            Some(actor) => SqlView::Text(actor),
                            None => SqlView::Null,
                        },
                        now,
                    ]
                },
                WriteView::SetPacketKinds { packet_kinds_json } => {
                    &&& statements.len() == 1
                    &&& statements[0].binds == seq![
                        client,
                        item,
                        SqlView::Text(packet_kinds_json),
                        now,
                    ]
                },
                WriteView::AddAiPacketKinds { packet_kinds_json, rationale } => {
                    &&& statements.len() == 1
                    &&& statements[0].binds == seq![
                        client,
                        item,
                        SqlView::Text(packet_kinds_json),
                        SqlView::Text(rationale),
                        now,
                    ]
                },
                WriteView::SetGuidance { produce_guidance } => {
                    &&& statements.len() == 1
                    &&& statements[0].binds == seq![
                        client,
                        item,
                        SqlView::Text(produce_guidance),
                        now,
                    ]
                },
                WriteView::SetAssignee { assignee_user_id } => {
                    &&& statements.len() == 1
                    &&& statements[0].binds == seq![
                        client,
                        item,
                        match assignee_user_id {
                            Some(user_id) => SqlView::Text(user_id),
                            None => SqlView::Null,
                        },
                        now,
                    ]
                },
                WriteView::AddVisibility { user_ids } => {
                    &&& statements.len() == user_ids.len()
                    &&& forall|i: int|
                        0 <= i < user_ids.len() ==> (#[trigger] statements[i]).binds == seq![
                            client,
                            item,
                            SqlView::Text(user_ids[i]),
                            now,
                        ]
                },
                WriteView::InsertItem { item, packet_kinds_json, visible_to_user_ids } => {
                    &&& statements.len() == visible_to_user_ids.len() + 1
                    &&& forall|i: int|
                        0 <= i < visible_to_user_ids.len() ==> (
                        #[trigger] statements[i + 1]).binds == seq![
                            client,
                            SqlView::Text(item.item_id),
                            SqlView::Text(visible_to_user_ids[i]),
                            SqlView::Integer(item.created_at_ms as i64),
                        ]
                },
                WriteView::WritePolicy { columns } => statements.len() == 1,
                WriteView::EnqueueJob { .. } => statements.len() == 0,
            }
        }),
{
    let statements = write_statements(request, write);
    let client = SqlView::Text(request.client_id);
    let item = SqlView::Text(request.entity_id);
    let now = SqlView::Integer(request.now_ms as i64);
    match write {
        WriteView::SetStatus { status, accept_actor } => {
            assert(statements[0].binds =~= seq![
                client,
                item,
                SqlView::Text(status),
                match accept_actor {
                    Some(actor) => SqlView::Text(actor),
                    None => SqlView::Null,
                },
                now,
            ]);
        },
        WriteView::SetPacketKinds { packet_kinds_json } => {
            assert(statements[0].binds =~= seq![
                client,
                item,
                SqlView::Text(packet_kinds_json),
                now,
            ]);
        },
        WriteView::AddAiPacketKinds { packet_kinds_json, rationale } => {
            assert(statements[0].binds =~= seq![
                client,
                item,
                SqlView::Text(packet_kinds_json),
                SqlView::Text(rationale),
                now,
            ]);
        },
        WriteView::SetGuidance { produce_guidance } => {
            assert(statements[0].binds =~= seq![
                client,
                item,
                SqlView::Text(produce_guidance),
                now,
            ]);
        },
        WriteView::SetAssignee { assignee_user_id } => {
            assert(statements[0].binds =~= seq![
                client,
                item,
                match assignee_user_id {
                    Some(user_id) => SqlView::Text(user_id),
                    None => SqlView::Null,
                },
                now,
            ]);
        },
        _ => {},
    }
}

} // verus!
