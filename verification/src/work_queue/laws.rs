//! What holds of every decision on the queue.

use vstd::prelude::*;

use crate::contracts::email_identity::AttentionLevel;
use crate::contracts::work_queue::{
    WorkItemAcceptActor, WorkItemAssignActionKind, WorkItemStatus,
};
use crate::http::{scope_sees, ScopeView};
use crate::json::{quoted_list, stored_strings};
use crate::ledger::{
    applied_under, idempotency_key_replays_without_reapplying, is_applied, ledger_after, ledger_ok,
    ledger_through, verdict_on, Attempt, LedgerView,
};
use crate::lists::{
    case_tells_apart_none, collapsing_leaves_each_once, filled, first_occurrences, merged,
    merging_extends, runs_collapsed,
};
use crate::receipt_laws::matching_selects;
use crate::receipt_query::all_hold;
use crate::sql::{flag, text_or_null, SqlView};
use crate::store_core::{stored_revision_reads_back, ErrorView, ReceiptView, RequestView};
use crate::text::{
    ascending_lists_are_unique, case_blind_sorted, common_beginnings_do_not_order,
    sorting_orders_and_keeps, trimmed,
};
use super::items::{entry_of, ItemRow};
use super::model::ItemView;
use super::plan::{item_insert, refused, write_statements, ContextView, PlanView, WriteView};
use super::queries::spent_keys_query;
use super::service::{gated_kinds, is_deferred_kind, visibility_key, without_deferred};
use super::store::{
    added_kinds_plan, assignment_plan, emit_plan, first_unknown_kind, guidance_plan,
    item_action_plan, packet_kinds_plan, status_text, stored_item_texts_read_back,
    suggestion_key, suggestion_prefix, unspent, unspent_is_free, visibility_additions,
    visibility_plan, ItemAction, ItemAssignmentRow, ItemGuidanceRow, ItemKindsRow, ItemStatusRow,
    ItemSuggestionRow, PRODUCE_GUIDANCE_MAX_CHARS,
};
use super::kind_in_catalog;

verus! {

/// No operator changes an item that is out of their scope: the item's status, its
/// kinds, its guidance and its assignment are all refused.
pub proof fn out_of_scope_items_are_not_changed(
    ctx: ContextView,
    item_id: Seq<char>,
    action: ItemAction,
    status: ItemStatusRow,
    packet_kinds: Seq<Seq<char>>,
    kinds: ItemKindsRow,
    produce_guidance: Seq<char>,
    guidance: ItemGuidanceRow,
    assign: WorkItemAssignActionKind,
    requested: Option<Seq<char>>,
    assignment: ItemAssignmentRow,
    visible_user_ids: Seq<Seq<char>>,
    target_active: bool,
)
    ensures
        !scope_sees(ctx.scope, status.source_user_id.deep_view(), false) ==> item_action_plan(
            ctx,
            item_id,
            action,
            Some(status),
            false,
        ) == refused::<PlanView>("scope_forbidden"@),
        !scope_sees(ctx.scope, kinds.source_user_id.deep_view(), false) ==> packet_kinds_plan(
            ctx,
            item_id,
            packet_kinds,
            Some(kinds),
            false,
        ) is Err,
        !scope_sees(ctx.scope, guidance.source_user_id.deep_view(), false) ==> guidance_plan(
            ctx,
            item_id,
            produce_guidance,
            Some(guidance),
            false,
        ) is Err,
        !scope_sees(ctx.scope, assignment.source_user_id.deep_view(), false) ==> assignment_plan(
            ctx,
            item_id,
            assign,
            requested,
            Some(assignment),
            false,
            visible_user_ids,
            target_active,
        ) == refused::<PlanView>("scope_forbidden"@),
{
}

/// A visibility row, or the scope of the whole queue, puts any item in scope.
pub proof fn visibility_rows_put_items_in_scope(
    scope: ScopeView,
    source_user_id: Option<Seq<char>>,
    visibility_row: bool,
)
    ensures
        visibility_row ==> scope_sees(scope, source_user_id, visibility_row),
        scope is All ==> scope_sees(scope, source_user_id, visibility_row),
        scope is User && source_user_id is None && !visibility_row ==> !scope_sees(
            scope,
            source_user_id,
            visibility_row,
        ),
{
}

/// A dismissed item keeps its kinds and its guidance: whoever asks is refused.
pub proof fn dismissed_items_are_not_edited(
    ctx: ContextView,
    item_id: Seq<char>,
    packet_kinds: Seq<Seq<char>>,
    kinds: ItemKindsRow,
    produce_guidance: Seq<char>,
    guidance: ItemGuidanceRow,
    visibility_row: bool,
)
    ensures
        kinds.status@ == status_text(WorkItemStatus::Dismissed) ==> packet_kinds_plan(
            ctx,
            item_id,
            packet_kinds,
            Some(kinds),
            visibility_row,
        ) is Err,
        guidance.status@ == status_text(WorkItemStatus::Dismissed) ==> guidance_plan(
            ctx,
            item_id,
            produce_guidance,
            Some(guidance),
            visibility_row,
        ) is Err,
{
}

/// Whatever an item's status, the operator who sees it may accept, dismiss and
/// reopen it, and a reopened item is open with nobody recorded as its accepter.
pub proof fn every_visible_item_can_be_reopened(
    ctx: ContextView,
    item_id: Seq<char>,
    action: ItemAction,
    row: ItemStatusRow,
    visibility_row: bool,
)
    requires
        scope_sees(ctx.scope, row.source_user_id.deep_view(), visibility_row),
    ensures
        item_action_plan(ctx, item_id, action, Some(row), visibility_row) is Ok,
        item_action_plan(ctx, item_id, ItemAction::Reopen, Some(row), visibility_row)->Ok_0.write
            == (WriteView::SetStatus {
            status: status_text(WorkItemStatus::Open),
            accept_actor: None,
        }),
{
}

/// Who is assigned by name is an active user who sees the item.
pub proof fn assignees_are_active_and_see_the_item(
    ctx: ContextView,
    item_id: Seq<char>,
    action: WorkItemAssignActionKind,
    requested: Option<Seq<char>>,
    current: Option<ItemAssignmentRow>,
    visibility_row: bool,
    visible_user_ids: Seq<Seq<char>>,
    target_active: bool,
)
    requires
        assignment_plan(
            ctx,
            item_id,
            action,
            requested,
            current,
            visibility_row,
            visible_user_ids,
            target_active,
        ) is Ok,
    ensures
        ({
            let write = assignment_plan(
                ctx,
                item_id,
                action,
                requested,
                current,
                visibility_row,
                visible_user_ids,
                target_active,
            )->Ok_0.write;
            &&& write is SetAssignee
            &&& write->assignee_user_id is Some ==> target_active
            &&& write->assignee_user_id is Some && action == WorkItemAssignActionKind::AssignToUser
                ==> visible_user_ids.contains(write->assignee_user_id->Some_0)
        }),
{
}

/// Where none is unknown, every kind is in the catalog.
pub proof fn known_kinds_are_in_the_catalog(kinds: Seq<Seq<char>>)
    requires
        first_unknown_kind(kinds) is None,
    ensures
        forall|kind: Seq<char>| #[trigger] kinds.contains(kind) ==> kind_in_catalog(kind),
    decreases kinds.len(),
{
    if kinds.len() > 0 {
        known_kinds_are_in_the_catalog(kinds.drop_first());
        assert forall|kind: Seq<char>| #[trigger] kinds.contains(kind) implies kind_in_catalog(
            kind,
        ) by {
            let i = choose|i: int| 0 <= i < kinds.len() && kinds[i] == kind;
            if i > 0 {
                assert(kinds.drop_first()[i - 1] == kind);
                assert(kinds.drop_first().contains(kind));
            }
        }
    }
}

/// The kinds that an operator gives an item are in the catalog, each once, in the
/// order in which they were given first.
pub proof fn planned_kinds_are_known_and_distinct(
    ctx: ContextView,
    item_id: Seq<char>,
    packet_kinds: Seq<Seq<char>>,
    current: Option<ItemKindsRow>,
    visibility_row: bool,
)
    requires
        packet_kinds_plan(ctx, item_id, packet_kinds, current, visibility_row) is Ok,
    ensures
        first_occurrences(packet_kinds).no_duplicates(),
        forall|kind: Seq<char>| #[trigger]
            first_occurrences(packet_kinds).contains(kind) ==> kind_in_catalog(kind)
                && packet_kinds.contains(kind),
{
    merging_extends(Seq::empty(), packet_kinds);
    known_kinds_are_in_the_catalog(packet_kinds);
    assert forall|kind: Seq<char>| #[trigger]
        first_occurrences(packet_kinds).contains(kind) implies kind_in_catalog(kind)
        && packet_kinds.contains(kind) by {
        assert(!Seq::<Seq<char>>::empty().contains(kind));
        assert(packet_kinds.contains(kind));
    }
}

/// The guidance that is stored is within its limit.
pub proof fn planned_guidance_is_within_its_limit(
    ctx: ContextView,
    item_id: Seq<char>,
    produce_guidance: Seq<char>,
    current: Option<ItemGuidanceRow>,
    visibility_row: bool,
)
    requires
        guidance_plan(ctx, item_id, produce_guidance, current, visibility_row) is Ok,
    ensures
        guidance_plan(ctx, item_id, produce_guidance, current, visibility_row)->Ok_0.write
            == (WriteView::SetGuidance { produce_guidance: trimmed(produce_guidance) }),
        trimmed(produce_guidance).len() <= PRODUCE_GUIDANCE_MAX_CHARS,
{
}

/// What an AI adds to an item leaves the kinds it has where they are, and a
/// suggestion that adds nothing plans nothing.
pub proof fn suggestions_keep_what_is_there(
    client_id: Seq<char>,
    item_id: Seq<char>,
    before: Seq<Seq<char>>,
    before_json: Seq<char>,
    row: ItemSuggestionRow,
    packet_kinds: Seq<Seq<char>>,
    rationale: Seq<char>,
    now_ms: u64,
    spent: Seq<Seq<char>>,
)
    ensures
        before.is_prefix_of(merged(before, packet_kinds)),
        added_kinds_plan(
            client_id,
            item_id,
            before,
            before_json,
            row,
            packet_kinds,
            rationale,
            now_ms,
            spent,
        ) is None <==> forall|kind: Seq<char>| #[trigger]
            packet_kinds.contains(kind) ==> before.contains(kind),
{
    let all = merged(before, packet_kinds);
    merging_extends(before, packet_kinds);
    if all.len() == before.len() {
        assert(all =~= before);
        assert forall|kind: Seq<char>| #[trigger] packet_kinds.contains(kind) implies before.contains(
            kind,
        ) by {
            assert(all.contains(kind));
        }
    }
    if forall|kind: Seq<char>| #[trigger] packet_kinds.contains(kind) ==> before.contains(kind) {
        crate::lists::merging_again_adds_nothing(before, packet_kinds);
    }
}

proof fn additions_complete_the_rows(user_ids: Seq<Seq<char>>, stored: Seq<Seq<char>>)
    ensures
        forall|i: int|
            0 <= i < user_ids.len() && trimmed(#[trigger] user_ids[i]).len() > 0 ==> (
            visibility_additions(user_ids, stored) + stored).contains(trimmed(user_ids[i])),
    decreases user_ids.len(),
{
    if user_ids.len() > 0 {
        let front = user_ids.drop_last();
        let id = trimmed(user_ids.last());
        additions_complete_the_rows(front, stored);
        let so_far = visibility_additions(front, stored);
        let all = visibility_additions(user_ids, stored);
        assert forall|i: int|
            0 <= i < user_ids.len() && trimmed(#[trigger] user_ids[i]).len() > 0 implies (all
            + stored).contains(trimmed(user_ids[i])) by {
            let t = trimmed(user_ids[i]);
            if i < front.len() {
                assert(front[i] == user_ids[i]);
                assert((so_far + stored).contains(t));
                let k = choose|k: int| 0 <= k < (so_far + stored).len() && (so_far + stored)[k] == t;
                if k < so_far.len() {
                    assert(all[k] == t);
                    assert((all + stored)[k] == t);
                } else {
                    assert((all + stored)[all.len() + k - so_far.len()] == t);
                }
            } else if stored.contains(id) {
                let k = choose|k: int| 0 <= k < stored.len() && stored[k] == id;
                assert((all + stored)[all.len() + k] == t);
            } else {
                if so_far.contains(id) {
                    let k = choose|k: int| 0 <= k < so_far.len() && so_far[k] == id;
                    assert((all + stored)[k] == t);
                } else {
                    assert((all + stored)[so_far.len() as int] == t);
                }
            }
        }
    }
}

proof fn nothing_is_missing_twice(user_ids: Seq<Seq<char>>, stored: Seq<Seq<char>>)
    requires
        forall|i: int|
            0 <= i < user_ids.len() && trimmed(#[trigger] user_ids[i]).len() > 0 ==> stored.contains(
                trimmed(user_ids[i]),
            ),
    ensures
        visibility_additions(user_ids, stored).len() == 0,
    decreases user_ids.len(),
{
    if user_ids.len() > 0 {
        assert forall|i: int|
            0 <= i < user_ids.drop_last().len() && trimmed(
                #[trigger] user_ids.drop_last()[i],
            ).len() > 0 implies stored.contains(trimmed(user_ids.drop_last()[i])) by {
            assert(user_ids[i] == user_ids.drop_last()[i]);
        }
        nothing_is_missing_twice(user_ids.drop_last(), stored);
        assert(user_ids[user_ids.len() - 1] == user_ids.last());
    }
}

/// Once an item is shown to users, showing it to them again plans nothing.
pub proof fn visibility_is_added_once(
    client_id: Seq<char>,
    item_id: Seq<char>,
    user_ids: Seq<Seq<char>>,
    stored: Seq<Seq<char>>,
    actor_id: Seq<char>,
    idempotency_key: Seq<char>,
    now_ms: u64,
)
    ensures
        visibility_plan(
            client_id,
            item_id,
            user_ids,
            visibility_additions(user_ids, stored) + stored,
            actor_id,
            idempotency_key,
            now_ms,
        ) is None,
{
    additions_complete_the_rows(user_ids, stored);
    nothing_is_missing_twice(user_ids, visibility_additions(user_ids, stored) + stored);
}

/// Lower attention defers exactly the deferred kinds and keeps the order of the
/// others; any other attention, or none, keeps every kind.
pub proof fn only_lower_attention_defers_kinds(
    kinds: Seq<Seq<char>>,
    attention: Option<AttentionLevel>,
)
    ensures
        attention != Some(AttentionLevel::Lower) ==> gated_kinds(kinds, attention) == kinds,
        attention == Some(AttentionLevel::Lower) ==> gated_kinds(kinds, attention) == kinds.filter(
            |kind: Seq<char>| !is_deferred_kind(kind),
        ),
{
    deferring_filters(kinds);
}

proof fn deferring_filters(kinds: Seq<Seq<char>>)
    ensures
        without_deferred(kinds) == kinds.filter(|kind: Seq<char>| !is_deferred_kind(kind)),
    decreases kinds.len(),
{
    reveal(Seq::filter);
    if kinds.len() > 0 {
        deferring_filters(kinds.drop_last());
    }
}

/// The key of a set of users does not depend on the order in which they are
/// listed, nor on how often: two lists of the same users have the same key, where
/// no two of them differ in the case of ASCII letters alone.
pub proof fn visibility_keys_are_stable(a: Seq<Seq<char>>, b: Seq<Seq<char>>)
    requires
        forall|id: Seq<char>| #[trigger] filled(a).contains(id) <==> filled(b).contains(id),
        case_tells_apart_none(filled(a)),
    ensures
        visibility_key(a) == visibility_key(b),
{
    let sa = case_blind_sorted(filled(a));
    let sb = case_blind_sorted(filled(b));
    sorting_orders_and_keeps(filled(a));
    sorting_orders_and_keeps(filled(b));
    assert forall|x: Seq<char>| #[trigger] sb.contains(x) <==> filled(a).contains(x) by {
        assert(filled(a).contains(x) <==> filled(b).contains(x));
    }
    collapsing_leaves_each_once(sa);
    collapsing_leaves_each_once(sb);
    let ra = runs_collapsed(sa);
    let rb = runs_collapsed(sb);
    assert forall|x: Seq<char>| #[trigger] ra.contains(x) <==> rb.contains(x) by {
        assert(sa.contains(x) <==> filled(a).contains(x));
        assert(sb.contains(x) <==> filled(a).contains(x));
        assert(rb.contains(x) <==> sb.contains(x));
    }
    ascending_lists_are_unique(ra, rb);
}

/// Every statement of a write binds its client first, so that no write reaches
/// another client's rows.
pub proof fn writes_name_their_client(request: RequestView, write: WriteView, i: int)
    requires
        0 <= i < write_statements(request, write).len(),
    ensures
        write_statements(request, write)[i].binds.len() > 0,
        write_statements(request, write)[i].binds[0] == SqlView::Text(request.client_id),
{
}

/// Once an item of a source is stored, storing an item of the same source again,
/// whatever it says and whatever was asked in between, is a replay: the source
/// keeps its one item.
pub proof fn re_emits_replay_quietly(
    ledger: LedgerView,
    client_id: Seq<char>,
    item: ItemView,
    item_json: Seq<char>,
    between: Seq<Attempt>,
    again: ItemView,
    again_json: Seq<char>,
    again_error: Option<ErrorView>,
)
    requires
        ledger_ok(ledger),
        again.source_kind == item.source_kind,
        again.source_ref == item.source_ref,
        verdict_on(ledger, emit_plan(client_id, item, item_json).request, None) is Applied,
    ensures
        verdict_on(
            ledger_through(
                ledger_after(ledger, emit_plan(client_id, item, item_json).request, None),
                between,
            ),
            emit_plan(client_id, again, again_json).request,
            again_error,
        ) is Replayed,
{
    idempotency_key_replays_without_reapplying(
        ledger,
        emit_plan(client_id, item, item_json).request,
        None,
        between,
        emit_plan(client_id, again, again_json).request,
        again_error,
    );
}

/// The row holds the values that a statement storing an item binds.
pub open spec fn row_holds(row: ItemRow, client_id: Seq<char>, binds: Seq<SqlView>) -> bool {
    &&& binds == seq![
        SqlView::Text(client_id),
        SqlView::Text(row.item_id@),
        SqlView::Text(row.source_kind@),
        SqlView::Text(row.source_ref@),
        SqlView::Text(row.category_id@),
        SqlView::Text(row.title@),
        SqlView::Text(row.summary@),
        SqlView::Text(row.packet_kinds_json@),
        SqlView::Text(row.status@),
        text_or_null(row.accept_actor.deep_view()),
        flag(row.ai_suggested),
        SqlView::Text(row.rationale@),
        SqlView::Text(row.produce_guidance@),
        SqlView::Integer(row.created_at_ms),
        text_or_null(row.source_user_id.deep_view()),
        text_or_null(row.assignee_user_id.deep_view()),
    ]
    &&& row.updated_at_ms == row.created_at_ms
}

/// An item reads back from its row as it was stored: its row says when it was
/// stored, and the visibility rows say who sees it.
pub proof fn stored_items_read_back(
    client_id: Seq<char>,
    item: ItemView,
    packet_kinds_json: Seq<char>,
    row: ItemRow,
    visible_to_user_ids: Seq<Seq<char>>,
)
    requires
        stored_strings(packet_kinds_json) == item.packet_kinds,
        row_holds(row, client_id, item_insert(client_id, item, packet_kinds_json).binds),
    ensures
        entry_of(row, stored_strings(row.packet_kinds_json@), visible_to_user_ids).item
            == (ItemView { updated_at_ms: item.created_at_ms, visible_to_user_ids, ..item }),
{
    let binds = item_insert(client_id, item, packet_kinds_json).binds;
    assert(binds[1] == SqlView::Text(row.item_id@));
    assert(binds[2] == SqlView::Text(row.source_kind@));
    assert(binds[3] == SqlView::Text(row.source_ref@));
    assert(binds[4] == SqlView::Text(row.category_id@));
    assert(binds[5] == SqlView::Text(row.title@));
    assert(binds[6] == SqlView::Text(row.summary@));
    assert(binds[7] == SqlView::Text(row.packet_kinds_json@));
    assert(binds[8] == SqlView::Text(row.status@));
    assert(binds[9] == text_or_null(row.accept_actor.deep_view()));
    assert(binds[10] == flag(row.ai_suggested));
    assert(binds[11] == SqlView::Text(row.rationale@));
    assert(binds[12] == SqlView::Text(row.produce_guidance@));
    assert(binds[13] == SqlView::Integer(row.created_at_ms));
    assert(binds[14] == text_or_null(row.source_user_id.deep_view()));
    assert(binds[15] == text_or_null(row.assignee_user_id.deep_view()));
    match item.accept_actor {
        Some(actor) => stored_item_texts_read_back(item.status, actor),
        None => stored_item_texts_read_back(item.status, WorkItemAcceptActor::Operator),
    }
    stored_revision_reads_back(Some(item.created_at_ms));
}

/// The keys that were applied for a client and that begin as the keys of an item's
/// suggestions do.
pub open spec fn spent_keys(ledger: LedgerView, client_id: Seq<char>, item_id: Seq<char>) -> Seq<
    Seq<char>,
> {
    spent_keys_query(client_id, item_id).rows(ledger.receipts).map_values(
        |r: ReceiptView| r.idempotency_key,
    )
}

/// Of the keys that begin as those of an item's suggestions do, the spent ones are
/// exactly those that were applied.
pub proof fn spent_keys_are_the_applied_ones(
    ledger: LedgerView,
    client_id: Seq<char>,
    item_id: Seq<char>,
    key: Seq<char>,
)
    requires
        suggestion_prefix(item_id).is_prefix_of(key),
    ensures
        spent_keys(ledger, client_id, item_id).contains(key) <==> applied_under(
            ledger,
            client_id,
            key,
        ) is Some,
{
    let query = spent_keys_query(client_id, item_id);
    let conditions = query.conditions;
    let rows = query.rows(ledger.receipts);
    let spent = spent_keys(ledger, client_id, item_id);
    let prefix = suggestion_prefix(item_id);
    let stem = "ai_suggest_kinds:"@ + item_id;
    let rest = key.skip(prefix.len() as int);
    reveal_strlit(":");
    reveal_strlit(";");
    assert(key =~= prefix + rest);
    assert(prefix =~= prefix + Seq::<char>::empty());
    common_beginnings_do_not_order(prefix, rest, Seq::empty());
    assert(key =~= stem + (seq![':'] + rest));
    assert(";"@ =~= seq![';']);
    common_beginnings_do_not_order(stem, seq![':'] + rest, seq![';']);
    matching_selects(conditions, ledger.receipts);
    if spent.contains(key) {
        let k = choose|k: int| 0 <= k < spent.len() && spent[k] == key;
        let r = rows[k];
        assert(rows.contains(r));
        assert(conditions[0].holds(r) && conditions[1].holds(r));
        let i = choose|i: int| 0 <= i < ledger.receipts.len() && ledger.receipts[i] == r;
        assert(is_applied(ledger.receipts[i], client_id, key));
    }
    if applied_under(ledger, client_id, key) is Some {
        let i = choose|i: int|
            0 <= i < ledger.receipts.len() && is_applied(
                #[trigger] ledger.receipts[i],
                client_id,
                key,
            );
        let r = ledger.receipts[i];
        assert(ledger.receipts.contains(r));
        assert(all_hold(conditions, r));
        assert(rows.contains(r));
        let k = choose|k: int| 0 <= k < rows.len() && rows[k] == r;
        assert(spent[k] == key);
    }
}

/// A kind that an item lacks can always be suggested, whatever was asked before,
/// an earlier suggestion of the same kind and its removal by the operator included:
/// the suggestion is applied, and stores the item's kinds with the missing ones
/// behind them. Its key is the plain one unless that was applied before. `spent`
/// holds the keys that were applied, in any order.
pub proof fn removed_kinds_can_be_suggested_again(
    ledger: LedgerView,
    client_id: Seq<char>,
    item_id: Seq<char>,
    before: Seq<Seq<char>>,
    before_json: Seq<char>,
    row: ItemSuggestionRow,
    packet_kinds: Seq<Seq<char>>,
    rationale: Seq<char>,
    now_ms: u64,
    spent: Seq<Seq<char>>,
    missing: Seq<char>,
)
    requires
        forall|key: Seq<char>| #[trigger]
            spent.contains(key) <==> spent_keys(ledger, client_id, item_id).contains(key),
        packet_kinds.contains(missing),
        !before.contains(missing),
    ensures
        ({
            let plan = added_kinds_plan(
                client_id,
                item_id,
                before,
                before_json,
                row,
                packet_kinds,
                rationale,
                now_ms,
                spent,
            );
            let all = merged(before, packet_kinds);
            &&& plan is Some
            &&& verdict_on(ledger, plan->Some_0.request, None) is Applied
            &&& plan->Some_0.write == (WriteView::AddAiPacketKinds {
                packet_kinds_json: quoted_list(all),
                rationale,
            })
            &&& before.is_prefix_of(all)
            &&& all.contains(missing)
            &&& applied_under(ledger, client_id, suggestion_key(item_id, all)) is None
                ==> plan->Some_0.request.idempotency_key == suggestion_key(item_id, all)
        }),
{
    let all = merged(before, packet_kinds);
    let prefix = suggestion_prefix(item_id);
    let plain = suggestion_key(item_id, all);
    let key = unspent(plain, spent);
    suggestions_keep_what_is_there(
        client_id,
        item_id,
        before,
        before_json,
        row,
        packet_kinds,
        rationale,
        now_ms,
        spent,
    );
    merging_extends(before, packet_kinds);
    assert(all.contains(missing));
    unspent_is_free(plain, spent);
    assert(plain.take(prefix.len() as int) =~= prefix);
    assert(key.take(prefix.len() as int) =~= prefix);
    spent_keys_are_the_applied_ones(ledger, client_id, item_id, plain);
    spent_keys_are_the_applied_ones(ledger, client_id, item_id, key);
}

} // verus!
