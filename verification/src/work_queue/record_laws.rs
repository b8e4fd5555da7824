//! What records, receipts and refusals are written as: the words that other programs
//! read them by.

use vstd::prelude::*;

use crate::contracts::email_triage::{EmailTriageGmailCategory, InboundMessageRecord};
use crate::contracts::work_queue::{
    WorkItem, WorkItemAcceptActor, WorkItemAssignActionKind, WorkItemSourceResponse, WorkItemStatus,
    WorkQueueAiGmailScope,
};
use crate::json::{member, quoted, quoted_list, rewritten_json};
use crate::lists::{filled, first_occurrences, merged, runs_collapsed};
use crate::outbox::AttemptView;
use crate::store_core::{reaches_domain_write, ErrorView, LedgerReads, RequestView, StoreError};
use crate::text::{case_blind_sorted, has_text, joined, trimmed};
use super::agent_launch::{delivery_of, job_id_text, monitor_error_code, MonitorError};
use super::emit::email_item_id;
use super::items::{counts_ascend, counts_match, status_count};
use super::plan::{ContextView, PlanView};
use super::policies::{gmail_category_text, gmail_scope_of, gmail_scope_text};
use super::prompt_laws::members_stand_in_the_object;
use super::service::{is_html, shows_message, visibility_key, ItemSourceError};
use super::store::{
    accept_actor_of, accept_actor_text, assignment_plan, guidance_plan, receipted_json, status_of,
    status_text, suggestion_key, unknown_kind_code, unspent, visibility_plan,
    ItemAssignmentRow, ItemGuidanceRow,
};
use super::store_laws::sees;
use super::service_laws::kinds_are_owned_by_their_slice;
use super::{catalog_of, kept, owners_answer, owns_a_kind, slice_of_kind, PacketKindView};

verus! {

/// Statuses, actors, scopes and Gmail categories are stored under their names, and a
/// stored text that names none is read as the default.
pub proof fn names_are_stored(raw: Seq<char>)
    ensures
        status_text(WorkItemStatus::Open) == "open"@,
        status_text(WorkItemStatus::Accepted) == "accepted"@,
        status_text(WorkItemStatus::Dismissed) == "dismissed"@,
        status_of(raw) == WorkItemStatus::Accepted <==> raw == "accepted"@,
        status_of(raw) == WorkItemStatus::Dismissed <==> raw == "dismissed"@,
        accept_actor_text(WorkItemAcceptActor::Operator) == "operator"@,
        accept_actor_text(WorkItemAcceptActor::System) == "system"@,
        accept_actor_of(raw) == Some(WorkItemAcceptActor::Operator) <==> raw == "operator"@,
        accept_actor_of(raw) == Some(WorkItemAcceptActor::System) <==> raw == "system"@,
        accept_actor_of(raw) is None <==> raw != "operator"@ && raw != "system"@,
        gmail_scope_text(WorkQueueAiGmailScope::Default) == "default"@,
        gmail_scope_text(WorkQueueAiGmailScope::All) == "all"@,
        gmail_scope_text(WorkQueueAiGmailScope::Selected) == "selected"@,
        gmail_scope_of(raw) == WorkQueueAiGmailScope::All <==> raw == "all"@,
        gmail_scope_of(raw) == WorkQueueAiGmailScope::Selected <==> raw == "selected"@,
        gmail_category_text(EmailTriageGmailCategory::Primary) == "primary"@,
        gmail_category_text(EmailTriageGmailCategory::Updates) == "updates"@,
        gmail_category_text(EmailTriageGmailCategory::Social) == "social"@,
        gmail_category_text(EmailTriageGmailCategory::Promotions) == "promotions"@,
        gmail_category_text(EmailTriageGmailCategory::Forums) == "forums"@,
{
    reveal_strlit("accepted");
    reveal_strlit("dismissed");
    reveal_strlit("operator");
    reveal_strlit("system");
    reveal_strlit("all");
    reveal_strlit("selected");
    assert("accepted"@.len() != "dismissed"@.len());
    assert("operator"@.len() != "system"@.len());
    assert("all"@.len() != "selected"@.len());
}

/// An email's item is found by the email's own key, and the job of a launch by the
/// item and the first eight bytes of its digest.
pub proof fn ids_name_what_they_are_of(source_key: Seq<char>, item_id: Seq<char>, digest: Seq<u8>)
    ensures
        email_item_id(source_key) == "wi_email_"@ + source_key,
        job_id_text(item_id, digest) == "agent_launch:"@ + item_id + ":"@
            + super::agent_launch::hex_text(digest.take(8)),
{
}

/// Suggestions of the same kinds share a key, which names the item and the kinds; a
/// key that was spent goes on with `:again` behind it, and one that was not stays.
pub proof fn suggestion_keys_name_their_kinds(
    item_id: Seq<char>,
    kinds: Seq<Seq<char>>,
    spent: Seq<Seq<char>>,
)
    ensures
        suggestion_key(item_id, kinds) == "ai_suggest_kinds:"@ + item_id + ":"@ + joined(
            kinds,
            ","@,
        ),
        ({
            let key = suggestion_key(item_id, kinds);
            &&& !spent.contains(key) ==> unspent(key, spent) == key
            &&& spent == seq![key] ==> unspent(key, spent) == key + ":again"@
        }),
{
    let key = suggestion_key(item_id, kinds);
    if spent == seq![key] {
        assert(spent[0] == key);
        assert(spent.contains(key));
        assert(spent.index_of(key) == 0);
        assert(spent.remove(0) =~= Seq::<Seq<char>>::empty());
        assert(unspent(key, spent) == unspent(key + ":again"@, Seq::<Seq<char>>::empty()));
    }
}

/// The key of a set of users lists its ids with commas between them, in case-blind
/// order and each once.
pub proof fn visibility_keys_list_their_users(user_ids: Seq<Seq<char>>)
    ensures
        visibility_key(user_ids) == joined(
            runs_collapsed(case_blind_sorted(filled(user_ids))),
            ","@,
        ),
{
}

/// A kind that is not in the catalog is refused with a code that names it.
pub proof fn unknown_kinds_are_named(kind: Seq<char>)
    ensures
        unknown_kind_code(kind) == "work_queue_packet_kind_unknown:"@ + kind,
        has_text(unknown_kind_code(kind), kind),
{
    super::prompt_laws::stands_between("work_queue_packet_kind_unknown:"@, kind, Seq::empty());
    assert("work_queue_packet_kind_unknown:"@ + kind + Seq::<char>::empty()
        =~= unknown_kind_code(kind));
}

/// What a receipt keeps of a stored text is that text as JSON, or an empty list where
/// it is none.
pub proof fn receipts_keep_json(text: Seq<char>)
    ensures
        rewritten_json(text) is Some ==> receipted_json(text) == rewritten_json(text)->Some_0,
        rewritten_json(text) is None ==> receipted_json(text) == "[]"@,
{
}

/// An assignment that is refused says what is missing: a named user to assign to, a
/// user to assign, their being active, their seeing the item, or the right to take it
/// from another. One that is made keeps who had the item and who has it now.
pub proof fn refused_assignments_say_why(
    ctx: ContextView,
    item_id: Seq<char>,
    action: WorkItemAssignActionKind,
    requested: Option<Seq<char>>,
    row: ItemAssignmentRow,
    visibility_row: bool,
    visible_user_ids: Seq<Seq<char>>,
    target_active: bool,
)
    requires
        sees(ctx.scope, row.source_user_id.deep_view(), visibility_row),
    ensures
        ({
            let plan = assignment_plan(
                ctx,
                item_id,
                action,
                requested,
                Some(row),
                visibility_row,
                visible_user_ids,
                target_active,
            );
            let named = requested is Some && trimmed(requested->Some_0).len() > 0;
            let held = row.assignee_user_id.deep_view();
            &&& action == WorkItemAssignActionKind::AssignToMe && ctx.scope is All ==> plan
                == Err::<PlanView, _>(
                ErrorView::Domain("work_queue_assignment_named_user_required"@),
            )
            &&& action == WorkItemAssignActionKind::AssignToUser && !named ==> plan
                == Err::<PlanView, _>(ErrorView::Domain("work_queue_assignee_required"@))
            &&& action == WorkItemAssignActionKind::AssignToMe && ctx.scope is User
                && !target_active ==> plan == Err::<PlanView, _>(
                ErrorView::Domain("work_queue_assignee_not_active"@),
            )
            &&& action == WorkItemAssignActionKind::AssignToUser && named && !target_active
                ==> plan == Err::<PlanView, _>(ErrorView::Domain("work_queue_assignee_not_active"@))
            &&& action == WorkItemAssignActionKind::AssignToUser && named && target_active
                && !visible_user_ids.contains(trimmed(requested->Some_0)) ==> plan
                == Err::<PlanView, _>(ErrorView::Domain("work_queue_assignee_not_visible"@))
            &&& action == WorkItemAssignActionKind::Unassign && ctx.scope is User && held != Some(
                ctx.scope->User_0,
            ) ==> plan == Err::<PlanView, _>(ErrorView::Domain("work_queue_unassign_forbidden"@))
            &&& plan is Ok ==> {
                let request = plan->Ok_0.request;
                &&& held is Some ==> has_text(
                    request.before_json->Some_0,
                    quoted("assignee_user_id"@) + seq![':'] + quoted(held->Some_0),
                )
                &&& held is None ==> has_text(
                    request.before_json->Some_0,
                    quoted("assignee_user_id"@) + seq![':'] + "null"@,
                )
                &&& action == WorkItemAssignActionKind::AssignToUser ==> has_text(
                    request.after_json->Some_0,
                    quoted("assignee_user_id"@) + seq![':'] + quoted(trimmed(requested->Some_0)),
                )
                &&& action == WorkItemAssignActionKind::AssignToMe ==> has_text(
                    request.after_json->Some_0,
                    quoted("assignee_user_id"@) + seq![':'] + quoted(ctx.scope->User_0),
                )
                &&& action == WorkItemAssignActionKind::Unassign ==> has_text(
                    request.after_json->Some_0,
                    quoted("assignee_user_id"@) + seq![':'] + "null"@,
                )
            }
        }),
{
    let held = row.assignee_user_id.deep_view();
    assignee_stands_in_its_json(held);
    assignee_stands_in_its_json(None);
    if requested is Some {
        assignee_stands_in_its_json(Some(trimmed(requested->Some_0)));
    }
    if ctx.scope is User {
        assignee_stands_in_its_json(Some(ctx.scope->User_0));
    }
}

proof fn assignee_stands_in_its_json(user_id: Option<Seq<char>>)
    ensures
        user_id is Some ==> has_text(
            super::store::assignee_json(user_id),
            quoted("assignee_user_id"@) + seq![':'] + quoted(user_id->Some_0),
        ),
        user_id is None ==> has_text(
            super::store::assignee_json(user_id),
            quoted("assignee_user_id"@) + seq![':'] + "null"@,
        ),
{
    members_stand_in_the_object(
        seq![member("assignee_user_id"@, crate::json::quoted_or_null(user_id))],
        0,
    );
}

/// The guidance of an item that the operator does not see, or that is dismissed, is
/// not changed.
pub proof fn refused_guidance_says_why(
    ctx: ContextView,
    item_id: Seq<char>,
    produce_guidance: Seq<char>,
    row: ItemGuidanceRow,
    visibility_row: bool,
)
    requires
        trimmed(produce_guidance).len() <= 2000,
    ensures
        ({
            let plan = guidance_plan(ctx, item_id, produce_guidance, Some(row), visibility_row);
            let seen = sees(ctx.scope, row.source_user_id.deep_view(), visibility_row);
            &&& !seen ==> plan == Err::<PlanView, _>(ErrorView::Domain("scope_forbidden"@))
            &&& seen && row.status@ == "dismissed"@ ==> plan == Err::<PlanView, _>(
                ErrorView::Domain("work_item_guidance_not_editable"@),
            )
        }),
{
}

/// The receipt of added visibility keeps who saw the item before, and who sees it now
/// in case-blind order.
pub proof fn added_visibility_is_receipted(
    client_id: Seq<char>,
    item_id: Seq<char>,
    user_ids: Seq<Seq<char>>,
    stored: Seq<Seq<char>>,
    actor_id: Seq<char>,
    idempotency_key: Seq<char>,
    now_ms: u64,
)
    ensures
        ({
            let plan = visibility_plan(
                client_id,
                item_id,
                user_ids,
                stored,
                actor_id,
                idempotency_key,
                now_ms,
            );
            plan is Some ==> {
                let request = plan->Some_0.request;
                let more = plan->Some_0.write->AddVisibility_user_ids;
                let before = first_occurrences(stored);
                &&& has_text(
                    request.before_json->Some_0,
                    quoted("visible_to_user_ids"@) + seq![':'] + quoted_list(before),
                )
                &&& has_text(
                    request.after_json->Some_0,
                    quoted("visible_to_user_ids"@) + seq![':'] + quoted_list(
                        case_blind_sorted(merged(before, more)),
                    ),
                )
            }
        }),
{
    let before = first_occurrences(stored);
    let more = super::store::visibility_additions(user_ids, stored);
    members_stand_in_the_object(seq![member("visible_to_user_ids"@, quoted_list(before))], 0);
    members_stand_in_the_object(
        seq![
            member("visible_to_user_ids"@, quoted_list(case_blind_sorted(merged(before, more)))),
        ],
        0,
    );
}

/// A session request that fails is given up with the code of what went wrong; one
/// that succeeds without a response leaves an empty object.
pub proof fn monitor_errors_have_their_code(message: String)
    ensures
        monitor_error_code(MonitorError::ClientBuild(message))
            == "work_queue_agent_client_build_failed"@,
        monitor_error_code(MonitorError::Request(message))
            == "work_queue_agent_monitor_request_failed"@,
        monitor_error_code(MonitorError::Rejected) == "work_queue_agent_monitor_rejected"@,
        monitor_error_code(MonitorError::InvalidResponse)
            == "work_queue_agent_monitor_response_invalid"@,
        delivery_of(Ok(None)) == (AttemptView::Delivered { result_json: "{}"@ }),
{
}

/// A domain write runs exactly where its key was not applied before and the entity
/// stands at the revision that the caller expects, if any.
pub proof fn writes_run_where_nothing_stands_before_them(request: RequestView, reads: LedgerReads)
    ensures
        reaches_domain_write(request, reads) <==> reads.applied is None && (
        request.expected_revision is None || request.expected_revision == reads.current_revision),
{
}

/// Counted statuses stand in the order of their texts, each with how often it occurs:
/// no status that occurs is left out, and none that does not is listed.
pub proof fn counts_are_of_what_occurs(
    counts: Seq<(Seq<char>, u64)>,
    statuses: Seq<Option<Seq<char>>>,
    k: int,
    i: int,
    j: int,
)
    requires
        counts_ascend(counts),
        counts_match(counts, statuses),
        0 <= k < statuses.len(),
        statuses[k] is Some,
        0 <= i < j < counts.len(),
    ensures
        crate::text::lex_less(counts[i].0, counts[j].0),
        counts[i].0 != counts[j].0,
        counts[i].1 == statuses.filter(|s: Option<Seq<char>>| s == Some(counts[i].0)).len(),
        counts[i].1 > 0,
        exists|n: int| 0 <= n < counts.len() && (#[trigger] counts[n]).0 == statuses[k]->Some_0,
{
    crate::text::lex_less_irreflexive(counts[i].0);
    super::service_laws::statuses_are_counted(statuses, counts[i].0);
    occurring_is_counted(statuses, k);
}

proof fn occurring_is_counted(statuses: Seq<Option<Seq<char>>>, k: int)
    requires
        0 <= k < statuses.len(),
        statuses[k] is Some,
    ensures
        status_count(statuses, statuses[k]->Some_0) > 0,
    decreases statuses.len(),
{
    if k < statuses.len() - 1 {
        occurring_is_counted(statuses.drop_last(), k);
    }
}

/// A slice is asked whether it is enabled where it drafts one of the kinds, and no
/// other slice is.
pub proof fn slices_that_draft_are_asked(slice: Seq<char>)
    ensures
        owns_a_kind(slice) <==> slice == "follow_up_tasks"@ || slice == "email_drafts"@ || slice
            == "calendar_drafts"@ || slice == "crm_drafts"@ || slice == "crm_record_drafts"@
            || slice == "crm_sales_intent"@ || slice == "ledger_drafts"@ || slice
            == "content_drafts"@ || slice == "invoice_drafts"@ || slice == "claim_drafts"@,
{
    kinds_are_owned_by_their_slice("follow_up_task"@);
    kinds_are_owned_by_their_slice("email_draft_reply"@);
    kinds_are_owned_by_their_slice("calendar_event_draft"@);
    kinds_are_owned_by_their_slice("crm_activity"@);
    kinds_are_owned_by_their_slice("crm_record_create"@);
    kinds_are_owned_by_their_slice("crm_sales_intent"@);
    kinds_are_owned_by_their_slice("ledger_entry"@);
    kinds_are_owned_by_their_slice("content_draft"@);
    kinds_are_owned_by_their_slice("invoice_draft"@);
    kinds_are_owned_by_their_slice("claim_draft"@);
    if owns_a_kind(slice) {
        let kind = choose|kind: Seq<char>|
            super::kind_in_catalog(kind) && #[trigger] slice_of_kind(kind) == Some(slice);
        kinds_are_owned_by_their_slice(kind);
    }
}

/// An operator is offered exactly the kinds whose owning slice is enabled, in the
/// order of the catalog.
pub proof fn kinds_of_enabled_slices_are_offered<F: Fn(&str) -> bool>(
    slice_enabled: F,
    provider: Option<Seq<char>>,
    answers: Seq<bool>,
    i: int,
)
    requires
        owners_answer(slice_enabled, catalog_of(provider), answers),
        0 <= i < catalog_of(provider).len(),
    ensures
        exists|slice: &str|
            Some(slice@) == slice_of_kind(catalog_of(provider)[i].kind_id)
                && #[trigger] slice_enabled.ensures((slice,), answers[i]),
        answers[i] ==> kept(catalog_of(provider), answers).contains(catalog_of(provider)[i]),
        kept(catalog_of(provider), answers).contains(catalog_of(provider)[i]) ==> exists|j: int|
            0 <= j < catalog_of(provider).len() && answers[j] && #[trigger] catalog_of(provider)[j]
                == catalog_of(provider)[i],
{
    let catalog = catalog_of(provider);
    assert(super::owner_answers(slice_enabled, catalog[i], answers[i]));
    kept_are_those_answered(catalog, answers);
}

proof fn kept_are_those_answered(entries: Seq<PacketKindView>, answers: Seq<bool>)
    ensures
        forall|i: int| 0 <= i < entries.len() && answers[i] ==> kept(entries, answers).contains(
            #[trigger] entries[i],
        ),
        forall|e: PacketKindView| #[trigger]
            kept(entries, answers).contains(e) ==> exists|j: int|
                0 <= j < entries.len() && answers[j] && #[trigger] entries[j] == e,
    decreases entries.len(),
{
    if entries.len() > 0 {
        let front = entries.drop_last();
        let n = entries.len() - 1;
        let so_far = kept(front, answers);
        let all = kept(entries, answers);
        kept_are_those_answered(front, answers);
        assert forall|i: int| 0 <= i < entries.len() && answers[i] implies all.contains(
            #[trigger] entries[i],
        ) by {
            if i < n {
                assert(front[i] == entries[i]);
                let k = choose|k: int| 0 <= k < so_far.len() && so_far[k] == entries[i];
                assert(all[k] == entries[i]);
            } else {
                assert(all[so_far.len() as int] == entries[i]);
            }
        }
        assert forall|e: PacketKindView| #[trigger] all.contains(e) implies exists|j: int|
            0 <= j < entries.len() && answers[j] && #[trigger] entries[j] == e by {
            let k = choose|k: int| 0 <= k < all.len() && all[k] == e;
            if k < so_far.len() {
                assert(so_far[k] == e);
                assert(so_far.contains(e));
                let j = choose|j: int| 0 <= j < front.len() && answers[j] && #[trigger] front[j] == e;
                assert(entries[j] == e);
            } else {
                assert(entries[n] == e);
            }
        }
    }
}

/// An item's source is answered with the item's kind of source, the message as it was
/// resolved, and its body: as HTML where HTML was kept of it.
pub proof fn sources_are_answered_with_their_message(
    item: WorkItem,
    message: InboundMessageRecord,
    html: Result<Option<String>, StoreError>,
    r: Result<WorkItemSourceResponse, ItemSourceError>,
)
    requires
        shows_message(item, message, html, r),
    ensures
        html is Ok ==> r is Ok && r->Ok_0.source_kind == item.source_kind && r->Ok_0.message
            == message,
        html is Ok && html->Ok_0 is Some ==> r->Ok_0.source_body@ == html->Ok_0->Some_0@
            && r->Ok_0.source_body_format is Html,
        html is Ok && html->Ok_0 is None && trimmed(message.body_full@).len() > 0
            ==> r->Ok_0.source_body@ == message.body_full@ && (r->Ok_0.source_body_format is Html
            <==> is_html(message.body_full@)),
        html is Ok && html->Ok_0 is None && trimmed(message.body_full@).len() == 0
            ==> r->Ok_0.source_body@ == message.body_excerpt@,
        html is Err ==> r is Err && r->Err_0 == ItemSourceError::Store(html->Err_0),
{
}

} // verus!
