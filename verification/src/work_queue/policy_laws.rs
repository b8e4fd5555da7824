//! What is stored of a submitted policy, and which policies are refused.

use vstd::prelude::*;

use crate::contracts::email_triage::EmailTriageGmailCategory;
use crate::contracts::receipt::ActorKindDto;
use crate::contracts::work_queue::WorkQueueAiGmailScope;
use crate::json::quoted_list;
use crate::store_core::ErrorView;
use super::kind_in_catalog;
use super::model::PolicyView;
use super::plan::policy_write;
use super::policies::{
    columns_of, gmail_category_text, gmail_category_texts, policy_plan, sanitized,
};
use super::store::first_unknown_kind;
use crate::sql::SqlView;
use crate::text::is_blank;

verus! {

/// A policy that creates work items is stored with the category, the kinds, the
/// auto-produce flag and the suggestible kinds that were submitted: only its Gmail
/// scope and categories may differ.
pub proof fn enabled_policies_are_stored_as_submitted(policy: PolicyView)
    requires
        sanitized(policy) is Ok,
        policy.create_work_item,
    ensures
        ({
            let stored = sanitized(policy)->Ok_0;
            &&& stored.category_id == policy.category_id
            &&& stored.create_work_item
            &&& stored.packet_kinds == policy.packet_kinds
            &&& stored.auto_produce == policy.auto_produce
            &&& stored.ai_suggestible_packet_kinds == policy.ai_suggestible_packet_kinds
        }),
{
}

/// A policy that creates none keeps its category, and everything else of it is
/// cleared.
pub proof fn disabled_policies_keep_their_category(policy: PolicyView)
    requires
        sanitized(policy) is Ok,
        !policy.create_work_item,
    ensures
        sanitized(policy)->Ok_0 == (PolicyView {
            category_id: policy.category_id,
            create_work_item: false,
            packet_kinds: Seq::empty(),
            auto_produce: false,
            ai_suggestible_packet_kinds: Seq::empty(),
            ai_suggestible_gmail_scope: WorkQueueAiGmailScope::Default,
            ai_suggestible_gmail_categories: Seq::empty(),
        }),
{
}

/// The Gmail scope of a policy with suggestions in the fallback category is the
/// submitted one: the default reaches the primary and the updates tab, all of them
/// needs no list, and a selection is kept. Without suggestions there is no scope.
pub proof fn gmail_scopes_are_resolved(policy: PolicyView)
    requires
        sanitized(policy) is Ok,
        policy.create_work_item,
    ensures
        ({
            let stored = sanitized(policy)->Ok_0;
            let suggests = policy.ai_suggestible_packet_kinds.len() > 0;
            &&& suggests ==> stored.ai_suggestible_gmail_scope == policy.ai_suggestible_gmail_scope
            &&& !suggests ==> stored.ai_suggestible_gmail_scope == WorkQueueAiGmailScope::Default
                && stored.ai_suggestible_gmail_categories.len() == 0
            &&& suggests && policy.category_id == "inbound_email"@ ==> {
                &&& policy.ai_suggestible_gmail_scope == WorkQueueAiGmailScope::Default
                    ==> stored.ai_suggestible_gmail_categories == seq![
                    EmailTriageGmailCategory::Primary,
                    EmailTriageGmailCategory::Updates,
                ]
                &&& policy.ai_suggestible_gmail_scope == WorkQueueAiGmailScope::All
                    ==> stored.ai_suggestible_gmail_categories.len() == 0
                &&& policy.ai_suggestible_gmail_scope == WorkQueueAiGmailScope::Selected
                    ==> stored.ai_suggestible_gmail_categories
                    == policy.ai_suggestible_gmail_categories
            }
            &&& suggests && policy.category_id != "inbound_email"@
                ==> stored.ai_suggestible_gmail_scope == WorkQueueAiGmailScope::Default
                && stored.ai_suggestible_gmail_categories.len() == 0
        }),
{
}

/// Every kind of the list is in the catalog.
pub open spec fn all_known(kinds: Seq<Seq<char>>) -> bool {
    forall|i: int| 0 <= i < kinds.len() ==> kind_in_catalog(#[trigger] kinds[i])
}

/// The first unknown kind is the first that the catalog does not know.
pub proof fn unknown_kinds_are_found(kinds: Seq<Seq<char>>)
    ensures
        first_unknown_kind(kinds) is None <==> all_known(kinds),
        first_unknown_kind(kinds) is Some ==> exists|n: int|
            0 <= n < kinds.len() && #[trigger] kinds[n] == first_unknown_kind(kinds)->Some_0
                && !kind_in_catalog(kinds[n]) && all_known(kinds.take(n)),
    decreases kinds.len(),
{
    if kinds.len() > 0 {
        let rest = kinds.drop_first();
        unknown_kinds_are_found(rest);
        if !kind_in_catalog(kinds[0]) {
            assert(kinds[0] == first_unknown_kind(kinds)->Some_0);
        } else {
            if all_known(rest) {
                assert forall|i: int| 0 <= i < kinds.len() implies kind_in_catalog(
                    #[trigger] kinds[i],
                ) by {
                    if i > 0 {
                        assert(rest[i - 1] == kinds[i]);
                    }
                }
            }
            if all_known(kinds) {
                assert forall|i: int| 0 <= i < rest.len() implies kind_in_catalog(
                    #[trigger] rest[i],
                ) by {
                    assert(rest[i] == kinds[i + 1]);
                }
            }
            if first_unknown_kind(rest) is Some {
                let n = choose|n: int|
                    0 <= n < rest.len() && #[trigger] rest[n] == first_unknown_kind(rest)->Some_0
                        && !kind_in_catalog(rest[n]) && all_known(rest.take(n));
                assert(kinds[n + 1] == rest[n]);
                assert forall|i: int| 0 <= i < n + 1 implies kind_in_catalog(
                    #[trigger] kinds.take(n + 1)[i],
                ) by {
                    if i > 0 {
                        assert(rest.take(n)[i - 1] == kinds[i]);
                    }
                }
            }
        }
    }
}

/// The kinds that the AI may suggest can be submitted: any kind, said alone, or kinds
/// of the catalog.
pub open spec fn suggestible(kinds: Seq<Seq<char>>) -> bool {
    if kinds.contains("*"@) {
        kinds.len() == 1
    } else {
        all_known(kinds)
    }
}

/// A policy is accepted exactly where its category is named, its kinds are known, its
/// suggestions are, and its Gmail scope fits: outside the fallback category it has
/// none, and a selection is not empty. Where it creates no work items, or suggests
/// nothing, the scope is not looked at.
pub proof fn accepted_policies_are_sound(policy: PolicyView)
    ensures
        sanitized(policy) is Ok <==> {
            &&& !is_blank(policy.category_id)
            &&& all_known(policy.packet_kinds)
            &&& suggestible(policy.ai_suggestible_packet_kinds)
            &&& policy.create_work_item && policy.ai_suggestible_packet_kinds.len() > 0 ==> {
                if policy.category_id == "inbound_email"@ {
                    policy.ai_suggestible_gmail_scope != WorkQueueAiGmailScope::Selected
                        || policy.ai_suggestible_gmail_categories.len() > 0
                } else {
                    &&& policy.ai_suggestible_gmail_scope == WorkQueueAiGmailScope::Default
                    &&& policy.ai_suggestible_gmail_categories.len() == 0
                }
            }
        },
{
    unknown_kinds_are_found(policy.packet_kinds);
    unknown_kinds_are_found(policy.ai_suggestible_packet_kinds);
}

/// A policy that is refused is refused for what is wrong with it.
pub proof fn refused_policies_say_why(policy: PolicyView)
    ensures
        is_blank(policy.category_id) ==> sanitized(policy) == Err::<PolicyView, _>(
            ErrorView::Domain("work_queue_category_required"@),
        ),
        !is_blank(policy.category_id) && !all_known(policy.packet_kinds) ==> exists|n: int|
            0 <= n < policy.packet_kinds.len() && !kind_in_catalog(
                #[trigger] policy.packet_kinds[n],
            ) && sanitized(policy) == Err::<PolicyView, _>(
                ErrorView::Domain("work_queue_packet_kind_unknown:"@ + policy.packet_kinds[n]),
            ),
        !is_blank(policy.category_id) && all_known(policy.packet_kinds)
            && policy.ai_suggestible_packet_kinds.contains("*"@)
            && policy.ai_suggestible_packet_kinds.len() > 1 ==> sanitized(policy)
            == Err::<PolicyView, _>(ErrorView::Domain("work_queue_ai_suggest_all_exclusive"@)),
        !is_blank(policy.category_id) && all_known(policy.packet_kinds) && suggestible(
            policy.ai_suggestible_packet_kinds,
        ) && sanitized(policy) is Err ==> sanitized(policy) == Err::<PolicyView, _>(
            ErrorView::Domain(
                if policy.category_id == "inbound_email"@ {
                    "work_queue_ai_gmail_scope_selected_empty"@
                } else {
                    "work_queue_ai_gmail_scope_fallback_only"@
                },
            ),
        ),
{
    unknown_kinds_are_found(policy.ai_suggestible_packet_kinds);
    unknown_kinds_are_found(policy.packet_kinds);
    if !is_blank(policy.category_id) && !all_known(policy.packet_kinds) {
        let n = choose|n: int|
            0 <= n < policy.packet_kinds.len() && #[trigger] policy.packet_kinds[n]
                == first_unknown_kind(policy.packet_kinds)->Some_0 && !kind_in_catalog(
                policy.packet_kinds[n],
            ) && all_known(policy.packet_kinds.take(n));
        assert(!kind_in_catalog(policy.packet_kinds[n]));
    }
}

/// A policy's columns hold its fields, each list as a JSON array, and its row binds
/// them for the client and the category.
pub proof fn policy_rows_hold_the_policy(policy: PolicyView, client_id: Seq<char>, now_ms: u64)
    ensures
        ({
            let columns = columns_of(policy);
            let binds = policy_write(client_id, columns, now_ms).binds;
            &&& columns.category_id == policy.category_id
            &&& columns.create_work_item == policy.create_work_item
            &&& columns.auto_produce == policy.auto_produce
            &&& columns.packet_kinds_json == quoted_list(policy.packet_kinds)
            &&& columns.ai_suggestible_packet_kinds_json == quoted_list(
                policy.ai_suggestible_packet_kinds,
            )
            &&& binds.len() == 9
            &&& binds[0] == SqlView::Text(client_id)
            &&& binds[1] == SqlView::Text(policy.category_id)
            &&& binds[2] == SqlView::Integer(if policy.create_work_item { 1 } else { 0 })
            &&& binds[3] == SqlView::Text(quoted_list(policy.packet_kinds))
            &&& binds[4] == SqlView::Integer(if policy.auto_produce { 1 } else { 0 })
            &&& binds[5] == SqlView::Text(quoted_list(policy.ai_suggestible_packet_kinds))
            &&& binds[6] == SqlView::Text(columns.ai_suggestible_gmail_scope)
            &&& binds[7] == SqlView::Text(columns.ai_suggestible_gmail_categories_json)
            &&& binds[8] == SqlView::Integer(now_ms as i64)
        }),
{
}

/// Gmail categories are told apart by their texts, and are stored in their order.
pub proof fn gmail_categories_are_told_apart(
    a: EmailTriageGmailCategory,
    b: EmailTriageGmailCategory,
    categories: Seq<EmailTriageGmailCategory>,
)
    ensures
        gmail_category_text(a) == gmail_category_text(b) <==> a == b,
        gmail_category_texts(categories).len() == categories.len(),
        forall|i: int|
            0 <= i < categories.len() ==> #[trigger] gmail_category_texts(categories)[i]
                == gmail_category_text(categories[i]),
{
    reveal_strlit("primary");
    reveal_strlit("updates");
    reveal_strlit("social");
    reveal_strlit("promotions");
    reveal_strlit("forums");
    assert("primary"@[0] == 'p' && "primary"@.len() == 7);
    assert("updates"@[0] == 'u');
    assert("social"@[0] == 's');
    assert("promotions"@[0] == 'p' && "promotions"@.len() == 10);
    assert("forums"@[0] == 'f');
}

/// A policy is upserted where it is accepted, as its category's, with what is stored
/// of it and what the receipt keeps; else nothing is planned.
pub proof fn accepted_policies_are_written(
    client_id: Seq<char>,
    actor_id: Seq<char>,
    policy: PolicyView,
    sanitized_json: Seq<char>,
    idempotency_key: Seq<char>,
    now_ms: u64,
)
    ensures
        ({
            let plan = policy_plan(
                client_id,
                actor_id,
                policy,
                sanitized_json,
                idempotency_key,
                now_ms,
            );
            &&& plan is Ok <==> sanitized(policy) is Ok
            &&& plan is Ok ==> {
                let request = plan->Ok_0.request;
                &&& request.client_id == client_id
                &&& request.entity_kind == "work_queue_policy"@
                &&& request.entity_id == policy.category_id
                &&& request.change_kind == "upsert"@
                &&& request.before_json is None
                &&& request.correlation_id is None
                &&& request.actor_id == actor_id
                &&& request.actor_kind == ActorKindDto::Operator
                &&& request.idempotency_key == idempotency_key
                &&& request.expected_revision is None
                &&& request.after_json == Some(sanitized_json)
                &&& request.now_ms == now_ms
                &&& plan->Ok_0.write is WritePolicy
                &&& plan->Ok_0.write->columns == columns_of(sanitized(policy)->Ok_0)
            }
        }),
{
}

} // verus!
