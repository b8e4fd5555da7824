//! Category policies: what a category's classified inputs may turn into.

use vstd::prelude::*;

use crate::contracts::email_triage::{EmailTriageGmailCategory, FALLBACK_CATEGORY_ID};
use crate::contracts::receipt::ActorKindDto;
use crate::contracts::work_queue::{
    WorkQueueAiGmailScope, WorkQueuePolicy, AI_SUGGEST_ALL_SENTINEL,
};
use crate::json::{quote_list, quoted_list, stored_strings, strings_or_none};
use crate::store_core::{ErrorView, RequestView, StoreError};
use crate::text::{is_blank, list_has, same_text};
use super::model::{copy_texts, PolicyView};
use super::plan::{
    plan_view, refused, DomainWrite, PlanView, PlannedMutation, PolicyColumns, PolicyColumnsView,
    WriteView,
};
use super::store::{
    first_unknown_kind, require_known_kinds, unknown_kind_code, POLICY_ENTITY_KIND,
};

verus! {

pub open spec fn gmail_scope_text(scope: WorkQueueAiGmailScope) -> Seq<char> {
    match scope {
        WorkQueueAiGmailScope::Default => "default"@,
        WorkQueueAiGmailScope::All => "all"@,
        WorkQueueAiGmailScope::Selected => "selected"@,
    }
}

pub fn gmail_scope_str(scope: WorkQueueAiGmailScope) -> (r: &'static str)
    ensures
        r@ == gmail_scope_text(scope),
{
    match scope {
        WorkQueueAiGmailScope::Default => "default",
        WorkQueueAiGmailScope::All => "all",
        WorkQueueAiGmailScope::Selected => "selected",
    }
}

/// The scope a stored text stands for; an unknown text is the default.
pub open spec fn gmail_scope_of(raw: Seq<char>) -> WorkQueueAiGmailScope {
    if raw == "all"@ {
        WorkQueueAiGmailScope::All
    } else if raw == "selected"@ {
        WorkQueueAiGmailScope::Selected
    } else {
        WorkQueueAiGmailScope::Default
    }
}

pub fn gmail_scope_from_str(raw: &str) -> (r: WorkQueueAiGmailScope)
    ensures
        r == gmail_scope_of(raw@),
{
    if same_text(raw, "all") {
        WorkQueueAiGmailScope::All
    } else if same_text(raw, "selected") {
        WorkQueueAiGmailScope::Selected
    } else {
        WorkQueueAiGmailScope::Default
    }
}

/// A stored Gmail scope reads back as the one that was written.
pub proof fn gmail_scope_reads_back(scope: WorkQueueAiGmailScope)
    ensures
        gmail_scope_of(gmail_scope_text(scope)) == scope,
{
    reveal_strlit("default");
    reveal_strlit("all");
    reveal_strlit("selected");
    assert("default"@.len() != "all"@.len());
    assert("default"@.len() != "selected"@.len());
    assert("all"@.len() != "selected"@.len());
}

pub open spec fn gmail_category_text(category: EmailTriageGmailCategory) -> Seq<char> {
    match category {
        EmailTriageGmailCategory::Primary => "primary"@,
        EmailTriageGmailCategory::Updates => "updates"@,
        EmailTriageGmailCategory::Social => "social"@,
        EmailTriageGmailCategory::Promotions => "promotions"@,
        EmailTriageGmailCategory::Forums => "forums"@,
    }
}

pub fn gmail_category_str(category: EmailTriageGmailCategory) -> (r: &'static str)
    ensures
        r@ == gmail_category_text(category),
{
    match category {
        EmailTriageGmailCategory::Primary => "primary",
        EmailTriageGmailCategory::Updates => "updates",
        EmailTriageGmailCategory::Social => "social",
        EmailTriageGmailCategory::Promotions => "promotions",
        EmailTriageGmailCategory::Forums => "forums",
    }
}

/// The texts of Gmail categories.
pub open spec fn gmail_category_texts(categories: Seq<EmailTriageGmailCategory>) -> Seq<Seq<char>> {
    categories.map_values(|c: EmailTriageGmailCategory| gmail_category_text(c))
}

fn gmail_category_strings(categories: &Vec<EmailTriageGmailCategory>) -> (r: Vec<String>)
    ensures
        r.deep_view() == gmail_category_texts(categories@),
{
    let mut out: Vec<String> = Vec::new();
    let mut i: usize = 0;
    while i < categories.len()
        invariant
            i <= categories.len(),
            out.deep_view() == gmail_category_texts(categories@.take(i as int)),
        decreases categories.len() - i,
    {
        let ghost before = out.deep_view();
        out.push(gmail_category_str(categories[i]).to_owned());
        proof {
            let text = gmail_category_text(categories[i as int]);
            assert(out.deep_view() =~= before.push(text));
            assert(gmail_category_texts(categories@.take(i + 1)) =~= before.push(text));
        }
        i += 1;
    }
    proof {
        assert(categories@.take(i as int) =~= categories@);
    }
    out
}

/// A policy as its columns store it.
pub open spec fn columns_of(policy: PolicyView) -> PolicyColumnsView {
    PolicyColumnsView {
        category_id: policy.category_id,
        create_work_item: policy.create_work_item,
        packet_kinds_json: quoted_list(policy.packet_kinds),
        auto_produce: policy.auto_produce,
        ai_suggestible_packet_kinds_json: quoted_list(policy.ai_suggestible_packet_kinds),
        ai_suggestible_gmail_scope: gmail_scope_text(policy.ai_suggestible_gmail_scope),
        ai_suggestible_gmail_categories_json: quoted_list(
            gmail_category_texts(policy.ai_suggestible_gmail_categories),
        ),
    }
}

/// The policy that columns store, where `categories` are the Gmail categories in
/// them.
pub open spec fn policy_in(
    columns: PolicyColumnsView,
    categories: Seq<EmailTriageGmailCategory>,
) -> PolicyView {
    PolicyView {
        category_id: columns.category_id,
        create_work_item: columns.create_work_item,
        packet_kinds: stored_strings(columns.packet_kinds_json),
        auto_produce: columns.auto_produce,
        ai_suggestible_packet_kinds: stored_strings(columns.ai_suggestible_packet_kinds_json),
        ai_suggestible_gmail_scope: gmail_scope_of(columns.ai_suggestible_gmail_scope),
        ai_suggestible_gmail_categories: categories,
    }
}

/// The columns of a policy. They read back as the policy that was written.
pub fn write_policy(policy: &WorkQueuePolicy) -> (r: PolicyColumns)
    ensures
        r.deep_view() == columns_of(policy.deep_view()),
        policy_in(r.deep_view(), policy.ai_suggestible_gmail_categories@) == policy.deep_view(),
{
    let categories: Vec<String> = gmail_category_strings(&policy.ai_suggestible_gmail_categories);
    proof {
        gmail_scope_reads_back(policy.ai_suggestible_gmail_scope);
    }
    PolicyColumns {
        category_id: policy.category_id.clone(),
        create_work_item: policy.create_work_item,
        packet_kinds_json: quote_list(&policy.packet_kinds),
        auto_produce: policy.auto_produce,
        ai_suggestible_packet_kinds_json: quote_list(&policy.ai_suggestible_packet_kinds),
        ai_suggestible_gmail_scope: gmail_scope_str(policy.ai_suggestible_gmail_scope).to_owned(),
        ai_suggestible_gmail_categories_json: quote_list(&categories),
    }
}

/// The policy of stored columns. `gmail_categories` are the categories in the last
/// of them; `None` where they cannot be read.
pub fn policy_from_parts(
    category_id: String,
    create_work_item: bool,
    packet_kinds: Vec<String>,
    auto_produce: bool,
    ai_suggestible_packet_kinds: Vec<String>,
    ai_suggestible_gmail_scope: &str,
    gmail_categories: Option<Vec<EmailTriageGmailCategory>>,
) -> (r: WorkQueuePolicy)
    ensures
        r.deep_view() == (PolicyView {
            category_id: category_id@,
            create_work_item,
            packet_kinds: packet_kinds.deep_view(),
            auto_produce,
            ai_suggestible_packet_kinds: ai_suggestible_packet_kinds.deep_view(),
            ai_suggestible_gmail_scope: gmail_scope_of(ai_suggestible_gmail_scope@),
            ai_suggestible_gmail_categories: match gmail_categories {
                Some(categories) => categories@,
                None => Seq::empty(),
            },
        }),
{
    let categories: Vec<EmailTriageGmailCategory> = match gmail_categories {
        Some(categories) => categories,
        None => Vec::new(),
    };
    WorkQueuePolicy {
        category_id,
        create_work_item,
        packet_kinds,
        auto_produce,
        ai_suggestible_packet_kinds,
        ai_suggestible_gmail_scope: gmail_scope_from_str(ai_suggestible_gmail_scope),
        ai_suggestible_gmail_categories: categories,
    }
}

/// The policy that stored columns hold. `gmail_categories` are the categories in
/// the last of them; `None` where they cannot be read.
pub fn policy_from_columns(
    columns: PolicyColumns,
    gmail_categories: Option<Vec<EmailTriageGmailCategory>>,
) -> (r: WorkQueuePolicy)
    ensures
        r.deep_view() == policy_in(
            columns.deep_view(),
            match gmail_categories {
                Some(categories) => categories@,
                None => Seq::empty(),
            },
        ),
{
    let packet_kinds: Vec<String> = strings_or_none(columns.packet_kinds_json.as_str());
    let ai_kinds: Vec<String> = strings_or_none(columns.ai_suggestible_packet_kinds_json.as_str());
    policy_from_parts(
        columns.category_id,
        columns.create_work_item,
        packet_kinds,
        columns.auto_produce,
        ai_kinds,
        columns.ai_suggestible_gmail_scope.as_str(),
        gmail_categories,
    )
}

/// The first AI-suggestible kind that is neither in the catalog nor the sentinel.
pub open spec fn first_unknown_suggestible(kinds: Seq<Seq<char>>) -> Option<Seq<char>> {
    if kinds.contains(AI_SUGGEST_ALL_SENTINEL@) {
        None
    } else {
        first_unknown_kind(kinds)
    }
}

/// A policy with every suggestion taken out of it.
pub open spec fn without_suggestions(policy: PolicyView) -> PolicyView {
    PolicyView {
        ai_suggestible_packet_kinds: Seq::empty(),
        ai_suggestible_gmail_scope: WorkQueueAiGmailScope::Default,
        ai_suggestible_gmail_categories: Seq::empty(),
        ..policy
    }
}

/// A policy that creates no work items: every output is cleared.
pub open spec fn silenced(policy: PolicyView) -> PolicyView {
    PolicyView { packet_kinds: Seq::empty(), auto_produce: false, ..without_suggestions(policy) }
}

/// The policy that is stored for a submitted one, or why it is refused.
pub open spec fn sanitized(policy: PolicyView) -> Result<PolicyView, ErrorView> {
    if is_blank(policy.category_id) {
        refused("work_queue_category_required"@)
    } else if first_unknown_kind(policy.packet_kinds) is Some {
        refused(unknown_kind_code(first_unknown_kind(policy.packet_kinds)->Some_0))
    } else if policy.ai_suggestible_packet_kinds.contains(AI_SUGGEST_ALL_SENTINEL@)
        && policy.ai_suggestible_packet_kinds.len() != 1 {
        refused("work_queue_ai_suggest_all_exclusive"@)
    } else if first_unknown_suggestible(policy.ai_suggestible_packet_kinds) is Some {
        refused(
            unknown_kind_code(
                first_unknown_suggestible(policy.ai_suggestible_packet_kinds)->Some_0,
            ),
        )
    } else if !policy.create_work_item {
        Ok(silenced(policy))
    } else if policy.ai_suggestible_packet_kinds.len() == 0 {
        Ok(without_suggestions(policy))
    } else if policy.category_id == FALLBACK_CATEGORY_ID@ {
        match policy.ai_suggestible_gmail_scope {
            WorkQueueAiGmailScope::Default => Ok(
                PolicyView {
                    ai_suggestible_gmail_categories: seq![
                        EmailTriageGmailCategory::Primary,
                        EmailTriageGmailCategory::Updates,
                    ],
                    ..policy
                },
            ),
            WorkQueueAiGmailScope::All => Ok(
                PolicyView { ai_suggestible_gmail_categories: Seq::empty(), ..policy },
            ),
            WorkQueueAiGmailScope::Selected => if policy.ai_suggestible_gmail_categories.len()
                == 0 {
                refused("work_queue_ai_gmail_scope_selected_empty"@)
            } else {
                Ok(policy)
            },
        }
    } else if policy.ai_suggestible_gmail_scope != WorkQueueAiGmailScope::Default
        || policy.ai_suggestible_gmail_categories.len() > 0 {
        refused("work_queue_ai_gmail_scope_fallback_only"@)
    } else {
        Ok(policy)
    }
}

/// What a policy, or its refusal, says.
pub open spec fn policy_answer(r: Result<WorkQueuePolicy, StoreError>) -> Result<
    PolicyView,
    ErrorView,
> {
    match r {
        Ok(policy) => Ok(policy.deep_view()),
        Err(e) => Err(e.deep_view()),
    }
}

/// Refuse the first suggestible kind that is neither in the catalog nor the
/// all-or-nothing sentinel ("any enabled kind"), which is not a catalog id.
fn require_known_suggestible(kinds: &Vec<String>) -> (r: Result<(), StoreError>)
    ensures
        match r {
            Ok(_) => first_unknown_suggestible(kinds.deep_view()) is None,
            Err(err) => first_unknown_suggestible(kinds.deep_view()) is Some && err.deep_view()
                == ErrorView::Domain(
                unknown_kind_code(first_unknown_suggestible(kinds.deep_view())->Some_0),
            ),
        },
{
    if list_has(kinds, AI_SUGGEST_ALL_SENTINEL) {
        Ok(())
    } else {
        require_known_kinds(kinds)
    }
}

/// The policy that is stored for a submitted one: refused where the category is
/// blank, a kind is unknown, the "any kind" sentinel has company, or Gmail scoping
/// is asked for outside the fallback category; with work items off, every output
/// is cleared.
pub fn sanitize_policy(policy: &WorkQueuePolicy) -> (r: Result<WorkQueuePolicy, StoreError>)
    ensures
        policy_answer(r) == sanitized(policy.deep_view()),
{
    if policy.category_id.as_str().trim().is_empty() {
        return Err(StoreError::domain("work_queue_category_required"));
    }
    if let Err(err) = require_known_kinds(&policy.packet_kinds) {
        return Err(err);
    }
    if list_has(&policy.ai_suggestible_packet_kinds, AI_SUGGEST_ALL_SENTINEL)
        && policy.ai_suggestible_packet_kinds.len() != 1 {
        return Err(StoreError::domain("work_queue_ai_suggest_all_exclusive"));
    }
    if let Err(err) = require_known_suggestible(&policy.ai_suggestible_packet_kinds) {
        return Err(err);
    }
    let mut packet_kinds: Vec<String> = copy_texts(&policy.packet_kinds);
    let mut ai_kinds: Vec<String> = copy_texts(&policy.ai_suggestible_packet_kinds);
    let mut categories: Vec<EmailTriageGmailCategory> =
        policy.ai_suggestible_gmail_categories.clone();
    proof {
        assert(categories@ =~= policy.ai_suggestible_gmail_categories@);
    }
    let mut scope: WorkQueueAiGmailScope = policy.ai_suggestible_gmail_scope;
    let mut auto_produce: bool = policy.auto_produce;
    if !policy.create_work_item {
        packet_kinds = Vec::new();
        ai_kinds = Vec::new();
        auto_produce = false;
        proof {
            assert(packet_kinds.deep_view() =~= Seq::<Seq<char>>::empty());
        }
    }
    let fallback: bool = same_text(policy.category_id.as_str(), FALLBACK_CATEGORY_ID);
    if ai_kinds.len() == 0 {
        categories = Vec::new();
        scope = WorkQueueAiGmailScope::Default;
        proof {
            assert(ai_kinds.deep_view() =~= Seq::<Seq<char>>::empty());
            assert(categories@ =~= Seq::<EmailTriageGmailCategory>::empty());
            if policy.create_work_item {
                assert(policy.ai_suggestible_packet_kinds.deep_view() =~= Seq::<Seq<char>>::empty());
            }
        }
    } else if fallback {
        match scope {
            WorkQueueAiGmailScope::Default => {
                categories = vec![
                    EmailTriageGmailCategory::Primary,
                    EmailTriageGmailCategory::Updates,
                ];
                proof {
                    assert(categories@ =~= seq![
                        EmailTriageGmailCategory::Primary,
                        EmailTriageGmailCategory::Updates,
                    ]);
                }
            },
            WorkQueueAiGmailScope::All => {
                categories = Vec::new();
                proof {
                    assert(categories@ =~= Seq::<EmailTriageGmailCategory>::empty());
                }
            },
            WorkQueueAiGmailScope::Selected => {
                if categories.len() == 0 {
                    return Err(StoreError::domain("work_queue_ai_gmail_scope_selected_empty"));
                }
            },
        }
    }
    if !fallback && (scope != WorkQueueAiGmailScope::Default || categories.len() > 0) {
        return Err(StoreError::domain("work_queue_ai_gmail_scope_fallback_only"));
    }
    Ok(
        WorkQueuePolicy {
            category_id: policy.category_id.clone(),
            create_work_item: policy.create_work_item,
            packet_kinds,
            auto_produce,
            ai_suggestible_packet_kinds: ai_kinds,
            ai_suggestible_gmail_scope: scope,
            ai_suggestible_gmail_categories: categories,
        },
    )
}

/// The mutation that stores a policy, or why it is refused.
pub open spec fn policy_plan(
    client_id: Seq<char>,
    actor_id: Seq<char>,
    policy: PolicyView,
    sanitized_json: Seq<char>,
    idempotency_key: Seq<char>,
    now_ms: u64,
) -> Result<PlanView, ErrorView> {
    match sanitized(policy) {
        Err(e) => Err(e),
        Ok(stored) => Ok(
            PlanView {
                request: RequestView {
                    client_id,
                    entity_kind: POLICY_ENTITY_KIND@,
                    entity_id: stored.category_id,
                    change_kind: "upsert"@,
                    actor_id,
                    actor_kind: ActorKindDto::Operator,
                    expected_revision: None,
                    idempotency_key,
                    correlation_id: None,
                    causation_id: None,
                    before_json: None,
                    after_json: Some(sanitized_json),
                    now_ms,
                },
                write: WriteView::WritePolicy { columns: columns_of(stored) },
            },
        ),
    }
}

/// The mutation that stores a policy. `sanitized_json` is the JSON of what
/// [`sanitize_policy`] gives, which the receipt keeps.
pub fn upsert_policy(
    client_id: &str,
    actor_id: &str,
    policy: &WorkQueuePolicy,
    sanitized_json: &str,
    idempotency_key: &str,
    now_ms: u64,
) -> (r: Result<PlannedMutation, StoreError>)
    ensures
        plan_view(r) == policy_plan(
            client_id@,
            actor_id@,
            policy.deep_view(),
            sanitized_json@,
            idempotency_key@,
            now_ms,
        ),
{
    match sanitize_policy(policy) {
        Err(err) => Err(err),
        Ok(stored) => Ok(
            PlannedMutation {
                client_id: client_id.to_owned(),
                entity_kind: POLICY_ENTITY_KIND.to_owned(),
                entity_id: stored.category_id.clone(),
                change_kind: "upsert".to_owned(),
                actor_id: actor_id.to_owned(),
                actor_kind: ActorKindDto::Operator,
                expected_revision: None,
                idempotency_key: idempotency_key.to_owned(),
                correlation_id: None,
                before_json: None,
                after_json: Some(sanitized_json.to_owned()),
                now_ms,
                write: DomainWrite::WritePolicy { columns: write_policy(&stored) },
            },
        ),
    }
}

/// What is stored for a policy is stored as it is when it is submitted again.
pub proof fn sanitizing_twice_changes_nothing(policy: PolicyView)
    requires
        sanitized(policy) is Ok,
    ensures
        sanitized(sanitized(policy)->Ok_0) == sanitized(policy),
{
    let stored = sanitized(policy)->Ok_0;
    assert(Seq::<Seq<char>>::empty().contains(AI_SUGGEST_ALL_SENTINEL@) == false);
    if !policy.create_work_item {
        assert(silenced(stored) == stored);
    } else if policy.ai_suggestible_packet_kinds.len() == 0 {
        assert(without_suggestions(stored) == stored);
    }
}

/// With work items off, no output and no suggestion is stored.
pub proof fn work_items_off_clears_every_output(policy: PolicyView)
    requires
        sanitized(policy) is Ok,
        !policy.create_work_item,
    ensures
        ({
            let stored = sanitized(policy)->Ok_0;
            &&& !stored.create_work_item
            &&& stored.packet_kinds.len() == 0
            &&& !stored.auto_produce
            &&& stored.ai_suggestible_packet_kinds.len() == 0
            &&& stored.ai_suggestible_gmail_scope == WorkQueueAiGmailScope::Default
            &&& stored.ai_suggestible_gmail_categories.len() == 0
        }),
{
}

/// Every kind of a stored policy is in the catalog, and its suggestible kinds are
/// the sentinel alone, or in the catalog too.
pub proof fn stored_policies_name_known_kinds(policy: PolicyView)
    requires
        sanitized(policy) is Ok,
    ensures
        ({
            let stored = sanitized(policy)->Ok_0;
            &&& first_unknown_kind(stored.packet_kinds) is None
            &&& stored.ai_suggestible_packet_kinds == seq![AI_SUGGEST_ALL_SENTINEL@]
                || first_unknown_kind(stored.ai_suggestible_packet_kinds) is None
        }),
{
    let ai = policy.ai_suggestible_packet_kinds;
    if ai.contains(AI_SUGGEST_ALL_SENTINEL@) {
        assert(ai =~= seq![AI_SUGGEST_ALL_SENTINEL@]);
    }
}

/// Outside the fallback category no Gmail scope is ever stored.
pub proof fn gmail_scope_is_for_the_fallback_category(policy: PolicyView)
    requires
        sanitized(policy) is Ok,
        policy.category_id != FALLBACK_CATEGORY_ID@,
    ensures
        sanitized(policy)->Ok_0.ai_suggestible_gmail_scope == WorkQueueAiGmailScope::Default,
        sanitized(policy)->Ok_0.ai_suggestible_gmail_categories.len() == 0,
{
}

} // verus!
