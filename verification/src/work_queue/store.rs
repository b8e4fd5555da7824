//! Work item + policy persistence through the receipt spine: each function takes
//! what was read of the stored rows and says what is refused, or which mutation
//! is to run.

use vstd::prelude::*;

use crate::contracts::receipt::ActorKindDto;
use crate::contracts::work_queue::{
    WorkItem, WorkItemAcceptActor, WorkItemAssignActionKind, WorkItemStatus,
};
use crate::http::{scope_sees, OperatorScope, ScopeView};
use crate::json::{
    bool_json, member, member_text, object_of, object_text, quote, quote_list, quote_or_null,
    quoted, quoted_list, quoted_or_null, rewrite_json, rewritten_json, stored_strings,
    strings_or_none,
};
use crate::lists::{
    distinct_ids, first_occurrences, merge_into, merged, unique_ids, without_repeats,
};
use crate::outbox::{JobView, NewOutboxJob};
use crate::store_core::{ErrorView, RequestView, StoreError};
use crate::text::{
    case_blind_sorted, decimal, decimal_text, is_blank, join, joined, list_has, same_text,
    sort_case_blind, trimmed,
};
use super::model::ItemView;
use super::plan::{
    plan_view, refused, ContextView, DomainWrite, PlanView, PlannedMutation,
    ScopedMutationContext, WriteView,
};
use super::{kind_in_catalog, packet_kind_exists};

verus! {

pub const ITEM_ENTITY_KIND: &'static str = "work_item";

pub const POLICY_ENTITY_KIND: &'static str = "work_queue_policy";

pub const AGENT_LAUNCH_ENTITY_KIND: &'static str = "work_item_agent_launch";

pub const PRODUCE_GUIDANCE_MAX_CHARS: usize = 2_000;

pub open spec fn status_text(status: WorkItemStatus) -> Seq<char> {
    match status {
        WorkItemStatus::Open => "open"@,
        WorkItemStatus::Accepted => "accepted"@,
        WorkItemStatus::Dismissed => "dismissed"@,
    }
}

pub fn status_str(status: WorkItemStatus) -> (r: &'static str)
    ensures
        r@ == status_text(status),
{
    match status {
        WorkItemStatus::Open => "open",
        WorkItemStatus::Accepted => "accepted",
        WorkItemStatus::Dismissed => "dismissed",
    }
}

/// The status a stored text stands for; an unknown text is open.
pub open spec fn status_of(raw: Seq<char>) -> WorkItemStatus {
    if raw == "accepted"@ {
        WorkItemStatus::Accepted
    } else if raw == "dismissed"@ {
        WorkItemStatus::Dismissed
    } else {
        WorkItemStatus::Open
    }
}

pub fn status_from_str(raw: &str) -> (r: WorkItemStatus)
    ensures
        r == status_of(raw@),
{
    if same_text(raw, "accepted") {
        WorkItemStatus::Accepted
    } else if same_text(raw, "dismissed") {
        WorkItemStatus::Dismissed
    } else {
        WorkItemStatus::Open
    }
}

pub open spec fn accept_actor_text(actor: WorkItemAcceptActor) -> Seq<char> {
    match actor {
        WorkItemAcceptActor::Operator => "operator"@,
        WorkItemAcceptActor::System => "system"@,
    }
}

pub fn accept_actor_str(actor: WorkItemAcceptActor) -> (r: &'static str)
    ensures
        r@ == accept_actor_text(actor),
{
    match actor {
        WorkItemAcceptActor::Operator => "operator",
        WorkItemAcceptActor::System => "system",
    }
}

/// The actor a stored text stands for; an unknown text is nobody's.
pub open spec fn accept_actor_of(raw: Seq<char>) -> Option<WorkItemAcceptActor> {
    if raw == "operator"@ {
        Some(WorkItemAcceptActor::Operator)
    } else if raw == "system"@ {
        Some(WorkItemAcceptActor::System)
    } else {
        None
    }
}

pub fn accept_actor_from_str(raw: &str) -> (r: Option<WorkItemAcceptActor>)
    ensures
        r == accept_actor_of(raw@),
{
    if same_text(raw, "operator") {
        Some(WorkItemAcceptActor::Operator)
    } else if same_text(raw, "system") {
        Some(WorkItemAcceptActor::System)
    } else {
        None
    }
}

/// The stored texts of statuses and accepting actors read back as what was
/// written.
pub proof fn stored_item_texts_read_back(status: WorkItemStatus, actor: WorkItemAcceptActor)
    ensures
        status_of(status_text(status)) == status,
        accept_actor_of(accept_actor_text(actor)) == Some(actor),
{
    reveal_strlit("open");
    reveal_strlit("accepted");
    reveal_strlit("dismissed");
    reveal_strlit("operator");
    reveal_strlit("system");
    assert("open"@.len() != "accepted"@.len());
    assert("open"@.len() != "dismissed"@.len());
    assert("accepted"@.len() != "dismissed"@.len());
    assert("operator"@.len() != "system"@.len());
}

/// An accepting actor as a column stores it.
pub open spec fn accept_actor_column(actor: Option<WorkItemAcceptActor>) -> Option<Seq<char>> {
    match actor {
        Some(a) => Some(accept_actor_text(a)),
        None => None,
    }
}

fn accept_actor_column_text(actor: Option<WorkItemAcceptActor>) -> (r: Option<String>)
    ensures
        r.deep_view() == accept_actor_column(actor),
{
    match actor {
        Some(a) => Some(accept_actor_str(a).to_owned()),
        None => None,
    }
}

/// The predicate that keeps a query to the items in scope, and the two values it
/// binds.
pub fn visibility_sql_filter(scope: &OperatorScope, all_idx: usize, user_idx: usize) -> (r: (
    String,
    i64,
    String,
))
    ensures
        r.0@ == visibility_predicate(all_idx as nat, user_idx as nat),
        r.1 == (if scope.deep_view() is All {
            1i64
        } else {
            0i64
        }),
        r.2@ == (match scope.deep_view() {
            ScopeView::All => Seq::<char>::empty(),
            ScopeView::User(user_id) => user_id,
        }),
{
    let (scope_all, scope_user) = scope.sql_params();
    let all: String = decimal_text(all_idx as u64);
    let user: String = decimal_text(user_idx as u64);
    let predicate: String = "(?".to_owned().concat(all.as_str()).concat(
        " = 1 OR w.source_user_id = ?",
    ).concat(user.as_str()).concat(
        " OR EXISTS (SELECT 1 FROM work_item_visibility v WHERE v.client_id = w.client_id AND v.item_id = w.item_id AND v.user_id = ?",
    ).concat(user.as_str()).concat("))");
    (predicate, scope_all, scope_user)
}

/// The items in scope: all of them, the user's own, or those a visibility row
/// shows.
pub open spec fn visibility_predicate(all_idx: nat, user_idx: nat) -> Seq<char> {
    "(?"@ + decimal(all_idx) + " = 1 OR w.source_user_id = ?"@ + decimal(user_idx)
        + " OR EXISTS (SELECT 1 FROM work_item_visibility v WHERE v.client_id = w.client_id AND v.item_id = w.item_id AND v.user_id = ?"@
        + decimal(user_idx) + "))"@
}

/// The user whose visibility row decides whether an item is in scope; `None` where
/// it is in scope without one.
pub fn visibility_lookup_user<'a>(
    scope: &'a OperatorScope,
    source_user_id: Option<&str>,
) -> (r: Option<&'a str>)
    ensures
        r.deep_view() == (match scope.deep_view() {
            ScopeView::All => None,
            ScopeView::User(user_id) => if source_user_id.deep_view() == Some(user_id) {
                None
            } else {
                Some(user_id)
            },
        }),
{
    match scope {
        OperatorScope::All => None,
        OperatorScope::User(user_id) => if scope.matches_source_user(source_user_id) {
            None
        } else {
            Some(user_id.as_str())
        },
    }
}

/// True when an item is in scope, given whether a visibility row shows it to the
/// scope's user.
pub fn item_visible_to_scope(item: &WorkItem, scope: &OperatorScope, visibility_row: bool) -> (r:
    bool)
    ensures
        r == scope_sees(scope.deep_view(), item.deep_view().source_user_id, visibility_row),
{
    let source: Option<&str> = optional_str(&item.source_user_id);
    visibility_row || scope.matches_source_user(source)
}

/// Refuse an item that is out of scope.
pub fn require_item_visible(
    source_user_id: Option<&str>,
    scope: &OperatorScope,
    visibility_row: bool,
) -> (r: Result<(), StoreError>)
    ensures
        r is Ok <==> scope_sees(scope.deep_view(), source_user_id.deep_view(), visibility_row),
        r is Err ==> r->Err_0.deep_view() == ErrorView::Domain("scope_forbidden"@),
{
    if visibility_row || scope.matches_source_user(source_user_id) {
        Ok(())
    } else {
        Err(StoreError::domain("scope_forbidden"))
    }
}

/// The text of an optional text.
pub fn optional_str<'a>(text: &'a Option<String>) -> (r: Option<&'a str>)
    ensures
        r.deep_view() == text.deep_view(),
{
    match text {
        Some(t) => Some(t.as_str()),
        None => None,
    }
}

pub use super::plan::ScopedMutationContext as ItemActionContext;

#[derive(Debug, Clone, Copy, PartialEq, Eq, Structural)]
pub enum ItemAction {
    Accept,
    Dismiss,
    Reopen,
}

impl ItemAction {
    pub open spec fn change_kind_text(self) -> Seq<char> {
        match self {
            ItemAction::Accept => "accept"@,
            ItemAction::Dismiss => "dismiss"@,
            ItemAction::Reopen => "reopen"@,
        }
    }

    pub fn change_kind(self) -> (r: &'static str)
        ensures
            r@ == self.change_kind_text(),
    {
        match self {
            ItemAction::Accept => "accept",
            ItemAction::Dismiss => "dismiss",
            ItemAction::Reopen => "reopen",
        }
    }

    /// The status an action leads to.
    pub open spec fn target(self) -> WorkItemStatus {
        match self {
            ItemAction::Accept => WorkItemStatus::Accepted,
            ItemAction::Dismiss => WorkItemStatus::Dismissed,
            ItemAction::Reopen => WorkItemStatus::Open,
        }
    }

    pub fn target_status(self) -> (r: &'static str)
        ensures
            r@ == status_text(self.target()),
    {
        match self {
            ItemAction::Accept => "accepted",
            ItemAction::Dismiss => "dismissed",
            ItemAction::Reopen => "open",
        }
    }

    /// Who accepted the item after an action.
    pub open spec fn target_actor(self) -> Option<WorkItemAcceptActor> {
        match self {
            ItemAction::Accept => Some(WorkItemAcceptActor::Operator),
            ItemAction::Dismiss => None,
            ItemAction::Reopen => None,
        }
    }

    pub fn target_accept_actor(self) -> (r: Option<WorkItemAcceptActor>)
        ensures
            r == self.target_actor(),
    {
        match self {
            ItemAction::Accept => Some(WorkItemAcceptActor::Operator),
            ItemAction::Dismiss => None,
            ItemAction::Reopen => None,
        }
    }
}

/// What is read of an item before its status changes.
#[derive(Debug, Clone, PartialEq, Eq)]
pub struct ItemStatusRow {
    pub status: String,
    pub source_user_id: Option<String>,
    pub accept_actor: Option<String>,
}

/// The JSON that receipts keep of a status.
pub open spec fn status_json(status: Seq<char>, accept_actor: Option<Seq<char>>) -> Seq<char> {
    object_of(
        seq![
            member("accept_actor"@, quoted_or_null(accept_actor)),
            member("status"@, quoted(status)),
        ],
    )
}

fn status_json_text(status: &str, accept_actor: Option<&str>) -> (r: String)
    ensures
        r@ == status_json(status@, accept_actor.deep_view()),
{
    let members: Vec<String> = vec![
        member_text("accept_actor", quote_or_null(accept_actor).as_str()),
        member_text("status", quote(status).as_str()),
    ];
    proof {
        assert(members.deep_view() =~= seq![
            member("accept_actor"@, quoted_or_null(accept_actor.deep_view())),
            member("status"@, quoted(status@)),
        ]);
    }
    object_text(&members)
}

/// The request of an operator's change to an item.
pub open spec fn item_request(
    ctx: ContextView,
    item_id: Seq<char>,
    change_kind: Seq<char>,
    before_json: Seq<char>,
    after_json: Seq<char>,
) -> RequestView {
    RequestView {
        client_id: ctx.client_id,
        entity_kind: ITEM_ENTITY_KIND@,
        entity_id: item_id,
        change_kind,
        actor_id: ctx.actor_id,
        actor_kind: ActorKindDto::Operator,
        expected_revision: ctx.expected_revision,
        idempotency_key: ctx.idempotency_key,
        correlation_id: None,
        causation_id: None,
        before_json: Some(before_json),
        after_json: Some(after_json),
        now_ms: ctx.now_ms,
    }
}

fn item_plan(
    ctx: &ScopedMutationContext<'_>,
    item_id: &str,
    change_kind: &str,
    before_json: String,
    after_json: String,
    write: DomainWrite,
) -> (r: PlannedMutation)
    ensures
        r.deep_view() == (PlanView {
            request: item_request(
                ctx.deep_view(),
                item_id@,
                change_kind@,
                before_json@,
                after_json@,
            ),
            write: write.deep_view(),
        }),
{
    PlannedMutation {
        client_id: ctx.client_id.to_owned(),
        entity_kind: ITEM_ENTITY_KIND.to_owned(),
        entity_id: item_id.to_owned(),
        change_kind: change_kind.to_owned(),
        actor_id: ctx.actor_id.to_owned(),
        actor_kind: ActorKindDto::Operator,
        expected_revision: ctx.expected_revision,
        idempotency_key: ctx.idempotency_key.to_owned(),
        correlation_id: None,
        before_json: Some(before_json),
        after_json: Some(after_json),
        now_ms: ctx.now_ms,
        write,
    }
}

/// An operator's decision on an item, given what is stored of it: refused where
/// there is no such item or it is out of scope.
pub open spec fn item_action_plan(
    ctx: ContextView,
    item_id: Seq<char>,
    action: ItemAction,
    current: Option<ItemStatusRow>,
    visibility_row: bool,
) -> Result<PlanView, ErrorView> {
    match current {
        None => refused("work_item_not_found"@),
        Some(row) => if !scope_sees(ctx.scope, row.source_user_id.deep_view(), visibility_row) {
            refused("scope_forbidden"@)
        } else {
            Ok(
                PlanView {
                    request: item_request(
                        ctx,
                        item_id,
                        action.change_kind_text(),
                        status_json(row.status@, row.accept_actor.deep_view()),
                        status_json(
                            status_text(action.target()),
                            accept_actor_column(action.target_actor()),
                        ),
                    ),
                    write: WriteView::SetStatus {
                        status: status_text(action.target()),
                        accept_actor: accept_actor_column(action.target_actor()),
                    },
                },
            )
        },
    }
}

/// An operator's decision on an item. `current` is what is stored of it, and
/// `visibility_row` whether a visibility row shows it to the scope's user.
pub fn apply_item_action(
    ctx: &ScopedMutationContext<'_>,
    item_id: &str,
    action: ItemAction,
    current: &Option<ItemStatusRow>,
    visibility_row: bool,
) -> (r: Result<PlannedMutation, StoreError>)
    ensures
        plan_view(r) == item_action_plan(
            ctx.deep_view(),
            item_id@,
            action,
            *current,
            visibility_row,
        ),
{
    match current {
        None => Err(StoreError::domain("work_item_not_found")),
        Some(row) => {
            match require_item_visible(
                optional_str(&row.source_user_id),
                ctx.scope,
                visibility_row,
            ) {
                Err(err) => Err(err),
                Ok(_) => {
                    let next_accept_actor: Option<String> = accept_actor_column_text(
                        action.target_accept_actor(),
                    );
                    let before_json: String = status_json_text(
                        row.status.as_str(),
                        optional_str(&row.accept_actor),
                    );
                    let after_json: String = status_json_text(
                        action.target_status(),
                        optional_str(&next_accept_actor),
                    );
                    let write: DomainWrite = DomainWrite::SetStatus {
                        status: action.target_status().to_owned(),
                        accept_actor: next_accept_actor,
                    };
                    Ok(
                        item_plan(
                            ctx,
                            item_id,
                            action.change_kind(),
                            before_json,
                            after_json,
                            write,
                        ),
                    )
                },
            }
        },
    }
}

/// The system's acceptance of an item, given what is stored of it.
pub open spec fn system_accept_plan(
    client_id: Seq<char>,
    item_id: Seq<char>,
    actor_id: Seq<char>,
    expected_revision: Option<u64>,
    idempotency_key: Seq<char>,
    now_ms: u64,
    current: Option<ItemStatusRow>,
) -> Result<PlanView, ErrorView> {
    match current {
        None => refused("work_item_not_found"@),
        Some(row) => {
            let actor = Some(accept_actor_text(WorkItemAcceptActor::System));
            Ok(
                PlanView {
                    request: RequestView {
                        client_id,
                        entity_kind: ITEM_ENTITY_KIND@,
                        entity_id: item_id,
                        change_kind: "system_accept"@,
                        actor_id,
                        actor_kind: ActorKindDto::System,
                        expected_revision,
                        idempotency_key,
                        correlation_id: None,
                        causation_id: None,
                        before_json: Some(status_json(row.status@, row.accept_actor.deep_view())),
                        after_json: Some(
                            status_json(status_text(WorkItemStatus::Accepted), actor),
                        ),
                        now_ms,
                    },
                    write: WriteView::SetStatus {
                        status: status_text(WorkItemStatus::Accepted),
                        accept_actor: actor,
                    },
                },
            )
        },
    }
}

/// The system's acceptance of an item. No scope is asked for: the system acts on
/// the whole queue.
pub fn system_accept_item(
    client_id: &str,
    item_id: &str,
    actor_id: &str,
    expected_revision: Option<u64>,
    idempotency_key: &str,
    now_ms: u64,
    current: &Option<ItemStatusRow>,
) -> (r: Result<PlannedMutation, StoreError>)
    ensures
        plan_view(r) == system_accept_plan(
            client_id@,
            item_id@,
            actor_id@,
            expected_revision,
            idempotency_key@,
            now_ms,
            *current,
        ),
{
    match current {
        None => Err(StoreError::domain("work_item_not_found")),
        Some(row) => {
            let actor: &str = accept_actor_str(WorkItemAcceptActor::System);
            Ok(
                PlannedMutation {
                    client_id: client_id.to_owned(),
                    entity_kind: ITEM_ENTITY_KIND.to_owned(),
                    entity_id: item_id.to_owned(),
                    change_kind: "system_accept".to_owned(),
                    actor_id: actor_id.to_owned(),
                    actor_kind: ActorKindDto::System,
                    expected_revision,
                    idempotency_key: idempotency_key.to_owned(),
                    correlation_id: None,
                    before_json: Some(
                        status_json_text(row.status.as_str(), optional_str(&row.accept_actor)),
                    ),
                    after_json: Some(status_json_text("accepted", Some(actor))),
                    now_ms,
                    write: DomainWrite::SetStatus {
                        status: "accepted".to_owned(),
                        accept_actor: Some(actor.to_owned()),
                    },
                },
            )
        },
    }
}

/// The first of the kinds that the catalog does not know.
pub open spec fn first_unknown_kind(kinds: Seq<Seq<char>>) -> Option<Seq<char>>
    decreases kinds.len(),
{
    if kinds.len() == 0 {
        None
    } else if !kind_in_catalog(kinds[0]) {
        Some(kinds[0])
    } else {
        first_unknown_kind(kinds.drop_first())
    }
}

/// The code that refuses an unknown kind.
pub open spec fn unknown_kind_code(kind: Seq<char>) -> Seq<char> {
    "work_queue_packet_kind_unknown:"@ + kind
}

/// Refuse the first kind that the catalog does not know.
pub fn require_known_kinds(kinds: &Vec<String>) -> (r: Result<(), StoreError>)
    ensures
        match r {
            Ok(_) => first_unknown_kind(kinds.deep_view()) is None,
            Err(err) => first_unknown_kind(kinds.deep_view()) is Some && err.deep_view()
                == ErrorView::Domain(
                unknown_kind_code(first_unknown_kind(kinds.deep_view())->Some_0),
            ),
        },
{
    let ghost all = kinds.deep_view();
    let mut i: usize = 0;
    proof {
        assert(all.skip(0) =~= all);
    }
    while i < kinds.len()
        invariant
            i <= kinds.len(),
            all == kinds.deep_view(),
            first_unknown_kind(all) == first_unknown_kind(all.skip(i as int)),
        decreases kinds.len() - i,
    {
        proof {
            assert(all.skip(i as int)[0] == kinds[i as int]@);
            assert(all.skip(i as int).drop_first() =~= all.skip(i + 1));
        }
        if !packet_kind_exists(kinds[i].as_str()) {
            return Err(
                StoreError::Domain(
                    "work_queue_packet_kind_unknown:".to_owned().concat(kinds[i].as_str()),
                ),
            );
        }
        i += 1;
    }
    Ok(())
}

/// What is read of an item before its kinds change.
#[derive(Debug, Clone, PartialEq, Eq)]
pub struct ItemKindsRow {
    pub status: String,
    pub packet_kinds_json: String,
    pub source_user_id: Option<String>,
}

/// The JSON that receipts keep of an item's kinds.
pub open spec fn kinds_json(packet_kinds_json: Seq<char>) -> Seq<char> {
    "{\"packet_kinds\":"@ + packet_kinds_json + "}"@
}

fn kinds_json_text(packet_kinds_json: &str) -> (r: String)
    ensures
        r@ == kinds_json(packet_kinds_json@),
{
    "{\"packet_kinds\":".to_owned().concat(packet_kinds_json).concat("}")
}

/// The replacement of an item's kinds, given what is stored of it: refused where a
/// kind is unknown, there is no such item, it is out of scope, or it is dismissed.
pub open spec fn packet_kinds_plan(
    ctx: ContextView,
    item_id: Seq<char>,
    packet_kinds: Seq<Seq<char>>,
    current: Option<ItemKindsRow>,
    visibility_row: bool,
) -> Result<PlanView, ErrorView> {
    match first_unknown_kind(packet_kinds) {
        Some(kind) => refused(unknown_kind_code(kind)),
        None => match current {
            None => refused("work_item_not_found"@),
            Some(row) => if !scope_sees(
                ctx.scope,
                row.source_user_id.deep_view(),
                visibility_row,
            ) {
                refused("scope_forbidden"@)
            } else if row.status@ == status_text(WorkItemStatus::Dismissed) {
                refused("work_item_kinds_not_editable"@)
            } else {
                let json = quoted_list(first_occurrences(packet_kinds));
                Ok(
                    PlanView {
                        request: item_request(
                            ctx,
                            item_id,
                            "set_kinds"@,
                            kinds_json(row.packet_kinds_json@),
                            kinds_json(json),
                        ),
                        write: WriteView::SetPacketKinds { packet_kinds_json: json },
                    },
                )
            },
        },
    }
}

/// Replace an item's suggested packet kinds (operator tuning what gets
/// produced). Kinds must exist in the catalog; dismissed items refuse —
/// reopen first if it deserves work after all.
pub fn update_packet_kinds(
    ctx: &ScopedMutationContext<'_>,
    item_id: &str,
    packet_kinds: &Vec<String>,
    current: &Option<ItemKindsRow>,
    visibility_row: bool,
) -> (r: Result<PlannedMutation, StoreError>)
    ensures
        plan_view(r) == packet_kinds_plan(
            ctx.deep_view(),
            item_id@,
            packet_kinds.deep_view(),
            *current,
            visibility_row,
        ),
        r is Ok ==> stored_strings(
            r->Ok_0.deep_view().write->SetPacketKinds_packet_kinds_json,
        ) == first_occurrences(packet_kinds.deep_view()),
{
    if let Err(err) = require_known_kinds(packet_kinds) {
        return Err(err);
    }
    match current {
        None => Err(StoreError::domain("work_item_not_found")),
        Some(row) => {
            if let Err(err) = require_item_visible(
                optional_str(&row.source_user_id),
                ctx.scope,
                visibility_row,
            ) {
                return Err(err);
            }
            if same_text(row.status.as_str(), "dismissed") {
                return Err(StoreError::domain("work_item_kinds_not_editable"));
            }
            let deduped: Vec<String> = without_repeats(packet_kinds);
            let packet_kinds_json: String = quote_list(&deduped);
            let before_json: String = kinds_json_text(row.packet_kinds_json.as_str());
            let after_json: String = kinds_json_text(packet_kinds_json.as_str());
            let write: DomainWrite = DomainWrite::SetPacketKinds { packet_kinds_json };
            Ok(item_plan(ctx, item_id, "set_kinds", before_json, after_json, write))
        },
    }
}

/// What is read of an item before the AI adds kinds to it.
#[derive(Debug, Clone, PartialEq, Eq)]
pub struct ItemSuggestionRow {
    pub status: String,
    pub packet_kinds_json: String,
    pub ai_suggested: bool,
    pub rationale: String,
}

/// How the keys of an item's suggestions begin.
pub open spec fn suggestion_prefix(item_id: Seq<char>) -> Seq<char> {
    "ai_suggest_kinds:"@ + item_id + ":"@
}

/// The key of a suggestion that leaves an item with these kinds.
pub open spec fn suggestion_key(item_id: Seq<char>, kinds: Seq<Seq<char>>) -> Seq<char> {
    suggestion_prefix(item_id) + joined(kinds, ","@)
}

/// A key as it is, or with `:again` behind it as often as it takes to be none of the
/// spent ones. So a kind that the operator took away can be suggested again.
pub open spec fn unspent(key: Seq<char>, spent: Seq<Seq<char>>) -> Seq<char>
    decreases spent.len(),
{
    if spent.contains(key) {
        unspent(key + ":again"@, spent.remove(spent.index_of(key)))
    } else {
        key
    }
}

/// [`unspent`] keeps the key in front, and is none of the spent ones.
pub proof fn unspent_is_free(key: Seq<char>, spent: Seq<Seq<char>>)
    ensures
        key.is_prefix_of(unspent(key, spent)),
        !spent.contains(unspent(key, spent)),
    decreases spent.len(),
{
    if spent.contains(key) {
        reveal_strlit(":again");
        let longer = key + ":again"@;
        let at = spent.index_of(key);
        let rest = spent.remove(at);
        let free = unspent(longer, rest);
        unspent_is_free(longer, rest);
        assert(free.len() >= longer.len());
        assert(free.take(longer.len() as int) =~= longer);
        assert(free.take(key.len() as int) =~= key);
        if spent.contains(free) {
            let k = choose|k: int| 0 <= k < spent.len() && spent[k] == free;
            if k < at {
                assert(rest[k] == free);
            } else {
                assert(rest[k - 1] == free);
            }
        }
    }
}

fn unspent_key(key: String, spent: &Vec<String>) -> (r: String)
    ensures
        r@ == unspent(key@, spent.deep_view()),
{
    let ghost all = spent.deep_view();
    let ghost mut rest = all;
    let mut candidate: String = key;
    while list_has(spent, candidate.as_str())
        invariant
            all == spent.deep_view(),
            unspent(candidate@, rest) == unspent(key@, all),
            forall|k: Seq<char>|
                k.len() >= candidate@.len() ==> (#[trigger] rest.contains(k) <==> all.contains(k)),
        decreases rest.len(),
    {
        let ghost used = candidate@;
        let ghost at = rest.index_of(used);
        let ghost fewer = rest.remove(at);
        candidate = candidate.concat(":again");
        proof {
            reveal_strlit(":again");
            assert(rest.contains(used));
            assert forall|k: Seq<char>| k.len() >= candidate@.len() implies (
            #[trigger] fewer.contains(k) <==> all.contains(k)) by {
                assert(rest.contains(k) <==> all.contains(k));
                if rest.contains(k) {
                    let i = choose|i: int| 0 <= i < rest.len() && rest[i] == k;
                    if i < at {
                        assert(fewer[i] == k);
                    } else {
                        assert(fewer[i - 1] == k);
                    }
                }
                if fewer.contains(k) {
                    let i = choose|i: int| 0 <= i < fewer.len() && fewer[i] == k;
                    assert(rest[i] == k || rest[i + 1] == k);
                }
            }
            rest = fewer;
        }
    }
    candidate
}

/// The JSON that receipts keep of an item's suggestion.
pub open spec fn suggestion_json(
    packet_kinds_json: Seq<char>,
    ai_suggested: bool,
    rationale: Seq<char>,
) -> Seq<char> {
    object_of(
        seq![
            member("ai_suggested"@, bool_json(ai_suggested)),
            member("packet_kinds"@, packet_kinds_json),
            member("rationale"@, quoted(rationale)),
        ],
    )
}

fn suggestion_json_text(packet_kinds_json: &str, ai_suggested: bool, rationale: &str) -> (r: String)
    ensures
        r@ == suggestion_json(packet_kinds_json@, ai_suggested, rationale@),
{
    let flag: &str = if ai_suggested {
        "true"
    } else {
        "false"
    };
    let members: Vec<String> = vec![
        member_text("ai_suggested", flag),
        member_text("packet_kinds", packet_kinds_json),
        member_text("rationale", quote(rationale).as_str()),
    ];
    proof {
        assert(members.deep_view() =~= seq![
            member("ai_suggested"@, bool_json(ai_suggested)),
            member("packet_kinds"@, packet_kinds_json@),
            member("rationale"@, quoted(rationale@)),
        ]);
    }
    object_text(&members)
}

/// The mutation that adds kinds to an item, where `before` are the kinds it has,
/// `before_json` is what the receipt keeps of them, and `spent` are the keys under
/// which suggestions for it were applied.
pub open spec fn added_kinds_plan(
    client_id: Seq<char>,
    item_id: Seq<char>,
    before: Seq<Seq<char>>,
    before_json: Seq<char>,
    row: ItemSuggestionRow,
    packet_kinds: Seq<Seq<char>>,
    rationale: Seq<char>,
    now_ms: u64,
    spent: Seq<Seq<char>>,
) -> Option<PlanView> {
    let all = merged(before, packet_kinds);
    if all.len() == before.len() {
        None
    } else {
        Some(
            PlanView {
                request: RequestView {
                    client_id,
                    entity_kind: ITEM_ENTITY_KIND@,
                    entity_id: item_id,
                    change_kind: "ai_add_kinds"@,
                    actor_id: "ai_triage_pass"@,
                    actor_kind: ActorKindDto::Agent,
                    expected_revision: None,
                    idempotency_key: unspent(suggestion_key(item_id, all), spent),
                    correlation_id: Some(item_id),
                    causation_id: None,
                    before_json: Some(
                        suggestion_json(before_json, row.ai_suggested, row.rationale@),
                    ),
                    after_json: Some(suggestion_json(quoted_list(all), true, rationale)),
                    now_ms,
                },
                write: WriteView::AddAiPacketKinds {
                    packet_kinds_json: quoted_list(all),
                    rationale,
                },
            },
        )
    }
}

/// What an optional plan says.
pub open spec fn optional_plan_view(plan: Option<PlannedMutation>) -> Option<PlanView> {
    match plan {
        Some(p) => Some(p.deep_view()),
        None => None,
    }
}

/// Add kinds to the ones an item has: existing kinds stay, and a suggestion that
/// adds nothing plans nothing.
pub fn add_kinds(
    client_id: &str,
    item_id: &str,
    before: Vec<String>,
    before_json: &str,
    row: &ItemSuggestionRow,
    packet_kinds: &Vec<String>,
    rationale: &str,
    now_ms: u64,
    spent: &Vec<String>,
) -> (r: Option<PlannedMutation>)
    ensures
        optional_plan_view(r) == added_kinds_plan(
            client_id@,
            item_id@,
            before.deep_view(),
            before_json@,
            *row,
            packet_kinds.deep_view(),
            rationale@,
            now_ms,
            spent.deep_view(),
        ),
        r is Some ==> stored_strings(
            r->Some_0.deep_view().write->AddAiPacketKinds_packet_kinds_json,
        ) == merged(before.deep_view(), packet_kinds.deep_view()),
{
    let before_len: usize = before.len();
    let ghost had = before.deep_view();
    let mut all: Vec<String> = before;
    merge_into(&mut all, packet_kinds);
    if all.len() == before_len {
        return None;
    }
    let packet_kinds_json: String = quote_list(&all);
    let key: String = "ai_suggest_kinds:".to_owned().concat(item_id).concat(":").concat(
        join(&all, ",").as_str(),
    );
    let idempotency_key: String = unspent_key(key, spent);
    Some(
        PlannedMutation {
            client_id: client_id.to_owned(),
            entity_kind: ITEM_ENTITY_KIND.to_owned(),
            entity_id: item_id.to_owned(),
            change_kind: "ai_add_kinds".to_owned(),
            actor_id: "ai_triage_pass".to_owned(),
            actor_kind: ActorKindDto::Agent,
            expected_revision: None,
            idempotency_key,
            correlation_id: Some(item_id.to_owned()),
            before_json: Some(
                suggestion_json_text(before_json, row.ai_suggested, row.rationale.as_str()),
            ),
            after_json: Some(suggestion_json_text(packet_kinds_json.as_str(), true, rationale)),
            now_ms,
            write: DomainWrite::AddAiPacketKinds {
                packet_kinds_json,
                rationale: rationale.to_owned(),
            },
        },
    )
}

/// What a stored JSON text is kept as in a receipt; an empty array where it is not
/// JSON.
pub open spec fn receipted_json(text: Seq<char>) -> Seq<char> {
    match rewritten_json(text) {
        Some(written) => written,
        None => "[]"@,
    }
}

/// What a plan that may be unnecessary, or its refusal, says.
pub open spec fn quiet_plan_view(plan: Result<Option<PlannedMutation>, StoreError>) -> Result<
    Option<PlanView>,
    ErrorView,
> {
    match plan {
        Ok(p) => Ok(optional_plan_view(p)),
        Err(e) => Err(e.deep_view()),
    }
}

/// The mutation that appends AI-suggested kinds to an item, given what is stored of
/// it; none for a dismissed item, or where nothing is added.
pub open spec fn suggestion_plan(
    client_id: Seq<char>,
    item_id: Seq<char>,
    packet_kinds: Seq<Seq<char>>,
    rationale: Seq<char>,
    now_ms: u64,
    current: Option<ItemSuggestionRow>,
    spent: Seq<Seq<char>>,
) -> Result<Option<PlanView>, ErrorView> {
    match first_unknown_kind(packet_kinds) {
        Some(kind) => refused::<Option<PlanView>>(unknown_kind_code(kind)),
        None => match current {
            None => refused("work_item_not_found"@),
            Some(row) => if row.status@ == status_text(WorkItemStatus::Dismissed) {
                Ok(None)
            } else {
                Ok(
                    added_kinds_plan(
                        client_id,
                        item_id,
                        stored_strings(row.packet_kinds_json@),
                        receipted_json(row.packet_kinds_json@),
                        row,
                        packet_kinds,
                        rationale,
                        now_ms,
                        spent,
                    ),
                )
            },
        },
    }
}

/// Append AI-suggested packet kinds to an existing item. Existing kinds win;
/// dismissed items stay closed, and a suggestion that adds nothing is receipt-quiet
/// (nothing is planned). `spent` are the keys under which suggestions for the item
/// were applied.
pub fn append_ai_packet_kinds(
    client_id: &str,
    item_id: &str,
    packet_kinds: &Vec<String>,
    rationale: &str,
    now_ms: u64,
    current: &Option<ItemSuggestionRow>,
    spent: &Vec<String>,
) -> (r: Result<Option<PlannedMutation>, StoreError>)
    ensures
        quiet_plan_view(r) == suggestion_plan(
            client_id@,
            item_id@,
            packet_kinds.deep_view(),
            rationale@,
            now_ms,
            *current,
            spent.deep_view(),
        ),
        r is Ok && r->Ok_0 is Some ==> stored_strings(
            r->Ok_0->Some_0.deep_view().write->AddAiPacketKinds_packet_kinds_json,
        ) == merged(
            stored_strings(current->Some_0.packet_kinds_json@),
            packet_kinds.deep_view(),
        ),
{
    if let Err(err) = require_known_kinds(packet_kinds) {
        return Err(err);
    }
    match current {
        None => Err(StoreError::domain("work_item_not_found")),
        Some(row) => {
            if same_text(row.status.as_str(), "dismissed") {
                return Ok(None);
            }
            let before: Vec<String> = strings_or_none(row.packet_kinds_json.as_str());
            let before_json: String = match rewrite_json(row.packet_kinds_json.as_str()) {
                Ok(written) => written,
                Err(_) => "[]".to_owned(),
            };
            Ok(
                add_kinds(
                    client_id,
                    item_id,
                    before,
                    before_json.as_str(),
                    row,
                    packet_kinds,
                    rationale,
                    now_ms,
                    spent,
                ),
            )
        },
    }
}

/// What is read of an item before its guidance changes.
#[derive(Debug, Clone, PartialEq, Eq)]
pub struct ItemGuidanceRow {
    pub status: String,
    pub produce_guidance: String,
    pub source_user_id: Option<String>,
}

/// The JSON that receipts keep of an item's guidance.
pub open spec fn guidance_json(produce_guidance: Seq<char>) -> Seq<char> {
    object_of(seq![member("produce_guidance"@, quoted(produce_guidance))])
}

fn single_member_json(key: &str, value: &str) -> (r: String)
    ensures
        r@ == object_of(seq![member(key@, value@)]),
{
    let members: Vec<String> = vec![member_text(key, value)];
    proof {
        assert(members.deep_view() =~= seq![member(key@, value@)]);
    }
    object_text(&members)
}

/// The replacement of an item's guidance, given what is stored of it.
pub open spec fn guidance_plan(
    ctx: ContextView,
    item_id: Seq<char>,
    produce_guidance: Seq<char>,
    current: Option<ItemGuidanceRow>,
    visibility_row: bool,
) -> Result<PlanView, ErrorView> {
    let guidance = trimmed(produce_guidance);
    if guidance.len() > PRODUCE_GUIDANCE_MAX_CHARS {
        refused("work_item_guidance_too_long"@)
    } else {
        match current {
            None => refused("work_item_not_found"@),
            Some(row) => if !scope_sees(
                ctx.scope,
                row.source_user_id.deep_view(),
                visibility_row,
            ) {
                refused("scope_forbidden"@)
            } else if row.status@ == status_text(WorkItemStatus::Dismissed) {
                refused("work_item_guidance_not_editable"@)
            } else {
                Ok(
                    PlanView {
                        request: item_request(
                            ctx,
                            item_id,
                            "set_guidance"@,
                            guidance_json(row.produce_guidance@),
                            guidance_json(guidance),
                        ),
                        write: WriteView::SetGuidance { produce_guidance: guidance },
                    },
                )
            },
        }
    }
}

/// Replace the operator-authored context that every produce-stage LLM call for
/// this item receives. Dismissed items refuse edits because they are no longer
/// on the production path.
pub fn update_produce_guidance(
    ctx: &ScopedMutationContext<'_>,
    item_id: &str,
    produce_guidance: &str,
    current: &Option<ItemGuidanceRow>,
    visibility_row: bool,
) -> (r: Result<PlannedMutation, StoreError>)
    ensures
        plan_view(r) == guidance_plan(
            ctx.deep_view(),
            item_id@,
            produce_guidance@,
            *current,
            visibility_row,
        ),
{
    let guidance: &str = produce_guidance.trim();
    if guidance.unicode_len() > PRODUCE_GUIDANCE_MAX_CHARS {
        return Err(StoreError::domain("work_item_guidance_too_long"));
    }
    match current {
        None => Err(StoreError::domain("work_item_not_found")),
        Some(row) => {
            if let Err(err) = require_item_visible(
                optional_str(&row.source_user_id),
                ctx.scope,
                visibility_row,
            ) {
                return Err(err);
            }
            if same_text(row.status.as_str(), "dismissed") {
                return Err(StoreError::domain("work_item_guidance_not_editable"));
            }
            let before_json: String = single_member_json(
                "produce_guidance",
                quote(row.produce_guidance.as_str()).as_str(),
            );
            let after_json: String = single_member_json(
                "produce_guidance",
                quote(guidance).as_str(),
            );
            let write: DomainWrite = DomainWrite::SetGuidance {
                produce_guidance: guidance.to_owned(),
            };
            Ok(item_plan(ctx, item_id, "set_guidance", before_json, after_json, write))
        },
    }
}

/// What is read of an item before it is assigned.
#[derive(Debug, Clone, PartialEq, Eq)]
pub struct ItemAssignmentRow {
    pub source_user_id: Option<String>,
    pub assignee_user_id: Option<String>,
}

/// Whom an assignment is for; `None` takes the assignment back.
pub open spec fn assignment_for(
    ctx: ContextView,
    action: WorkItemAssignActionKind,
    requested: Option<Seq<char>>,
    current: Option<ItemAssignmentRow>,
    visibility_row: bool,
) -> Result<Option<Seq<char>>, ErrorView> {
    match current {
        None => refused("work_item_not_found"@),
        Some(row) => if !scope_sees(ctx.scope, row.source_user_id.deep_view(), visibility_row) {
            refused("scope_forbidden"@)
        } else {
            match action {
                WorkItemAssignActionKind::AssignToMe => match ctx.scope {
                    ScopeView::User(user_id) => Ok(Some(user_id)),
                    ScopeView::All => refused("work_queue_assignment_named_user_required"@),
                },
                WorkItemAssignActionKind::AssignToUser => match requested {
                    Some(user_id) => if is_blank(user_id) {
                        refused("work_queue_assignee_required"@)
                    } else {
                        Ok(Some(trimmed(user_id)))
                    },
                    None => refused("work_queue_assignee_required"@),
                },
                WorkItemAssignActionKind::Unassign => match ctx.scope {
                    ScopeView::User(user_id) => if row.assignee_user_id.deep_view() != Some(
                        user_id,
                    ) {
                        refused("work_queue_unassign_forbidden"@)
                    } else {
                        Ok(None)
                    },
                    ScopeView::All => Ok(None),
                },
            }
        },
    }
}

/// What an optional text, or its refusal, says.
pub open spec fn optional_text_view(r: Result<Option<String>, StoreError>) -> Result<
    Option<Seq<char>>,
    ErrorView,
> {
    match r {
        Ok(text) => Ok(text.deep_view()),
        Err(e) => Err(e.deep_view()),
    }
}

/// Whom an assignment is for, before it is known whether they may have it; `None`
/// takes the assignment back.
pub fn assignment_target(
    ctx: &ScopedMutationContext<'_>,
    action: WorkItemAssignActionKind,
    requested_assignee_user_id: Option<&str>,
    current: &Option<ItemAssignmentRow>,
    visibility_row: bool,
) -> (r: Result<Option<String>, StoreError>)
    ensures
        optional_text_view(r) == assignment_for(
            ctx.deep_view(),
            action,
            requested_assignee_user_id.deep_view(),
            *current,
            visibility_row,
        ),
{
    match current {
        None => Err(StoreError::domain("work_item_not_found")),
        Some(row) => {
            if let Err(err) = require_item_visible(
                optional_str(&row.source_user_id),
                ctx.scope,
                visibility_row,
            ) {
                return Err(err);
            }
            match action {
                WorkItemAssignActionKind::AssignToMe => match ctx.scope {
                    OperatorScope::User(user_id) => Ok(Some(user_id.clone())),
                    OperatorScope::All => Err(
                        StoreError::domain("work_queue_assignment_named_user_required"),
                    ),
                },
                WorkItemAssignActionKind::AssignToUser => match requested_assignee_user_id {
                    Some(user_id) => {
                        let user_id: &str = user_id.trim();
                        if user_id.is_empty() {
                            Err(StoreError::domain("work_queue_assignee_required"))
                        } else {
                            Ok(Some(user_id.to_owned()))
                        }
                    },
                    None => Err(StoreError::domain("work_queue_assignee_required")),
                },
                WorkItemAssignActionKind::Unassign => match ctx.scope {
                    OperatorScope::User(user_id) => {
                        let own: bool = match &row.assignee_user_id {
                            Some(assignee) => same_text(assignee.as_str(), user_id.as_str()),
                            None => false,
                        };
                        if own {
                            Ok(None)
                        } else {
                            Err(StoreError::domain("work_queue_unassign_forbidden"))
                        }
                    },
                    OperatorScope::All => Ok(None),
                },
            }
        },
    }
}

/// The JSON that receipts keep of an assignment.
pub open spec fn assignee_json(assignee_user_id: Option<Seq<char>>) -> Seq<char> {
    object_of(seq![member("assignee_user_id"@, quoted_or_null(assignee_user_id))])
}

/// The assignment of an item, given what is stored of it, who sees it, and whether
/// whom it is for is an active operator user.
pub open spec fn assignment_plan(
    ctx: ContextView,
    item_id: Seq<char>,
    action: WorkItemAssignActionKind,
    requested: Option<Seq<char>>,
    current: Option<ItemAssignmentRow>,
    visibility_row: bool,
    visible_user_ids: Seq<Seq<char>>,
    target_active: bool,
) -> Result<PlanView, ErrorView> {
    match assignment_for(ctx, action, requested, current, visibility_row) {
        Err(e) => Err(e),
        Ok(next) => if next is Some && !target_active {
            refused("work_queue_assignee_not_active"@)
        } else if next is Some && action == WorkItemAssignActionKind::AssignToUser
            && !visible_user_ids.contains(next->Some_0) {
            refused("work_queue_assignee_not_visible"@)
        } else {
            Ok(
                PlanView {
                    request: item_request(
                        ctx,
                        item_id,
                        "assign"@,
                        assignee_json(current->Some_0.assignee_user_id.deep_view()),
                        assignee_json(next),
                    ),
                    write: WriteView::SetAssignee { assignee_user_id: next },
                },
            )
        },
    }
}

/// Assign or unassign an item. `target_active` is whether the user that
/// [`assignment_target`] names is an active operator user.
pub fn update_assignment(
    ctx: &ScopedMutationContext<'_>,
    item_id: &str,
    action: WorkItemAssignActionKind,
    requested_assignee_user_id: Option<&str>,
    current: &Option<ItemAssignmentRow>,
    visibility_row: bool,
    visible_user_ids: &Vec<String>,
    target_active: bool,
) -> (r: Result<PlannedMutation, StoreError>)
    ensures
        plan_view(r) == assignment_plan(
            ctx.deep_view(),
            item_id@,
            action,
            requested_assignee_user_id.deep_view(),
            *current,
            visibility_row,
            visible_user_ids.deep_view(),
            target_active,
        ),
{
    let next_assignee: Option<String> = match assignment_target(
        ctx,
        action,
        requested_assignee_user_id,
        current,
        visibility_row,
    ) {
        Ok(next) => next,
        Err(err) => return Err(err),
    };
    if let Some(assignee) = &next_assignee {
        if !target_active {
            return Err(StoreError::domain("work_queue_assignee_not_active"));
        }
        if action == WorkItemAssignActionKind::AssignToUser && !list_has(
            visible_user_ids,
            assignee.as_str(),
        ) {
            return Err(StoreError::domain("work_queue_assignee_not_visible"));
        }
    }
    match current {
        None => Err(StoreError::domain("work_item_not_found")),
        Some(row) => {
            let before_json: String = single_member_json(
                "assignee_user_id",
                quote_or_null(optional_str(&row.assignee_user_id)).as_str(),
            );
            let after_json: String = single_member_json(
                "assignee_user_id",
                quote_or_null(optional_str(&next_assignee)).as_str(),
            );
            let write: DomainWrite = DomainWrite::SetAssignee { assignee_user_id: next_assignee };
            Ok(item_plan(ctx, item_id, "assign", before_json, after_json, write))
        },
    }
}

/// The user ids, or the source user's where there are none; blank ids do not
/// count.
pub open spec fn ids_or_source(
    user_ids: Seq<Seq<char>>,
    source_user_id: Option<Seq<char>>,
) -> Seq<Seq<char>> {
    if user_ids.len() > 0 {
        user_ids
    } else {
        match source_user_id {
            Some(id) => if is_blank(id) {
                Seq::empty()
            } else {
                seq![trimmed(id)]
            },
            None => Seq::empty(),
        }
    }
}

/// The user ids, or the source user's where there are none.
pub fn or_source_user(user_ids: Vec<String>, source_user_id: Option<&str>) -> (r: Vec<String>)
    ensures
        r.deep_view() == ids_or_source(user_ids.deep_view(), source_user_id.deep_view()),
{
    let mut user_ids: Vec<String> = user_ids;
    let ghost before = user_ids.deep_view();
    if user_ids.len() == 0 {
        if let Some(id) = source_user_id {
            let id: &str = id.trim();
            if !id.is_empty() {
                user_ids.push(id.to_owned());
                proof {
                    assert(user_ids.deep_view() =~= seq![id@]);
                }
            }
        }
        proof {
            if user_ids.len() == 0 {
                assert(user_ids.deep_view() =~= Seq::<Seq<char>>::empty());
            }
        }
    }
    user_ids
}

/// The users that a new item is shown to.
pub open spec fn effective_visibility(item: ItemView) -> Seq<Seq<char>> {
    ids_or_source(unique_ids(item.visible_to_user_ids), item.source_user_id)
}

pub fn effective_visibility_user_ids(item: &WorkItem) -> (r: Vec<String>)
    ensures
        r.deep_view() == effective_visibility(item.deep_view()),
{
    or_source_user(distinct_ids(&item.visible_to_user_ids), optional_str(&item.source_user_id))
}

/// The mutation that stores a new item.
pub open spec fn insert_plan(
    client_id: Seq<char>,
    item: ItemView,
    item_json: Seq<char>,
    actor_id: Seq<char>,
    actor_kind: ActorKindDto,
    idempotency_key: Seq<char>,
) -> PlanView {
    PlanView {
        request: RequestView {
            client_id,
            entity_kind: ITEM_ENTITY_KIND@,
            entity_id: item.item_id,
            change_kind: "emit"@,
            actor_id,
            actor_kind,
            expected_revision: None,
            idempotency_key,
            correlation_id: None,
            causation_id: None,
            before_json: None,
            after_json: Some(item_json),
            now_ms: item.created_at_ms,
        },
        write: WriteView::InsertItem {
            item,
            packet_kinds_json: quoted_list(item.packet_kinds),
            visible_to_user_ids: effective_visibility(item),
        },
    }
}

/// Store a new item. `item_json` is the item's own JSON, which the receipt keeps.
pub fn insert_item_with_actor(
    client_id: &str,
    item: &WorkItem,
    item_json: &str,
    actor_id: &str,
    actor_kind: ActorKindDto,
    idempotency_key: &str,
) -> (r: PlannedMutation)
    ensures
        r.deep_view() == insert_plan(
            client_id@,
            item.deep_view(),
            item_json@,
            actor_id@,
            actor_kind,
            idempotency_key@,
        ),
        stored_strings(r.deep_view().write->InsertItem_packet_kinds_json)
            == item.deep_view().packet_kinds,
{
    PlannedMutation {
        client_id: client_id.to_owned(),
        entity_kind: ITEM_ENTITY_KIND.to_owned(),
        entity_id: item.item_id.clone(),
        change_kind: "emit".to_owned(),
        actor_id: actor_id.to_owned(),
        actor_kind,
        expected_revision: None,
        idempotency_key: idempotency_key.to_owned(),
        correlation_id: None,
        before_json: None,
        after_json: Some(item_json.to_owned()),
        now_ms: item.created_at_ms,
        write: DomainWrite::InsertItem {
            item: item.copy(),
            packet_kinds_json: quote_list(&item.packet_kinds),
            visible_to_user_ids: effective_visibility_user_ids(item),
        },
    }
}

/// The key that an emission runs under: one for each source.
pub open spec fn emit_key(item: ItemView) -> Seq<char> {
    "emit:"@ + item.source_kind + ":"@ + item.source_ref
}

/// The mutation of an emission.
pub open spec fn emit_plan(client_id: Seq<char>, item: ItemView, item_json: Seq<char>) -> PlanView {
    insert_plan(
        client_id,
        item,
        item_json,
        "work_queue_emitter"@,
        ActorKindDto::System,
        emit_key(item),
    )
}

/// Insert a new work item (system actor — emitted by ingestion).
/// Idempotency key derives from the source, so re-emits replay quietly.
pub fn insert_item(client_id: &str, item: &WorkItem, item_json: &str) -> (r: PlannedMutation)
    ensures
        r.deep_view() == emit_plan(client_id@, item.deep_view(), item_json@),
        stored_strings(r.deep_view().write->InsertItem_packet_kinds_json)
            == item.deep_view().packet_kinds,
{
    let idempotency_key: String = "emit:".to_owned().concat(item.source_kind.as_str()).concat(
        ":",
    ).concat(item.source_ref.as_str());
    insert_item_with_actor(
        client_id,
        item,
        item_json,
        "work_queue_emitter",
        ActorKindDto::System,
        idempotency_key.as_str(),
    )
}

/// The ids that no visibility row holds yet.
pub open spec fn visibility_additions(
    user_ids: Seq<Seq<char>>,
    stored: Seq<Seq<char>>,
) -> Seq<Seq<char>>
    decreases user_ids.len(),
{
    if user_ids.len() == 0 {
        Seq::empty()
    } else {
        let so_far = visibility_additions(user_ids.drop_last(), stored);
        let id = trimmed(user_ids.last());
        if id.len() == 0 || so_far.contains(id) || stored.contains(id) {
            so_far
        } else {
            so_far.push(id)
        }
    }
}

fn missing_user_ids(user_ids: &Vec<String>, stored: &Vec<String>) -> (r: Vec<String>)
    ensures
        r.deep_view() == visibility_additions(user_ids.deep_view(), stored.deep_view()),
{
    let mut additions: Vec<String> = Vec::new();
    let ghost all = user_ids.deep_view();
    let mut i: usize = 0;
    proof {
        assert(additions.deep_view() =~= visibility_additions(all.take(0), stored.deep_view()));
    }
    while i < user_ids.len()
        invariant
            i <= user_ids.len(),
            all == user_ids.deep_view(),
            additions.deep_view() == visibility_additions(all.take(i as int), stored.deep_view()),
        decreases user_ids.len() - i,
    {
        let id: &str = user_ids[i].as_str().trim();
        let ghost before = additions.deep_view();
        if !(id.is_empty() || list_has(&additions, id) || list_has(stored, id)) {
            additions.push(id.to_owned());
            proof {
                assert(additions.deep_view() =~= before.push(id@));
            }
        }
        proof {
            assert(all.take(i + 1).drop_last() =~= all.take(i as int));
            assert(all.take(i + 1).last() == user_ids[i as int]@);
        }
        i += 1;
    }
    proof {
        assert(all.take(i as int) =~= all);
    }
    additions
}

/// The JSON that receipts keep of who sees an item.
pub open spec fn visibility_json(user_ids: Seq<Seq<char>>) -> Seq<char> {
    object_of(seq![member("visible_to_user_ids"@, quoted_list(user_ids))])
}

/// The mutation that shows an item to more users; none where all of them see it.
/// `stored` are the users of its visibility rows, in the order they are listed.
pub open spec fn visibility_plan(
    client_id: Seq<char>,
    item_id: Seq<char>,
    user_ids: Seq<Seq<char>>,
    stored: Seq<Seq<char>>,
    actor_id: Seq<char>,
    idempotency_key: Seq<char>,
    now_ms: u64,
) -> Option<PlanView> {
    let additions = visibility_additions(user_ids, stored);
    if additions.len() == 0 {
        None
    } else {
        let before = first_occurrences(stored);
        Some(
            PlanView {
                request: RequestView {
                    client_id,
                    entity_kind: ITEM_ENTITY_KIND@,
                    entity_id: item_id,
                    change_kind: "set_visibility"@,
                    actor_id,
                    actor_kind: ActorKindDto::System,
                    expected_revision: None,
                    idempotency_key,
                    correlation_id: None,
                    causation_id: None,
                    before_json: Some(visibility_json(before)),
                    after_json: Some(
                        visibility_json(case_blind_sorted(merged(before, additions))),
                    ),
                    now_ms,
                },
                write: WriteView::AddVisibility { user_ids: additions },
            },
        )
    }
}

/// Show an item to the users that do not see it yet; nothing is planned where all
/// of them do. `stored` are the users of its visibility rows.
pub fn ensure_visibility_user_ids(
    client_id: &str,
    item_id: &str,
    user_ids: &Vec<String>,
    stored: &Vec<String>,
    actor_id: &str,
    idempotency_key: &str,
    now_ms: u64,
) -> (r: Option<PlannedMutation>)
    ensures
        optional_plan_view(r) == visibility_plan(
            client_id@,
            item_id@,
            user_ids.deep_view(),
            stored.deep_view(),
            actor_id@,
            idempotency_key@,
            now_ms,
        ),
{
    let additions: Vec<String> = missing_user_ids(user_ids, stored);
    if additions.len() == 0 {
        return None;
    }
    let before: Vec<String> = without_repeats(stored);
    let before_json: String = single_member_json(
        "visible_to_user_ids",
        quote_list(&before).as_str(),
    );
    let mut after: Vec<String> = before;
    merge_into(&mut after, &additions);
    let after: Vec<String> = sort_case_blind(after);
    let after_json: String = single_member_json("visible_to_user_ids", quote_list(&after).as_str());
    Some(
        PlannedMutation {
            client_id: client_id.to_owned(),
            entity_kind: ITEM_ENTITY_KIND.to_owned(),
            entity_id: item_id.to_owned(),
            change_kind: "set_visibility".to_owned(),
            actor_id: actor_id.to_owned(),
            actor_kind: ActorKindDto::System,
            expected_revision: None,
            idempotency_key: idempotency_key.to_owned(),
            correlation_id: None,
            before_json: Some(before_json),
            after_json: Some(after_json),
            now_ms,
            write: DomainWrite::AddVisibility { user_ids: additions },
        },
    )
}

pub struct AgentLaunchRequestContext<'a> {
    pub client_id: &'a str,
    pub item_id: &'a str,
    pub actor_id: &'a str,
    pub operator_context: &'a str,
    pub job: &'a NewOutboxJob,
    pub idempotency_key: &'a str,
    pub now_ms: u64,
}

/// The JSON that receipts keep of an agent launch.
pub open spec fn agent_launch_json(
    item_id: Seq<char>,
    context_chars: nat,
    job_id: Seq<char>,
) -> Seq<char> {
    object_of(
        seq![
            member("context_chars"@, decimal(context_chars)),
            member("item_id"@, quoted(item_id)),
            member("outbox_job_id"@, quoted(job_id)),
        ],
    )
}

/// The mutation that records an agent launch and enqueues its job.
pub open spec fn launch_request_plan(
    client_id: Seq<char>,
    item_id: Seq<char>,
    actor_id: Seq<char>,
    operator_context: Seq<char>,
    job: JobView,
    idempotency_key: Seq<char>,
    now_ms: u64,
) -> PlanView {
    PlanView {
        request: RequestView {
            client_id,
            entity_kind: AGENT_LAUNCH_ENTITY_KIND@,
            entity_id: item_id,
            change_kind: "launch_agent"@,
            actor_id,
            actor_kind: ActorKindDto::Operator,
            expected_revision: None,
            idempotency_key,
            correlation_id: Some(item_id),
            causation_id: None,
            before_json: None,
            after_json: Some(agent_launch_json(item_id, operator_context.len(), job.job_id)),
            now_ms,
        },
        write: WriteView::EnqueueJob { job },
    }
}

/// The mutation that records an agent launch and enqueues its job.
pub fn record_agent_launch_request(ctx: AgentLaunchRequestContext<'_>) -> (r: PlannedMutation)
    ensures
        r.deep_view() == launch_request_plan(
            ctx.client_id@,
            ctx.item_id@,
            ctx.actor_id@,
            ctx.operator_context@,
            ctx.job.deep_view(),
            ctx.idempotency_key@,
            ctx.now_ms,
        ),
{
    let chars: usize = ctx.operator_context.unicode_len();
    let members: Vec<String> = vec![
        member_text("context_chars", decimal_text(chars as u64).as_str()),
        member_text("item_id", quote(ctx.item_id).as_str()),
        member_text("outbox_job_id", quote(ctx.job.job_id.as_str()).as_str()),
    ];
    proof {
        assert(members.deep_view() =~= seq![
            member("context_chars"@, decimal(ctx.operator_context@.len())),
            member("item_id"@, quoted(ctx.item_id@)),
            member("outbox_job_id"@, quoted(ctx.job.job_id@)),
        ]);
    }
    let after_json: String = object_text(&members);
    PlannedMutation {
        client_id: ctx.client_id.to_owned(),
        entity_kind: AGENT_LAUNCH_ENTITY_KIND.to_owned(),
        entity_id: ctx.item_id.to_owned(),
        change_kind: "launch_agent".to_owned(),
        actor_id: ctx.actor_id.to_owned(),
        actor_kind: ActorKindDto::Operator,
        expected_revision: None,
        idempotency_key: ctx.idempotency_key.to_owned(),
        correlation_id: Some(ctx.item_id.to_owned()),
        before_json: None,
        after_json: Some(after_json),
        now_ms: ctx.now_ms,
        write: DomainWrite::EnqueueJob { job: ctx.job.copy() },
    }
}

} // verus!
