//! A planned mutation: the request that is receipted, and the domain write that
//! runs with it.

use vstd::prelude::*;

use crate::contracts::receipt::ActorKindDto;
use crate::contracts::work_queue::WorkItem;
use crate::http::{OperatorScope, ScopeView};
use crate::outbox::{JobView, NewOutboxJob};
use crate::sql::{
    bind_flag, bind_optional, bind_text, flag, statement, text_or_null, SqlStatement, SqlValue,
    SqlView, StatementView,
};
use crate::store_core::{ErrorView, MutationRequest, RequestView, StoreError};
use super::model::ItemView;
use super::store::{accept_actor_column, accept_actor_str, optional_str, status_str, status_text};

verus! {

/// Who changes an item, in which scope, and under which key.
#[derive(Debug, Clone, Copy)]
pub struct ScopedMutationContext<'a> {
    pub client_id: &'a str,
    pub actor_id: &'a str,
    pub scope: &'a OperatorScope,
    pub expected_revision: Option<u64>,
    pub idempotency_key: &'a str,
    pub now_ms: u64,
}

/// What a [`ScopedMutationContext`] says.
pub struct ContextView {
    pub client_id: Seq<char>,
    pub actor_id: Seq<char>,
    pub scope: ScopeView,
    pub expected_revision: Option<u64>,
    pub idempotency_key: Seq<char>,
    pub now_ms: u64,
}

impl<'a> DeepView for ScopedMutationContext<'a> {
    type V = ContextView;

    open spec fn deep_view(&self) -> ContextView {
        ContextView {
            client_id: self.client_id@,
            actor_id: self.actor_id@,
            scope: self.scope.deep_view(),
            expected_revision: self.expected_revision,
            idempotency_key: self.idempotency_key@,
            now_ms: self.now_ms,
        }
    }
}

/// The columns of a stored policy.
#[derive(Debug, Clone, PartialEq, Eq)]
pub struct PolicyColumns {
    pub category_id: String,
    pub create_work_item: bool,
    pub packet_kinds_json: String,
    pub auto_produce: bool,
    pub ai_suggestible_packet_kinds_json: String,
    pub ai_suggestible_gmail_scope: String,
    pub ai_suggestible_gmail_categories_json: String,
}

/// What [`PolicyColumns`] say.
pub struct PolicyColumnsView {
    pub category_id: Seq<char>,
    pub create_work_item: bool,
    pub packet_kinds_json: Seq<char>,
    pub auto_produce: bool,
    pub ai_suggestible_packet_kinds_json: Seq<char>,
    pub ai_suggestible_gmail_scope: Seq<char>,
    pub ai_suggestible_gmail_categories_json: Seq<char>,
}

impl DeepView for PolicyColumns {
    type V = PolicyColumnsView;

    open spec fn deep_view(&self) -> PolicyColumnsView {
        PolicyColumnsView {
            category_id: self.category_id@,
            create_work_item: self.create_work_item,
            packet_kinds_json: self.packet_kinds_json@,
            auto_produce: self.auto_produce,
            ai_suggestible_packet_kinds_json: self.ai_suggestible_packet_kinds_json@,
            ai_suggestible_gmail_scope: self.ai_suggestible_gmail_scope@,
            ai_suggestible_gmail_categories_json: self.ai_suggestible_gmail_categories_json@,
        }
    }
}

/// The domain write of a mutation.
#[derive(Debug)]
pub enum DomainWrite {
    InsertItem { item: WorkItem, packet_kinds_json: String, visible_to_user_ids: Vec<String> },
    SetStatus { status: String, accept_actor: Option<String> },
    SetPacketKinds { packet_kinds_json: String },
    AddAiPacketKinds { packet_kinds_json: String, rationale: String },
    SetGuidance { produce_guidance: String },
    SetAssignee { assignee_user_id: Option<String> },
    AddVisibility { user_ids: Vec<String> },
    WritePolicy { columns: PolicyColumns },
    EnqueueJob { job: NewOutboxJob },
}

/// What a [`DomainWrite`] says.
pub enum WriteView {
    InsertItem {
        item: ItemView,
        packet_kinds_json: Seq<char>,
        visible_to_user_ids: Seq<Seq<char>>,
    },
    SetStatus { status: Seq<char>, accept_actor: Option<Seq<char>> },
    SetPacketKinds { packet_kinds_json: Seq<char> },
    AddAiPacketKinds { packet_kinds_json: Seq<char>, rationale: Seq<char> },
    SetGuidance { produce_guidance: Seq<char> },
    SetAssignee { assignee_user_id: Option<Seq<char>> },
    AddVisibility { user_ids: Seq<Seq<char>> },
    WritePolicy { columns: PolicyColumnsView },
    EnqueueJob { job: JobView },
}

impl DeepView for DomainWrite {
    type V = WriteView;

    open spec fn deep_view(&self) -> WriteView {
        match self {
            DomainWrite::InsertItem { item, packet_kinds_json, visible_to_user_ids } =>
                WriteView::InsertItem {
                item: item.deep_view(),
                packet_kinds_json: packet_kinds_json@,
                visible_to_user_ids: visible_to_user_ids.deep_view(),
            },
            DomainWrite::SetStatus { status, accept_actor } => WriteView::SetStatus {
                status: status@,
                accept_actor: accept_actor.deep_view(),
            },
            DomainWrite::SetPacketKinds { packet_kinds_json } => WriteView::SetPacketKinds {
                packet_kinds_json: packet_kinds_json@,
            },
            DomainWrite::AddAiPacketKinds { packet_kinds_json, rationale } =>
                WriteView::AddAiPacketKinds {
                packet_kinds_json: packet_kinds_json@,
                rationale: rationale@,
            },
            DomainWrite::SetGuidance { produce_guidance } => WriteView::SetGuidance {
                produce_guidance: produce_guidance@,
            },
            DomainWrite::SetAssignee { assignee_user_id } => WriteView::SetAssignee {
                assignee_user_id: assignee_user_id.deep_view(),
            },
            DomainWrite::AddVisibility { user_ids } => WriteView::AddVisibility {
                user_ids: user_ids.deep_view(),
            },
            DomainWrite::WritePolicy { columns } => WriteView::WritePolicy {
                columns: columns.deep_view(),
            },
            DomainWrite::EnqueueJob { job } => WriteView::EnqueueJob { job: job.deep_view() },
        }
    }
}

/// A mutation that may run: what is receipted, and what is written.
#[derive(Debug)]
pub struct PlannedMutation {
    pub client_id: String,
    pub entity_kind: String,
    pub entity_id: String,
    pub change_kind: String,
    pub actor_id: String,
    pub actor_kind: ActorKindDto,
    pub expected_revision: Option<u64>,
    pub idempotency_key: String,
    pub correlation_id: Option<String>,
    pub before_json: Option<String>,
    pub after_json: Option<String>,
    pub now_ms: u64,
    pub write: DomainWrite,
}

/// What a [`PlannedMutation`] says.
pub struct PlanView {
    pub request: RequestView,
    pub write: WriteView,
}

impl DeepView for PlannedMutation {
    type V = PlanView;

    open spec fn deep_view(&self) -> PlanView {
        PlanView {
            request: RequestView {
                client_id: self.client_id@,
                entity_kind: self.entity_kind@,
                entity_id: self.entity_id@,
                change_kind: self.change_kind@,
                actor_id: self.actor_id@,
                actor_kind: self.actor_kind,
                expected_revision: self.expected_revision,
                idempotency_key: self.idempotency_key@,
                correlation_id: self.correlation_id.deep_view(),
                causation_id: None,
                before_json: self.before_json.deep_view(),
                after_json: self.after_json.deep_view(),
                now_ms: self.now_ms,
            },
            write: self.write.deep_view(),
        }
    }
}

/// What a plan, or the refusal of one, says.
pub open spec fn plan_view(plan: Result<PlannedMutation, StoreError>) -> Result<
    PlanView,
    ErrorView,
> {
    match plan {
        Ok(p) => Ok(p.deep_view()),
        Err(e) => Err(e.deep_view()),
    }
}

/// The refusal with this code.
pub open spec fn refused<T>(code: Seq<char>) -> Result<T, ErrorView> {
    Err(ErrorView::Domain(code))
}

/// The statement that changes one item.
pub open spec fn item_update(
    sql: Seq<char>,
    client_id: Seq<char>,
    item_id: Seq<char>,
    values: Seq<SqlView>,
) -> Seq<StatementView> {
    seq![
        StatementView {
            sql,
            binds: seq![SqlView::Text(client_id), SqlView::Text(item_id)] + values,
        },
    ]
}

/// The statement that shows an item to one user.
pub open spec fn visibility_insert(
    client_id: Seq<char>,
    item_id: Seq<char>,
    user_id: Seq<char>,
    now_ms: u64,
) -> StatementView {
    StatementView {
        sql: "INSERT OR IGNORE INTO work_item_visibility (client_id, item_id, user_id, created_at_ms) VALUES (?1, ?2, ?3, ?4)"@,
        binds: seq![
            SqlView::Text(client_id),
            SqlView::Text(item_id),
            SqlView::Text(user_id),
            SqlView::Integer(now_ms as i64),
        ],
    }
}

/// The statements that show an item to users.
pub open spec fn visibility_inserts(
    client_id: Seq<char>,
    item_id: Seq<char>,
    user_ids: Seq<Seq<char>>,
    now_ms: u64,
) -> Seq<StatementView> {
    user_ids.map_values(
        |user_id: Seq<char>| visibility_insert(client_id, item_id, user_id, now_ms),
    )
}

/// The statement that stores a new item.
pub open spec fn item_insert(
    client_id: Seq<char>,
    item: ItemView,
    packet_kinds_json: Seq<char>,
) -> StatementView {
    StatementView {
        sql: "INSERT INTO work_items (client_id, item_id, source_kind, source_ref, category_id, title, summary, packet_kinds_json, status, accept_actor, ai_suggested, rationale, produce_guidance, created_at_ms, updated_at_ms, source_user_id, assignee_user_id) VALUES (?1, ?2, ?3, ?4, ?5, ?6, ?7, ?8, ?9, ?10, ?11, ?12, ?13, ?14, ?14, ?15, ?16) ON CONFLICT (client_id, item_id) DO NOTHING"@,
        binds: seq![
            SqlView::Text(client_id),
            SqlView::Text(item.item_id),
            SqlView::Text(item.source_kind),
            SqlView::Text(item.source_ref),
            SqlView::Text(item.category_id),
            SqlView::Text(item.title),
            SqlView::Text(item.summary),
            SqlView::Text(packet_kinds_json),
            SqlView::Text(status_text(item.status)),
            text_or_null(accept_actor_column(item.accept_actor)),
            flag(item.ai_suggested),
            SqlView::Text(item.rationale),
            SqlView::Text(item.produce_guidance),
            SqlView::Integer(item.created_at_ms as i64),
            text_or_null(item.source_user_id),
            text_or_null(item.assignee_user_id),
        ],
    }
}

/// The statement that stores a policy.
pub open spec fn policy_write(
    client_id: Seq<char>,
    columns: PolicyColumnsView,
    now_ms: u64,
) -> StatementView {
    StatementView {
        sql: "INSERT INTO work_queue_policies (client_id, category_id, create_work_item, packet_kinds_json, auto_produce, ai_suggestible_packet_kinds_json, ai_suggestible_gmail_scope, ai_suggestible_gmail_categories_json, updated_at_ms) VALUES (?1, ?2, ?3, ?4, ?5, ?6, ?7, ?8, ?9) ON CONFLICT (client_id, category_id) DO UPDATE SET create_work_item = excluded.create_work_item, packet_kinds_json = excluded.packet_kinds_json, auto_produce = excluded.auto_produce, ai_suggestible_packet_kinds_json = excluded.ai_suggestible_packet_kinds_json, ai_suggestible_gmail_scope = excluded.ai_suggestible_gmail_scope, ai_suggestible_gmail_categories_json = excluded.ai_suggestible_gmail_categories_json, updated_at_ms = excluded.updated_at_ms"@,
        binds: seq![
            SqlView::Text(client_id),
            SqlView::Text(columns.category_id),
            flag(columns.create_work_item),
            SqlView::Text(columns.packet_kinds_json),
            flag(columns.auto_produce),
            SqlView::Text(columns.ai_suggestible_packet_kinds_json),
            SqlView::Text(columns.ai_suggestible_gmail_scope),
            SqlView::Text(columns.ai_suggestible_gmail_categories_json),
            SqlView::Integer(now_ms as i64),
        ],
    }
}

/// The statements of a domain write. An outbox job is enqueued by the outbox, and
/// has none here.
pub open spec fn write_statements(request: RequestView, write: WriteView) -> Seq<StatementView> {
    let client = request.client_id;
    let item = request.entity_id;
    let now = SqlView::Integer(request.now_ms as i64);
    match write {
        WriteView::InsertItem { item, packet_kinds_json, visible_to_user_ids } => seq![
            item_insert(client, item, packet_kinds_json),
        ] + visibility_inserts(client, item.item_id, visible_to_user_ids, item.created_at_ms),
        WriteView::SetStatus { status, accept_actor } => item_update(
            "UPDATE work_items SET status = ?3, accept_actor = ?4, updated_at_ms = ?5 WHERE client_id = ?1 AND item_id = ?2"@,
            client,
            item,
            seq![SqlView::Text(status), text_or_null(accept_actor), now],
        ),
        WriteView::SetPacketKinds { packet_kinds_json } => item_update(
            "UPDATE work_items SET packet_kinds_json = ?3, updated_at_ms = ?4 WHERE client_id = ?1 AND item_id = ?2"@,
            client,
            item,
            seq![SqlView::Text(packet_kinds_json), now],
        ),
        WriteView::AddAiPacketKinds { packet_kinds_json, rationale } => item_update(
            "UPDATE work_items SET packet_kinds_json = ?3, ai_suggested = 1, rationale = ?4, updated_at_ms = ?5 WHERE client_id = ?1 AND item_id = ?2"@,
            client,
            item,
            seq![SqlView::Text(packet_kinds_json), SqlView::Text(rationale), now],
        ),
        WriteView::SetGuidance { produce_guidance } => item_update(
            "UPDATE work_items SET produce_guidance = ?3, updated_at_ms = ?4 WHERE client_id = ?1 AND item_id = ?2"@,
            client,
            item,
            seq![SqlView::Text(produce_guidance), now],
        ),
        WriteView::SetAssignee { assignee_user_id } => item_update(
            "UPDATE work_items SET assignee_user_id = ?3, updated_at_ms = ?4 WHERE client_id = ?1 AND item_id = ?2"@,
            client,
            item,
            seq![text_or_null(assignee_user_id), now],
        ),
        WriteView::AddVisibility { user_ids } => visibility_inserts(
            client,
            item,
            user_ids,
            request.now_ms,
        ),
        WriteView::WritePolicy { columns } => seq![policy_write(client, columns, request.now_ms)],
        WriteView::EnqueueJob { .. } => Seq::empty(),
    }
}

fn update_item(sql: &str, client_id: &str, item_id: &str, values: Vec<SqlValue>) -> (r: Vec<
    SqlStatement,
>)
    ensures
        r.deep_view() == item_update(sql@, client_id@, item_id@, values.deep_view()),
{
    let mut binds: Vec<SqlValue> = vec![bind_text(client_id), bind_text(item_id)];
    let ghost head = binds.deep_view();
    let mut values: Vec<SqlValue> = values;
    let ghost tail = values.deep_view();
    binds.append(&mut values);
    let all: Vec<SqlStatement> = vec![statement(sql, binds)];
    proof {
        assert(head =~= seq![SqlView::Text(client_id@), SqlView::Text(item_id@)]);
        assert(all[0].deep_view().binds =~= head + tail);
        assert(all.deep_view() =~= item_update(sql@, client_id@, item_id@, tail));
    }
    all
}

fn insert_visibility_rows(client_id: &str, item_id: &str, user_ids: &Vec<String>, now_ms: u64) -> (r:
    Vec<SqlStatement>)
    ensures
        r.deep_view() == visibility_inserts(client_id@, item_id@, user_ids.deep_view(), now_ms),
{
    let mut out: Vec<SqlStatement> = Vec::new();
    let mut i: usize = 0;
    while i < user_ids.len()
        invariant
            i <= user_ids.len(),
            out.deep_view() == visibility_inserts(
                client_id@,
                item_id@,
                user_ids.deep_view().take(i as int),
                now_ms,
            ),
        decreases user_ids.len() - i,
    {
        let binds: Vec<SqlValue> = vec![
            bind_text(client_id),
            bind_text(item_id),
            bind_text(user_ids[i].as_str()),
            SqlValue::Integer(now_ms as i64),
        ];
        let row: SqlStatement = statement(
            "INSERT OR IGNORE INTO work_item_visibility (client_id, item_id, user_id, created_at_ms) VALUES (?1, ?2, ?3, ?4)",
            binds,
        );
        let ghost before = out.deep_view();
        out.push(row);
        proof {
            let expected = visibility_insert(client_id@, item_id@, user_ids[i as int]@, now_ms);
            assert(row.deep_view().binds =~= expected.binds);
            assert(out.deep_view() =~= before.push(expected));
            assert(user_ids.deep_view().take(i + 1) =~= user_ids.deep_view().take(i as int).push(
                user_ids[i as int]@,
            ));
            assert(visibility_inserts(
                client_id@,
                item_id@,
                user_ids.deep_view().take(i + 1),
                now_ms,
            ) =~= before.push(expected));
        }
        i += 1;
    }
    proof {
        assert(user_ids.deep_view().take(i as int) =~= user_ids.deep_view());
    }
    out
}

fn insert_item_row(client_id: &str, item: &WorkItem, packet_kinds_json: &str) -> (r: SqlStatement)
    ensures
        r.deep_view() == item_insert(client_id@, item.deep_view(), packet_kinds_json@),
{
    let accept_actor: SqlValue = match item.accept_actor {
        Some(actor) => bind_text(accept_actor_str(actor)),
        None => SqlValue::Null,
    };
    let binds: Vec<SqlValue> = vec![
        bind_text(client_id),
        bind_text(item.item_id.as_str()),
        bind_text(item.source_kind.as_str()),
        bind_text(item.source_ref.as_str()),
        bind_text(item.category_id.as_str()),
        bind_text(item.title.as_str()),
        bind_text(item.summary.as_str()),
        bind_text(packet_kinds_json),
        bind_text(status_str(item.status)),
        accept_actor,
        bind_flag(item.ai_suggested),
        bind_text(item.rationale.as_str()),
        bind_text(item.produce_guidance.as_str()),
        SqlValue::Integer(item.created_at_ms as i64),
        bind_optional(&item.source_user_id),
        bind_optional(&item.assignee_user_id),
    ];
    let row: SqlStatement = statement(
        "INSERT INTO work_items (client_id, item_id, source_kind, source_ref, category_id, title, summary, packet_kinds_json, status, accept_actor, ai_suggested, rationale, produce_guidance, created_at_ms, updated_at_ms, source_user_id, assignee_user_id) VALUES (?1, ?2, ?3, ?4, ?5, ?6, ?7, ?8, ?9, ?10, ?11, ?12, ?13, ?14, ?14, ?15, ?16) ON CONFLICT (client_id, item_id) DO NOTHING",
        binds,
    );
    proof {
        assert(row.deep_view().binds =~= item_insert(
            client_id@,
            item.deep_view(),
            packet_kinds_json@,
        ).binds);
    }
    row
}

fn write_policy_row(client_id: &str, columns: &PolicyColumns, now_ms: u64) -> (r: SqlStatement)
    ensures
        r.deep_view() == policy_write(client_id@, columns.deep_view(), now_ms),
{
    let binds: Vec<SqlValue> = vec![
        bind_text(client_id),
        bind_text(columns.category_id.as_str()),
        bind_flag(columns.create_work_item),
        bind_text(columns.packet_kinds_json.as_str()),
        bind_flag(columns.auto_produce),
        bind_text(columns.ai_suggestible_packet_kinds_json.as_str()),
        bind_text(columns.ai_suggestible_gmail_scope.as_str()),
        bind_text(columns.ai_suggestible_gmail_categories_json.as_str()),
        SqlValue::Integer(now_ms as i64),
    ];
    let row: SqlStatement = statement(
        "INSERT INTO work_queue_policies (client_id, category_id, create_work_item, packet_kinds_json, auto_produce, ai_suggestible_packet_kinds_json, ai_suggestible_gmail_scope, ai_suggestible_gmail_categories_json, updated_at_ms) VALUES (?1, ?2, ?3, ?4, ?5, ?6, ?7, ?8, ?9) ON CONFLICT (client_id, category_id) DO UPDATE SET create_work_item = excluded.create_work_item, packet_kinds_json = excluded.packet_kinds_json, auto_produce = excluded.auto_produce, ai_suggestible_packet_kinds_json = excluded.ai_suggestible_packet_kinds_json, ai_suggestible_gmail_scope = excluded.ai_suggestible_gmail_scope, ai_suggestible_gmail_categories_json = excluded.ai_suggestible_gmail_categories_json, updated_at_ms = excluded.updated_at_ms",
        binds,
    );
    proof {
        assert(row.deep_view().binds =~= policy_write(client_id@, columns.deep_view(), now_ms).binds);
    }
    row
}

impl PlannedMutation {
    /// The request that is receipted.
    pub fn request(&self) -> (r: MutationRequest<'_>)
        ensures
            r.deep_view() == self.deep_view().request,
    {
        MutationRequest {
            client_id: self.client_id.as_str(),
            entity_kind: self.entity_kind.as_str(),
            entity_id: self.entity_id.as_str(),
            change_kind: self.change_kind.as_str(),
            actor_id: self.actor_id.as_str(),
            actor_kind: self.actor_kind,
            expected_revision: self.expected_revision,
            idempotency_key: self.idempotency_key.as_str(),
            correlation_id: optional_str(&self.correlation_id),
            causation_id: None,
            before_json: self.before_json.clone(),
            after_json: self.after_json.clone(),
            now_ms: self.now_ms,
        }
    }

    /// The statements of the domain write.
    pub fn statements(&self) -> (r: Vec<SqlStatement>)
        ensures
            r.deep_view() == write_statements(self.deep_view().request, self.deep_view().write),
    {
        let client: &str = self.client_id.as_str();
        let item_id: &str = self.entity_id.as_str();
        let now: SqlValue = SqlValue::Integer(self.now_ms as i64);
        match &self.write {
            DomainWrite::InsertItem { item, packet_kinds_json, visible_to_user_ids } => {
                let row: SqlStatement = insert_item_row(client, item, packet_kinds_json.as_str());
                let mut shown: Vec<SqlStatement> = insert_visibility_rows(
                    client,
                    item.item_id.as_str(),
                    visible_to_user_ids,
                    item.created_at_ms,
                );
                let ghost tail = shown.deep_view();
                let mut out: Vec<SqlStatement> = vec![row];
                out.append(&mut shown);
                proof {
                    assert(out.deep_view() =~= seq![row.deep_view()] + tail);
                }
                out
            },
            DomainWrite::SetStatus { status, accept_actor } => {
                let values: Vec<SqlValue> = vec![
                    bind_text(status.as_str()),
                    bind_optional(accept_actor),
                    now,
                ];
                proof {
                    assert(values.deep_view() =~= seq![
                        SqlView::Text(status@),
                        text_or_null(accept_actor.deep_view()),
                        now.deep_view(),
                    ]);
                }
                update_item(
                    "UPDATE work_items SET status = ?3, accept_actor = ?4, updated_at_ms = ?5 WHERE client_id = ?1 AND item_id = ?2",
                    client,
                    item_id,
                    values,
                )
            },
            DomainWrite::SetPacketKinds { packet_kinds_json } => {
                let values: Vec<SqlValue> = vec![bind_text(packet_kinds_json.as_str()), now];
                proof {
                    assert(values.deep_view() =~= seq![
                        SqlView::Text(packet_kinds_json@),
                        now.deep_view(),
                    ]);
                }
                update_item(
                    "UPDATE work_items SET packet_kinds_json = ?3, updated_at_ms = ?4 WHERE client_id = ?1 AND item_id = ?2",
                    client,
                    item_id,
                    values,
                )
            },
            DomainWrite::AddAiPacketKinds { packet_kinds_json, rationale } => {
                let values: Vec<SqlValue> = vec![
                    bind_text(packet_kinds_json.as_str()),
                    bind_text(rationale.as_str()),
                    now,
                ];
                proof {
                    assert(values.deep_view() =~= seq![
                        SqlView::Text(packet_kinds_json@),
                        SqlView::Text(rationale@),
                        now.deep_view(),
                    ]);
                }
                update_item(
                    "UPDATE work_items SET packet_kinds_json = ?3, ai_suggested = 1, rationale = ?4, updated_at_ms = ?5 WHERE client_id = ?1 AND item_id = ?2",
                    client,
                    item_id,
                    values,
                )
            },
            DomainWrite::SetGuidance { produce_guidance } => {
                let values: Vec<SqlValue> = vec![bind_text(produce_guidance.as_str()), now];
                proof {
                    assert(values.deep_view() =~= seq![
                        SqlView::Text(produce_guidance@),
                        now.deep_view(),
                    ]);
                }
                update_item(
                    "UPDATE work_items SET produce_guidance = ?3, updated_at_ms = ?4 WHERE client_id = ?1 AND item_id = ?2",
                    client,
                    item_id,
                    values,
                )
            },
            DomainWrite::SetAssignee { assignee_user_id } => {
                let values: Vec<SqlValue> = vec![bind_optional(assignee_user_id), now];
                proof {
                    assert(values.deep_view() =~= seq![
                        text_or_null(assignee_user_id.deep_view()),
                        now.deep_view(),
                    ]);
                }
                update_item(
                    "UPDATE work_items SET assignee_user_id = ?3, updated_at_ms = ?4 WHERE client_id = ?1 AND item_id = ?2",
                    client,
                    item_id,
                    values,
                )
            },
            DomainWrite::AddVisibility { user_ids } => insert_visibility_rows(
                client,
                item_id,
                user_ids,
                self.now_ms,
            ),
            DomainWrite::WritePolicy { columns } => {
                let out: Vec<SqlStatement> = vec![write_policy_row(client, columns, self.now_ms)];
                proof {
                    assert(out.deep_view() =~= write_statements(
                        self.deep_view().request,
                        self.deep_view().write,
                    ));
                }
                out
            },
            DomainWrite::EnqueueJob { .. } => {
                let out: Vec<SqlStatement> = Vec::new();
                proof {
                    assert(out.deep_view() =~= Seq::<StatementView>::empty());
                }
                out
            },
        }
    }
}

} // verus!
