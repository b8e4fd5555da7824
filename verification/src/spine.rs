//! What the receipt spine reads and writes: receipts and entity revisions.

use vstd::prelude::*;

use crate::receipt_query::{
    Condition, ConditionView, Order, QueryView, ReceiptQuery, RECEIPT_COLUMNS,
};
use crate::sql::{
    bind_optional, bind_optional_integer, bind_text, integer_or_null, statement, text_or_null,
    SqlStatement, SqlValue, SqlView, StatementView,
};
use crate::store_core::ReceiptRow;

verus! {

/// An entity's receipts, newest first.
pub open spec fn entity_query(
    client_id: Seq<char>,
    entity_kind: Seq<char>,
    entity_id: Seq<char>,
    limit: usize,
) -> QueryView {
    QueryView {
        columns: RECEIPT_COLUMNS@,
        conditions: seq![
            ConditionView::Client(client_id),
            ConditionView::EntityKind(entity_kind),
            ConditionView::EntityId(entity_id),
        ],
        order: Order::NewestFirst,
        limit: Some(limit),
    }
}

/// The query of an entity's receipts, newest first.
pub fn receipts_for_entity(
    client_id: &str,
    entity_kind: &str,
    entity_id: &str,
    limit: usize,
) -> (r: SqlStatement)
    ensures
        r.deep_view() == entity_query(client_id@, entity_kind@, entity_id@, limit).statement(),
{
    let query: ReceiptQuery<'_> = ReceiptQuery {
        columns: RECEIPT_COLUMNS,
        conditions: vec![
            Condition::Client(client_id),
            Condition::EntityKind(entity_kind),
            Condition::EntityId(entity_id),
        ],
        order: Order::NewestFirst,
        limit: Some(limit),
    };
    proof {
        assert(query.deep_view().conditions =~= entity_query(
            client_id@,
            entity_kind@,
            entity_id@,
            limit,
        ).conditions);
    }
    query.to_statement()
}

/// The newest applied receipt of an entity.
pub open spec fn latest_applied_query(
    client_id: Seq<char>,
    entity_kind: Seq<char>,
    entity_id: Seq<char>,
) -> QueryView {
    QueryView {
        columns: "actor_id"@,
        conditions: seq![
            ConditionView::Client(client_id),
            ConditionView::EntityKind(entity_kind),
            ConditionView::EntityId(entity_id),
            ConditionView::Applied,
        ],
        order: Order::NewestFirst,
        limit: Some(1),
    }
}

/// The query of the actor of the newest applied receipt of an entity.
pub fn latest_applied_receipt_actor(
    client_id: &str,
    entity_kind: &str,
    entity_id: &str,
) -> (r: SqlStatement)
    ensures
        r.deep_view() == latest_applied_query(client_id@, entity_kind@, entity_id@).statement(),
{
    let query: ReceiptQuery<'_> = ReceiptQuery {
        columns: "actor_id",
        conditions: vec![
            Condition::Client(client_id),
            Condition::EntityKind(entity_kind),
            Condition::EntityId(entity_id),
            Condition::Applied,
        ],
        order: Order::NewestFirst,
        limit: Some(1),
    };
    proof {
        assert(query.deep_view().conditions =~= latest_applied_query(
            client_id@,
            entity_kind@,
            entity_id@,
        ).conditions);
    }
    query.to_statement()
}

/// The conditions on the applied receipt that carries an idempotency key.
pub open spec fn applied_conditions(
    client_id: Seq<char>,
    idempotency_key: Seq<char>,
) -> Seq<ConditionView> {
    seq![
        ConditionView::Client(client_id),
        ConditionView::IdempotencyKey(idempotency_key),
        ConditionView::Applied,
    ]
}

/// The applied receipt that carries an idempotency key.
pub open spec fn applied_query(client_id: Seq<char>, idempotency_key: Seq<char>) -> QueryView {
    QueryView {
        columns: "receipt_id, revision_after"@,
        conditions: applied_conditions(client_id, idempotency_key),
        order: Order::Unordered,
        limit: None,
    }
}

/// The query of the applied receipt that carries an idempotency key.
pub fn find_applied_receipt(client_id: &str, idempotency_key: &str) -> (r: SqlStatement)
    ensures
        r.deep_view() == applied_query(client_id@, idempotency_key@).statement(),
{
    let query: ReceiptQuery<'_> = ReceiptQuery {
        columns: "receipt_id, revision_after",
        conditions: vec![
            Condition::Client(client_id),
            Condition::IdempotencyKey(idempotency_key),
            Condition::Applied,
        ],
        order: Order::Unordered,
        limit: None,
    };
    proof {
        assert(query.deep_view().conditions =~= applied_conditions(client_id@, idempotency_key@));
    }
    query.to_statement()
}

/// The newest applied receipt that carries an idempotency key.
pub open spec fn applied_revision_query(
    client_id: Seq<char>,
    idempotency_key: Seq<char>,
) -> QueryView {
    QueryView {
        columns: "revision_after"@,
        conditions: applied_conditions(client_id, idempotency_key),
        order: Order::NewestFirst,
        limit: Some(1),
    }
}

/// The query of the applied revision for one client-wide idempotency key. Useful
/// when an expensive transform must detect an HTTP replay before spending again;
/// the owning mutation still goes through [`mutate`](crate::store_core::mutate).
pub fn applied_revision_for_idempotency(client_id: &str, idempotency_key: &str) -> (r: SqlStatement)
    ensures
        r.deep_view() == applied_revision_query(client_id@, idempotency_key@).statement(),
{
    let query: ReceiptQuery<'_> = ReceiptQuery {
        columns: "revision_after",
        conditions: vec![
            Condition::Client(client_id),
            Condition::IdempotencyKey(idempotency_key),
            Condition::Applied,
        ],
        order: Order::NewestFirst,
        limit: Some(1),
    };
    proof {
        assert(query.deep_view().conditions =~= applied_conditions(client_id@, idempotency_key@));
    }
    query.to_statement()
}

/// The query of the current optimistic-concurrency revision of an entity (the
/// value a caller hands back as `expected_revision`).
pub fn current_revision(client_id: &str, entity_kind: &str, entity_id: &str) -> (r: SqlStatement)
    ensures
        r.deep_view() == (StatementView {
            sql: "SELECT revision FROM entity_revisions WHERE client_id = ?1 AND entity_kind = ?2 AND entity_id = ?3"@,
            binds: seq![
                SqlView::Text(client_id@),
                SqlView::Text(entity_kind@),
                SqlView::Text(entity_id@),
            ],
        }),
{
    let binds: Vec<SqlValue> = vec![
        bind_text(client_id),
        bind_text(entity_kind),
        bind_text(entity_id),
    ];
    proof {
        assert(binds.deep_view() =~= seq![
            SqlView::Text(client_id@),
            SqlView::Text(entity_kind@),
            SqlView::Text(entity_id@),
        ]);
    }
    statement(
        "SELECT revision FROM entity_revisions WHERE client_id = ?1 AND entity_kind = ?2 AND entity_id = ?3",
        binds,
    )
}

/// The statement that moves an entity on to a revision.
pub fn write_revision(
    client_id: &str,
    entity_kind: &str,
    entity_id: &str,
    revision: u64,
    now_ms: u64,
) -> (r: SqlStatement)
    ensures
        r.deep_view() == (StatementView {
            sql: "INSERT INTO entity_revisions (client_id, entity_kind, entity_id, revision, updated_at_ms) VALUES (?1, ?2, ?3, ?4, ?5) ON CONFLICT (client_id, entity_kind, entity_id) DO UPDATE SET revision = excluded.revision, updated_at_ms = excluded.updated_at_ms"@,
            binds: seq![
                SqlView::Text(client_id@),
                SqlView::Text(entity_kind@),
                SqlView::Text(entity_id@),
                SqlView::Integer(revision as i64),
                SqlView::Integer(now_ms as i64),
            ],
        }),
{
    let binds: Vec<SqlValue> = vec![
        bind_text(client_id),
        bind_text(entity_kind),
        bind_text(entity_id),
        SqlValue::Integer(revision as i64),
        SqlValue::Integer(now_ms as i64),
    ];
    proof {
        assert(binds.deep_view() =~= seq![
            SqlView::Text(client_id@),
            SqlView::Text(entity_kind@),
            SqlView::Text(entity_id@),
            SqlView::Integer(revision as i64),
            SqlView::Integer(now_ms as i64),
        ]);
    }
    statement(
        "INSERT INTO entity_revisions (client_id, entity_kind, entity_id, revision, updated_at_ms) VALUES (?1, ?2, ?3, ?4, ?5) ON CONFLICT (client_id, entity_kind, entity_id) DO UPDATE SET revision = excluded.revision, updated_at_ms = excluded.updated_at_ms",
        binds,
    )
}

/// The statement that gives a newly created entity its first revision, inside a
/// receipted transaction. It only inserts: where another entity's mutation creates
/// a child row, a revision that is there already means that the create path is not
/// creating a fresh entity.
pub fn initialize_revision_within(
    client_id: &str,
    entity_kind: &str,
    entity_id: &str,
    revision: u64,
    now_ms: u64,
) -> (r: SqlStatement)
    ensures
        r.deep_view() == (StatementView {
            sql: "INSERT INTO entity_revisions (client_id, entity_kind, entity_id, revision, updated_at_ms) VALUES (?1, ?2, ?3, ?4, ?5)"@,
            binds: seq![
                SqlView::Text(client_id@),
                SqlView::Text(entity_kind@),
                SqlView::Text(entity_id@),
                SqlView::Integer(revision as i64),
                SqlView::Integer(now_ms as i64),
            ],
        }),
{
    let binds: Vec<SqlValue> = vec![
        bind_text(client_id),
        bind_text(entity_kind),
        bind_text(entity_id),
        SqlValue::Integer(revision as i64),
        SqlValue::Integer(now_ms as i64),
    ];
    proof {
        assert(binds.deep_view() =~= seq![
            SqlView::Text(client_id@),
            SqlView::Text(entity_kind@),
            SqlView::Text(entity_id@),
            SqlView::Integer(revision as i64),
            SqlView::Integer(now_ms as i64),
        ]);
    }
    statement(
        "INSERT INTO entity_revisions (client_id, entity_kind, entity_id, revision, updated_at_ms) VALUES (?1, ?2, ?3, ?4, ?5)",
        binds,
    )
}

/// The statement that stores a receipt.
pub fn receipt_statement(row: &ReceiptRow) -> (r: SqlStatement)
    ensures
        r.deep_view() == (StatementView {
            sql: "INSERT INTO receipts (receipt_id, client_id, entity_kind, entity_id, change_kind, actor_id, actor_kind, outcome, error_class, before_json, after_json, revision_before, revision_after, idempotency_key, correlation_id, causation_id, created_at_ms) VALUES (?1, ?2, ?3, ?4, ?5, ?6, ?7, ?8, ?9, ?10, ?11, ?12, ?13, ?14, ?15, ?16, ?17)"@,
            binds: seq![
                SqlView::Text(row.receipt_id@),
                SqlView::Text(row.client_id@),
                SqlView::Text(row.entity_kind@),
                SqlView::Text(row.entity_id@),
                SqlView::Text(row.change_kind@),
                SqlView::Text(row.actor_id@),
                SqlView::Text(row.actor_kind@),
                SqlView::Text(row.outcome@),
                text_or_null(row.error_class.deep_view()),
                text_or_null(row.before_json.deep_view()),
                text_or_null(row.after_json.deep_view()),
                integer_or_null(row.revision_before),
                integer_or_null(row.revision_after),
                SqlView::Text(row.idempotency_key@),
                text_or_null(row.correlation_id.deep_view()),
                text_or_null(row.causation_id.deep_view()),
                SqlView::Integer(row.created_at_ms),
            ],
        }),
{
    let binds: Vec<SqlValue> = vec![
        bind_text(row.receipt_id.as_str()),
        bind_text(row.client_id.as_str()),
        bind_text(row.entity_kind.as_str()),
        bind_text(row.entity_id.as_str()),
        bind_text(row.change_kind.as_str()),
        bind_text(row.actor_id.as_str()),
        bind_text(row.actor_kind.as_str()),
        bind_text(row.outcome.as_str()),
        bind_optional(&row.error_class),
        bind_optional(&row.before_json),
        bind_optional(&row.after_json),
        bind_optional_integer(row.revision_before),
        bind_optional_integer(row.revision_after),
        bind_text(row.idempotency_key.as_str()),
        bind_optional(&row.correlation_id),
        bind_optional(&row.causation_id),
        SqlValue::Integer(row.created_at_ms),
    ];
    proof {
        assert(binds.deep_view() =~= seq![
            SqlView::Text(row.receipt_id@),
            SqlView::Text(row.client_id@),
            SqlView::Text(row.entity_kind@),
            SqlView::Text(row.entity_id@),
            SqlView::Text(row.change_kind@),
            SqlView::Text(row.actor_id@),
            SqlView::Text(row.actor_kind@),
            SqlView::Text(row.outcome@),
            text_or_null(row.error_class.deep_view()),
            text_or_null(row.before_json.deep_view()),
            text_or_null(row.after_json.deep_view()),
            integer_or_null(row.revision_before),
            integer_or_null(row.revision_after),
            SqlView::Text(row.idempotency_key@),
            text_or_null(row.correlation_id.deep_view()),
            text_or_null(row.causation_id.deep_view()),
            SqlView::Integer(row.created_at_ms),
        ]);
    }
    statement(
        "INSERT INTO receipts (receipt_id, client_id, entity_kind, entity_id, change_kind, actor_id, actor_kind, outcome, error_class, before_json, after_json, revision_before, revision_after, idempotency_key, correlation_id, causation_id, created_at_ms) VALUES (?1, ?2, ?3, ?4, ?5, ?6, ?7, ?8, ?9, ?10, ?11, ?12, ?13, ?14, ?15, ?16, ?17)",
        binds,
    )
}

} // verus!
