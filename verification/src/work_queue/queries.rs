//! What the queue reads of its tables.

use vstd::prelude::*;

use crate::receipt_query::{Condition, ConditionView, Order, QueryView, ReceiptQuery};
use crate::sql::{
    bind_optional, bind_text, statement, text_or_null, SqlStatement, SqlValue, SqlView, StatementView,
};
use super::store::{suggestion_prefix, ITEM_ENTITY_KIND};

verus! {

/// The query of one item, joined with its revision.
pub fn item_query(client_id: &str, item_id: &str) -> (r: SqlStatement)
    ensures
        r.deep_view() == (StatementView {
            sql: "SELECT w.item_id, w.source_kind, w.source_ref, w.category_id, w.title, w.summary, w.packet_kinds_json, w.status, w.accept_actor, w.created_at_ms, w.updated_at_ms, COALESCE(er.revision, 0) AS revision, w.ai_suggested, w.rationale, w.source_user_id, w.produce_guidance, w.assignee_user_id FROM work_items w LEFT JOIN entity_revisions er ON er.client_id = w.client_id AND er.entity_kind = ?2 AND er.entity_id = w.item_id WHERE w.client_id = ?1 AND w.item_id = ?3"@,
            binds: seq![
                SqlView::Text(client_id@),
                SqlView::Text(ITEM_ENTITY_KIND@),
                SqlView::Text(item_id@),
            ],
        }),
{
    let binds: Vec<SqlValue> = vec![
        bind_text(client_id),
        bind_text(ITEM_ENTITY_KIND),
        bind_text(item_id),
    ];
    proof {
        assert(binds.deep_view() =~= seq![
            SqlView::Text(client_id@),
            SqlView::Text(ITEM_ENTITY_KIND@),
            SqlView::Text(item_id@),
        ]);
    }
    statement(
        "SELECT w.item_id, w.source_kind, w.source_ref, w.category_id, w.title, w.summary, w.packet_kinds_json, w.status, w.accept_actor, w.created_at_ms, w.updated_at_ms, COALESCE(er.revision, 0) AS revision, w.ai_suggested, w.rationale, w.source_user_id, w.produce_guidance, w.assignee_user_id FROM work_items w LEFT JOIN entity_revisions er ON er.client_id = w.client_id AND er.entity_kind = ?2 AND er.entity_id = w.item_id WHERE w.client_id = ?1 AND w.item_id = ?3",
        binds,
    )
}

/// The query that counts the items of a source.
pub fn source_count_query(client_id: &str, source_kind: &str, source_ref: &str) -> (r: SqlStatement)
    ensures
        r.deep_view() == (StatementView {
            sql: "SELECT COUNT(*) FROM work_items WHERE client_id = ?1 AND source_kind = ?2 AND source_ref = ?3"@,
            binds: seq![
                SqlView::Text(client_id@),
                SqlView::Text(source_kind@),
                SqlView::Text(source_ref@),
            ],
        }),
{
    let binds: Vec<SqlValue> = vec![
        bind_text(client_id),
        bind_text(source_kind),
        bind_text(source_ref),
    ];
    proof {
        assert(binds.deep_view() =~= seq![
            SqlView::Text(client_id@),
            SqlView::Text(source_kind@),
            SqlView::Text(source_ref@),
        ]);
    }
    statement(
        "SELECT COUNT(*) FROM work_items WHERE client_id = ?1 AND source_kind = ?2 AND source_ref = ?3",
        binds,
    )
}

/// The query of the id of a source's item.
pub fn get_item_for_source(
    client_id: &str,
    source_kind: &str,
    source_ref: &str,
) -> (r: SqlStatement)
    ensures
        r.deep_view() == (StatementView {
            sql: "SELECT item_id FROM work_items WHERE client_id = ?1 AND source_kind = ?2 AND source_ref = ?3"@,
            binds: seq![
                SqlView::Text(client_id@),
                SqlView::Text(source_kind@),
                SqlView::Text(source_ref@),
            ],
        }),
{
    let binds: Vec<SqlValue> = vec![
        bind_text(client_id),
        bind_text(source_kind),
        bind_text(source_ref),
    ];
    proof {
        assert(binds.deep_view() =~= seq![
            SqlView::Text(client_id@),
            SqlView::Text(source_kind@),
            SqlView::Text(source_ref@),
        ]);
    }
    statement(
        "SELECT item_id FROM work_items WHERE client_id = ?1 AND source_kind = ?2 AND source_ref = ?3",
        binds,
    )
}

/// The query of the id of the first item that a source has for a user, or for
/// nobody in particular.
pub fn get_item_for_source_user(
    client_id: &str,
    source_kind: &str,
    source_ref: &str,
    source_user_id: &Option<String>,
) -> (r: SqlStatement)
    ensures
        r.deep_view() == (StatementView {
            sql: "SELECT item_id FROM work_items WHERE client_id = ?1 AND source_kind = ?2 AND source_ref = ?3 AND ((?4 IS NULL AND source_user_id IS NULL) OR source_user_id = ?4) ORDER BY created_at_ms ASC, item_id ASC LIMIT 1"@,
            binds: seq![
                SqlView::Text(client_id@),
                SqlView::Text(source_kind@),
                SqlView::Text(source_ref@),
                text_or_null(source_user_id.deep_view()),
            ],
        }),
{
    let binds: Vec<SqlValue> = vec![
        bind_text(client_id),
        bind_text(source_kind),
        bind_text(source_ref),
        bind_optional(source_user_id),
    ];
    proof {
        assert(binds.deep_view() =~= seq![
            SqlView::Text(client_id@),
            SqlView::Text(source_kind@),
            SqlView::Text(source_ref@),
            text_or_null(source_user_id.deep_view()),
        ]);
    }
    statement(
        "SELECT item_id FROM work_items WHERE client_id = ?1 AND source_kind = ?2 AND source_ref = ?3 AND ((?4 IS NULL AND source_user_id IS NULL) OR source_user_id = ?4) ORDER BY created_at_ms ASC, item_id ASC LIMIT 1",
        binds,
    )
}

/// The query of the status of a source's item.
pub fn source_status_query(
    client_id: &str,
    source_kind: &str,
    source_ref: &str,
) -> (r: SqlStatement)
    ensures
        r.deep_view() == (StatementView {
            sql: "SELECT status FROM work_items WHERE client_id = ?1 AND source_kind = ?2 AND source_ref = ?3"@,
            binds: seq![
                SqlView::Text(client_id@),
                SqlView::Text(source_kind@),
                SqlView::Text(source_ref@),
            ],
        }),
{
    let binds: Vec<SqlValue> = vec![
        bind_text(client_id),
        bind_text(source_kind),
        bind_text(source_ref),
    ];
    proof {
        assert(binds.deep_view() =~= seq![
            SqlView::Text(client_id@),
            SqlView::Text(source_kind@),
            SqlView::Text(source_ref@),
        ]);
    }
    statement(
        "SELECT status FROM work_items WHERE client_id = ?1 AND source_kind = ?2 AND source_ref = ?3",
        binds,
    )
}

/// The query of what an action reads of an item.
pub fn item_status_query(client_id: &str, item_id: &str) -> (r: SqlStatement)
    ensures
        r.deep_view() == (StatementView {
            sql: "SELECT status, source_user_id, accept_actor FROM work_items WHERE client_id = ?1 AND item_id = ?2"@,
            binds: seq![
                SqlView::Text(client_id@),
                SqlView::Text(item_id@),
            ],
        }),
{
    let binds: Vec<SqlValue> = vec![
        bind_text(client_id),
        bind_text(item_id),
    ];
    proof {
        assert(binds.deep_view() =~= seq![
            SqlView::Text(client_id@),
            SqlView::Text(item_id@),
        ]);
    }
    statement(
        "SELECT status, source_user_id, accept_actor FROM work_items WHERE client_id = ?1 AND item_id = ?2",
        binds,
    )
}

/// The query of what a change of kinds reads of an item.
pub fn item_kinds_query(client_id: &str, item_id: &str) -> (r: SqlStatement)
    ensures
        r.deep_view() == (StatementView {
            sql: "SELECT status, packet_kinds_json, source_user_id FROM work_items WHERE client_id = ?1 AND item_id = ?2"@,
            binds: seq![
                SqlView::Text(client_id@),
                SqlView::Text(item_id@),
            ],
        }),
{
    let binds: Vec<SqlValue> = vec![
        bind_text(client_id),
        bind_text(item_id),
    ];
    proof {
        assert(binds.deep_view() =~= seq![
            SqlView::Text(client_id@),
            SqlView::Text(item_id@),
        ]);
    }
    statement(
        "SELECT status, packet_kinds_json, source_user_id FROM work_items WHERE client_id = ?1 AND item_id = ?2",
        binds,
    )
}

/// The query of what a suggestion reads of an item.
pub fn item_suggestion_query(client_id: &str, item_id: &str) -> (r: SqlStatement)
    ensures
        r.deep_view() == (StatementView {
            sql: "SELECT status, packet_kinds_json, ai_suggested, rationale FROM work_items WHERE client_id = ?1 AND item_id = ?2"@,
            binds: seq![
                SqlView::Text(client_id@),
                SqlView::Text(item_id@),
            ],
        }),
{
    let binds: Vec<SqlValue> = vec![
        bind_text(client_id),
        bind_text(item_id),
    ];
    proof {
        assert(binds.deep_view() =~= seq![
            SqlView::Text(client_id@),
            SqlView::Text(item_id@),
        ]);
    }
    statement(
        "SELECT status, packet_kinds_json, ai_suggested, rationale FROM work_items WHERE client_id = ?1 AND item_id = ?2",
        binds,
    )
}

/// The query of the keys under which suggestions for an item were applied.
pub open spec fn spent_keys_query(client_id: Seq<char>, item_id: Seq<char>) -> QueryView {
    QueryView {
        columns: "idempotency_key"@,
        conditions: seq![
            ConditionView::Client(client_id),
            ConditionView::Applied,
            ConditionView::KeyFrom(suggestion_prefix(item_id)),
            ConditionView::KeyBelow("ai_suggest_kinds:"@ + item_id + ";"@),
        ],
        order: Order::Unordered,
        limit: None,
    }
}

/// The query of the keys under which suggestions for an item were applied. Their
/// keys begin with the same text, so they stand between it and the text whose last
/// character is the next one.
pub fn spent_suggestion_keys_query(client_id: &str, item_id: &str) -> (r: SqlStatement)
    ensures
        r.deep_view() == spent_keys_query(client_id@, item_id@).statement(),
{
    let begin: String = "ai_suggest_kinds:".to_owned().concat(item_id).concat(":");
    let end: String = "ai_suggest_kinds:".to_owned().concat(item_id).concat(";");
    let conditions: Vec<Condition<'_>> = vec![
        Condition::Client(client_id),
        Condition::Applied,
        Condition::KeyFrom(begin.as_str()),
        Condition::KeyBelow(end.as_str()),
    ];
    let query: ReceiptQuery<'_> = ReceiptQuery {
        columns: "idempotency_key",
        conditions,
        order: Order::Unordered,
        limit: None,
    };
    proof {
        assert(query.deep_view().conditions =~= spent_keys_query(client_id@, item_id@).conditions);
    }
    query.to_statement()
}

/// The query of what a change of guidance reads of an item.
pub fn item_guidance_query(client_id: &str, item_id: &str) -> (r: SqlStatement)
    ensures
        r.deep_view() == (StatementView {
            sql: "SELECT status, produce_guidance, source_user_id FROM work_items WHERE client_id = ?1 AND item_id = ?2"@,
            binds: seq![
                SqlView::Text(client_id@),
                SqlView::Text(item_id@),
            ],
        }),
{
    let binds: Vec<SqlValue> = vec![
        bind_text(client_id),
        bind_text(item_id),
    ];
    proof {
        assert(binds.deep_view() =~= seq![
            SqlView::Text(client_id@),
            SqlView::Text(item_id@),
        ]);
    }
    statement(
        "SELECT status, produce_guidance, source_user_id FROM work_items WHERE client_id = ?1 AND item_id = ?2",
        binds,
    )
}

/// The query of what an assignment reads of an item.
pub fn item_assignment_query(client_id: &str, item_id: &str) -> (r: SqlStatement)
    ensures
        r.deep_view() == (StatementView {
            sql: "SELECT source_user_id, assignee_user_id FROM work_items WHERE client_id = ?1 AND item_id = ?2"@,
            binds: seq![
                SqlView::Text(client_id@),
                SqlView::Text(item_id@),
            ],
        }),
{
    let binds: Vec<SqlValue> = vec![
        bind_text(client_id),
        bind_text(item_id),
    ];
    proof {
        assert(binds.deep_view() =~= seq![
            SqlView::Text(client_id@),
            SqlView::Text(item_id@),
        ]);
    }
    statement(
        "SELECT source_user_id, assignee_user_id FROM work_items WHERE client_id = ?1 AND item_id = ?2",
        binds,
    )
}

/// The query of a client's policies, in the order of their categories.
pub fn list_policies(client_id: &str) -> (r: SqlStatement)
    ensures
        r.deep_view() == (StatementView {
            sql: "SELECT category_id, create_work_item, packet_kinds_json, auto_produce, ai_suggestible_packet_kinds_json, ai_suggestible_gmail_scope, ai_suggestible_gmail_categories_json FROM work_queue_policies WHERE client_id = ?1 ORDER BY category_id ASC"@,
            binds: seq![
                SqlView::Text(client_id@),
            ],
        }),
{
    let binds: Vec<SqlValue> = vec![
        bind_text(client_id),
    ];
    proof {
        assert(binds.deep_view() =~= seq![
            SqlView::Text(client_id@),
        ]);
    }
    statement(
        "SELECT category_id, create_work_item, packet_kinds_json, auto_produce, ai_suggestible_packet_kinds_json, ai_suggestible_gmail_scope, ai_suggestible_gmail_categories_json FROM work_queue_policies WHERE client_id = ?1 ORDER BY category_id ASC",
        binds,
    )
}

/// The query of a category's policy.
pub fn policy_for_category(client_id: &str, category_id: &str) -> (r: SqlStatement)
    ensures
        r.deep_view() == (StatementView {
            sql: "SELECT create_work_item, packet_kinds_json, auto_produce, ai_suggestible_packet_kinds_json, ai_suggestible_gmail_scope, ai_suggestible_gmail_categories_json FROM work_queue_policies WHERE client_id = ?1 AND category_id = ?2"@,
            binds: seq![
                SqlView::Text(client_id@),
                SqlView::Text(category_id@),
            ],
        }),
{
    let binds: Vec<SqlValue> = vec![
        bind_text(client_id),
        bind_text(category_id),
    ];
    proof {
        assert(binds.deep_view() =~= seq![
            SqlView::Text(client_id@),
            SqlView::Text(category_id@),
        ]);
    }
    statement(
        "SELECT create_work_item, packet_kinds_json, auto_produce, ai_suggestible_packet_kinds_json, ai_suggestible_gmail_scope, ai_suggestible_gmail_categories_json FROM work_queue_policies WHERE client_id = ?1 AND category_id = ?2",
        binds,
    )
}

/// The query that counts the visibility rows of an item for a user.
pub fn visibility_row_query(client_id: &str, item_id: &str, user_id: &str) -> (r: SqlStatement)
    ensures
        r.deep_view() == (StatementView {
            sql: "SELECT COUNT(*) FROM work_item_visibility WHERE client_id = ?1 AND item_id = ?2 AND user_id = ?3"@,
            binds: seq![
                SqlView::Text(client_id@),
                SqlView::Text(item_id@),
                SqlView::Text(user_id@),
            ],
        }),
{
    let binds: Vec<SqlValue> = vec![
        bind_text(client_id),
        bind_text(item_id),
        bind_text(user_id),
    ];
    proof {
        assert(binds.deep_view() =~= seq![
            SqlView::Text(client_id@),
            SqlView::Text(item_id@),
            SqlView::Text(user_id@),
        ]);
    }
    statement(
        "SELECT COUNT(*) FROM work_item_visibility WHERE client_id = ?1 AND item_id = ?2 AND user_id = ?3",
        binds,
    )
}

/// The query of the users of an item's visibility rows.
pub fn item_visible_user_ids(client_id: &str, item_id: &str) -> (r: SqlStatement)
    ensures
        r.deep_view() == (StatementView {
            sql: "SELECT user_id FROM work_item_visibility WHERE client_id = ?1 AND item_id = ?2 ORDER BY user_id COLLATE NOCASE ASC"@,
            binds: seq![
                SqlView::Text(client_id@),
                SqlView::Text(item_id@),
            ],
        }),
{
    let binds: Vec<SqlValue> = vec![
        bind_text(client_id),
        bind_text(item_id),
    ];
    proof {
        assert(binds.deep_view() =~= seq![
            SqlView::Text(client_id@),
            SqlView::Text(item_id@),
        ]);
    }
    statement(
        "SELECT user_id FROM work_item_visibility WHERE client_id = ?1 AND item_id = ?2 ORDER BY user_id COLLATE NOCASE ASC",
        binds,
    )
}

/// The query that finds an active operator user.
pub fn active_operator_user_query(client_id: &str, user_id: &str) -> (r: SqlStatement)
    ensures
        r.deep_view() == (StatementView {
            sql: "SELECT 1 FROM operator_users WHERE client_id = ?1 AND user_id = ?2 AND active = 1 AND archived_at_ms IS NULL"@,
            binds: seq![
                SqlView::Text(client_id@),
                SqlView::Text(user_id@),
            ],
        }),
{
    let binds: Vec<SqlValue> = vec![
        bind_text(client_id),
        bind_text(user_id),
    ];
    proof {
        assert(binds.deep_view() =~= seq![
            SqlView::Text(client_id@),
            SqlView::Text(user_id@),
        ]);
    }
    statement(
        "SELECT 1 FROM operator_users WHERE client_id = ?1 AND user_id = ?2 AND active = 1 AND archived_at_ms IS NULL",
        binds,
    )
}

} // verus!
