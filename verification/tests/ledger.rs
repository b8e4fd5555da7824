//! Mutations through the receipt spine, on an in-memory database.

use bos_work_queue::contracts::receipt::{ActorKindDto, ReceiptDto, ReceiptOutcomeDto};
use bos_work_queue::receipts::{
    compact_receipt_payloads, compaction_result, eligible_receipt_payload_count, receipt_from_row,
    receipt_payload_compaction_candidates, receipts_by_correlation, ReceiptPayloadCompactionBatch,
};
use bos_work_queue::spine::{
    applied_revision_for_idempotency, current_revision, find_applied_receipt,
    initialize_revision_within, latest_applied_receipt_actor, receipt_statement,
    receipts_for_entity, write_revision,
};
use bos_work_queue::sql::{SqlStatement, SqlValue};
use bos_work_queue::store_core::{
    mutate, mutate_with_receipt_id, next_receipt_id, record_failed_receipt, revision_column,
    revision_from_column, sqlite_busy_message, AppliedReceipt, LedgerReads, MutationOutcome,
    MutationRequest, ReceiptRow, StoreError, Verdict,
};
use rusqlite::types::Value;
use rusqlite::{params_from_iter, Connection, OptionalExtension, Row};

fn open() -> Connection {
    let conn = Connection::open_in_memory().expect("db");
    conn.execute_batch(
        "CREATE TABLE receipts (receipt_id TEXT PRIMARY KEY, client_id TEXT NOT NULL, entity_kind TEXT NOT NULL, entity_id TEXT NOT NULL, change_kind TEXT NOT NULL, actor_id TEXT NOT NULL, actor_kind TEXT NOT NULL, outcome TEXT NOT NULL, error_class TEXT, before_json TEXT, after_json TEXT, revision_before INTEGER, revision_after INTEGER, idempotency_key TEXT NOT NULL, correlation_id TEXT, causation_id TEXT, created_at_ms INTEGER NOT NULL);
         CREATE TABLE entity_revisions (client_id TEXT NOT NULL, entity_kind TEXT NOT NULL, entity_id TEXT NOT NULL, revision INTEGER NOT NULL, updated_at_ms INTEGER NOT NULL, PRIMARY KEY (client_id, entity_kind, entity_id));
         CREATE TABLE widgets (id TEXT PRIMARY KEY);",
    )
    .expect("schema");
    conn
}

fn values(statement: &SqlStatement) -> Vec<Value> {
    statement
        .binds
        .iter()
        .map(|bind| match bind {
            SqlValue::Null => Value::Null,
            SqlValue::Integer(n) => Value::Integer(*n),
            SqlValue::Text(text) => Value::Text(text.clone()),
        })
        .collect()
}

fn execute(conn: &Connection, statement: &SqlStatement) -> usize {
    conn.execute(&statement.sql, params_from_iter(values(statement))).expect("execute")
}

fn first<T, F>(conn: &Connection, statement: &SqlStatement, read: F) -> Option<T>
where
    F: FnOnce(&Row<'_>) -> rusqlite::Result<T>,
{
    conn.query_row(&statement.sql, params_from_iter(values(statement)), read)
        .optional()
        .expect("query")
}

fn receipt(row: &Row<'_>) -> rusqlite::Result<ReceiptDto> {
    Ok(receipt_from_row(ReceiptRow {
        receipt_id: row.get(0)?,
        client_id: row.get(1)?,
        entity_kind: row.get(2)?,
        entity_id: row.get(3)?,
        change_kind: row.get(4)?,
        actor_id: row.get(5)?,
        actor_kind: row.get(6)?,
        outcome: row.get(7)?,
        error_class: row.get(8)?,
        before_json: None,
        after_json: None,
        revision_before: row.get(9)?,
        revision_after: row.get(10)?,
        idempotency_key: row.get(11)?,
        correlation_id: row.get(12)?,
        causation_id: row.get(13)?,
        created_at_ms: row.get(14)?,
    }))
}

fn list(conn: &Connection, statement: &SqlStatement) -> Vec<ReceiptDto> {
    let mut prepared = conn.prepare(&statement.sql).expect("prepare");
    let rows = prepared
        .query_map(params_from_iter(values(statement)), receipt)
        .expect("query");
    rows.map(|row| row.expect("row")).collect()
}

fn entity_receipts(conn: &Connection) -> Vec<ReceiptDto> {
    list(conn, &receipts_for_entity("test-client", "widget", "w1", 10))
}

fn receipt_count(conn: &Connection) -> u64 {
    let count: i64 = conn
        .query_row("SELECT COUNT(*) FROM receipts", [], |row| row.get(0))
        .expect("count");
    count as u64
}

fn reads(conn: &Connection, request: &MutationRequest<'_>) -> LedgerReads {
    let applied = first(
        conn,
        &find_applied_receipt(request.client_id, request.idempotency_key),
        |row| {
            Ok(AppliedReceipt {
                receipt_id: row.get(0)?,
                revision: revision_from_column(row.get(1)?),
            })
        },
    );
    let revision: Option<i64> = first(
        conn,
        &current_revision(request.client_id, request.entity_kind, request.entity_id),
        |row| row.get(0),
    );
    LedgerReads {
        applied,
        current_revision: revision_from_column(revision),
        receipt_count: receipt_count(conn),
    }
}

fn run<F>(
    conn: &mut Connection,
    request: &MutationRequest<'_>,
    domain_write: F,
) -> Result<MutationOutcome, StoreError>
where
    F: FnOnce(&Connection) -> Result<(), StoreError>,
{
    let tx = conn.transaction().expect("transaction");
    let reads = reads(&tx, request);
    let verdict: Verdict = mutate(request, &reads, || domain_write(&tx));
    if let Some(revision) = verdict.revision_write() {
        execute(
            &tx,
            &write_revision(
                request.client_id,
                request.entity_kind,
                request.entity_id,
                revision,
                request.now_ms,
            ),
        );
    }
    if verdict.rolls_back() {
        tx.rollback().expect("rollback");
    } else {
        tx.commit().expect("commit");
    }
    let row = verdict.receipt(request, receipt_count(conn));
    execute(conn, &receipt_statement(&row));
    verdict.answer(row.receipt_id)
}

fn request<'a>(idempotency_key: &'a str, expected_revision: Option<u64>) -> MutationRequest<'a> {
    MutationRequest {
        client_id: "test-client",
        entity_kind: "widget",
        entity_id: "w1",
        change_kind: "upsert",
        actor_id: "op_test",
        actor_kind: ActorKindDto::Operator,
        expected_revision,
        idempotency_key,
        correlation_id: Some("corr_test"),
        causation_id: None,
        before_json: None,
        after_json: Some("{\"v\":1}".to_string()),
        now_ms: 1_000,
    }
}

fn insert_widget(conn: &Connection) -> Result<(), StoreError> {
    conn.execute("INSERT INTO widgets (id) VALUES ('w1')", [])
        .map(|_| ())
        .map_err(|err| StoreError::Sqlite(err.to_string()))
}

fn widget_count(conn: &Connection) -> i64 {
    conn.query_row("SELECT COUNT(*) FROM widgets", [], |row| row.get(0)).expect("count")
}

#[test]
fn applied_mutation_bumps_revision_and_writes_receipt() {
    let mut conn = open();
    let outcome = run(&mut conn, &request("idem_1", None), insert_widget).expect("mutation");
    match outcome {
        MutationOutcome::Applied { revision, .. } => assert_eq!(revision, 1),
        other => panic!("expected Applied, got {other:?}"),
    }
    let receipts = entity_receipts(&conn);
    assert_eq!(receipts.len(), 1);
    assert_eq!(receipts[0].outcome, ReceiptOutcomeDto::Applied);
}

#[test]
fn idempotency_key_replays_without_reapplying() {
    let mut conn = open();
    run(&mut conn, &request("idem_1", None), insert_widget).expect("first");
    let applied = |key: &str| -> Option<u64> {
        let stored: Option<Option<i64>> = first(
            &conn,
            &applied_revision_for_idempotency("test-client", key),
            |row| row.get(0),
        );
        revision_from_column(stored.flatten())
    };
    assert_eq!(applied("idem_1"), Some(1));
    assert_eq!(applied("missing"), None);
    let outcome = run(&mut conn, &request("idem_1", None), insert_widget).expect("replay");
    assert!(matches!(
        outcome,
        MutationOutcome::ReplayedIdempotent { .. }
    ));
    assert_eq!(widget_count(&conn), 1, "domain write must not re-apply on replay");
}

#[test]
fn revision_conflict_is_reported_and_audited() {
    let mut conn = open();
    run(&mut conn, &request("idem_1", None), |_| Ok(())).expect("create");
    let outcome = run(&mut conn, &request("idem_2", Some(99)), |_| Ok(()))
        .expect("conflict path returns Ok");
    assert!(matches!(
        outcome,
        MutationOutcome::RevisionConflict {
            current_revision: Some(1),
            ..
        }
    ));
    let receipts = entity_receipts(&conn);
    assert_eq!(receipts[0].outcome, ReceiptOutcomeDto::RevisionConflict);
}

#[test]
fn failed_domain_write_rolls_back_and_writes_failure_receipt() {
    let mut conn = open();
    let result = run(&mut conn, &request("idem_1", None), |tx| {
        insert_widget(tx)?;
        Err(StoreError::Domain("validation failed".to_string()))
    });
    assert!(result.is_err());
    assert_eq!(widget_count(&conn), 0, "domain write must roll back");
    let receipts = entity_receipts(&conn);
    assert_eq!(receipts.len(), 1, "failure must still be audited");
    assert_eq!(receipts[0].outcome, ReceiptOutcomeDto::Failed);
    assert_eq!(receipts[0].error_class.as_deref(), Some("domain"));
}

#[test]
fn failed_keys_stay_free() {
    let mut conn = open();
    let failed = run(&mut conn, &request("idem_1", None), |_| {
        Err(StoreError::Sqlite("disk I/O error".to_string()))
    });
    assert!(matches!(failed, Err(StoreError::Sqlite(_))));
    let retried = run(&mut conn, &request("idem_1", None), insert_widget).expect("retry");
    assert!(matches!(retried, MutationOutcome::Applied { revision: 1, .. }));
    let outcomes: Vec<ReceiptOutcomeDto> =
        entity_receipts(&conn).into_iter().map(|receipt| receipt.outcome).collect();
    assert_eq!(outcomes, vec![ReceiptOutcomeDto::Applied, ReceiptOutcomeDto::Failed]);
    assert_eq!(entity_receipts(&conn)[1].error_class.as_deref(), Some("sqlite"));
}

#[test]
fn one_of_two_writers_wins_a_revision() {
    let mut conn = open();
    run(&mut conn, &request("create", None), |_| Ok(())).expect("create");
    let winner = run(&mut conn, &request("a", Some(1)), |_| Ok(())).expect("winner");
    assert!(matches!(winner, MutationOutcome::Applied { revision: 2, .. }));
    let loser = run(&mut conn, &request("b", Some(1)), |_| Ok(())).expect("loser");
    assert!(matches!(
        loser,
        MutationOutcome::RevisionConflict { current_revision: Some(2), .. }
    ));
}

#[test]
fn receipts_carry_ids_in_order() {
    assert_eq!(next_receipt_id(0), "rcpt_000000000001");
    assert_eq!(next_receipt_id(999_999_999_999), "rcpt_1000000000000");
    let mut conn = open();
    let seen = {
        let request = request("idem_1", None);
        let reads = reads(&conn, &request);
        let mut seen = String::new();
        let verdict = mutate_with_receipt_id(&request, &reads, |id: &str| {
            seen = id.to_string();
            Ok(())
        });
        assert!(matches!(verdict, Verdict::Applied { current_revision: None, revision: 1 }));
        seen
    };
    let outcome = run(&mut conn, &request("idem_1", None), |_| Ok(())).expect("mutation");
    assert!(matches!(outcome, MutationOutcome::Applied { receipt_id, .. } if receipt_id == seen));
}

#[test]
fn receipts_read_back_as_they_were_written() {
    let mut conn = open();
    run(&mut conn, &request("idem_1", None), |_| Ok(())).expect("mutation");
    let receipts = entity_receipts(&conn);
    assert_eq!(
        receipts[0],
        ReceiptDto {
            receipt_id: "rcpt_000000000001".to_string(),
            client_id: "test-client".to_string(),
            entity_kind: "widget".to_string(),
            entity_id: "w1".to_string(),
            change_kind: "upsert".to_string(),
            actor_id: "op_test".to_string(),
            actor_kind: ActorKindDto::Operator,
            outcome: ReceiptOutcomeDto::Applied,
            error_class: None,
            revision_before: None,
            revision_after: Some(1),
            idempotency_key: "idem_1".to_string(),
            correlation_id: Some("corr_test".to_string()),
            causation_id: None,
            created_at_ms: 1_000,
        }
    );
    let by_correlation =
        receipts_by_correlation("test-client", &vec!["corr_test".to_string()], 10).expect("query");
    assert_eq!(list(&conn, &by_correlation), receipts);
    assert_eq!(receipts_by_correlation("test-client", &Vec::new(), 10), None);
    let actor: Option<String> = first(
        &conn,
        &latest_applied_receipt_actor("test-client", "widget", "w1"),
        |row| row.get(0),
    );
    assert_eq!(actor.as_deref(), Some("op_test"));
}

#[test]
fn failures_outside_a_write_are_audited() {
    let conn = open();
    execute(
        &conn,
        &initialize_revision_within("test-client", "widget", "w1", 4, 500),
    );
    let request = request("idem_1", None);
    let row = record_failed_receipt(
        &request,
        reads(&conn, &request).current_revision,
        receipt_count(&conn),
        "llm_timeout",
    );
    execute(&conn, &receipt_statement(&row));
    let receipts = entity_receipts(&conn);
    assert_eq!(receipts[0].outcome, ReceiptOutcomeDto::Failed);
    assert_eq!(receipts[0].error_class.as_deref(), Some("llm_timeout"));
    assert_eq!(receipts[0].revision_before, Some(4));
    assert_eq!(receipts[0].revision_after, Some(4));
}

#[test]
fn revisions_keep_their_bits_in_a_column() {
    assert_eq!(revision_column(Some(7)), Some(7));
    assert_eq!(revision_column(None), None);
    assert_eq!(revision_from_column(revision_column(Some(u64::MAX))), Some(u64::MAX));
}

#[test]
fn busy_messages_are_recognized() {
    assert!(sqlite_busy_message("database is locked"));
    assert!(StoreError::Sqlite("Database is LOCKED".to_string()).is_sqlite_busy());
    assert!(!StoreError::Domain("database is locked".to_string()).is_sqlite_busy());
    assert!(!sqlite_busy_message("disk I/O error"));
}

#[test]
fn compaction_clears_payloads_and_nothing_else() {
    let mut conn = open();
    run(&mut conn, &request("idem_1", None), |_| Ok(())).expect("first");
    run(&mut conn, &request("idem_2", None), |_| Ok(())).expect("second");
    let restricted: &[(&str, &[&str])] = &[("widget", &["upsert", "insert"])];
    let count_query = eligible_receipt_payload_count("test-client", 2_000, &["widget"], restricted)
        .expect("query");
    let eligible: Option<i64> = first(&conn, &count_query, |row| row.get(0));
    assert_eq!(eligible, Some(2));
    assert_eq!(eligible_receipt_payload_count("test-client", 2_000, &[], restricted), None);
    assert_eq!(
        receipt_payload_compaction_candidates("test-client", 2_000, &["widget"], restricted, 0),
        None
    );
    let candidates =
        receipt_payload_compaction_candidates("test-client", 2_000, &["widget"], restricted, 5)
            .expect("query");
    let mut prepared = conn.prepare(&candidates.sql).expect("prepare");
    let ids: Vec<String> = prepared
        .query_map(params_from_iter(values(&candidates)), |row| row.get(0))
        .expect("query")
        .map(|row| row.expect("row"))
        .collect();
    drop(prepared);
    assert_eq!(ids, vec!["rcpt_000000000001".to_string(), "rcpt_000000000002".to_string()]);
    let before = entity_receipts(&conn);
    let batch = ReceiptPayloadCompactionBatch {
        client_id: "test-client",
        entity_id: "batch_1",
        mutation_entity_kind: "receipt_maintenance",
        mutation_change_kind: "compact",
        actor_id: "maintenance",
        actor_kind: ActorKindDto::System,
        idempotency_key: "compact_1",
        correlation_id: None,
        causation_id: None,
        cutoff_ms: 2_000,
        allowlisted_entity_kinds: &["widget"],
        restricted_change_kinds: restricted,
        receipt_ids: &ids,
        now_ms: 3_000,
    };
    let plan = compact_receipt_payloads(&batch).expect("plan");
    assert_eq!(
        plan.request.after_json.as_deref(),
        Some("{\"cutoff_ms\":2000,\"first_receipt_id\":\"rcpt_000000000001\",\"last_receipt_id\":\"rcpt_000000000002\",\"operation\":\"receipt_payload_compaction\",\"rows_compacted\":2}")
    );
    let outcome = run(&mut conn, &plan.request, |tx| {
        compaction_result(plan.expected_rows, execute(tx, &plan.statement))
    })
    .expect("compaction");
    assert!(matches!(outcome, MutationOutcome::Applied { revision: 1, .. }));
    assert_eq!(entity_receipts(&conn), before);
    let kept: i64 = conn
        .query_row(
            "SELECT COUNT(*) FROM receipts WHERE entity_kind = 'widget' AND after_json IS NOT NULL",
            [],
            |row| row.get(0),
        )
        .expect("count");
    assert_eq!(kept, 0);
    // The batch is gone now: a second run changes nothing and is refused.
    let again = ReceiptPayloadCompactionBatch { idempotency_key: "compact_2", ..batch };
    let plan = compact_receipt_payloads(&again).expect("plan");
    let raced = run(&mut conn, &plan.request, |tx| {
        compaction_result(plan.expected_rows, execute(tx, &plan.statement))
    });
    assert!(matches!(
        raced,
        Err(StoreError::Domain(code)) if code == "receipt_payload_compaction_race:expected=2:changed=0"
    ));
}

#[test]
fn empty_compaction_batches_are_refused() {
    let none: Vec<String> = Vec::new();
    let batch = ReceiptPayloadCompactionBatch {
        client_id: "test-client",
        entity_id: "batch_1",
        mutation_entity_kind: "receipt_maintenance",
        mutation_change_kind: "compact",
        actor_id: "maintenance",
        actor_kind: ActorKindDto::System,
        idempotency_key: "compact_1",
        correlation_id: None,
        causation_id: None,
        cutoff_ms: 2_000,
        allowlisted_entity_kinds: &["widget"],
        restricted_change_kinds: &[],
        receipt_ids: &none,
        now_ms: 3_000,
    };
    assert!(matches!(
        compact_receipt_payloads(&batch),
        Err(StoreError::Domain(code)) if code == "receipt_payload_compaction_batch_empty"
    ));
}

#[test]
fn change_kind_restrictions_bind_their_kinds() {
    let restrictions: &[(&str, &[&str])] = &[("a", &["x", "y"]), ("b", &["z"])];
    let query =
        eligible_receipt_payload_count("c", 5, &["a", "b"], restrictions).expect("query");
    assert_eq!(
        query.sql,
        "SELECT COUNT(*) FROM receipts WHERE client_id = ? AND outcome = 'applied' AND created_at_ms < ? AND (before_json IS NOT NULL OR after_json IS NOT NULL) AND entity_kind IN (?, ?) AND (entity_kind <> ? OR change_kind IN (?, ?)) AND (entity_kind <> ? OR change_kind IN (?))"
    );
    let text = |t: &str| SqlValue::Text(t.to_string());
    assert_eq!(
        query.binds,
        vec![
            text("c"),
            SqlValue::Integer(5),
            text("a"),
            text("b"),
            text("a"),
            text("x"),
            text("y"),
            text("b"),
            text("z"),
        ]
    );
}

#[test]
fn replays_survive_what_is_asked_in_between() {
    let mut conn = open();
    run(&mut conn, &request("idem_1", None), insert_widget).expect("first");
    run(&mut conn, &request("idem_2", Some(1)), |_| Ok(())).expect("second");
    run(&mut conn, &request("idem_3", Some(1)), |_| Ok(())).expect("conflict");
    let failed = run(&mut conn, &request("idem_4", None), |_| {
        Err(StoreError::Domain("refused".to_string()))
    });
    assert!(failed.is_err());
    let outcome = run(&mut conn, &request("idem_1", None), insert_widget).expect("replay");
    assert_eq!(
        outcome,
        MutationOutcome::ReplayedIdempotent {
            receipt_id: "rcpt_000000000005".to_string(),
            revision: Some(1),
        }
    );
    assert_eq!(widget_count(&conn), 1);
}

#[test]
fn failed_receipts_leave_every_request_as_it_was() {
    let mut conn = open();
    let request = request("idem_1", None);
    let row = record_failed_receipt(&request, None, 0, "llm_timeout");
    execute(&conn, &receipt_statement(&row));
    let outcome = run(&mut conn, &request, insert_widget).expect("applied");
    assert_eq!(
        outcome,
        MutationOutcome::Applied { receipt_id: "rcpt_000000000002".to_string(), revision: 1 }
    );
}

/// An applied mutation of the widget, with its own key, change and time.
fn run_at(conn: &mut Connection, key: &str, change_kind: &str, now_ms: u64) {
    let request = MutationRequest { change_kind, now_ms, ..request(key, None) };
    let outcome = run(conn, &request, |_| Ok(())).expect("mutation");
    assert!(outcome.is_applied());
}

fn candidate_ids(conn: &Connection, statement: &SqlStatement) -> Vec<String> {
    let mut prepared = conn.prepare(&statement.sql).expect("prepare");
    let rows = prepared
        .query_map(params_from_iter(values(statement)), |row| row.get(0))
        .expect("query");
    rows.map(|row| row.expect("row")).collect()
}

#[test]
fn candidates_are_the_oldest_until_none_is_left() {
    let mut conn = open();
    run_at(&mut conn, "k1", "upsert", 1_500);
    run_at(&mut conn, "k2", "upsert", 1_200);
    run_at(&mut conn, "k3", "delete", 1_100);
    run_at(&mut conn, "k4", "upsert", 1_200);
    run_at(&mut conn, "k5", "upsert", 2_000);
    run(&mut conn, &request("k6", Some(9)), |_| Ok(())).expect("conflict");
    let restricted: &[(&str, &[&str])] = &[("widget", &["upsert"])];
    let count = |conn: &Connection| -> i64 {
        let query = eligible_receipt_payload_count("test-client", 2_000, &["widget"], restricted)
            .expect("query");
        first(conn, &query, |row| row.get(0)).expect("count")
    };
    let candidates = |conn: &Connection, limit: usize| -> Vec<String> {
        let query = receipt_payload_compaction_candidates(
            "test-client",
            2_000,
            &["widget"],
            restricted,
            limit,
        )
        .expect("query");
        candidate_ids(conn, &query)
    };
    assert_eq!(count(&conn), 3);
    assert_eq!(candidates(&conn, 2), vec!["rcpt_000000000002", "rcpt_000000000004"]);
    assert_eq!(
        candidates(&conn, 5),
        vec!["rcpt_000000000002", "rcpt_000000000004", "rcpt_000000000001"]
    );
    for (key, expected) in [("c1", 1), ("c2", 0)] {
        let ids = candidates(&conn, 2);
        let batch = ReceiptPayloadCompactionBatch {
            client_id: "test-client",
            entity_id: key,
            mutation_entity_kind: "receipt_maintenance",
            mutation_change_kind: "compact",
            actor_id: "maintenance",
            actor_kind: ActorKindDto::System,
            idempotency_key: key,
            correlation_id: None,
            causation_id: None,
            cutoff_ms: 2_000,
            allowlisted_entity_kinds: &["widget"],
            restricted_change_kinds: restricted,
            receipt_ids: &ids,
            now_ms: 3_000,
        };
        let plan = compact_receipt_payloads(&batch).expect("plan");
        let outcome = run(&mut conn, &plan.request, |tx| {
            compaction_result(plan.expected_rows, execute(tx, &plan.statement))
        })
        .expect("compaction");
        assert!(outcome.is_applied());
        assert_eq!(count(&conn), expected);
    }
    assert!(candidates(&conn, 5).is_empty());
    let payloads: i64 = conn
        .query_row(
            "SELECT COUNT(*) FROM receipts WHERE entity_kind = 'widget' AND after_json IS NOT NULL",
            [],
            |row| row.get(0),
        )
        .expect("count");
    // The deletion, the receipt at the cutoff and the conflict keep theirs.
    assert_eq!(payloads, 3);
}

#[test]
fn refusals_do_not_change_the_latest_actor() {
    let mut conn = open();
    let latest = |conn: &Connection| -> Option<String> {
        let query = latest_applied_receipt_actor("test-client", "widget", "w1");
        first(conn, &query, |row| row.get(0))
    };
    let by = |actor_id, key, expected, now_ms| MutationRequest {
        actor_id,
        now_ms,
        ..request(key, expected)
    };
    assert_eq!(latest(&conn), None);
    run(&mut conn, &by("ann", "k1", None, 1_000), |_| Ok(())).expect("first");
    run(&mut conn, &by("bob", "k2", None, 2_000), |_| Ok(())).expect("second");
    assert_eq!(latest(&conn).as_deref(), Some("bob"));
    let replay = run(&mut conn, &by("cat", "k1", None, 3_000), |_| Ok(())).expect("replay");
    assert!(!replay.is_applied());
    let conflict = run(&mut conn, &by("dan", "k3", Some(7), 4_000), |_| Ok(())).expect("conflict");
    assert!(!conflict.is_applied());
    run(&mut conn, &by("eve", "k4", None, 5_000), |_| {
        Err(StoreError::Domain("refused".to_string()))
    })
    .expect_err("failure");
    assert_eq!(latest(&conn).as_deref(), Some("bob"));
    let outcomes: Vec<ReceiptOutcomeDto> =
        entity_receipts(&conn).into_iter().map(|receipt| receipt.outcome).collect();
    assert_eq!(
        outcomes,
        vec![
            ReceiptOutcomeDto::Failed,
            ReceiptOutcomeDto::RevisionConflict,
            ReceiptOutcomeDto::ReplayedIdempotent,
            ReceiptOutcomeDto::Applied,
            ReceiptOutcomeDto::Applied,
        ]
    );
    let newest: Vec<String> = list(&conn, &receipts_for_entity("test-client", "widget", "w1", 2))
        .into_iter()
        .map(|receipt| receipt.actor_id)
        .collect();
    assert_eq!(newest, vec!["eve", "dan"]);
    // A limit past what the column takes is none.
    let unlimited = receipts_for_entity("test-client", "widget", "w1", usize::MAX);
    assert_eq!(list(&conn, &unlimited).len(), 5);
    run(&mut conn, &by("fay", "k3", Some(2), 6_000), |_| Ok(())).expect("third");
    assert_eq!(latest(&conn).as_deref(), Some("fay"));
}
