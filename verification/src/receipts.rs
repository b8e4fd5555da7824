//! Stored receipts: how they are read back, and how their payloads are compacted.

use vstd::prelude::*;

use crate::contracts::receipt::{ActorKindDto, ReceiptDto};
use crate::json::{member, member_text, object_of, object_text, quote, quoted};
use crate::receipt_query::{
    where_binds, where_sql, where_text, where_values, Condition, ConditionView, Order, QueryView,
    ReceiptQuery, RECEIPT_COLUMNS,
};
use crate::sql::{statement, SqlStatement, SqlValue, StatementView};
use crate::store_core::{
    actor_kind_from_str, actor_kind_of, outcome_from_str, outcome_of, read_revision_of,
    revision_from_column, ErrorView, MutationRequest, ReceiptRow, ReceiptView, RequestView,
    StoreError,
};
use crate::text::{decimal, decimal_text};

verus! {

/// What a [`ReceiptDto`] says.
pub struct ReceiptDtoView {
    pub receipt_id: Seq<char>,
    pub client_id: Seq<char>,
    pub entity_kind: Seq<char>,
    pub entity_id: Seq<char>,
    pub change_kind: Seq<char>,
    pub actor_id: Seq<char>,
    pub actor_kind: ActorKindDto,
    pub outcome: crate::contracts::receipt::ReceiptOutcomeDto,
    pub error_class: Option<Seq<char>>,
    pub revision_before: Option<u64>,
    pub revision_after: Option<u64>,
    pub idempotency_key: Seq<char>,
    pub correlation_id: Option<Seq<char>>,
    pub causation_id: Option<Seq<char>>,
    pub created_at_ms: u64,
}

impl DeepView for ReceiptDto {
    type V = ReceiptDtoView;

    open spec fn deep_view(&self) -> ReceiptDtoView {
        ReceiptDtoView {
            receipt_id: self.receipt_id@,
            client_id: self.client_id@,
            entity_kind: self.entity_kind@,
            entity_id: self.entity_id@,
            change_kind: self.change_kind@,
            actor_id: self.actor_id@,
            actor_kind: self.actor_kind,
            outcome: self.outcome,
            error_class: self.error_class.deep_view(),
            revision_before: self.revision_before,
            revision_after: self.revision_after,
            idempotency_key: self.idempotency_key@,
            correlation_id: self.correlation_id.deep_view(),
            causation_id: self.causation_id.deep_view(),
            created_at_ms: self.created_at_ms,
        }
    }
}

/// What a stored receipt is served as; the payloads stay in the store.
pub open spec fn served(row: ReceiptView) -> ReceiptDtoView {
    ReceiptDtoView {
        receipt_id: row.receipt_id,
        client_id: row.client_id,
        entity_kind: row.entity_kind,
        entity_id: row.entity_id,
        change_kind: row.change_kind,
        actor_id: row.actor_id,
        actor_kind: actor_kind_of(row.actor_kind),
        outcome: outcome_of(row.outcome),
        error_class: row.error_class,
        revision_before: read_revision_of(row.revision_before),
        revision_after: read_revision_of(row.revision_after),
        idempotency_key: row.idempotency_key,
        correlation_id: row.correlation_id,
        causation_id: row.causation_id,
        created_at_ms: row.created_at_ms as u64,
    }
}

/// A stored receipt as it is served.
pub fn receipt_from_row(row: ReceiptRow) -> (r: ReceiptDto)
    ensures
        r.deep_view() == served(row.deep_view()),
{
    ReceiptDto {
        actor_kind: actor_kind_from_str(row.actor_kind.as_str()),
        outcome: outcome_from_str(row.outcome.as_str()),
        receipt_id: row.receipt_id,
        client_id: row.client_id,
        entity_kind: row.entity_kind,
        entity_id: row.entity_id,
        change_kind: row.change_kind,
        actor_id: row.actor_id,
        error_class: row.error_class,
        revision_before: revision_from_column(row.revision_before),
        revision_after: revision_from_column(row.revision_after),
        idempotency_key: row.idempotency_key,
        correlation_id: row.correlation_id,
        causation_id: row.causation_id,
        created_at_ms: row.created_at_ms as u64,
    }
}

/// A receipt is served with what the mutation recorded: who acted, how it ended,
/// and from which revision to which.
pub proof fn receipts_read_back(
    request: RequestView,
    receipt_id: Seq<char>,
    outcome: crate::contracts::receipt::ReceiptOutcomeDto,
    error_class: Option<Seq<char>>,
    revision_before: Option<u64>,
    revision_after: Option<u64>,
)
    ensures
        served(
            crate::store_core::receipt_of(
                request,
                receipt_id,
                outcome,
                error_class,
                revision_before,
                revision_after,
            ),
        ) == (ReceiptDtoView {
            receipt_id,
            client_id: request.client_id,
            entity_kind: request.entity_kind,
            entity_id: request.entity_id,
            change_kind: request.change_kind,
            actor_id: request.actor_id,
            actor_kind: request.actor_kind,
            outcome,
            error_class,
            revision_before,
            revision_after,
            idempotency_key: request.idempotency_key,
            correlation_id: request.correlation_id,
            causation_id: request.causation_id,
            created_at_ms: request.now_ms,
        }),
{
    crate::store_core::stored_texts_read_back(request.actor_kind, outcome);
    crate::store_core::stored_revision_reads_back(revision_before);
    crate::store_core::stored_revision_reads_back(revision_after);
    crate::store_core::stored_revision_reads_back(Some(request.now_ms));
}

/// The receipts caused by one of these correlation ids, newest first.
pub open spec fn correlation_query(
    client_id: Seq<char>,
    correlation_ids: Seq<Seq<char>>,
    limit: usize,
) -> QueryView {
    QueryView {
        columns: RECEIPT_COLUMNS@,
        conditions: seq![
            ConditionView::Client(client_id),
            ConditionView::CorrelationIn(correlation_ids),
        ],
        order: Order::NewestFirst,
        limit: Some(limit),
    }
}

/// What an optional query's statement is.
pub open spec fn statement_of(query: Option<QueryView>) -> Option<StatementView> {
    match query {
        Some(q) => Some(q.statement()),
        None => None,
    }
}

/// The query of the receipts caused by one of the supplied correlation ids, newest
/// first; none where no id is supplied.
pub fn receipts_by_correlation(client_id: &str, correlation_ids: &Vec<String>, limit: usize) -> (r:
    Option<SqlStatement>)
    ensures
        r.deep_view() == (if correlation_ids.len() == 0 {
            None
        } else {
            Some(correlation_query(client_id@, correlation_ids.deep_view(), limit).statement())
        }),
{
    if correlation_ids.len() == 0 {
        return None;
    }
    let query: ReceiptQuery<'_> = ReceiptQuery {
        columns: RECEIPT_COLUMNS,
        conditions: vec![
            Condition::Client(client_id),
            Condition::CorrelationIn(correlation_ids.as_slice()),
        ],
        order: Order::NewestFirst,
        limit: Some(limit),
    };
    proof {
        assert(query.deep_view().conditions =~= correlation_query(
            client_id@,
            correlation_ids.deep_view(),
            limit,
        ).conditions);
    }
    Some(query.to_statement())
}

/// The conditions under which a receipt's payloads may be compacted: those of every
/// kind, and behind them the change-kind restrictions.
pub open spec fn compaction_conditions(
    client_id: Seq<char>,
    cutoff_ms: u64,
    kinds: Seq<Seq<char>>,
    restrictions: Seq<(Seq<char>, Seq<Seq<char>>)>,
) -> Seq<ConditionView> {
    seq![
        ConditionView::Client(client_id),
        ConditionView::Applied,
        ConditionView::CreatedBefore(cutoff_ms),
        ConditionView::HasPayload,
        ConditionView::EntityKindIn(kinds),
    ] + restrictions.map_values(
        |r: (Seq<char>, Seq<Seq<char>>)| ConditionView::ChangeKindIn(r.0, r.1),
    )
}

fn eligible_conditions<'a>(
    client_id: &'a str,
    cutoff_ms: u64,
    kinds: &'a [&'a str],
    restrictions: &'a [(&'a str, &'a [&'a str])],
) -> (r: Vec<Condition<'a>>)
    ensures
        r.deep_view() == compaction_conditions(
            client_id@,
            cutoff_ms,
            kinds.deep_view(),
            restrictions.deep_view(),
        ),
{
    let mut out: Vec<Condition<'a>> = vec![
        Condition::Client(client_id),
        Condition::Applied,
        Condition::CreatedBefore(cutoff_ms),
        Condition::HasPayload,
        Condition::EntityKindIn(kinds),
    ];
    let ghost all = restrictions.deep_view();
    let mut i: usize = 0;
    proof {
        assert(out.deep_view() =~= compaction_conditions(
            client_id@,
            cutoff_ms,
            kinds.deep_view(),
            all.take(0),
        ));
    }
    while i < restrictions.len()
        invariant
            i <= restrictions.len(),
            all == restrictions.deep_view(),
            out.deep_view() == compaction_conditions(
                client_id@,
                cutoff_ms,
                kinds.deep_view(),
                all.take(i as int),
            ),
        decreases restrictions.len() - i,
    {
        let ghost before = out.deep_view();
        let condition: Condition<'a> = Condition::ChangeKindIn(
            restrictions[i].0,
            restrictions[i].1,
        );
        let ghost said = condition.deep_view();
        out.push(condition);
        proof {
            assert(all[i as int] == (restrictions[i as int].0@, restrictions[i as int].1.deep_view()));
            assert(out.deep_view() =~= before.push(said));
            assert(compaction_conditions(
                client_id@,
                cutoff_ms,
                kinds.deep_view(),
                all.take(i + 1),
            ) =~= before.push(said));
        }
        i += 1;
    }
    proof {
        assert(all.take(i as int) =~= all);
    }
    out
}

/// The oldest applied receipt payloads that may be compacted; no query where
/// nothing can be eligible.
pub open spec fn candidates_query(
    client_id: Seq<char>,
    cutoff_ms: u64,
    kinds: Seq<Seq<char>>,
    restrictions: Seq<(Seq<char>, Seq<Seq<char>>)>,
    limit: usize,
) -> Option<QueryView> {
    if kinds.len() == 0 || limit == 0 {
        None
    } else {
        Some(
            QueryView {
                columns: "receipt_id"@,
                conditions: compaction_conditions(client_id, cutoff_ms, kinds, restrictions),
                order: Order::OldestFirst,
                limit: Some(limit),
            },
        )
    }
}

/// The query of the oldest applied receipt payloads eligible under an explicit
/// caller-owned allowlist; none where nothing can be eligible. Receipt rows
/// themselves are permanent.
pub fn receipt_payload_compaction_candidates(
    client_id: &str,
    cutoff_ms: u64,
    allowlisted_entity_kinds: &[&str],
    restricted_change_kinds: &[(&str, &[&str])],
    limit: usize,
) -> (r: Option<SqlStatement>)
    ensures
        r.deep_view() == statement_of(
            candidates_query(
                client_id@,
                cutoff_ms,
                allowlisted_entity_kinds.deep_view(),
                restricted_change_kinds.deep_view(),
                limit,
            ),
        ),
{
    if allowlisted_entity_kinds.len() == 0 || limit == 0 {
        return None;
    }
    let query: ReceiptQuery<'_> = ReceiptQuery {
        columns: "receipt_id",
        conditions: eligible_conditions(
            client_id,
            cutoff_ms,
            allowlisted_entity_kinds,
            restricted_change_kinds,
        ),
        order: Order::OldestFirst,
        limit: Some(limit),
    };
    Some(query.to_statement())
}

/// The receipt payloads that may be compacted, to be counted; no query where
/// nothing can be eligible.
pub open spec fn eligible_count_query(
    client_id: Seq<char>,
    cutoff_ms: u64,
    kinds: Seq<Seq<char>>,
    restrictions: Seq<(Seq<char>, Seq<Seq<char>>)>,
) -> Option<QueryView> {
    if kinds.len() == 0 {
        None
    } else {
        Some(
            QueryView {
                columns: "COUNT(*)"@,
                conditions: compaction_conditions(client_id, cutoff_ms, kinds, restrictions),
                order: Order::Unordered,
                limit: None,
            },
        )
    }
}

/// The query that counts the eligible receipt payloads; none where nothing can be
/// eligible, and the count is zero.
pub fn eligible_receipt_payload_count(
    client_id: &str,
    cutoff_ms: u64,
    allowlisted_entity_kinds: &[&str],
    restricted_change_kinds: &[(&str, &[&str])],
) -> (r: Option<SqlStatement>)
    ensures
        r.deep_view() == statement_of(
            eligible_count_query(
                client_id@,
                cutoff_ms,
                allowlisted_entity_kinds.deep_view(),
                restricted_change_kinds.deep_view(),
            ),
        ),
{
    if allowlisted_entity_kinds.len() == 0 {
        return None;
    }
    let query: ReceiptQuery<'_> = ReceiptQuery {
        columns: "COUNT(*)",
        conditions: eligible_conditions(
            client_id,
            cutoff_ms,
            allowlisted_entity_kinds,
            restricted_change_kinds,
        ),
        order: Order::Unordered,
        limit: None,
    };
    Some(query.to_statement())
}

#[derive(Debug, Clone)]
pub struct ReceiptPayloadCompactionBatch<'a> {
    pub client_id: &'a str,
    pub actor_id: &'a str,
    pub actor_kind: ActorKindDto,
    pub cutoff_ms: u64,
    pub allowlisted_entity_kinds: &'a [&'a str],
    /// Optional exact change-kind restriction by entity kind. Entity kinds not
    /// present here retain the entity-wide behavior above.
    pub restricted_change_kinds: &'a [(&'a str, &'a [&'a str])],
    pub receipt_ids: &'a [String],
    pub mutation_entity_kind: &'a str,
    pub mutation_change_kind: &'a str,
    pub entity_id: &'a str,
    pub idempotency_key: &'a str,
    pub correlation_id: Option<&'a str>,
    pub causation_id: Option<&'a str>,
    pub now_ms: u64,
}

/// A compaction that may run: the request that is receipted, the statement that
/// clears the payloads, and how many rows it has to change.
#[derive(Debug)]
pub struct CompactionPlan<'a> {
    pub request: MutationRequest<'a>,
    pub statement: SqlStatement,
    pub expected_rows: usize,
}

/// The JSON that receipts keep of a compaction.
pub open spec fn compaction_json(cutoff_ms: u64, receipt_ids: Seq<Seq<char>>) -> Seq<char> {
    object_of(
        seq![
            member("cutoff_ms"@, decimal(cutoff_ms as nat)),
            member("first_receipt_id"@, quoted(receipt_ids.first())),
            member("last_receipt_id"@, quoted(receipt_ids.last())),
            member("operation"@, quoted("receipt_payload_compaction"@)),
            member("rows_compacted"@, decimal(receipt_ids.len())),
        ],
    )
}

/// The conditions on the receipts of a batch: they may be compacted, and the batch
/// names them.
pub open spec fn batch_conditions(
    client_id: Seq<char>,
    cutoff_ms: u64,
    kinds: Seq<Seq<char>>,
    restrictions: Seq<(Seq<char>, Seq<Seq<char>>)>,
    receipt_ids: Seq<Seq<char>>,
) -> Seq<ConditionView> {
    compaction_conditions(client_id, cutoff_ms, kinds, restrictions).push(
        ConditionView::ReceiptIdIn(receipt_ids),
    )
}

/// The statement that clears the payloads of the receipts that meet the conditions.
pub open spec fn clearing_statement(conditions: Seq<ConditionView>) -> StatementView {
    StatementView {
        sql: "UPDATE receipts SET before_json = NULL, after_json = NULL "@ + where_text(conditions),
        binds: where_values(conditions),
    }
}

/// The mutation that a compaction is receipted as.
pub open spec fn compaction_request(batch: ReceiptPayloadCompactionBatch<'_>) -> RequestView {
    RequestView {
        client_id: batch.client_id@,
        entity_kind: batch.mutation_entity_kind@,
        entity_id: batch.entity_id@,
        change_kind: batch.mutation_change_kind@,
        actor_id: batch.actor_id@,
        actor_kind: batch.actor_kind,
        expected_revision: None,
        idempotency_key: batch.idempotency_key@,
        correlation_id: batch.correlation_id.deep_view(),
        causation_id: batch.causation_id.deep_view(),
        before_json: None,
        after_json: Some(compaction_json(batch.cutoff_ms, batch.receipt_ids.deep_view())),
        now_ms: batch.now_ms,
    }
}

/// Clear JSON payloads from one exact batch while preserving every receipt
/// identity, outcome, revision, correlation, and idempotency field.
pub fn compact_receipt_payloads<'a>(batch: &ReceiptPayloadCompactionBatch<'a>) -> (r: Result<
    CompactionPlan<'a>,
    StoreError,
>)
    ensures
        match r {
            Err(err) => {
                &&& batch.receipt_ids@.len() == 0 || batch.allowlisted_entity_kinds@.len() == 0
                &&& err.deep_view() == ErrorView::Domain("receipt_payload_compaction_batch_empty"@)
            },
            Ok(plan) => {
                &&& batch.receipt_ids@.len() > 0 && batch.allowlisted_entity_kinds@.len() > 0
                &&& plan.expected_rows == batch.receipt_ids@.len()
                &&& plan.request.deep_view() == compaction_request(*batch)
                &&& plan.statement.deep_view() == clearing_statement(
                    batch_conditions(
                        batch.client_id@,
                        batch.cutoff_ms,
                        batch.allowlisted_entity_kinds.deep_view(),
                        batch.restricted_change_kinds.deep_view(),
                        batch.receipt_ids.deep_view(),
                    ),
                )
            },
        },
{
    let count: usize = batch.receipt_ids.len();
    if count == 0 || batch.allowlisted_entity_kinds.len() == 0 {
        return Err(StoreError::domain("receipt_payload_compaction_batch_empty"));
    }
    let first: &str = batch.receipt_ids[0].as_str();
    let last: &str = batch.receipt_ids[count - 1].as_str();
    let members: Vec<String> = vec![
        member_text("cutoff_ms", decimal_text(batch.cutoff_ms).as_str()),
        member_text("first_receipt_id", quote(first).as_str()),
        member_text("last_receipt_id", quote(last).as_str()),
        member_text("operation", quote("receipt_payload_compaction").as_str()),
        member_text("rows_compacted", decimal_text(count as u64).as_str()),
    ];
    proof {
        let ids = batch.receipt_ids.deep_view();
        assert(ids.first() == first@);
        assert(ids.last() == last@);
        assert(members.deep_view() =~= seq![
            member("cutoff_ms"@, decimal(batch.cutoff_ms as nat)),
            member("first_receipt_id"@, quoted(ids.first())),
            member("last_receipt_id"@, quoted(ids.last())),
            member("operation"@, quoted("receipt_payload_compaction"@)),
            member("rows_compacted"@, decimal(ids.len())),
        ]);
    }
    let mut conditions: Vec<Condition<'_>> = eligible_conditions(
        batch.client_id,
        batch.cutoff_ms,
        batch.allowlisted_entity_kinds,
        batch.restricted_change_kinds,
    );
    let ghost before = conditions.deep_view();
    conditions.push(Condition::ReceiptIdIn(batch.receipt_ids));
    proof {
        assert(conditions.deep_view() =~= before.push(
            ConditionView::ReceiptIdIn(batch.receipt_ids.deep_view()),
        ));
    }
    let sql: String = "UPDATE receipts SET before_json = NULL, after_json = NULL ".to_owned().concat(
        where_sql(&conditions).as_str(),
    );
    let binds: Vec<SqlValue> = where_binds(&conditions);
    Ok(
        CompactionPlan {
            request: MutationRequest {
                client_id: batch.client_id,
                entity_kind: batch.mutation_entity_kind,
                entity_id: batch.entity_id,
                change_kind: batch.mutation_change_kind,
                actor_id: batch.actor_id,
                actor_kind: batch.actor_kind,
                expected_revision: None,
                idempotency_key: batch.idempotency_key,
                correlation_id: batch.correlation_id,
                causation_id: batch.causation_id,
                before_json: None,
                after_json: Some(object_text(&members)),
                now_ms: batch.now_ms,
            },
            statement: statement(sql.as_str(), binds),
            expected_rows: count,
        },
    )
}

/// A compaction that changed another number of rows than its batch names has raced
/// with another writer, and fails.
pub fn compaction_result(expected_rows: usize, changed: usize) -> (r: Result<(), StoreError>)
    ensures
        r is Ok <==> expected_rows == changed,
        r is Err ==> r->Err_0.deep_view() == ErrorView::Domain(
            "receipt_payload_compaction_race:expected="@ + decimal(expected_rows as nat)
                + ":changed="@ + decimal(changed as nat),
        ),
{
    if changed != expected_rows {
        return Err(
            StoreError::Domain(
                "receipt_payload_compaction_race:expected=".to_owned().concat(
                    decimal_text(expected_rows as u64).as_str(),
                ).concat(":changed=").concat(decimal_text(changed as u64).as_str()),
            ),
        );
    }
    Ok(())
}

} // verus!
