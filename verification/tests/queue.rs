//! The queue end to end: plans, queries and feeds run on an in-memory database.

use bos_work_queue::contracts::email_identity::{AttentionLevel, AttentionSignal};
use bos_work_queue::contracts::email_triage::{
    EmailTriageGmailCategory, InboundMessageRecord, FALLBACK_CATEGORY_ID,
};
use bos_work_queue::contracts::packet_proposals::{
    PacketProposalKindOutcome, PacketProposalKindOutcomeStatus, PacketProposalReasonCode,
};
use bos_work_queue::contracts::receipt::ActorKindDto;
use bos_work_queue::contracts::work_queue::{
    AI_SUGGEST_ALL_SENTINEL, WorkItem, WorkItemAcceptActor, WorkItemActionKind,
    WorkItemAssignActionKind, WorkItemSourceBodyFormat, WorkItemSourceResponse, WorkItemStatus,
    WorkItemWithRevision, WorkQueueAiGmailScope, WorkQueuePolicy,
};
use bos_work_queue::http::OperatorScope;
use bos_work_queue::overlay::{SharedInboxOverlay, WorkQueueOverlay};
use bos_work_queue::spine::{
    current_revision, find_applied_receipt, receipt_statement, write_revision,
};
use bos_work_queue::sql::{SqlStatement, SqlValue};
use bos_work_queue::store_core::{
    mutate, revision_from_column, AppliedReceipt, LedgerReads, MutationOutcome, StoreError, Verdict,
};
use bos_work_queue::work_queue::agent_launch::build_outbox_job;
use bos_work_queue::work_queue::emit::{
    add_manual_follow_up_for_email, emit_ai_suggested_item, emit_for_inbound_message,
    emit_for_inbound_message_with_overlay, emit_unconditional, message_id_lookup,
    visible_users_for_message, AiSuggestion, Emission, EmissionReads, ManualFollowUp,
    UnconditionalEmit,
};
use bos_work_queue::work_queue::feed::{
    accepted_item_ids, attention_feed, feed, needs_attention, outbox_failures_query,
    produce_failures_since, proposal_from_columns, proposal_runs_query, DraftEntityKinds,
    FeedOptions, FeedSignals, OutboxFailureRow, ProposalColumns, UsageRow,
};
use bos_work_queue::work_queue::items::{
    get_item_scoped, get_item_unscoped, item_exists_for_source, list_items, list_items_query,
    status_counts_for_sources, visibility_by_item_ids_query, ItemRow,
};
use bos_work_queue::work_queue::plan::{DomainWrite, PlannedMutation, PolicyColumns};
use bos_work_queue::work_queue::policies::{policy_from_columns, sanitize_policy, upsert_policy};
use bos_work_queue::work_queue::queries::{
    active_operator_user_query, get_item_for_source, get_item_for_source_user,
    item_assignment_query, item_guidance_query, item_kinds_query, item_query, item_status_query,
    item_suggestion_query, item_visible_user_ids, list_policies, policy_for_category,
    source_count_query, source_status_query, spent_suggestion_keys_query, visibility_row_query,
};
use bos_work_queue::work_queue::routes::{
    item_action, item_source_error_response, listing_limit, queue_list, queue_request,
    require_idempotency_key, trash_message, ErrorAnswer, QueueQuery,
};
use bos_work_queue::work_queue::service::{
    gate_packet_kinds_for_attention, item_source, looks_like_html, stable_visibility_key,
    ItemSourceError, SourceError,
};
use bos_work_queue::work_queue::store::{
    append_ai_packet_kinds, apply_item_action, assignment_target, ensure_visibility_user_ids,
    insert_item, insert_item_with_actor, record_agent_launch_request, system_accept_item,
    update_assignment, update_packet_kinds, update_produce_guidance, visibility_lookup_user,
    AgentLaunchRequestContext, ItemAction, ItemActionContext, ItemAssignmentRow, ItemGuidanceRow,
    ItemKindsRow, ItemStatusRow, ItemSuggestionRow, ITEM_ENTITY_KIND,
};
use rusqlite::types::Value;
use rusqlite::{params_from_iter, Connection, OptionalExtension, Row};

const CLIENT: &str = "test-client";

struct Queue {
    conn: Connection,
    /// `(item_id, kind)` of the staged drafts.
    staged: Vec<(String, String)>,
    usage: Vec<UsageRow>,
    candidates: Vec<(String, String)>,
    attention: Vec<(String, AttentionSignal)>,
    /// `(source, title, summary)`
    hints: Vec<(String, String, String)>,
    /// Outcomes of smart-draft runs by run id.
    outcomes: Vec<(String, Vec<PacketProposalKindOutcome>)>,
}

fn values(statement: &SqlStatement) -> Vec<Value> {
    statement
        .binds
        .iter()
        .map(|bind| match bind {
            SqlValue::Null => Value::Null,
            SqlValue::Integer(n) => Value::Integer(*n),
            SqlValue::Text(text) => Value::Text(text.clone()),
        })
        .collect()
}

fn execute(conn: &Connection, statement: &SqlStatement) -> Result<usize, StoreError> {
    conn.execute(&statement.sql, params_from_iter(values(statement)))
        .map_err(|err| StoreError::Sqlite(err.to_string()))
}

fn first<T, F>(conn: &Connection, statement: &SqlStatement, read: F) -> Option<T>
where
    F: FnOnce(&Row<'_>) -> rusqlite::Result<T>,
{
    conn.query_row(&statement.sql, params_from_iter(values(statement)), read)
        .optional()
        .expect("query")
}

fn every<T, F>(conn: &Connection, statement: &SqlStatement, read: F) -> Vec<T>
where
    F: FnMut(&Row<'_>) -> rusqlite::Result<T>,
{
    let mut prepared = conn.prepare(&statement.sql).expect("prepare");
    let rows = prepared
        .query_map(params_from_iter(values(statement)), read)
        .expect("query");
    rows.map(|row| row.expect("row")).collect()
}

fn item_row(row: &Row<'_>) -> rusqlite::Result<ItemRow> {
    Ok(ItemRow {
        item_id: row.get("item_id")?,
        source_kind: row.get("source_kind")?,
        source_ref: row.get("source_ref")?,
        category_id: row.get("category_id")?,
        title: row.get("title")?,
        summary: row.get("summary")?,
        packet_kinds_json: row.get("packet_kinds_json")?,
        status: row.get("status")?,
        accept_actor: row.get("accept_actor")?,
        created_at_ms: row.get("created_at_ms")?,
        updated_at_ms: row.get("updated_at_ms")?,
        revision: row.get("revision")?,
        ai_suggested: row.get("ai_suggested")?,
        rationale: row.get("rationale")?,
        source_user_id: row.get("source_user_id")?,
        produce_guidance: row.get("produce_guidance")?,
        assignee_user_id: row.get("assignee_user_id")?,
    })
}

/// The categories that a stored JSON array of their texts names.
fn gmail_categories(json: &str) -> Option<Vec<EmailTriageGmailCategory>> {
    let texts: Vec<String> = serde_json::from_str(json).ok()?;
    texts
        .iter()
        .map(|text| match text.as_str() {
            "primary" => Some(EmailTriageGmailCategory::Primary),
            "updates" => Some(EmailTriageGmailCategory::Updates),
            "social" => Some(EmailTriageGmailCategory::Social),
            "promotions" => Some(EmailTriageGmailCategory::Promotions),
            "forums" => Some(EmailTriageGmailCategory::Forums),
            _ => None,
        })
        .collect()
}

/// The addresses of a header, in lower case and without display names.
fn addresses(header: Option<&str>) -> Vec<String> {
    header
        .unwrap_or("")
        .split(',')
        .map(|part| match (part.find('<'), part.find('>')) {
            (Some(a), Some(b)) => part[a + 1..b].trim().to_lowercase(),
            _ => part.trim().to_lowercase(),
        })
        .filter(|address| !address.is_empty())
        .collect()
}

impl Queue {
    fn open() -> Queue {
        let conn = Connection::open_in_memory().expect("db");
        conn.execute_batch(
            "CREATE TABLE receipts (receipt_id TEXT PRIMARY KEY, client_id TEXT NOT NULL, entity_kind TEXT NOT NULL, entity_id TEXT NOT NULL, change_kind TEXT NOT NULL, actor_id TEXT NOT NULL, actor_kind TEXT NOT NULL, outcome TEXT NOT NULL, error_class TEXT, before_json TEXT, after_json TEXT, revision_before INTEGER, revision_after INTEGER, idempotency_key TEXT NOT NULL, correlation_id TEXT, causation_id TEXT, created_at_ms INTEGER NOT NULL);
             CREATE TABLE entity_revisions (client_id TEXT NOT NULL, entity_kind TEXT NOT NULL, entity_id TEXT NOT NULL, revision INTEGER NOT NULL, updated_at_ms INTEGER NOT NULL, PRIMARY KEY (client_id, entity_kind, entity_id));
             CREATE TABLE work_items (client_id TEXT NOT NULL, item_id TEXT NOT NULL, source_kind TEXT NOT NULL, source_ref TEXT NOT NULL, category_id TEXT NOT NULL, title TEXT NOT NULL, summary TEXT NOT NULL, packet_kinds_json TEXT NOT NULL, status TEXT NOT NULL, accept_actor TEXT, ai_suggested INTEGER NOT NULL, rationale TEXT NOT NULL, produce_guidance TEXT NOT NULL, created_at_ms INTEGER NOT NULL, updated_at_ms INTEGER NOT NULL, source_user_id TEXT, assignee_user_id TEXT, PRIMARY KEY (client_id, item_id));
             CREATE TABLE work_item_visibility (client_id TEXT NOT NULL, item_id TEXT NOT NULL, user_id TEXT NOT NULL, created_at_ms INTEGER NOT NULL, PRIMARY KEY (client_id, item_id, user_id));
             CREATE TABLE work_queue_policies (client_id TEXT NOT NULL, category_id TEXT NOT NULL, create_work_item INTEGER NOT NULL, packet_kinds_json TEXT NOT NULL, auto_produce INTEGER NOT NULL, ai_suggestible_packet_kinds_json TEXT NOT NULL, ai_suggestible_gmail_scope TEXT NOT NULL, ai_suggestible_gmail_categories_json TEXT NOT NULL, updated_at_ms INTEGER NOT NULL, PRIMARY KEY (client_id, category_id));
             CREATE TABLE operator_users (client_id TEXT NOT NULL, user_id TEXT NOT NULL, active INTEGER NOT NULL, archived_at_ms INTEGER, PRIMARY KEY (client_id, user_id));
             CREATE TABLE outbox_jobs (client_id TEXT NOT NULL, job_id TEXT NOT NULL, provider TEXT NOT NULL, capability TEXT NOT NULL, status TEXT NOT NULL, attempts INTEGER NOT NULL, last_error TEXT, updated_at_ms INTEGER NOT NULL, source_entity_kind TEXT NOT NULL, source_entity_id TEXT NOT NULL, PRIMARY KEY (client_id, job_id));
             CREATE TABLE packet_proposal_runs (client_id TEXT NOT NULL, run_id TEXT NOT NULL, item_id TEXT NOT NULL, status TEXT NOT NULL, candidate_packet_kinds_json TEXT NOT NULL, outcomes_json TEXT NOT NULL, error_code TEXT, updated_at_ms INTEGER NOT NULL, PRIMARY KEY (client_id, run_id));
             CREATE TABLE calendar_event_drafts (client_id TEXT NOT NULL, draft_id TEXT NOT NULL, item_id TEXT NOT NULL);
             CREATE TABLE crm_note_drafts (client_id TEXT NOT NULL, draft_id TEXT NOT NULL, item_id TEXT NOT NULL);
             CREATE TABLE crm_record_drafts (client_id TEXT NOT NULL, draft_id TEXT NOT NULL, item_id TEXT NOT NULL);
             CREATE TABLE email_reply_drafts (client_id TEXT NOT NULL, draft_id TEXT NOT NULL, item_id TEXT NOT NULL);
             CREATE TABLE invoice_drafts (client_id TEXT NOT NULL, draft_id TEXT NOT NULL, item_id TEXT NOT NULL);
             CREATE TABLE ledger_entry_drafts (client_id TEXT NOT NULL, draft_id TEXT NOT NULL, item_id TEXT NOT NULL);
             CREATE TABLE claim_drafts (client_id TEXT NOT NULL, draft_id TEXT NOT NULL, item_id TEXT NOT NULL);",
        )
        .expect("schema");
        Queue {
            conn,
            staged: Vec::new(),
            usage: Vec::new(),
            candidates: Vec::new(),
            attention: Vec::new(),
            hints: Vec::new(),
            outcomes: Vec::new(),
        }
    }

    fn receipt_count(&self) -> u64 {
        let count: i64 = self
            .conn
            .query_row("SELECT COUNT(*) FROM receipts", [], |row| row.get(0))
            .expect("count");
        count as u64
    }

    fn run(&mut self, plan: PlannedMutation) -> Result<MutationOutcome, StoreError> {
        let count = self.receipt_count();
        let request = plan.request();
        let tx = self.conn.transaction().expect("transaction");
        let applied = first(
            &tx,
            &find_applied_receipt(request.client_id, request.idempotency_key),
            |row| {
                Ok(AppliedReceipt {
                    receipt_id: row.get(0)?,
                    revision: revision_from_column(row.get(1)?),
                })
            },
        );
        let revision: Option<i64> = first(
            &tx,
            &current_revision(request.client_id, request.entity_kind, request.entity_id),
            |row| row.get(0),
        );
        let reads = LedgerReads {
            applied,
            current_revision: revision_from_column(revision),
            receipt_count: count,
        };
        let verdict: Verdict = mutate(&request, &reads, || {
            for statement in plan.statements() {
                execute(&tx, &statement)?;
            }
            if let DomainWrite::EnqueueJob { job } = &plan.write {
                tx.execute(
                    "INSERT INTO outbox_jobs VALUES (?1, ?2, ?3, ?4, 'queued', 0, NULL, ?5, ?6, ?7)",
                    (
                        request.client_id,
                        &job.job_id,
                        &job.provider,
                        &job.capability,
                        request.now_ms as i64,
                        &job.source_entity_kind,
                        &job.source_entity_id,
                    ),
                )
                .map_err(|err| StoreError::Sqlite(err.to_string()))?;
            }
            Ok(())
        });
        if let Some(revision) = verdict.revision_write() {
            execute(
                &tx,
                &write_revision(
                    request.client_id,
                    request.entity_kind,
                    request.entity_id,
                    revision,
                    request.now_ms,
                ),
            )?;
        }
        if verdict.rolls_back() {
            tx.rollback().expect("rollback");
        } else {
            tx.commit().expect("commit");
        }
        let row = verdict.receipt(&request, count);
        execute(&self.conn, &receipt_statement(&row))?;
        verdict.answer(row.receipt_id)
    }

    fn visibility_row(
        &self,
        item_id: &str,
        scope: &OperatorScope,
        source_user_id: Option<&str>,
    ) -> bool {
        match visibility_lookup_user(scope, source_user_id) {
            Some(user_id) => {
                let count: Option<i64> =
                    first(&self.conn, &visibility_row_query(CLIENT, item_id, user_id), |row| {
                        row.get(0)
                    });
                count.unwrap_or(0) > 0
            }
            None => false,
        }
    }

    fn visibility_users(&self, item_id: &str) -> Vec<String> {
        every(&self.conn, &item_visible_user_ids(CLIENT, item_id), |row| row.get(0))
    }

    fn upsert_policy(
        &mut self,
        policy: &WorkQueuePolicy,
        key: &str,
        now_ms: u64,
    ) -> Result<MutationOutcome, StoreError> {
        let plan = upsert_policy(CLIENT, "op_test", policy, "{}", key, now_ms)?;
        self.run(plan)
    }

    fn policy(&self, category_id: &str) -> Option<WorkQueuePolicy> {
        first(&self.conn, &policy_for_category(CLIENT, category_id), |row| {
            let categories_json: String = row.get(5)?;
            let categories = gmail_categories(&categories_json);
            Ok(policy_from_columns(
                PolicyColumns {
                    category_id: category_id.to_string(),
                    create_work_item: row.get(0)?,
                    packet_kinds_json: row.get(1)?,
                    auto_produce: row.get(2)?,
                    ai_suggestible_packet_kinds_json: row.get(3)?,
                    ai_suggestible_gmail_scope: row.get(4)?,
                    ai_suggestible_gmail_categories_json: categories_json,
                },
                categories,
            ))
        })
    }

    fn insert(&mut self, item: &WorkItem) -> Result<MutationOutcome, StoreError> {
        let plan = insert_item(CLIENT, item, "{}");
        self.run(plan)
    }

    fn item(&self, item_id: &str) -> Option<WorkItemWithRevision> {
        let row = first(&self.conn, &item_query(CLIENT, item_id), item_row);
        get_item_unscoped(row, &self.visibility_users(item_id))
    }

    fn item_scoped(&self, item_id: &str, scope: &OperatorScope) -> Option<WorkItemWithRevision> {
        let entry = self.item(item_id);
        let source = entry.as_ref().and_then(|entry| entry.item.source_user_id.clone());
        let row = self.visibility_row(item_id, scope, source.as_deref());
        get_item_scoped(entry, scope, row)
    }

    fn item_for_source(&self, source_kind: &str, source_ref: &str) -> Option<WorkItem> {
        let id: Option<String> =
            first(&self.conn, &get_item_for_source(CLIENT, source_kind, source_ref), |row| {
                row.get(0)
            });
        id.and_then(|id| self.item(&id)).map(|entry| entry.item)
    }

    fn list(
        &self,
        status: Option<WorkItemStatus>,
        limit: usize,
        scope: &OperatorScope,
    ) -> Vec<WorkItemWithRevision> {
        let rows = every(&self.conn, &list_items_query(CLIENT, status, limit, scope), item_row);
        let ids: Vec<String> = rows.iter().map(|row| row.item_id.clone()).collect();
        let visibility: Vec<(String, String)> = match visibility_by_item_ids_query(CLIENT, &ids) {
            Some(query) => every(&self.conn, &query, |row| Ok((row.get(0)?, row.get(1)?))),
            None => Vec::new(),
        };
        list_items(rows, &visibility)
    }

    fn all(&self) -> Vec<WorkItemWithRevision> {
        self.list(None, 10, &OperatorScope::All)
    }

    fn act(
        &mut self,
        ctx: ItemActionContext<'_>,
        item_id: &str,
        action: ItemAction,
    ) -> Result<MutationOutcome, StoreError> {
        let current = self.status_row(item_id);
        let source = current.as_ref().and_then(|row| row.source_user_id.clone());
        let row = self.visibility_row(item_id, ctx.scope, source.as_deref());
        let plan = apply_item_action(&ctx, item_id, action, &current, row)?;
        self.run(plan)
    }

    fn status_row(&self, item_id: &str) -> Option<ItemStatusRow> {
        first(&self.conn, &item_status_query(CLIENT, item_id), |row| {
            Ok(ItemStatusRow {
                status: row.get(0)?,
                source_user_id: row.get(1)?,
                accept_actor: row.get(2)?,
            })
        })
    }

    fn spent_keys(&self, item_id: &str) -> Vec<String> {
        every(&self.conn, &spent_suggestion_keys_query(CLIENT, item_id), |row| row.get(0))
    }

    fn set_kinds(
        &mut self,
        ctx: ItemActionContext<'_>,
        item_id: &str,
        kinds: &[String],
    ) -> Result<MutationOutcome, StoreError> {
        let current = first(&self.conn, &item_kinds_query(CLIENT, item_id), |row| {
            Ok(ItemKindsRow {
                status: row.get(0)?,
                packet_kinds_json: row.get(1)?,
                source_user_id: row.get(2)?,
            })
        });
        let source = current.as_ref().and_then(|row| row.source_user_id.clone());
        let row = self.visibility_row(item_id, ctx.scope, source.as_deref());
        let plan = update_packet_kinds(&ctx, item_id, &kinds.to_vec(), &current, row)?;
        self.run(plan)
    }

    fn set_guidance(
        &mut self,
        ctx: ItemActionContext<'_>,
        item_id: &str,
        guidance: &str,
    ) -> Result<MutationOutcome, StoreError> {
        let current = first(&self.conn, &item_guidance_query(CLIENT, item_id), |row| {
            Ok(ItemGuidanceRow {
                status: row.get(0)?,
                produce_guidance: row.get(1)?,
                source_user_id: row.get(2)?,
            })
        });
        let source = current.as_ref().and_then(|row| row.source_user_id.clone());
        let row = self.visibility_row(item_id, ctx.scope, source.as_deref());
        let plan = update_produce_guidance(&ctx, item_id, guidance, &current, row)?;
        self.run(plan)
    }

    fn assign(
        &mut self,
        ctx: ItemActionContext<'_>,
        item_id: &str,
        action: WorkItemAssignActionKind,
        target: Option<&str>,
    ) -> Result<MutationOutcome, StoreError> {
        let current = first(&self.conn, &item_assignment_query(CLIENT, item_id), |row| {
            Ok(ItemAssignmentRow { source_user_id: row.get(0)?, assignee_user_id: row.get(1)? })
        });
        let source = current.as_ref().and_then(|row| row.source_user_id.clone());
        let row = self.visibility_row(item_id, ctx.scope, source.as_deref());
        let active = match assignment_target(&ctx, action, target, &current, row)? {
            Some(user_id) => {
                let found: Option<i64> = first(
                    &self.conn,
                    &active_operator_user_query(CLIENT, &user_id),
                    |row| row.get(0),
                );
                found.is_some()
            }
            None => false,
        };
        let visible = self
            .item(item_id)
            .map(|entry| entry.item.visible_to_user_ids)
            .unwrap_or_default();
        let plan = update_assignment(
            &ctx, item_id, action, target, &current, row, &visible, active,
        )?;
        self.run(plan)
    }

    fn add_user(&mut self, user_id: &str, active: bool) {
        self.conn
            .execute(
                "INSERT INTO operator_users VALUES (?1, ?2, ?3, NULL)",
                (CLIENT, user_id, active),
            )
            .expect("operator user");
    }

    fn signal_for(&self, source: &str) -> Option<AttentionSignal> {
        self.attention.iter().find(|(key, _)| key == source).map(|(_, signal)| signal.clone())
    }

    fn emission_reads(&self, message: &InboundMessageRecord) -> EmissionReads {
        let existing = self.item_for_source("email", &message.source_key).or_else(|| {
            let id: Option<String> = message_id_lookup(message).and_then(|message_id| {
                first(
                    &self.conn,
                    &get_item_for_source_user(
                        CLIENT,
                        "email",
                        message_id,
                        &message.source_user_id,
                    ),
                    |row| row.get(0),
                )
            });
            id.and_then(|id| self.item(&id)).map(|entry| entry.item)
        });
        let hint = self.hints.iter().find(|(key, _, _)| *key == message.source_key);
        EmissionReads {
            existing,
            policy: self.policy(&message.resolved_category),
            title_hint: hint.map(|(_, title, _)| title.clone()),
            summary_hint: hint.map(|(_, _, summary)| summary.clone()),
            attention: self.signal_for(&message.source_key),
        }
    }

    fn perform(&mut self, emission: Emission, now_ms: u64) -> bool {
        match emission {
            Emission::Nothing => false,
            Emission::SyncVisibility { item_id, user_ids, actor_id, idempotency_key } => {
                let stored = self.visibility_users(&item_id);
                let plan = ensure_visibility_user_ids(
                    CLIENT,
                    &item_id,
                    &user_ids,
                    &stored,
                    &actor_id,
                    &idempotency_key,
                    now_ms,
                );
                if let Some(plan) = plan {
                    self.run(plan).expect("visibility");
                }
                false
            }
            Emission::Emit(item) => {
                self.insert(&item).expect("insert");
                true
            }
        }
    }

    fn emit(&mut self, message: &InboundMessageRecord, now_ms: u64) -> bool {
        let reads = self.emission_reads(message);
        let emission =
            emit_for_inbound_message(message, &addresses(message.to_addr.as_deref()), reads, now_ms);
        self.perform(emission, now_ms)
    }

    fn emit_with_overlay(
        &mut self,
        message: &InboundMessageRecord,
        overlay: &WorkQueueOverlay,
        now_ms: u64,
    ) -> bool {
        let reads = self.emission_reads(message);
        let emission = emit_for_inbound_message_with_overlay(
            message,
            overlay,
            &addresses(message.to_addr.as_deref()),
            reads,
            now_ms,
        );
        self.perform(emission, now_ms)
    }

    fn signals(&self, items: &Vec<WorkItemWithRevision>, now_ms: u64) -> FeedSignals {
        let ids = accepted_item_ids(items);
        let mut staged: Vec<(String, Vec<String>)> = Vec::new();
        for (item_id, kind) in &self.staged {
            match staged.iter_mut().find(|(id, _)| id == item_id) {
                Some((_, kinds)) => kinds.push(kind.clone()),
                None => staged.push((item_id.clone(), vec![kind.clone()])),
            }
        }
        let mut usage: Vec<UsageRow> = self
            .usage
            .iter()
            .filter(|row| row.recorded_at_ms >= produce_failures_since(now_ms))
            .filter(|row| ids.contains(&row.correlation_id))
            .cloned()
            .collect();
        usage.sort_by_key(|row| std::cmp::Reverse(row.recorded_at_ms));
        let kinds = DraftEntityKinds {
            calendar_event: "calendar_event_draft".to_string(),
            crm_note: "crm_note_draft".to_string(),
            crm_record: "crm_record_draft".to_string(),
            email_reply: "email_reply_draft".to_string(),
            invoice: "invoice_draft".to_string(),
            ledger_entry: "ledger_entry_draft".to_string(),
            claim: "claim_draft".to_string(),
        };
        let outbox_failures = match outbox_failures_query(CLIENT, &ids, &kinds) {
            Some(query) => every(&self.conn, &query, |row| {
                let updated_at_ms: i64 = row.get(8)?;
                Ok(OutboxFailureRow {
                    item_id: row.get(0)?,
                    packet_kind: row.get(1)?,
                    job_id: row.get(2)?,
                    status: row.get(5)?,
                    updated_at_ms: updated_at_ms as u64,
                })
            }),
            None => Vec::new(),
        };
        let columns = match proposal_runs_query(CLIENT, &ids) {
            Some(query) => every(&self.conn, &query, |row| {
                let updated_at_ms: i64 = row.get(6)?;
                Ok(ProposalColumns {
                    run_id: row.get(0)?,
                    item_id: row.get(1)?,
                    status: row.get(2)?,
                    candidate_packet_kinds_json: row.get(3)?,
                    error_code: row.get(5)?,
                    updated_at_ms: updated_at_ms as u64,
                    start_actor_id: row.get(7)?,
                })
            }),
            None => Vec::new(),
        };
        let proposals = columns
            .into_iter()
            .map(|columns| {
                let outcomes = self
                    .outcomes
                    .iter()
                    .find(|(run_id, _)| *run_id == columns.run_id)
                    .map(|(_, outcomes)| outcomes.clone())
                    .unwrap_or_default();
                proposal_from_columns(columns, outcomes)
            })
            .collect();
        FeedSignals {
            staged,
            usage,
            outbox_failures,
            proposals,
            auto_produce_candidates: self.candidates.clone(),
            attention: self.attention.clone(),
        }
    }

    fn feed(
        &self,
        now_ms: u64,
        auto_produce_running: bool,
        debug_enabled: bool,
        in_flight: &[(&str, &str)],
    ) -> Vec<WorkItemWithRevision> {
        let items = self.all();
        let signals = self.signals(&items, now_ms);
        feed(
            &items,
            &OperatorScope::All,
            &signals,
            &FeedOptions {
                auto_produce_running,
                debug_enabled,
                in_flight: &pairs(in_flight),
                accounting_provider: None,
            },
        )
    }

    fn feed_for(&self, scope: &OperatorScope) -> Vec<WorkItemWithRevision> {
        let items = self.list(None, 10, scope);
        let signals = self.signals(&items, 10_000);
        feed(&items, scope, &signals, &quiet(&Vec::new()))
    }

    fn route(&self, query: QueueQuery) -> Vec<String> {
        let request = queue_request(&query).expect("valid query");
        let scope = OperatorScope::All;
        let items = self.list(request.status, listing_limit(request.view), &scope);
        let signals = self.signals(&items, 10_000);
        queue_list(request.view, &items, &scope, &signals, &quiet(&Vec::new()))
            .into_iter()
            .map(|entry| entry.item.item_id)
            .collect()
    }

    fn add_run(
        &mut self,
        run_id: &str,
        item_id: &str,
        status: &str,
        candidates: &[&str],
        outcomes: Vec<PacketProposalKindOutcome>,
        actor_id: &str,
        now_ms: i64,
    ) {
        let json = serde_json::to_string(candidates).expect("candidates");
        self.conn
            .execute(
                "INSERT INTO packet_proposal_runs VALUES (?1, ?2, ?3, ?4, ?5, '[]', NULL, ?6)",
                (CLIENT, run_id, item_id, status, &json, now_ms),
            )
            .expect("run");
        let receipt_id = format!("start_{run_id}");
        self.conn
            .execute(
                "INSERT INTO receipts (receipt_id, client_id, entity_kind, entity_id, change_kind, actor_id, actor_kind, outcome, idempotency_key, created_at_ms) VALUES (?1, ?2, 'packet_proposal_run', ?3, 'start', ?4, 'operator', 'applied', ?1, ?5)",
                (&receipt_id, CLIENT, run_id, actor_id, now_ms),
            )
            .expect("start receipt");
        self.outcomes.push((run_id.to_string(), outcomes));
    }
}

fn pairs(list: &[(&str, &str)]) -> Vec<(String, String)> {
    list.iter().map(|(a, b)| (a.to_string(), b.to_string())).collect()
}

fn quiet(in_flight: &Vec<(String, String)>) -> FeedOptions<'_> {
    FeedOptions {
        auto_produce_running: false,
        debug_enabled: false,
        in_flight,
        accounting_provider: None,
    }
}

fn strings(list: &[&str]) -> Vec<String> {
    list.iter().map(|text| text.to_string()).collect()
}

fn message(id: &str, category: &str) -> InboundMessageRecord {
    InboundMessageRecord {
        source_key: id.to_string(),
        message_id: id.to_string(),
        thread_id: None,
        internal_date_ms: Some(1_000),
        from_addr: Some("customer@example.com".to_string()),
        to_addr: None,
        subject: Some("Bill is ready".to_string()),
        body_excerpt: "Your bill is now available for viewing.".to_string(),
        body_full: String::new(),
        headers: Vec::new(),
        labels: Vec::new(),
        resolved_category: category.to_string(),
        matched_rule_id: None,
        ingested_at_ms: 1_000,
        ai_triage_status: None,
        ai_triage_rationale: None,
        attachments: Vec::new(),
        source_user_id: None,
    }
}

fn policy(
    category: &str,
    create: bool,
    kinds: &[&str],
    ai_kinds: &[&str],
    scope: WorkQueueAiGmailScope,
    categories: &[EmailTriageGmailCategory],
    auto_produce: bool,
) -> WorkQueuePolicy {
    WorkQueuePolicy {
        category_id: category.to_string(),
        create_work_item: create,
        packet_kinds: strings(kinds),
        ai_suggestible_packet_kinds: strings(ai_kinds),
        ai_suggestible_gmail_scope: scope,
        ai_suggestible_gmail_categories: categories.to_vec(),
        auto_produce,
    }
}

fn kinds_policy(kinds: &[&str], auto_produce: bool) -> WorkQueuePolicy {
    policy("billing", true, kinds, &[], WorkQueueAiGmailScope::Default, &[], auto_produce)
}

fn billing_policy(create: bool) -> WorkQueuePolicy {
    policy(
        "billing",
        create,
        &["ledger_entry"],
        &[],
        WorkQueueAiGmailScope::Default,
        &[],
        false,
    )
}

fn shared_visible_work_item(
    id: &str,
    source_user_id: Option<&str>,
    visible_to_user_ids: &[&str],
) -> WorkItem {
    WorkItem {
        item_id: id.to_string(),
        source_kind: "email".to_string(),
        source_ref: id.trim_start_matches("wi_email_").to_string(),
        category_id: "billing".to_string(),
        title: format!("Item {id}"),
        summary: "Test item".to_string(),
        packet_kinds: strings(&["crm_activity"]),
        status: WorkItemStatus::Open,
        accept_actor: None,
        ai_suggested: false,
        rationale: String::new(),
        produce_guidance: String::new(),
        source_user_id: source_user_id.map(str::to_string),
        assignee_user_id: None,
        visible_to_user_ids: strings(visible_to_user_ids),
        created_at_ms: 1_000,
        updated_at_ms: 1_000,
    }
}

fn insert_work_item(queue: &mut Queue, id: &str, source_user_id: Option<&str>) {
    let visible: Vec<&str> = source_user_id.into_iter().collect();
    let item = shared_visible_work_item(id, source_user_id, &visible);
    queue.insert(&item).expect("insert item");
}

fn action_ctx<'a>(key: &'a str, expected_revision: Option<u64>) -> ItemActionContext<'a> {
    action_ctx_for_scope(key, expected_revision, &OperatorScope::All)
}

fn action_ctx_for_scope<'a>(
    key: &'a str,
    expected_revision: Option<u64>,
    scope: &'a OperatorScope,
) -> ItemActionContext<'a> {
    ItemActionContext {
        client_id: CLIENT,
        actor_id: "op_test",
        scope,
        expected_revision,
        idempotency_key: key,
        now_ms: 5_000,
    }
}

fn user(user_id: &str) -> OperatorScope {
    OperatorScope::User(user_id.to_string())
}

fn assert_domain(result: Result<MutationOutcome, StoreError>, expected: &str) {
    match result {
        Err(StoreError::Domain(code)) => assert_eq!(code, expected),
        other => panic!("expected {expected}, got {other:?}"),
    }
}

fn assert_scope_forbidden(result: Result<MutationOutcome, StoreError>) {
    assert_domain(result, "scope_forbidden");
}

fn entry<'a>(feed: &'a [WorkItemWithRevision], item_id: &str) -> &'a WorkItemWithRevision {
    feed.iter().find(|entry| entry.item.item_id == item_id).expect("item in feed")
}

fn usage(id: &str, item: &str, kind: &str, success: bool, code: Option<&str>, at: u64) -> UsageRow {
    UsageRow {
        usage_id: id.to_string(),
        correlation_id: item.to_string(),
        packet_kind: Some(kind.to_string()),
        success,
        error_code: code.map(str::to_string),
        recorded_at_ms: at,
    }
}

fn outcome(
    kind: &str,
    status: PacketProposalKindOutcomeStatus,
    reason: PacketProposalReasonCode,
    message: Option<&str>,
) -> PacketProposalKindOutcome {
    PacketProposalKindOutcome {
        packet_kind: kind.to_string(),
        status,
        reason_code: Some(reason),
        message: message.map(str::to_string),
        draft_id: None,
    }
}

#[test]
fn no_policy_or_disabled_policy_emits_nothing() {
    let mut queue = Queue::open();
    assert!(!queue.emit(&message("m1", "billing"), 2_000));
    let mut disabled_policy = billing_policy(false);
    disabled_policy.packet_kinds.clear();
    queue.upsert_policy(&disabled_policy, "p1", 2_100).expect("policy");
    assert!(!queue.emit(&message("m1", "billing"), 2_200));
    assert!(queue.all().is_empty());
}

#[test]
fn enabled_policy_emits_once_with_suggested_packets() {
    let mut queue = Queue::open();
    queue.upsert_policy(&billing_policy(true), "p1", 1_500).expect("policy");

    assert!(queue.emit(&message("m1", "billing"), 2_000));
    // Re-emit (the pump re-runs over existing candidates every poll) is quiet.
    assert!(!queue.emit(&message("m1", "billing"), 3_000));

    let items = queue.all();
    assert_eq!(items.len(), 1);
    let item = &items[0].item;
    assert_eq!(item.item_id, "wi_email_m1");
    assert_eq!(item.category_id, "billing");
    assert_eq!(item.status, WorkItemStatus::Open);
    assert_eq!(item.packet_kinds, vec!["ledger_entry".to_string()]);
    assert!(item.title.contains("Bill is ready"));
    assert!(item.summary.contains("customer@example.com"));

    // Exactly one emit receipt despite the second call.
    let receipts: i64 = queue
        .conn
        .query_row(
            "SELECT COUNT(*) FROM receipts WHERE client_id = ?1 AND entity_kind = ?2 AND entity_id = ?3",
            (CLIENT, ITEM_ENTITY_KIND, "wi_email_m1"),
            |row| row.get(0),
        )
        .expect("receipts");
    assert_eq!(receipts, 1);
}

#[test]
fn list_items_filters_by_operator_scope() {
    let mut queue = Queue::open();
    insert_work_item(&mut queue, "wi_email_null", None);
    insert_work_item(&mut queue, "wi_email_u1", Some("u1"));
    insert_work_item(&mut queue, "wi_email_u2", Some("u2"));

    let all = queue.all();
    let all_ids: std::collections::HashSet<_> =
        all.iter().map(|entry| entry.item.item_id.as_str()).collect();
    assert_eq!(all_ids.len(), 3);
    assert!(all_ids.contains("wi_email_null"));
    assert!(all_ids.contains("wi_email_u1"));
    assert!(all_ids.contains("wi_email_u2"));

    let u1 = queue.list(None, 10, &user("u1"));
    assert_eq!(u1.len(), 1);
    assert_eq!(u1[0].item.item_id, "wi_email_u1");
}

#[test]
fn get_item_scoped_hides_other_users_and_legacy_null() {
    let mut queue = Queue::open();
    insert_work_item(&mut queue, "wi_email_null", None);
    insert_work_item(&mut queue, "wi_email_u1", Some("u1"));
    insert_work_item(&mut queue, "wi_email_u2", Some("u2"));
    let scope = user("u1");

    assert!(queue.item_scoped("wi_email_u1", &scope).is_some());
    assert!(queue.item_scoped("wi_email_u2", &scope).is_none());
    assert!(queue.item_scoped("wi_email_null", &scope).is_none());
}

#[test]
fn shared_inbox_overlay_emits_one_item_visible_to_configured_users() {
    let mut queue = Queue::open();
    queue.upsert_policy(&billing_policy(true), "p1", 1_500).expect("policy");
    let overlay = WorkQueueOverlay {
        shared_inboxes: vec![SharedInboxOverlay {
            match_to: strings(&["ask@example.test"]),
            visible_to_user_ids: strings(&["user_jordan", "user_casey"]),
        }],
    };
    let mut inbound = message("m_shared", "billing");
    inbound.source_user_id = Some("source_mailbox".to_string());
    inbound.to_addr =
        Some("Casey <casey@example.test>, example Info <ASK@example.test>".to_string());

    assert!(queue.emit_with_overlay(&inbound, &overlay, 2_000));
    assert!(!queue.emit_with_overlay(&inbound, &overlay, 3_000));

    let jordan = queue.list(None, 10, &user("user_jordan"));
    assert_eq!(jordan.len(), 1);
    assert_eq!(jordan[0].item.item_id, "wi_email_m_shared");
    assert_eq!(
        jordan[0].item.visible_to_user_ids,
        vec!["user_casey".to_string(), "user_jordan".to_string()]
    );
    assert_eq!(queue.list(None, 10, &user("user_casey")).len(), 1);
    // The source owner still sees the item through its source.
    assert_eq!(queue.list(None, 10, &user("source_mailbox")).len(), 1);
    assert!(queue.list(None, 10, &user("user_third")).is_empty());
}

#[test]
fn visibility_rows_grant_scoped_queue_mutations_without_changing_source_owner() {
    let mut queue = Queue::open();
    let item = shared_visible_work_item("wi_email_shared", Some("source_mailbox"), &["u1", "u2"]);
    queue.insert(&item).expect("insert");
    let u1_scope = user("u1");
    let third_scope = user("third");

    queue
        .act(
            action_ctx_for_scope("visible-action", None, &u1_scope),
            "wi_email_shared",
            ItemAction::Accept,
        )
        .expect("visible action");
    queue
        .set_kinds(
            action_ctx_for_scope("visible-kinds", None, &u1_scope),
            "wi_email_shared",
            &strings(&["calendar_event_draft"]),
        )
        .expect("visible kinds");
    queue
        .set_guidance(
            action_ctx_for_scope("visible-guidance", None, &u1_scope),
            "wi_email_shared",
            "Handle before Friday.",
        )
        .expect("visible guidance");

    let stored = queue.item("wi_email_shared").expect("item");
    assert_eq!(stored.item.source_user_id.as_deref(), Some("source_mailbox"));

    assert_scope_forbidden(queue.act(
        action_ctx_for_scope("hidden-action", None, &third_scope),
        "wi_email_shared",
        ItemAction::Dismiss,
    ));
}

#[test]
fn assignment_allows_visible_reassignment_and_rejects_hidden_or_disabled_targets() {
    let mut queue = Queue::open();
    queue.add_user("u1", true);
    queue.add_user("u2", true);
    queue.add_user("disabled", false);
    let item = shared_visible_work_item("wi_email_shared", Some("source_mailbox"), &["u1", "u2"]);
    queue.insert(&item).expect("insert");
    let u1_scope = user("u1");
    let u2_scope = user("u2");
    let third_scope = user("third");
    let id = "wi_email_shared";

    queue
        .assign(
            action_ctx_for_scope("assign-u1", None, &u1_scope),
            id,
            WorkItemAssignActionKind::AssignToMe,
            None,
        )
        .expect("assign u1");
    let assigned = queue.item_scoped(id, &u2_scope).expect("visible");
    assert_eq!(assigned.item.assignee_user_id.as_deref(), Some("u1"));

    queue
        .assign(
            action_ctx_for_scope("assign-u2", None, &u2_scope),
            id,
            WorkItemAssignActionKind::AssignToMe,
            None,
        )
        .expect("reassign u2");
    let reassigned = queue.item(id).expect("item");
    assert_eq!(reassigned.item.assignee_user_id.as_deref(), Some("u2"));

    assert_scope_forbidden(queue.assign(
        action_ctx_for_scope("hidden-assign", None, &third_scope),
        id,
        WorkItemAssignActionKind::AssignToMe,
        None,
    ));
    assert_domain(
        queue.assign(
            action_ctx_for_scope("bad-target", None, &u1_scope),
            id,
            WorkItemAssignActionKind::AssignToUser,
            Some("disabled"),
        ),
        "work_queue_assignee_not_active",
    );
    assert_domain(
        queue.assign(
            action_ctx_for_scope("unassign-not-owner", None, &u1_scope),
            id,
            WorkItemAssignActionKind::Unassign,
            None,
        ),
        "work_queue_unassign_forbidden",
    );
    queue
        .assign(
            action_ctx_for_scope("unassign-u2", None, &u2_scope),
            id,
            WorkItemAssignActionKind::Unassign,
            None,
        )
        .expect("assignee unassigns");
    assert_eq!(queue.item(id).expect("item").item.assignee_user_id, None);
}

#[test]
fn all_scope_operator_can_assign_only_visible_active_users_but_not_self() {
    let mut queue = Queue::open();
    queue.add_user("manager", true);
    queue.add_user("u1", true);
    let item = shared_visible_work_item("wi_email_shared", Some("source_mailbox"), &["u1"]);
    queue.insert(&item).expect("insert");
    let id = "wi_email_shared";

    assert_domain(
        queue.assign(
            action_ctx("assign-operator", None),
            id,
            WorkItemAssignActionKind::AssignToMe,
            None,
        ),
        "work_queue_assignment_named_user_required",
    );
    assert_domain(
        queue.assign(
            action_ctx("assign-manager", None),
            id,
            WorkItemAssignActionKind::AssignToUser,
            Some("manager"),
        ),
        "work_queue_assignee_not_visible",
    );
    queue
        .assign(
            action_ctx("assign-u1", None),
            id,
            WorkItemAssignActionKind::AssignToUser,
            Some("u1"),
        )
        .expect("all-scope assign visible user");
    let assigned = queue.item(id).expect("item");
    assert_eq!(assigned.item.assignee_user_id.as_deref(), Some("u1"));
    assert_domain(
        queue.assign(
            action_ctx("assign-blank", None),
            id,
            WorkItemAssignActionKind::AssignToUser,
            Some("  "),
        ),
        "work_queue_assignee_required",
    );
}

#[test]
fn item_mutations_reject_cross_scope_items() {
    let mut queue = Queue::open();
    insert_work_item(&mut queue, "wi_email_null", None);
    insert_work_item(&mut queue, "wi_email_u1", Some("u1"));
    insert_work_item(&mut queue, "wi_email_u2", Some("u2"));
    let u1_scope = user("u1");

    queue
        .act(
            action_ctx_for_scope("own-action", None, &u1_scope),
            "wi_email_u1",
            ItemAction::Accept,
        )
        .expect("own action");
    queue
        .set_kinds(
            action_ctx_for_scope("own-kinds", None, &u1_scope),
            "wi_email_u1",
            &strings(&["calendar_event_draft"]),
        )
        .expect("own kind edit");
    queue
        .set_guidance(
            action_ctx_for_scope("own-guidance", None, &u1_scope),
            "wi_email_u1",
            "Prefer weekdays.",
        )
        .expect("own guidance edit");

    for item_id in ["wi_email_u2", "wi_email_null"] {
        assert_scope_forbidden(queue.act(
            action_ctx_for_scope("hidden-action", None, &u1_scope),
            item_id,
            ItemAction::Accept,
        ));
        assert_scope_forbidden(queue.set_kinds(
            action_ctx_for_scope("hidden-kinds", None, &u1_scope),
            item_id,
            &strings(&["crm_activity"]),
        ));
        assert_scope_forbidden(queue.set_guidance(
            action_ctx_for_scope("hidden-guidance", None, &u1_scope),
            item_id,
            "Hidden edit.",
        ));
    }
}

#[test]
fn enabled_policy_with_no_packet_kinds_emits_nothing() {
    let mut queue = Queue::open();
    queue
        .upsert_policy(
            &policy(
                "billing",
                true,
                &[],
                &["follow_up_task"],
                WorkQueueAiGmailScope::Default,
                &[],
                true,
            ),
            "p1",
            1_500,
        )
        .expect("policy");
    assert!(!queue.emit(&message("m1", "billing"), 2_000));
    assert!(queue.all().is_empty());
}

#[test]
fn item_lifecycle_accept_dismiss_reopen_with_revisions() {
    let mut queue = Queue::open();
    queue.upsert_policy(&billing_policy(true), "p1", 1_500).expect("policy");
    queue.emit(&message("m1", "billing"), 2_000);

    let outcome = queue
        .act(action_ctx("a1", Some(1)), "wi_email_m1", ItemAction::Accept)
        .expect("accept");
    assert!(matches!(outcome, MutationOutcome::Applied { revision: 2, .. }));

    // Stale revision conflicts.
    let conflict = queue
        .act(action_ctx("a2", Some(1)), "wi_email_m1", ItemAction::Dismiss)
        .expect("conflict path");
    assert!(matches!(conflict, MutationOutcome::RevisionConflict { .. }));

    queue
        .act(action_ctx("a3", Some(2)), "wi_email_m1", ItemAction::Reopen)
        .expect("reopen");

    let open = queue.list(Some(WorkItemStatus::Open), 10, &OperatorScope::All);
    assert_eq!(open.len(), 1);
    assert_eq!(open[0].revision, 3);

    let err = queue
        .act(action_ctx("a4", None), "missing", ItemAction::Accept)
        .expect_err("missing item");
    assert!(err.message().contains("work_item_not_found"));
}

#[test]
fn agent_launch_request_is_receipted_and_idempotent() {
    let mut queue = Queue::open();
    let job = build_outbox_job(
        "wi_email_m1",
        "launch-1",
        "http://monitor.local",
        "BusinessOS work item wi_email_m1",
        "prompt",
        "/home/example/projects/BusinessOS",
    )
    .expect("job");
    let payload: serde_json::Value = serde_json::from_str(&job.payload_json).expect("payload");
    assert_eq!(
        payload.pointer("/work_dir").and_then(serde_json::Value::as_str),
        Some("/home/example/projects/BusinessOS")
    );

    let request = |now_ms| {
        record_agent_launch_request(AgentLaunchRequestContext {
            client_id: CLIENT,
            item_id: "wi_email_m1",
            actor_id: "op_test",
            operator_context: "check the customer history",
            job: &job,
            idempotency_key: "launch-1",
            now_ms,
        })
    };
    let first = queue.run(request(5_000)).expect("first launch receipt");
    assert!(matches!(first, MutationOutcome::Applied { revision: 1, .. }));

    let replay = queue.run(request(5_100)).expect("replay launch receipt");
    assert!(matches!(
        replay,
        MutationOutcome::ReplayedIdempotent { revision: Some(1), .. }
    ));
    let job_count: i64 = queue
        .conn
        .query_row("SELECT COUNT(*) FROM outbox_jobs", [], |row| row.get(0))
        .expect("outbox count");
    assert_eq!(job_count, 1);
    assert_eq!(
        request(1).after_json.as_deref(),
        Some(
            format!(
                "{{\"context_chars\":26,\"item_id\":\"wi_email_m1\",\"outbox_job_id\":\"{}\"}}",
                job.job_id
            )
            .as_str()
        )
    );
}

#[test]
fn policy_rejects_packet_kinds_not_in_catalog() {
    let mut queue = Queue::open();
    let err = queue
        .upsert_policy(&kinds_policy(&["made_up_kind"], false), "p1", 1_000)
        .expect_err("unknown kind");
    assert!(err.message().contains("work_queue_packet_kind_unknown"));

    // Catalog kinds pass.
    queue
        .upsert_policy(&kinds_policy(&["follow_up_task", "email_draft_reply"], false), "p2", 2_000)
        .expect("catalog kinds");
    assert_eq!(bos_work_queue::work_queue::packet_kind_catalog(None).len(), 10);
}

fn stage_route_items(queue: &mut Queue) {
    queue.upsert_policy(&billing_policy(true), "p1", 1_500).expect("policy");
    queue.emit(&message("open", "billing"), 2_000);
    queue.emit(&message("staged", "billing"), 2_050);
    queue.emit(&message("quiet", "billing"), 2_100);
    queue
        .act(action_ctx("accept_staged_route", Some(1)), "wi_email_staged", ItemAction::Accept)
        .expect("accept staged");
    queue
        .act(action_ctx("accept_quiet_route", Some(1)), "wi_email_quiet", ItemAction::Accept)
        .expect("accept quiet");
    queue.staged = pairs(&[("wi_email_staged", "follow_up_task")]);
}

fn query(status: Option<&str>, attention: Option<bool>, level: Option<&str>) -> QueueQuery {
    QueueQuery {
        status: status.map(str::to_string),
        needs_attention: attention,
        attention_level: level.map(str::to_string),
    }
}

#[test]
fn queue_route_supports_attention_filter() {
    let mut queue = Queue::open();
    stage_route_items(&mut queue);

    let all = queue.route(query(None, None, None));
    assert_eq!(all.len(), 3);
    assert_eq!(queue.route(query(None, Some(false), None)), all);
    assert_eq!(
        queue.route(query(None, Some(true), None)),
        vec!["wi_email_staged".to_string(), "wi_email_open".to_string()]
    );
    assert_eq!(
        queue.route(query(Some("accepted"), Some(true), None)),
        vec!["wi_email_staged".to_string()]
    );
}

#[test]
fn queue_attention_filter_applies_before_route_limit() {
    let mut queue = Queue::open();
    queue.upsert_policy(&billing_policy(true), "p1_attention_limit", 1_500).expect("policy");
    queue.emit(&message("old_attention", "billing"), 1_000);
    for idx in 0..201u64 {
        let source = format!("quiet_{idx:03}");
        queue.emit(&message(&source, "billing"), 2_000 + idx);
        queue
            .act(
                action_ctx(&format!("accept_quiet_{idx:03}"), Some(1)),
                &format!("wi_email_{source}"),
                ItemAction::Accept,
            )
            .expect("accept quiet");
    }
    assert_eq!(
        queue.route(query(None, Some(true), None)),
        vec!["wi_email_old_attention".to_string()]
    );
    assert_eq!(queue.route(query(None, None, None)).len(), 200);
}

fn signal(level: AttentionLevel, reason: &str, label: &str, detail: Option<&str>) -> AttentionSignal {
    AttentionSignal {
        level,
        reason_code: reason.to_string(),
        label: Some(label.to_string()),
        detail: detail.map(str::to_string),
        provenance: "test".to_string(),
    }
}

#[test]
fn queue_source_attention_filter_applies_before_route_limit() {
    let mut queue = Queue::open();
    queue
        .upsert_policy(&billing_policy(true), "p1_source_attention_limit", 1_500)
        .expect("policy");
    queue.emit(&message("old_source_attention", "billing"), 1_000);
    queue.attention.push((
        "old_source_attention".to_string(),
        signal(AttentionLevel::Higher, "callback_needed", "Needs callback", None),
    ));
    for idx in 0..201u64 {
        let source = format!("quiet_source_{idx:03}");
        queue.emit(&message(&source, "billing"), 2_000 + idx);
    }
    assert_eq!(
        queue.route(query(None, None, Some("higher"))),
        vec!["wi_email_old_source_attention".to_string()]
    );
    assert!(queue.route(query(None, None, Some("lower"))).is_empty());
}

#[test]
fn queue_queries_are_validated() {
    let refused = |query: QueueQuery| match queue_request(&query) {
        Err(ErrorAnswer::Refused { status, code }) => (status, code),
        other => panic!("expected a refusal, got {other:?}"),
    };
    assert_eq!(
        refused(query(Some("closed"), None, Some("nope"))),
        (400, "work_queue_status_invalid".to_string())
    );
    assert_eq!(
        refused(query(Some("open"), None, Some("nope"))),
        (400, "attention_level_invalid".to_string())
    );
    match require_idempotency_key(" \t") {
        Err(ErrorAnswer::Refused { status, code }) => {
            assert_eq!((status, code.as_str()), (400, "idempotency_key_required"));
        }
        other => panic!("expected a refusal, got {other:?}"),
    }
    assert!(require_idempotency_key("k").is_ok());
}

#[test]
fn policy_persists_ai_suggestible_packet_kinds_separately() {
    let mut queue = Queue::open();
    let with = |kinds: &[&str], ai: &[&str]| {
        policy("billing", true, kinds, ai, WorkQueueAiGmailScope::Default, &[], false)
    };
    queue
        .upsert_policy(
            &with(&["crm_activity"], &["follow_up_task", "email_draft_reply"]),
            "p1",
            1_000,
        )
        .expect("policy");

    let stored = queue.policy("billing").expect("policy");
    assert_eq!(stored.packet_kinds, vec!["crm_activity".to_string()]);
    assert_eq!(
        stored.ai_suggestible_packet_kinds,
        vec!["follow_up_task".to_string(), "email_draft_reply".to_string()]
    );
    assert!(stored.ai_suggestible_gmail_categories.is_empty());

    let err = queue
        .upsert_policy(&with(&[], &["made_up_kind"]), "p2", 2_000)
        .expect_err("unknown optional kind");
    assert!(err.message().contains("work_queue_packet_kind_unknown"));

    queue
        .upsert_policy(&with(&[], &[AI_SUGGEST_ALL_SENTINEL]), "p3", 3_000)
        .expect("sentinel-only policy");

    let err = queue
        .upsert_policy(&with(&[], &[AI_SUGGEST_ALL_SENTINEL, "follow_up_task"]), "p4", 4_000)
        .expect_err("sentinel must not be mixed with explicit ids");
    assert!(err.message().contains("work_queue_ai_suggest_all_exclusive"));
}

#[test]
fn policy_persists_fallback_ai_gmail_scope_and_rejects_other_categories() {
    let mut queue = Queue::open();
    let primary = EmailTriageGmailCategory::Primary;
    let updates = EmailTriageGmailCategory::Updates;
    let social = EmailTriageGmailCategory::Social;
    let fallback = |scope, categories: &[EmailTriageGmailCategory]| {
        policy(FALLBACK_CATEGORY_ID, true, &[], &["follow_up_task"], scope, categories, false)
    };

    queue
        .upsert_policy(
            &fallback(WorkQueueAiGmailScope::Default, &[primary, updates]),
            "fallback_ai_scope",
            1_000,
        )
        .expect("policy");
    let stored = queue.policy(FALLBACK_CATEGORY_ID).expect("policy");
    assert_eq!(stored.ai_suggestible_gmail_categories, vec![primary, updates]);
    assert_eq!(stored.ai_suggestible_gmail_scope, WorkQueueAiGmailScope::Default);

    queue
        .upsert_policy(
            &fallback(WorkQueueAiGmailScope::All, &[primary]),
            "fallback_ai_scope_all",
            1_300,
        )
        .expect("all fallback scope");
    let stored = queue.policy(FALLBACK_CATEGORY_ID).expect("policy");
    assert_eq!(stored.ai_suggestible_gmail_scope, WorkQueueAiGmailScope::All);
    assert!(stored.ai_suggestible_gmail_categories.is_empty());

    queue
        .upsert_policy(
            &fallback(WorkQueueAiGmailScope::Selected, &[social]),
            "fallback_ai_scope_selected",
            1_350,
        )
        .expect("selected fallback scope");
    let stored = queue.policy(FALLBACK_CATEGORY_ID).expect("policy");
    assert_eq!(stored.ai_suggestible_gmail_scope, WorkQueueAiGmailScope::Selected);
    assert_eq!(stored.ai_suggestible_gmail_categories, vec![social]);

    let err = queue
        .upsert_policy(
            &fallback(WorkQueueAiGmailScope::Selected, &[]),
            "fallback_ai_scope_selected_empty",
            1_400,
        )
        .expect_err("selected scope needs categories");
    assert!(err.message().contains("work_queue_ai_gmail_scope_selected_empty"));

    queue
        .upsert_policy(
            &fallback(WorkQueueAiGmailScope::Default, &[]),
            "fallback_ai_scope_default",
            1_250,
        )
        .expect("default fallback scope");
    let stored = queue.policy(FALLBACK_CATEGORY_ID).expect("policy");
    assert_eq!(stored.ai_suggestible_gmail_categories, vec![primary, updates]);

    queue
        .upsert_policy(
            &policy("billing", true, &[], &[], WorkQueueAiGmailScope::Default, &[primary], false),
            "stale_scope_ai_off",
            1_500,
        )
        .expect("stale scope cleared when ai off");
    let billing = queue.policy("billing").expect("billing policy");
    assert!(billing.ai_suggestible_gmail_categories.is_empty());

    let err = queue
        .upsert_policy(
            &policy(
                "billing",
                true,
                &[],
                &["follow_up_task"],
                WorkQueueAiGmailScope::All,
                &[],
                false,
            ),
            "bad_scope",
            2_000,
        )
        .expect_err("non-fallback scope");
    assert!(err.message().contains("work_queue_ai_gmail_scope_fallback_only"));
}

#[test]
fn policy_turning_work_items_off_clears_outputs_and_ai_suggestions() {
    let mut queue = Queue::open();
    queue
        .upsert_policy(
            &policy(
                "billing",
                false,
                &["crm_activity"],
                &["follow_up_task"],
                WorkQueueAiGmailScope::Default,
                &[],
                false,
            ),
            "p1",
            1_000,
        )
        .expect("policy");

    let stored = queue.policy("billing").expect("policy");
    assert!(!stored.create_work_item);
    assert!(stored.packet_kinds.is_empty());
    assert!(stored.ai_suggestible_packet_kinds.is_empty());
    assert!(stored.ai_suggestible_gmail_categories.is_empty());
    assert_eq!(stored.ai_suggestible_gmail_scope, WorkQueueAiGmailScope::Default);
    assert!(!stored.auto_produce);
}

#[test]
fn packet_kinds_are_editable_until_dismissed() {
    let mut queue = Queue::open();
    queue
        .upsert_policy(&kinds_policy(&["calendar_event_draft", "crm_activity"], false), "p1", 1_000)
        .expect("policy");
    queue.emit(&message("m1", "billing"), 2_000);

    // Drop one kind; the catalog still guards what goes on.
    queue
        .set_kinds(
            action_ctx("k1", Some(1)),
            "wi_email_m1",
            &strings(&["calendar_event_draft"]),
        )
        .expect("set kinds");
    let item = queue.item("wi_email_m1").expect("exists");
    assert_eq!(item.item.packet_kinds, vec!["calendar_event_draft".to_string()]);
    assert_eq!(item.revision, 2);

    let err = queue
        .set_kinds(action_ctx("k2", Some(2)), "wi_email_m1", &strings(&["made_up_kind"]))
        .expect_err("unknown kind");
    assert!(err.message().contains("work_queue_packet_kind_unknown"));

    // Dismissed items refuse kind edits.
    queue
        .act(action_ctx("a1", Some(2)), "wi_email_m1", ItemAction::Dismiss)
        .expect("dismiss");
    let err = queue
        .set_kinds(action_ctx("k3", Some(3)), "wi_email_m1", &strings(&["crm_activity"]))
        .expect_err("dismissed");
    assert!(err.message().contains("work_item_kinds_not_editable"));
}

fn add_manual_follow_up(
    queue: &mut Queue,
    message: &InboundMessageRecord,
    key: &str,
    now_ms: u64,
) -> Result<MutationOutcome, StoreError> {
    let existing = queue.item_for_source("email", &message.source_key);
    let overlay = WorkQueueOverlay::default();
    let to = addresses(message.to_addr.as_deref());
    match add_manual_follow_up_for_email(message, &overlay, &to, existing, now_ms) {
        ManualFollowUp::UpdateKinds { item_id, packet_kinds } => {
            let ctx = ItemActionContext { now_ms, ..action_ctx(key, None) };
            queue.set_kinds(ctx, &item_id, &packet_kinds)
        }
        ManualFollowUp::Insert(item) => {
            let plan = insert_item_with_actor(
                CLIENT,
                &item,
                "{}",
                "op_test",
                ActorKindDto::Operator,
                key,
            );
            queue.run(plan)
        }
    }
}

#[test]
fn manual_follow_up_creates_or_updates_email_work_item() {
    let mut queue = Queue::open();
    let msg = message("manual1", "billing");
    let created = add_manual_follow_up(&mut queue, &msg, "manual_1", 2_000).expect("create");
    assert!(matches!(created, MutationOutcome::Applied { revision: 1, .. }));
    let item = queue.item("wi_email_manual1").expect("item");
    assert_eq!(item.item.packet_kinds, vec!["follow_up_task".to_string()]);

    let mut existing = message("manual2", "billing");
    existing.subject = Some("Needs CRM log".to_string());
    queue
        .upsert_policy(&kinds_policy(&["crm_activity"], false), "policy_manual", 2_500)
        .expect("policy");
    queue.emit(&existing, 3_000);
    let updated = add_manual_follow_up(&mut queue, &existing, "manual_2", 4_000).expect("update");
    assert!(matches!(updated, MutationOutcome::Applied { revision: 2, .. }));
    let item = queue.item("wi_email_manual2").expect("item");
    assert_eq!(
        item.item.packet_kinds,
        vec!["crm_activity".to_string(), "follow_up_task".to_string()]
    );
}

#[test]
fn produce_guidance_is_revisioned_and_editable_until_dismissed() {
    let mut queue = Queue::open();
    queue.upsert_policy(&billing_policy(true), "p1", 1_000).expect("policy");
    queue.emit(&message("m1", "billing"), 2_000);

    let outcome = queue
        .set_guidance(
            action_ctx("g1", Some(1)),
            "wi_email_m1",
            "  Mention the PO number and keep it concise.  ",
        )
        .expect("set guidance");
    assert!(matches!(outcome, MutationOutcome::Applied { revision: 2, .. }));
    let item = queue.item("wi_email_m1").expect("exists");
    assert_eq!(item.item.produce_guidance, "Mention the PO number and keep it concise.");
    assert_eq!(item.revision, 2);

    queue
        .set_guidance(action_ctx("g2", Some(2)), "wi_email_m1", "")
        .expect("clear guidance");
    let item = queue.item("wi_email_m1").expect("exists");
    assert!(item.item.produce_guidance.is_empty());
    assert_eq!(item.revision, 3);

    queue
        .act(action_ctx("a1", Some(3)), "wi_email_m1", ItemAction::Dismiss)
        .expect("dismiss");
    let err = queue
        .set_guidance(action_ctx("g3", Some(4)), "wi_email_m1", "revive this")
        .expect_err("dismissed");
    assert!(err.message().contains("work_item_guidance_not_editable"));
    assert_domain(
        queue.set_guidance(action_ctx("g4", None), "wi_email_m1", &"é".repeat(2_001)),
        "work_item_guidance_too_long",
    );
}

#[test]
fn feed_decorates_items_with_staged_draft_kinds() {
    let mut queue = Queue::open();
    queue.upsert_policy(&kinds_policy(&["follow_up_task"], false), "p1", 1_000).expect("policy");
    assert!(queue.emit(&message("m1", "billing"), 2_000));
    assert!(queue.emit(&message("m2", "billing"), 2_100));
    queue
        .act(action_ctx("a1", Some(1)), "wi_email_m1", ItemAction::Accept)
        .expect("accept");
    queue.staged = pairs(&[("wi_email_m1", "follow_up_task")]);

    let feed = queue.feed(10_000, false, false, &[]);
    assert_eq!(
        entry(&feed, "wi_email_m1").staged_draft_kinds,
        vec!["follow_up_task".to_string()]
    );
    assert!(entry(&feed, "wi_email_m2").staged_draft_kinds.is_empty());

    // Dismissing the item archives the queue row even if a staged draft still
    // exists. The operator cannot open draft panels from a dismissed row, so
    // the feed must not keep it in "needs you" via stale draft decoration.
    queue
        .act(action_ctx("a2", Some(2)), "wi_email_m1", ItemAction::Dismiss)
        .expect("dismiss");
    let feed = queue.feed(10_000, false, false, &[]);
    let dismissed = entry(&feed, "wi_email_m1");
    assert_eq!(dismissed.item.status, WorkItemStatus::Dismissed);
    assert!(dismissed.staged_draft_kinds.is_empty());
}

#[test]
fn feed_hides_source_scoped_staged_draft_kinds_for_other_visible_users() {
    let mut queue = Queue::open();
    let mut item = shared_visible_work_item(
        "wi_email_m1",
        Some("user_casey"),
        &["user_casey", "user_jordan"],
    );
    item.packet_kinds = strings(&["follow_up_task"]);
    queue.insert(&item).expect("insert item");
    queue
        .act(action_ctx("accept", Some(1)), "wi_email_m1", ItemAction::Accept)
        .expect("accept");
    queue.staged = pairs(&[("wi_email_m1", "follow_up_task")]);

    let all = queue.feed_for(&OperatorScope::All);
    assert_eq!(entry(&all, "wi_email_m1").staged_draft_kinds, vec!["follow_up_task"]);
    let casey = queue.feed_for(&user("user_casey"));
    assert_eq!(entry(&casey, "wi_email_m1").staged_draft_kinds, vec!["follow_up_task"]);
    let jordan = queue.feed_for(&user("user_jordan"));
    assert!(entry(&jordan, "wi_email_m1").staged_draft_kinds.is_empty());

    // A kind that is not bound to the source shows to every user.
    queue.staged = pairs(&[("wi_email_m1", "follow_up_task"), ("wi_email_m1", "invoice_draft")]);
    let jordan = queue.feed_for(&user("user_jordan"));
    assert_eq!(entry(&jordan, "wi_email_m1").staged_draft_kinds, vec!["invoice_draft"]);
}

#[test]
fn attention_filtered_feed_keeps_only_operator_attention_rows() {
    let mut queue = Queue::open();
    queue
        .upsert_policy(&kinds_policy(&["follow_up_task", "crm_activity"], true), "p1", 1_000)
        .expect("policy");
    for id in ["open", "staged", "pending", "failed", "quiet", "dismissed"] {
        queue.emit(&message(id, "billing"), 2_000);
    }
    for (source, key) in [
        ("staged", "accept_staged"),
        ("pending", "accept_pending"),
        ("failed", "accept_failed"),
        ("quiet", "accept_quiet"),
        ("dismissed", "accept_dismissed"),
    ] {
        queue
            .act(action_ctx(key, Some(1)), &format!("wi_email_{source}"), ItemAction::Accept)
            .expect("accept");
    }
    queue
        .act(
            action_ctx("dismiss_after_accept", None),
            "wi_email_dismissed",
            ItemAction::Dismiss,
        )
        .expect("dismiss");
    queue.staged = pairs(&[("wi_email_staged", "follow_up_task")]);
    queue.usage.push(usage(
        "aiu_failed_attention",
        "wi_email_failed",
        "crm_activity",
        false,
        Some("llm_timeout"),
        4_000,
    ));

    let items = queue.all();
    let signals = queue.signals(&items, 5_000);
    let in_flight = pairs(&[("wi_email_pending", "crm_activity")]);
    let attention =
        attention_feed(&items, 10, &OperatorScope::All, &signals, &quiet(&in_flight));
    let ids: std::collections::HashSet<_> =
        attention.iter().map(|entry| entry.item.item_id.as_str()).collect();
    assert_eq!(
        ids,
        std::collections::HashSet::from([
            "wi_email_open",
            "wi_email_staged",
            "wi_email_pending",
            "wi_email_failed",
        ])
    );
    assert!(attention.iter().all(needs_attention));
    let two = attention_feed(&items, 2, &OperatorScope::All, &signals, &quiet(&in_flight));
    assert_eq!(two, attention[..2].to_vec());
}

#[test]
fn feed_surfaces_failed_produce_attempts_until_retry_succeeds() {
    let mut queue = Queue::open();
    queue.upsert_policy(&kinds_policy(&["invoice_draft"], true), "p1", 1_000).expect("policy");
    queue.emit(&message("m1", "billing"), 2_000);
    queue
        .act(action_ctx("a1", Some(1)), "wi_email_m1", ItemAction::Accept)
        .expect("accept");

    let now = 10_000;
    queue.usage.push(usage(
        "aiu_fail",
        "wi_email_m1",
        "invoice_draft",
        false,
        Some("llm_timeout"),
        now,
    ));
    let feed = queue.feed(now + 2, false, false, &[]);
    let item = entry(&feed, "wi_email_m1");
    assert_eq!(item.failure_notifications.len(), 1);
    let notification = &item.failure_notifications[0];
    assert_eq!(notification.packet_kind.as_deref(), Some("invoice_draft"));
    assert_eq!(notification.error_code.as_deref(), Some("llm_timeout"));
    assert_eq!(notification.source, "ai_produce");
    assert_eq!(notification.notification_id, "ai_produce:invoice_draft:llm_timeout");
    assert!(notification.diagnostic_id.is_none());
    assert!(notification.diagnostic_href.is_none());

    // While the kind is being drafted again, its failure is not shown.
    let drafting = queue.feed(now + 2, false, false, &[("wi_email_m1", "invoice_draft")]);
    assert!(entry(&drafting, "wi_email_m1").failure_notifications.is_empty());

    queue.usage.push(usage("aiu_success", "wi_email_m1", "invoice_draft", true, None, now + 1));
    let feed = queue.feed(now + 2, false, false, &[]);
    assert!(entry(&feed, "wi_email_m1").failure_notifications.is_empty());
}

fn accepted_reply_item() -> Queue {
    let mut queue = Queue::open();
    queue
        .upsert_policy(&kinds_policy(&["email_draft_reply"], false), "p1", 1_000)
        .expect("policy");
    queue.emit(&message("m1", "billing"), 2_000);
    queue
        .act(action_ctx("accept", Some(1)), "wi_email_m1", ItemAction::Accept)
        .expect("accept");
    queue
}

#[test]
fn feed_surfaces_running_smart_draft_as_pending_outputs() {
    let mut queue = accepted_reply_item();
    queue.add_run(
        "ppr_running",
        "wi_email_m1",
        "running",
        &["email_draft_reply", "calendar_event_draft"],
        Vec::new(),
        "op_test",
        5_100,
    );
    let feed = queue.feed(5_200, false, false, &[]);
    let item = entry(&feed, "wi_email_m1");
    assert_eq!(
        item.pending_produce_kinds,
        vec!["email_draft_reply".to_string(), "calendar_event_draft".to_string()]
    );
    assert!(item.failure_notifications.is_empty());
}

#[test]
fn feed_hides_automatic_smart_draft_completed_with_no_reviewable_drafts() {
    let mut queue = accepted_reply_item();
    queue.add_run(
        "ppr_no_drafts",
        "wi_email_m1",
        "completed",
        &["email_draft_reply", "calendar_event_draft"],
        vec![
            outcome(
                "email_draft_reply",
                PacketProposalKindOutcomeStatus::Unavailable,
                PacketProposalReasonCode::KindNotRequested,
                None,
            ),
            outcome(
                "calendar_event_draft",
                PacketProposalKindOutcomeStatus::Unavailable,
                PacketProposalReasonCode::LowConfidence,
                None,
            ),
        ],
        "email_ai_triage",
        5_100,
    );
    let feed = queue.feed(5_200, false, true, &[]);
    let item = entry(&feed, "wi_email_m1");
    assert!(item.pending_produce_kinds.is_empty());
    assert!(item.failure_notifications.is_empty());
}

#[test]
fn feed_hides_automatic_smart_draft_completed_with_actionable_failure() {
    let mut queue = accepted_reply_item();
    queue.add_run(
        "ppr_auto_gate_failure",
        "wi_email_m1",
        "completed",
        &["email_draft_reply"],
        vec![outcome(
            "email_draft_reply",
            PacketProposalKindOutcomeStatus::RejectedByGate,
            PacketProposalReasonCode::GateRejected,
            None,
        )],
        "email_ai_triage",
        5_100,
    );
    let feed = queue.feed(5_200, false, true, &[]);
    let item = entry(&feed, "wi_email_m1");
    assert!(item.pending_produce_kinds.is_empty());
    assert!(item.failure_notifications.is_empty());
}

#[test]
fn feed_surfaces_operator_smart_draft_completed_with_no_reviewable_drafts() {
    let mut queue = accepted_reply_item();
    queue.add_run(
        "ppr_no_drafts",
        "wi_email_m1",
        "completed",
        &["email_draft_reply"],
        vec![outcome(
            "email_draft_reply",
            PacketProposalKindOutcomeStatus::RejectedByGate,
            PacketProposalReasonCode::GateRejected,
            None,
        )],
        "op_test",
        5_100,
    );
    let feed = queue.feed(5_200, false, true, &[]);
    let item = entry(&feed, "wi_email_m1");
    assert!(item.pending_produce_kinds.is_empty());
    assert_eq!(item.failure_notifications.len(), 1);
    let notification = &item.failure_notifications[0];
    assert_eq!(notification.source, "smart_draft");
    assert_eq!(notification.title, "Smart draft produced no drafts");
    assert!(notification.message.contains("Email draft"));
    assert!(notification.message.contains("gate rejected"));
    assert_eq!(notification.diagnostic_id.as_deref(), Some("packet_proposal:ppr_no_drafts"));
}

#[test]
fn feed_hides_old_smart_draft_failure_while_retry_is_running() {
    let mut queue = accepted_reply_item();
    queue.add_run(
        "ppr_old_no_drafts",
        "wi_email_m1",
        "completed",
        &["email_draft_reply"],
        vec![outcome(
            "email_draft_reply",
            PacketProposalKindOutcomeStatus::RejectedByGate,
            PacketProposalReasonCode::GateRejected,
            Some("missing grounded reply body"),
        )],
        "op_test",
        5_000,
    );
    queue.add_run(
        "ppr_retry_running",
        "wi_email_m1",
        "running",
        &["email_draft_reply"],
        Vec::new(),
        "op_test",
        5_100,
    );
    let feed = queue.feed(5_200, false, true, &[]);
    let item = entry(&feed, "wi_email_m1");
    assert_eq!(item.pending_produce_kinds, vec!["email_draft_reply"]);
    assert!(item.failure_notifications.is_empty());
}

#[test]
fn failed_smart_drafts_are_reported() {
    let mut queue = accepted_reply_item();
    queue.add_run("ppr_failed", "wi_email_m1", "failed", &[], Vec::new(), "smart_draft", 5_100);
    let feed = queue.feed(5_200, false, false, &[]);
    let item = entry(&feed, "wi_email_m1");
    assert_eq!(item.failure_notifications.len(), 1);
    assert_eq!(item.failure_notifications[0].title, "Smart draft failed");
    assert_eq!(
        item.failure_notifications[0].notification_id,
        "smart_draft:ppr_failed:failed"
    );
    assert_eq!(item.failure_notifications[0].diagnostic_id, None);
}

#[test]
fn feed_surfaces_outbox_failures_with_debug_links_when_enabled() {
    let mut queue = Queue::open();
    queue
        .upsert_policy(&kinds_policy(&["calendar_event_draft"], false), "p1", 1_000)
        .expect("policy");
    queue.emit(&message("m1", "billing"), 2_000);
    queue
        .act(action_ctx("a1", Some(1)), "wi_email_m1", ItemAction::Accept)
        .expect("accept");
    queue
        .conn
        .execute(
            "INSERT INTO calendar_event_drafts VALUES (?1, 'ced_wi_email_m1_1', 'wi_email_m1')",
            [CLIENT],
        )
        .expect("draft");
    // The second job delivers something else that has the draft's id.
    queue
        .conn
        .execute_batch(
            "INSERT INTO outbox_jobs VALUES ('test-client', 'obj_ced_wi_email_m1_1', 'google_calendar', 'create_event', 'failed_terminal', 1, 'calendar auth expired', 5000, 'calendar_event_draft', 'ced_wi_email_m1_1');
             INSERT INTO outbox_jobs VALUES ('test-client', 'obj_wrong_kind_same_id', 'gmail', 'create_report_draft', 'failed_terminal', 1, 'wrong source kind', 5070, 'owner_report', 'ced_wi_email_m1_1');",
        )
        .expect("jobs");

    let feed = queue.feed(5_100, false, true, &[]);
    let item = entry(&feed, "wi_email_m1");
    assert_eq!(item.failure_notifications.len(), 1);
    let notification = &item.failure_notifications[0];
    assert_eq!(notification.source, "provider_delivery");
    assert_eq!(notification.packet_kind.as_deref(), Some("calendar_event_draft"));
    assert_eq!(
        notification.diagnostic_id.as_deref(),
        Some("outbox:obj_ced_wi_email_m1_1")
    );
    assert_eq!(
        notification.diagnostic_href.as_deref(),
        Some("#debug/outbox:obj_ced_wi_email_m1_1")
    );
    assert_eq!(notification.title, "Couldn't deliver draft");
    assert_eq!(
        notification.message,
        "We couldn't deliver your Calendar event draft — open the draft panel to see what happened or try again."
    );
    assert_eq!(
        notification.next_action.as_deref(),
        Some("Open the draft panel to retry or see what went wrong.")
    );
    assert_eq!(notification.error_code.as_deref(), Some("failed_terminal"));
}

#[test]
fn failures_stand_newest_first() {
    let mut queue = Queue::open();
    queue
        .upsert_policy(
            &kinds_policy(&["calendar_event_draft", "crm_activity", "invoice_draft"], false),
            "p1",
            1_000,
        )
        .expect("policy");
    queue.emit(&message("m1", "billing"), 2_000);
    queue
        .act(action_ctx("a1", Some(1)), "wi_email_m1", ItemAction::Accept)
        .expect("accept");
    queue.usage.push(usage("u1", "wi_email_m1", "crm_activity", false, None, 4_000));
    queue.usage.push(usage("u2", "wi_email_m1", "invoice_draft", false, None, 6_000));
    // Not one of the item's kinds.
    queue.usage.push(usage("u3", "wi_email_m1", "claim_draft", false, None, 7_000));
    queue
        .conn
        .execute_batch(
            "INSERT INTO calendar_event_drafts VALUES ('test-client', 'd1', 'wi_email_m1');
             INSERT INTO outbox_jobs VALUES ('test-client', 'job_1', 'p', 'c', 'failed_terminal', 1, 'x', 5000, 'calendar_event_draft', 'd1');",
        )
        .expect("jobs");
    let feed = queue.feed(8_000, false, false, &[]);
    let ids: Vec<&str> = entry(&feed, "wi_email_m1")
        .failure_notifications
        .iter()
        .map(|notification| notification.notification_id.as_str())
        .collect();
    assert_eq!(
        ids,
        vec![
            "ai_produce:invoice_draft:llm_failed",
            "provider_delivery:job_1:failed_terminal",
            "ai_produce:crm_activity:llm_failed",
        ]
    );
    // A week later the failed generations are out of sight.
    let later = queue.feed(4_001 + 7 * 24 * 60 * 60 * 1000, false, false, &[]);
    let left: Vec<&str> = entry(&later, "wi_email_m1")
        .failure_notifications
        .iter()
        .map(|notification| notification.notification_id.as_str())
        .collect();
    assert_eq!(
        left,
        vec!["ai_produce:invoice_draft:llm_failed", "provider_delivery:job_1:failed_terminal"]
    );
    assert_eq!(produce_failures_since(5), 0);
}

#[test]
fn feed_shows_auto_produce_candidates_only_while_the_pump_runs() {
    let mut queue = Queue::open();
    queue
        .upsert_policy(&kinds_policy(&["follow_up_task", "crm_activity"], true), "p1", 1_000)
        .expect("policy");
    queue.emit(&message("m1", "billing"), 2_000);
    queue
        .act(action_ctx("a1", Some(1)), "wi_email_m1", ItemAction::Accept)
        .expect("accept m1");
    queue.staged = pairs(&[("wi_email_m1", "follow_up_task")]);
    queue.candidates = pairs(&[("wi_email_m1", "crm_activity")]);

    let running = queue.feed(10_000, true, false, &[]);
    let m1 = entry(&running, "wi_email_m1");
    assert_eq!(m1.staged_draft_kinds, vec!["follow_up_task".to_string()]);
    assert_eq!(m1.pending_produce_kinds, vec!["crm_activity".to_string()]);
    let off = queue.feed(10_000, false, false, &[]);
    assert!(off.iter().all(|e| e.pending_produce_kinds.is_empty()));

    // Manual kickoffs surface regardless of the pump flag, and once.
    let in_flight = [("wi_email_m1", "crm_activity")];
    let manual = queue.feed(10_000, true, false, &in_flight);
    assert_eq!(
        entry(&manual, "wi_email_m1").pending_produce_kinds,
        vec!["crm_activity".to_string()]
    );
    queue
        .act(action_ctx("a2", Some(m1.revision)), "wi_email_m1", ItemAction::Dismiss)
        .expect("dismiss");
    let dismissed = queue.feed(10_000, false, false, &in_flight);
    let m1 = entry(&dismissed, "wi_email_m1");
    assert_eq!(m1.item.status, WorkItemStatus::Dismissed);
    assert!(m1.pending_produce_kinds.is_empty());
}

#[test]
fn item_source_resolves_the_note_behind_an_item() {
    let mut queue = Queue::open();
    let body = "Dana called — wants the storefront quote by Friday.";
    let exists = {
        let count: Option<i64> =
            first(&queue.conn, &source_count_query(CLIENT, "operator_note", "n1"), |row| row.get(0));
        item_exists_for_source(count.unwrap_or(0))
    };
    let item = emit_unconditional(
        UnconditionalEmit {
            source_kind: "operator_note",
            source_ref: "n1",
            category_id: "operator_note",
            title: "Note",
            summary: body,
            default_kinds: strings(&["follow_up_task"]),
            allow_policy_kinds: false,
            source_user_id: None,
            status: WorkItemStatus::Accepted,
        },
        exists,
        None,
        1_000,
    )
    .expect("a new note gets an item");
    queue.insert(&item).expect("emit");

    let read = |item_id: &str| {
        item_source(
            Ok(queue.item_scoped(item_id, &OperatorScope::All).map(|entry| entry.item)),
            |item: &WorkItem| {
                let mut note = message(&item.source_ref, &item.category_id);
                note.from_addr = None;
                note.body_excerpt = body.to_string();
                Ok(Some(note))
            },
            |_: &InboundMessageRecord| Ok(None),
        )
    };
    let source = read("wi_operator_note_n1").unwrap_or_else(|_| panic!("source resolves"));
    assert_eq!(source.source_kind, "operator_note");
    assert!(source.message.body_excerpt.contains("storefront quote"));
    assert!(source.message.from_addr.is_none());
    assert!(matches!(read("wi_missing"), Err(ItemSourceError::ItemNotFound)));
}

#[test]
fn item_source_exposes_full_html_body_for_display() {
    let mut queue = Queue::open();
    queue.upsert_policy(&billing_policy(true), "policy-html", 1_000).expect("policy");
    let mut msg = message("html1", "billing");
    msg.body_excerpt = "Short".to_string();
    msg.body_full = "Invoice ready\nOpen the portal.".to_string();
    queue.emit(&msg, 2_000);
    let html = "<html><body><h1>Invoice ready</h1><p>Open the portal.</p></body></html>";

    let source = item_source(
        Ok(queue.item_scoped("wi_email_html1", &OperatorScope::All).map(|entry| entry.item)),
        |_: &WorkItem| Ok(Some(msg.clone())),
        |_: &InboundMessageRecord| Ok(Some(html.to_string())),
    )
    .unwrap_or_else(|_| panic!("source resolves"));

    assert_eq!(source.source_body_format, WorkItemSourceBodyFormat::Html);
    assert!(source.source_body.contains("<h1>Invoice ready</h1>"));
    assert_eq!(source.message.body_full, "Invoice ready\nOpen the portal.");
}

#[test]
fn sources_that_do_not_resolve_are_answered() {
    let item = shared_visible_work_item("wi_email_m1", None, &[]);
    let resolve = |resolved: Result<Option<InboundMessageRecord>, SourceError>| {
        item_source(
            Ok(Some(item.clone())),
            |_: &WorkItem| resolved,
            |_: &InboundMessageRecord| Ok(None),
        )
    };
    let refused = |err: ItemSourceError| match item_source_error_response(err) {
        ErrorAnswer::Refused { status, code } => (status, code),
        ErrorAnswer::Store(err) => (0, err.message()),
    };
    assert_eq!(
        refused(resolve(Ok(None)).expect_err("missing")),
        (404, "work_item_source_missing".to_string())
    );
    assert_eq!(
        refused(resolve(Err(SourceError::Unsupported)).expect_err("unsupported")),
        (422, "produce_source_unsupported".to_string())
    );
    assert_eq!(
        refused(
            resolve(Err(SourceError::Store(StoreError::Domain("x".to_string()))))
                .expect_err("store")
        ),
        (0, "store domain error: x".to_string())
    );
    let plain = resolve(Ok(Some(message("m1", "billing")))).expect("plain");
    assert_eq!(plain.source_body_format, WorkItemSourceBodyFormat::PlainText);
    assert_eq!(plain.source_body, "Your bill is now available for viewing.");
}

#[test]
fn only_emails_move_to_the_trash() {
    assert_eq!(item_action(WorkItemActionKind::Accept), Some(ItemAction::Accept));
    assert_eq!(item_action(WorkItemActionKind::Dismiss), Some(ItemAction::Dismiss));
    assert_eq!(item_action(WorkItemActionKind::Reopen), Some(ItemAction::Reopen));
    assert_eq!(item_action(WorkItemActionKind::Trash), None);
    let source = |kind: &str| WorkItemSourceResponse {
        source_kind: kind.to_string(),
        source_body: String::new(),
        source_body_format: WorkItemSourceBodyFormat::PlainText,
        message: message("m1", "billing"),
    };
    assert_eq!(trash_message(Ok(source("email"))).expect("message").source_key, "m1");
    assert!(matches!(
        trash_message(Ok(source("operator_note"))),
        Err(ErrorAnswer::Refused { status: 422, code }) if code == "email_trash_source_unsupported"
    ));
    assert!(matches!(
        trash_message(Err(ItemSourceError::SourceUnsupported)),
        Err(ErrorAnswer::Refused { status: 422, code }) if code == "email_trash_source_unsupported"
    ));
}

const CATEGORY_ID: &str = "answering_service";

fn service_message(id: &str) -> InboundMessageRecord {
    InboundMessageRecord {
        from_addr: Some("Platform <noreply@example.test>".to_string()),
        subject: Some("Inbound summary".to_string()),
        body_excerpt: "Body".to_string(),
        ..message(id, CATEGORY_ID)
    }
}

fn service_policy(queue: &mut Queue, create: bool, kinds: &[&str]) {
    let policy =
        policy(CATEGORY_ID, create, kinds, &[], WorkQueueAiGmailScope::Default, &[], false);
    queue.upsert_policy(&policy, &format!("policy:{create}"), 1_500).expect("policy");
}

fn add_enrichment(queue: &mut Queue, source_key: &str, level: AttentionLevel, reason: &str) {
    let label = match level {
        AttentionLevel::Higher => "Needs attention",
        AttentionLevel::Normal => "Attention",
        AttentionLevel::Lower => "Lower attention",
    };
    queue.attention.push((
        source_key.to_string(),
        signal(level, reason, label, Some("operator attention hint")),
    ));
    queue.hints.push((
        source_key.to_string(),
        "Call from Alex Rivera".to_string(),
        "555-0101 | needs follow-up".to_string(),
    ));
}

const SERVICE_KINDS: [&str; 3] = ["crm_activity", "follow_up_task", "calendar_event_draft"];

#[test]
fn no_policy_row_means_no_work_item() {
    let mut queue = Queue::open();
    assert!(!queue.emit(&service_message("m1"), 2_000));
}

#[test]
fn higher_attention_keeps_policy_kinds_and_display_hints() {
    let mut queue = Queue::open();
    service_policy(&mut queue, true, &SERVICE_KINDS);
    add_enrichment(&mut queue, "m2", AttentionLevel::Higher, "callback_needed");

    assert!(queue.emit(&service_message("m2"), 2_000));
    let items = queue.all();
    let item = &items[0].item;
    assert_eq!(
        item.packet_kinds,
        vec!["crm_activity", "follow_up_task", "calendar_event_draft"]
    );
    assert_eq!(item.title, "Call from Alex Rivera");
    assert!(item.summary.contains("555-0101"));
    let feed = queue.feed(3_000, false, false, &[]);
    let attention = feed[0].attention.as_ref().expect("attention summary");
    assert_eq!(attention.level, AttentionLevel::Higher);
    assert_eq!(attention.label, "Needs attention");
}

#[test]
fn lower_attention_drops_deferred_kinds() {
    let mut queue = Queue::open();
    service_policy(&mut queue, true, &SERVICE_KINDS);
    add_enrichment(&mut queue, "m3", AttentionLevel::Lower, "call_handled_live");
    assert!(queue.emit(&service_message("m3"), 2_000));
    assert_eq!(queue.all()[0].item.packet_kinds, vec!["crm_activity"]);
}

#[test]
fn normal_attention_keeps_policy_kinds() {
    let mut queue = Queue::open();
    service_policy(&mut queue, true, &SERVICE_KINDS);
    add_enrichment(&mut queue, "m5", AttentionLevel::Normal, "neutral_signal");
    assert!(queue.emit(&service_message("m5"), 2_000));
    assert_eq!(
        queue.all()[0].item.packet_kinds,
        vec!["crm_activity", "follow_up_task", "calendar_event_draft"]
    );
}

#[test]
fn silenced_policy_still_wins_over_enrichment() {
    let mut queue = Queue::open();
    service_policy(&mut queue, false, &[]);
    add_enrichment(&mut queue, "m4", AttentionLevel::Higher, "callback_needed");
    assert!(!queue.emit(&service_message("m4"), 2_000));
}

#[test]
fn lower_attention_may_leave_nothing_to_emit() {
    let mut queue = Queue::open();
    service_policy(&mut queue, true, &["follow_up_task"]);
    add_enrichment(&mut queue, "m6", AttentionLevel::Lower, "call_handled_live");
    assert!(!queue.emit(&service_message("m6"), 2_000));
    assert_eq!(
        gate_packet_kinds_for_attention(strings(&["follow_up_task"]), &None),
        strings(&["follow_up_task"])
    );
}

#[test]
fn pump_backfills_items_when_policy_enabled_later() {
    let mut queue = Queue::open();
    let mut inbound = message("m1", "billing");
    inbound.subject = Some("Your bill is ready".to_string());
    inbound.from_addr = Some("billing@business-7c4184030e.test".to_string());
    inbound.body_excerpt = "pay us".to_string();
    inbound.body_full = "pay us".to_string();
    inbound.matched_rule_id = Some("bills".to_string());
    inbound.source_user_id = Some("user_jordan".to_string());
    assert!(!queue.emit(&inbound, 1_000));
    assert!(
        queue.list(None, 10, &OperatorScope::All).is_empty(),
        "no policy yet -> no items"
    );

    queue.upsert_policy(&billing_policy(true), "p1", 2_000).expect("policy");
    assert!(queue.emit(&inbound, 3_000));
    let items = queue.list(None, 10, &OperatorScope::All);
    assert_eq!(items.len(), 1, "backfill emitted the item");
    assert_eq!(items[0].item.category_id, "billing");
    assert_eq!(
        items[0].item.source_user_id.as_deref(),
        Some("user_jordan"),
        "the item carries the connected account it came from"
    );
}

#[test]
fn item_source_exposes_html_body_captured_by_gmail_ingest() {
    let mut queue = Queue::open();
    queue
        .upsert_policy(
            &policy(
                FALLBACK_CATEGORY_ID,
                true,
                &["ledger_entry"],
                &[],
                WorkQueueAiGmailScope::Default,
                &[],
                false,
            ),
            "policy-gmail-html",
            1_000,
        )
        .expect("policy");
    let mut msg = message("gmail-html-1", FALLBACK_CATEGORY_ID);
    msg.subject = Some("Invoice ready".to_string());
    msg.from_addr = Some("billing@example.test".to_string());
    msg.body_excerpt = "Invoice ready\nOpen the portal.".to_string();
    msg.body_full = "Invoice ready\nOpen the portal.".to_string();
    assert!(queue.emit(&msg, 2_000));

    let source = item_source(
        Ok(queue
            .item_scoped("wi_email_gmail-html-1", &OperatorScope::All)
            .map(|entry| entry.item)),
        |_| Ok(Some(msg.clone())),
        |_| {
            Ok(Some(
                "<html><body><h1>Invoice ready</h1><p>Open the portal.</p></body></html>"
                    .to_string(),
            ))
        },
    )
    .unwrap_or_else(|_| panic!("source resolves"));

    assert_eq!(source.source_body_format, WorkItemSourceBodyFormat::Html);
    assert!(source.source_body.contains("<h1>Invoice ready</h1>"));
    assert_eq!(source.message.body_full, "Invoice ready\nOpen the portal.");
}

#[test]
fn older_items_are_found_by_message_id() {
    let mut queue = Queue::open();
    queue.upsert_policy(&billing_policy(true), "p1", 1_500).expect("policy");
    let mut old = message("m1", "billing");
    old.source_user_id = Some("u1".to_string());
    assert!(queue.emit(&old, 2_000));
    let mut rekeyed = old.clone();
    rekeyed.source_key = "gmail:u1:m1".to_string();
    assert!(!queue.emit(&rekeyed, 3_000));
    let mut other_user = rekeyed.clone();
    other_user.source_key = "gmail:u2:m1".to_string();
    other_user.source_user_id = Some("u2".to_string());
    assert!(queue.emit(&other_user, 4_000));
    assert_eq!(queue.all().len(), 2);
}

#[test]
fn visibility_is_synced_once() {
    let mut queue = Queue::open();
    queue.upsert_policy(&billing_policy(true), "p1", 1_500).expect("policy");
    assert!(queue.emit(&message("m1", "billing"), 2_000));
    let overlay = WorkQueueOverlay {
        shared_inboxes: vec![SharedInboxOverlay {
            match_to: strings(&["ask@example.test"]),
            visible_to_user_ids: strings(&["u2", " u1 ", "u2", " "]),
        }],
    };
    let mut shared = message("m1", "billing");
    shared.to_addr = Some("ask@example.test".to_string());
    assert_eq!(
        visible_users_for_message(&shared, &overlay, &addresses(shared.to_addr.as_deref())),
        strings(&["u2", "u1"])
    );
    let before = queue.receipt_count();
    assert!(!queue.emit_with_overlay(&shared, &overlay, 3_000));
    assert_eq!(queue.receipt_count(), before + 1);
    assert_eq!(queue.visibility_users("wi_email_m1"), strings(&["u1", "u2"]));
    assert!(!queue.emit_with_overlay(&shared, &overlay, 4_000));
    assert_eq!(queue.receipt_count(), before + 1);
}

#[test]
fn visibility_keys_do_not_depend_on_order() {
    assert_eq!(stable_visibility_key(&strings(&["b", " A ", "c", "b", ""])), "A,b,c");
    assert_eq!(
        stable_visibility_key(&strings(&["c", "b", "A"])),
        stable_visibility_key(&strings(&["A", "c", "b"]))
    );
}

#[test]
fn ai_suggestions_extend_an_item_once() {
    let mut queue = Queue::open();
    let msg = message("m1", "billing");
    let suggest = |queue: &mut Queue, kinds: &[&str], now_ms: u64| -> bool {
        let existing = queue.item_for_source("email", &msg.source_key);
        match emit_ai_suggested_item(
            &msg,
            &WorkQueueOverlay::default(),
            &Vec::new(),
            &existing,
            strings(kinds),
            "asks for a call",
            now_ms,
        ) {
            AiSuggestion::Insert(item) => {
                queue.insert(&item).expect("insert");
                true
            }
            AiSuggestion::Append { item_id, packet_kinds } => {
                let current = first(&queue.conn, &item_suggestion_query(CLIENT, &item_id), |row| {
                    Ok(ItemSuggestionRow {
                        status: row.get(0)?,
                        packet_kinds_json: row.get(1)?,
                        ai_suggested: row.get(2)?,
                        rationale: row.get(3)?,
                    })
                });
                let spent = queue.spent_keys(&item_id);
                let plan = append_ai_packet_kinds(
                    CLIENT,
                    &item_id,
                    &packet_kinds,
                    "asks for a call",
                    now_ms,
                    &current,
                    &spent,
                )
                .expect("plan");
                match plan {
                    Some(plan) => {
                        queue.run(plan).expect("append");
                        true
                    }
                    None => false,
                }
            }
        }
    };
    assert!(suggest(&mut queue, &["follow_up_task"], 2_000));
    let item = queue.item("wi_email_m1").expect("item");
    assert!(item.item.ai_suggested);
    assert_eq!(item.item.rationale, "asks for a call");
    assert!(suggest(&mut queue, &["crm_activity", "follow_up_task"], 3_000));
    assert_eq!(
        queue.item("wi_email_m1").expect("item").item.packet_kinds,
        strings(&["follow_up_task", "crm_activity"])
    );
    let receipts = queue.receipt_count();
    assert!(!suggest(&mut queue, &["crm_activity"], 4_000));
    assert_eq!(queue.receipt_count(), receipts);
    queue
        .act(action_ctx("a1", None), "wi_email_m1", ItemAction::Dismiss)
        .expect("dismiss");
    assert!(!suggest(&mut queue, &["email_draft_reply"], 5_000));
}

#[test]
fn removed_suggestions_can_be_made_again() {
    let mut queue = Queue::open();
    insert_work_item(&mut queue, "wi_email_m1", None);
    let kinds = |queue: &Queue| queue.item("wi_email_m1").expect("item").item.packet_kinds;
    let before = strings(&["crm_activity"]);
    assert_eq!(kinds(&queue), before);
    let suggested = strings(&["follow_up_task"]);
    let merged = strings(&["crm_activity", "follow_up_task"]);
    let append = |queue: &mut Queue, now_ms: u64| -> (String, MutationOutcome) {
        let current = first(&queue.conn, &item_suggestion_query(CLIENT, "wi_email_m1"), |row| {
            Ok(ItemSuggestionRow {
                status: row.get(0)?,
                packet_kinds_json: row.get(1)?,
                ai_suggested: row.get(2)?,
                rationale: row.get(3)?,
            })
        });
        let spent = queue.spent_keys("wi_email_m1");
        let plan = append_ai_packet_kinds(
            CLIENT,
            "wi_email_m1",
            &suggested,
            "asks for a call",
            now_ms,
            &current,
            &spent,
        )
        .expect("plan")
        .expect("something to add");
        let key = plan.idempotency_key.to_string();
        (key, queue.run(plan).expect("append"))
    };
    let rounds = [
        ("ai_suggest_kinds:wi_email_m1:crm_activity,follow_up_task", "remove_1", 2),
        ("ai_suggest_kinds:wi_email_m1:crm_activity,follow_up_task:again", "remove_2", 4),
        ("ai_suggest_kinds:wi_email_m1:crm_activity,follow_up_task:again:again", "remove_3", 6),
    ];
    for (key, removal, expected) in rounds {
        let (used, outcome) = append(&mut queue, 3_000);
        assert_eq!(used, key);
        assert!(matches!(outcome, MutationOutcome::Applied { revision, .. } if revision == expected));
        assert_eq!(kinds(&queue), merged);
        let outcome = queue
            .set_kinds(action_ctx(removal, Some(expected)), "wi_email_m1", &before)
            .expect("removal");
        assert!(outcome.is_applied());
        assert_eq!(kinds(&queue), before);
    }
    assert_eq!(queue.spent_keys("wi_email_m1").len(), 3);
    assert!(queue.spent_keys("wi_email_m").is_empty());
}

#[test]
fn listings_are_newest_first_and_in_scope() {
    let mut queue = Queue::open();
    let mut insert = |id: &str, source: Option<&str>, visible: &[&str], now_ms: u64| {
        let mut item = shared_visible_work_item(id, source, visible);
        item.created_at_ms = now_ms;
        item.updated_at_ms = now_ms;
        queue.insert(&item).expect("insert");
    };
    insert("wi_email_a", Some("u1"), &["u1"], 1_000);
    insert("wi_email_b", Some("u2"), &["u2", "u1"], 3_000);
    insert("wi_email_c", None, &[], 2_000);
    insert("wi_email_d", Some("u1"), &["u1"], 3_000);
    insert("wi_email_e", Some("u2"), &["u2"], 4_000);
    queue.act(action_ctx("a1", None), "wi_email_e", ItemAction::Dismiss).expect("dismiss");
    let ids = |status, limit, scope: &OperatorScope| -> Vec<String> {
        every(&queue.conn, &list_items_query(CLIENT, status, limit, scope), item_row)
            .into_iter()
            .map(|row| row.item_id)
            .collect()
    };
    let open = Some(WorkItemStatus::Open);
    assert_eq!(
        ids(open, 10, &OperatorScope::All),
        strings(&["wi_email_d", "wi_email_b", "wi_email_c", "wi_email_a"])
    );
    assert_eq!(ids(open, 2, &OperatorScope::All), strings(&["wi_email_d", "wi_email_b"]));
    assert_eq!(
        ids(open, usize::MAX, &OperatorScope::All),
        ids(open, 10, &OperatorScope::All)
    );
    assert_eq!(ids(open, 0, &OperatorScope::All), strings(&[]));
    assert_eq!(
        ids(open, 10, &user("u1")),
        strings(&["wi_email_d", "wi_email_b", "wi_email_a"])
    );
    assert_eq!(ids(None, 10, &user("u2")), strings(&["wi_email_e", "wi_email_b"]));
    assert_eq!(ids(None, 10, &user("u3")), strings(&[]));
    assert_eq!(
        ids(Some(WorkItemStatus::Dismissed), 10, &OperatorScope::All),
        strings(&["wi_email_e"])
    );
    assert!(every(&queue.conn, &list_items_query("other", None, 10, &OperatorScope::All), item_row)
        .is_empty());
}

#[test]
fn system_acceptance_is_recorded_as_the_systems() {
    let mut queue = Queue::open();
    insert_work_item(&mut queue, "wi_email_m1", Some("u1"));
    let plan = system_accept_item(
        CLIENT,
        "wi_email_m1",
        "auto_accept",
        Some(1),
        "sys_1",
        3_000,
        &queue.status_row("wi_email_m1"),
    )
    .expect("plan");
    assert_eq!(plan.actor_kind, ActorKindDto::System);
    queue.run(plan).expect("accept");
    let item = queue.item("wi_email_m1").expect("item");
    assert_eq!(item.item.status, WorkItemStatus::Accepted);
    assert_eq!(queue.status_row("wi_email_m1").expect("row").accept_actor.as_deref(), Some("system"));
    queue
        .act(action_ctx("reopen", Some(2)), "wi_email_m1", ItemAction::Reopen)
        .expect("reopen");
    assert_eq!(queue.status_row("wi_email_m1").expect("row").accept_actor, None);
    assert!(matches!(
        system_accept_item(CLIENT, "missing", "auto_accept", None, "sys_2", 3_000, &None),
        Err(StoreError::Domain(code)) if code == "work_item_not_found"
    ));
}

#[test]
fn statuses_are_counted_by_source() {
    let mut queue = Queue::open();
    for id in ["wi_email_a", "wi_email_b", "wi_email_c"] {
        insert_work_item(&mut queue, id, None);
    }
    queue
        .act(action_ctx("a1", None), "wi_email_b", ItemAction::Accept)
        .expect("accept");
    let statuses: Vec<Option<String>> = ["a", "b", "c", "missing"]
        .iter()
        .map(|source| {
            first(&queue.conn, &source_status_query(CLIENT, "email", source), |row| row.get(0))
        })
        .collect();
    assert_eq!(
        status_counts_for_sources(&statuses),
        vec![("accepted".to_string(), 1), ("open".to_string(), 2)]
    );
}

#[test]
fn policies_are_listed_by_category() {
    let mut queue = Queue::open();
    service_policy(&mut queue, true, &["crm_activity"]);
    queue.upsert_policy(&billing_policy(true), "p1", 1_500).expect("policy");
    let categories: Vec<String> =
        every(&queue.conn, &list_policies(CLIENT), |row| row.get(0));
    assert_eq!(categories, strings(&[CATEGORY_ID, "billing"]));
    assert!(list_policies("other-client").binds.contains(&SqlValue::Text("other-client".to_string())));
}

#[test]
fn sanitized_policies_are_stable() {
    let raw = policy(
        FALLBACK_CATEGORY_ID,
        true,
        &["crm_activity"],
        &["follow_up_task"],
        WorkQueueAiGmailScope::Default,
        &[],
        true,
    );
    let once = sanitize_policy(&raw).expect("policy");
    assert_eq!(sanitize_policy(&once).expect("policy"), once);
    assert!(matches!(
        sanitize_policy(&policy("  ", true, &[], &[], WorkQueueAiGmailScope::Default, &[], false)),
        Err(StoreError::Domain(code)) if code == "work_queue_category_required"
    ));
}

#[test]
fn html_bodies_are_recognized_by_their_head() {
    assert!(looks_like_html("  <!DOCTYPE html><p>x"));
    assert!(looks_like_html("Hello <BR> there"));
    assert!(!looks_like_html("a < b and c > d"));
    let late = format!("{}<div>", "x".repeat(512));
    assert!(!looks_like_html(&late));
    let just = format!("{}<div>", "x".repeat(508));
    assert!(looks_like_html(&just));
}

#[test]
fn storing_a_source_again_replays_quietly() {
    let mut queue = Queue::open();
    insert_work_item(&mut queue, "wi_email_m1", None);
    let mut again = shared_visible_work_item("wi_email_m1", None, &[]);
    again.title = "Another title".to_string();
    let outcome = queue.insert(&again).expect("insert again");
    assert!(matches!(outcome, MutationOutcome::ReplayedIdempotent { revision: Some(1), .. }));
    assert_eq!(queue.all().len(), 1);
    assert_eq!(queue.item("wi_email_m1").expect("item").item.title, "Item wi_email_m1");
}

#[test]
fn stored_items_read_back_as_they_were() {
    let mut queue = Queue::open();
    let mut item = shared_visible_work_item("wi_email_m1", Some("u1"), &["u1", "u2"]);
    item.packet_kinds = strings(&["crm_activity", "ledger_entry"]);
    item.status = WorkItemStatus::Accepted;
    item.accept_actor = Some(WorkItemAcceptActor::Operator);
    item.ai_suggested = true;
    item.rationale = "says \"bill\"".to_string();
    item.produce_guidance = "be brief".to_string();
    item.assignee_user_id = Some("u2".to_string());
    queue.insert(&item).expect("insert");
    let stored = queue.item("wi_email_m1").expect("item");
    assert_eq!(stored.item, item);
    assert_eq!(stored.revision, 1);
}
