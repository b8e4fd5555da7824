//! The queue feed: stored items decorated with the cross-slice signals — staged
//! drafts awaiting a decision ("needs you"), kinds that are about to be drafted
//! ("drafting…", so the item stays visible while the operator waits), and what
//! went wrong.

use vstd::prelude::*;

use crate::contracts::email_identity::{AttentionLevel, AttentionSignal};
use crate::contracts::packet_proposals::{
    PacketProposalKindOutcome, PacketProposalKindOutcomeStatus, PacketProposalRunStatus,
};
use crate::contracts::work_queue::{
    WorkItemAttentionSummary, WorkItemFailureNotification, WorkItemStatus, WorkItemWithRevision,
};
use crate::http::{scope_owns, OperatorScope, ScopeView};
use crate::json::{stored_strings, strings_or_none};
use crate::lists::{merge_into, merged};
use crate::sql::{
    bind_text, placeholder_list, placeholders, statement, SqlStatement, SqlValue, SqlView,
    StatementView,
};
use crate::text::{list_has, same_text};
use super::items::bind_texts;
use super::model::{copy_texts, AttentionView, EntryView, FailureView};
use super::service::{
    attention_summary, is_automatic_actor, is_automatic_packet_proposal_actor, label_of_kind,
    packet_label, packet_proposal_failure_message, packet_proposal_status_from_str, packet_title,
    proposal_message, proposal_status_of, summary_of,
};
use super::store::optional_str;
use super::SOURCE_KIND_EMAIL;

verus! {

/// How far back a failed draft generation is shown.
pub const PRODUCE_FAILURE_LOOKBACK_MS: u64 = 604_800_000;

/// The earliest moment whose draft generations are looked at.
pub fn produce_failures_since(now_ms: u64) -> (r: u64)
    ensures
        r == (if now_ms >= PRODUCE_FAILURE_LOOKBACK_MS {
            (now_ms - PRODUCE_FAILURE_LOOKBACK_MS) as u64
        } else {
            0u64
        }),
{
    now_ms.saturating_sub(PRODUCE_FAILURE_LOOKBACK_MS)
}

/// One draft generation, as the usage log keeps it.
#[derive(Debug, Clone, PartialEq, Eq)]
pub struct UsageRow {
    pub usage_id: String,
    /// The item it was for.
    pub correlation_id: String,
    /// The packet kind of its purpose, where it has one.
    pub packet_kind: Option<String>,
    pub success: bool,
    pub error_code: Option<String>,
    pub recorded_at_ms: u64,
}

/// One outbox job that has an error, with the draft it delivers.
#[derive(Debug, Clone, PartialEq, Eq)]
pub struct OutboxFailureRow {
    pub item_id: String,
    pub packet_kind: String,
    pub job_id: String,
    pub status: String,
    pub updated_at_ms: u64,
}

/// One smart-draft run.
#[derive(Debug, Clone, PartialEq, Eq)]
pub struct ProposalRow {
    pub run_id: String,
    pub item_id: String,
    pub status: String,
    pub candidate_packet_kinds: Vec<String>,
    pub outcomes: Vec<PacketProposalKindOutcome>,
    pub error_code: Option<String>,
    pub updated_at_ms: u64,
    /// Who started the run.
    pub start_actor_id: Option<String>,
}

/// The columns of a smart-draft run that the feed reads.
#[derive(Debug, Clone, PartialEq, Eq)]
pub struct ProposalColumns {
    pub run_id: String,
    pub item_id: String,
    pub status: String,
    pub candidate_packet_kinds_json: String,
    pub error_code: Option<String>,
    pub updated_at_ms: u64,
    pub start_actor_id: Option<String>,
}

/// A smart-draft run as its columns say it. Candidates that cannot be read count
/// as none; `outcomes` are those that its outcomes column says.
pub fn proposal_from_columns(
    columns: ProposalColumns,
    outcomes: Vec<PacketProposalKindOutcome>,
) -> (r: ProposalRow)
    ensures
        r.run_id == columns.run_id,
        r.item_id == columns.item_id,
        r.status == columns.status,
        r.candidate_packet_kinds.deep_view() == stored_strings(
            columns.candidate_packet_kinds_json@,
        ),
        r.outcomes == outcomes,
        r.error_code == columns.error_code,
        r.updated_at_ms == columns.updated_at_ms,
        r.start_actor_id == columns.start_actor_id,
{
    let candidate_packet_kinds: Vec<String> = strings_or_none(
        columns.candidate_packet_kinds_json.as_str(),
    );
    ProposalRow {
        run_id: columns.run_id,
        item_id: columns.item_id,
        status: columns.status,
        candidate_packet_kinds,
        outcomes,
        error_code: columns.error_code,
        updated_at_ms: columns.updated_at_ms,
        start_actor_id: columns.start_actor_id,
    }
}

/// The entity kinds under which the drafts of each table are delivered.
#[derive(Debug, Clone, PartialEq, Eq)]
pub struct DraftEntityKinds {
    pub calendar_event: String,
    pub crm_note: String,
    pub crm_record: String,
    pub email_reply: String,
    pub invoice: String,
    pub ledger_entry: String,
    pub claim: String,
}

/// The client, and behind it the listed items.
pub open spec fn client_and_items(client_id: Seq<char>, item_ids: Seq<Seq<char>>) -> Seq<SqlView> {
    seq![SqlView::Text(client_id)] + item_ids.map_values(|id: Seq<char>| SqlView::Text(id))
}

fn bind_client_and_items(client_id: &str, item_ids: &Vec<String>) -> (r: Vec<SqlValue>)
    ensures
        r.deep_view() == client_and_items(client_id@, item_ids.deep_view()),
{
    let mut binds: Vec<SqlValue> = vec![bind_text(client_id)];
    let ghost head = binds.deep_view();
    let mut ids: Vec<SqlValue> = bind_texts(item_ids);
    let ghost tail = ids.deep_view();
    binds.append(&mut ids);
    proof {
        assert(head =~= seq![SqlView::Text(client_id@)]);
        assert(binds.deep_view() =~= head + tail);
    }
    binds
}

/// The query of the outbox jobs with an error that deliver drafts of listed
/// accepted items, the latest first.
pub open spec fn outbox_query(
    client_id: Seq<char>,
    item_ids: Seq<Seq<char>>,
    kinds: DraftEntityKinds,
) -> StatementView {
    StatementView {
        sql: "SELECT d.item_id, d.packet_kind, j.job_id, j.provider, j.capability, j.status, j.attempts, j.last_error, j.updated_at_ms FROM outbox_jobs j JOIN ( SELECT client_id, draft_id, item_id, '"@
            + kinds.calendar_event@
            + "' AS source_entity_kind, 'calendar_event_draft' AS packet_kind FROM calendar_event_drafts UNION ALL SELECT client_id, draft_id, item_id, '"@
            + kinds.crm_note@
            + "', 'crm_activity' FROM crm_note_drafts UNION ALL SELECT client_id, draft_id, item_id, '"@
            + kinds.crm_record@
            + "', 'crm_record_create' FROM crm_record_drafts UNION ALL SELECT client_id, draft_id, item_id, '"@
            + kinds.email_reply@
            + "', 'email_draft_reply' FROM email_reply_drafts UNION ALL SELECT client_id, draft_id, item_id, '"@
            + kinds.invoice@
            + "', 'invoice_draft' FROM invoice_drafts UNION ALL SELECT client_id, draft_id, item_id, '"@
            + kinds.ledger_entry@
            + "', 'ledger_entry' FROM ledger_entry_drafts UNION ALL SELECT client_id, draft_id, item_id, '"@
            + kinds.claim@
            + "', 'claim_draft' FROM claim_drafts ) d ON d.client_id = j.client_id AND d.source_entity_kind = j.source_entity_kind AND d.draft_id = j.source_entity_id JOIN work_items w ON w.client_id = j.client_id AND w.item_id = d.item_id WHERE j.client_id = ? AND w.status = 'accepted' AND j.last_error IS NOT NULL AND d.item_id IN ("@
            + placeholder_list(item_ids.len())
            + ") ORDER BY j.updated_at_ms DESC, j.job_id DESC"@,
        binds: client_and_items(client_id, item_ids),
    }
}

/// The query of the failed deliveries of listed items; none where nothing is
/// listed.
pub fn outbox_failures_query(
    client_id: &str,
    item_ids: &Vec<String>,
    kinds: &DraftEntityKinds,
) -> (r: Option<SqlStatement>)
    ensures
        r.deep_view() == (if item_ids.len() == 0 {
            None
        } else {
            Some(outbox_query(client_id@, item_ids.deep_view(), *kinds))
        }),
{
    if item_ids.len() == 0 {
        return None;
    }
    let sql: String =
        "SELECT d.item_id, d.packet_kind, j.job_id, j.provider, j.capability, j.status, j.attempts, j.last_error, j.updated_at_ms FROM outbox_jobs j JOIN ( SELECT client_id, draft_id, item_id, '".to_owned().concat(
        kinds.calendar_event.as_str(),
    ).concat(
        "' AS source_entity_kind, 'calendar_event_draft' AS packet_kind FROM calendar_event_drafts UNION ALL SELECT client_id, draft_id, item_id, '",
    ).concat(kinds.crm_note.as_str()).concat(
        "', 'crm_activity' FROM crm_note_drafts UNION ALL SELECT client_id, draft_id, item_id, '",
    ).concat(kinds.crm_record.as_str()).concat(
        "', 'crm_record_create' FROM crm_record_drafts UNION ALL SELECT client_id, draft_id, item_id, '",
    ).concat(kinds.email_reply.as_str()).concat(
        "', 'email_draft_reply' FROM email_reply_drafts UNION ALL SELECT client_id, draft_id, item_id, '",
    ).concat(kinds.invoice.as_str()).concat(
        "', 'invoice_draft' FROM invoice_drafts UNION ALL SELECT client_id, draft_id, item_id, '",
    ).concat(kinds.ledger_entry.as_str()).concat(
        "', 'ledger_entry' FROM ledger_entry_drafts UNION ALL SELECT client_id, draft_id, item_id, '",
    ).concat(kinds.claim.as_str()).concat(
        "', 'claim_draft' FROM claim_drafts ) d ON d.client_id = j.client_id AND d.source_entity_kind = j.source_entity_kind AND d.draft_id = j.source_entity_id JOIN work_items w ON w.client_id = j.client_id AND w.item_id = d.item_id WHERE j.client_id = ? AND w.status = 'accepted' AND j.last_error IS NOT NULL AND d.item_id IN (",
    ).concat(placeholders(item_ids.len()).as_str()).concat(
        ") ORDER BY j.updated_at_ms DESC, j.job_id DESC",
    );
    Some(statement(sql.as_str(), bind_client_and_items(client_id, item_ids)))
}

/// The query of the smart-draft runs of listed items, the latest first, each with
/// the actor that started it.
pub open spec fn proposal_query(client_id: Seq<char>, item_ids: Seq<Seq<char>>) -> StatementView {
    StatementView {
        sql: "SELECT p.run_id, p.item_id, p.status, p.candidate_packet_kinds_json, p.outcomes_json, p.error_code, p.updated_at_ms, (SELECT r.actor_id FROM receipts r WHERE r.client_id = p.client_id AND r.entity_kind = 'packet_proposal_run' AND r.entity_id = p.run_id AND r.change_kind = 'start' ORDER BY r.created_at_ms ASC, r.receipt_id ASC LIMIT 1) AS start_actor_id FROM packet_proposal_runs p WHERE p.client_id = ? AND p.item_id IN ("@
            + placeholder_list(item_ids.len())
            + ") AND p.status IN ('running', 'completed', 'failed') ORDER BY p.updated_at_ms DESC, p.run_id DESC"@,
        binds: client_and_items(client_id, item_ids),
    }
}

/// The query of the smart-draft runs of listed items; none where nothing is
/// listed.
pub fn proposal_runs_query(client_id: &str, item_ids: &Vec<String>) -> (r: Option<SqlStatement>)
    ensures
        r.deep_view() == (if item_ids.len() == 0 {
            None
        } else {
            Some(proposal_query(client_id@, item_ids.deep_view()))
        }),
{
    if item_ids.len() == 0 {
        return None;
    }
    let sql: String =
        "SELECT p.run_id, p.item_id, p.status, p.candidate_packet_kinds_json, p.outcomes_json, p.error_code, p.updated_at_ms, (SELECT r.actor_id FROM receipts r WHERE r.client_id = p.client_id AND r.entity_kind = 'packet_proposal_run' AND r.entity_id = p.run_id AND r.change_kind = 'start' ORDER BY r.created_at_ms ASC, r.receipt_id ASC LIMIT 1) AS start_actor_id FROM packet_proposal_runs p WHERE p.client_id = ? AND p.item_id IN (".to_owned().concat(
        placeholders(item_ids.len()).as_str(),
    ).concat(
        ") AND p.status IN ('running', 'completed', 'failed') ORDER BY p.updated_at_ms DESC, p.run_id DESC",
    );
    Some(statement(sql.as_str(), bind_client_and_items(client_id, item_ids)))
}

/// What the feed is decorated with. Rows stand newest first.
#[derive(Debug)]
pub struct FeedSignals {
    /// The kinds with a staged draft, by item.
    pub staged: Vec<(String, Vec<String>)>,
    pub usage: Vec<UsageRow>,
    pub outbox_failures: Vec<OutboxFailureRow>,
    pub proposals: Vec<ProposalRow>,
    /// The `(item_id, kind)` pairs that auto-produce is about to draft.
    pub auto_produce_candidates: Vec<(String, String)>,
    /// The strongest attention signal of each email that has one, by source.
    pub attention: Vec<(String, AttentionSignal)>,
}

/// How the feed is read.
#[derive(Debug)]
pub struct FeedOptions<'a> {
    /// The effective runtime setting, including stored admin overrides.
    pub auto_produce_running: bool,
    pub debug_enabled: bool,
    /// The `(item_id, kind)` pairs that are being drafted right now.
    pub in_flight: &'a Vec<(String, String)>,
    pub accounting_provider: Option<&'a str>,
}

/// The diagnostic id, where diagnostics are shown.
pub open spec fn shown_diagnostic(debug_enabled: bool, diagnostic_id: Seq<char>) -> Option<
    Seq<char>,
> {
    if debug_enabled {
        Some(diagnostic_id)
    } else {
        None
    }
}

/// The link to a diagnostic, where diagnostics are shown.
pub open spec fn shown_href(debug_enabled: bool, diagnostic_id: Seq<char>) -> Option<Seq<char>> {
    if debug_enabled {
        Some("#debug/"@ + diagnostic_id)
    } else {
        None
    }
}

fn diagnostic(debug_enabled: bool, diagnostic_id: String) -> (r: (Option<String>, Option<String>))
    ensures
        r.0.deep_view() == shown_href(debug_enabled, diagnostic_id@),
        r.1.deep_view() == shown_diagnostic(debug_enabled, diagnostic_id@),
{
    if debug_enabled {
        (Some("#debug/".to_owned().concat(diagnostic_id.as_str())), Some(diagnostic_id))
    } else {
        (None, None)
    }
}

/// The notification of a failed draft generation.
pub open spec fn produce_failure(
    row: UsageRow,
    kind: Seq<char>,
    debug_enabled: bool,
    provider: Option<Seq<char>>,
) -> FailureView {
    FailureView {
        notification_id: "ai_produce:"@ + kind + ":"@ + (match row.error_code {
            Some(code) => code@,
            None => "llm_failed"@,
        }),
        source: "ai_produce"@,
        packet_kind: Some(kind),
        title: "Draft generation failed"@,
        message: label_of_kind(kind, provider) + " could not be generated."@,
        next_action: Some("Open Drafts to retry this item."@),
        diagnostic_href: shown_href(debug_enabled, "llm:"@ + row.usage_id@),
        diagnostic_id: shown_diagnostic(debug_enabled, "llm:"@ + row.usage_id@),
        error_code: row.error_code.deep_view(),
        occurred_at_ms: row.recorded_at_ms,
    }
}

fn produce_failure_notification(
    row: &UsageRow,
    kind: &str,
    debug_enabled: bool,
    accounting_provider: Option<&str>,
) -> (r: WorkItemFailureNotification)
    ensures
        r.deep_view() == produce_failure(
            *row,
            kind@,
            debug_enabled,
            accounting_provider.deep_view(),
        ),
{
    let code: &str = match &row.error_code {
        Some(code) => code.as_str(),
        None => "llm_failed",
    };
    let (diagnostic_href, diagnostic_id) = diagnostic(
        debug_enabled,
        "llm:".to_owned().concat(row.usage_id.as_str()),
    );
    WorkItemFailureNotification {
        notification_id: "ai_produce:".to_owned().concat(kind).concat(":").concat(code),
        source: "ai_produce".to_owned(),
        packet_kind: Some(kind.to_owned()),
        title: "Draft generation failed".to_owned(),
        message: packet_title(kind, accounting_provider),
        next_action: Some("Open Drafts to retry this item.".to_owned()),
        diagnostic_href,
        diagnostic_id,
        error_code: row.error_code.clone(),
        occurred_at_ms: row.recorded_at_ms,
    }
}

/// The row is a generation of this kind for this item.
pub open spec fn generates(row: UsageRow, item_id: Seq<char>, kind: Seq<char>) -> bool {
    row.correlation_id@ == item_id && row.packet_kind.deep_view() == Some(kind)
}

/// One of the rows is a generation of this kind for this item.
pub open spec fn generated_in(rows: Seq<UsageRow>, item_id: Seq<char>, kind: Seq<char>) -> bool {
    exists|i: int| 0 <= i < rows.len() && generates(#[trigger] rows[i], item_id, kind)
}

/// The failed generations of an item's kinds: of each kind only the latest
/// generation counts, so a retry that succeeded takes the failure away.
pub open spec fn produce_failures(
    rows: Seq<UsageRow>,
    item_id: Seq<char>,
    packet_kinds: Seq<Seq<char>>,
    debug_enabled: bool,
    provider: Option<Seq<char>>,
) -> Seq<FailureView>
    decreases rows.len(),
{
    if rows.len() == 0 {
        Seq::empty()
    } else {
        let so_far = produce_failures(
            rows.drop_last(),
            item_id,
            packet_kinds,
            debug_enabled,
            provider,
        );
        let row = rows.last();
        match row.packet_kind {
            Some(kind) => if row.correlation_id@ == item_id && packet_kinds.contains(kind@)
                && !generated_in(rows.drop_last(), item_id, kind@) && !row.success {
                so_far.push(produce_failure(row, kind@, debug_enabled, provider))
            } else {
                so_far
            },
            None => so_far,
        }
    }
}

pub fn produce_failure_notifications(
    rows: &Vec<UsageRow>,
    item_id: &str,
    packet_kinds: &Vec<String>,
    debug_enabled: bool,
    accounting_provider: Option<&str>,
) -> (r: Vec<WorkItemFailureNotification>)
    ensures
        r.deep_view() == produce_failures(
            rows@,
            item_id@,
            packet_kinds.deep_view(),
            debug_enabled,
            accounting_provider.deep_view(),
        ),
{
    let mut out: Vec<WorkItemFailureNotification> = Vec::new();
    let mut seen: Vec<String> = Vec::new();
    let ghost kinds = packet_kinds.deep_view();
    let ghost provider = accounting_provider.deep_view();
    let mut i: usize = 0;
    proof {
        assert(out.deep_view() =~= produce_failures(
            rows@.take(0),
            item_id@,
            kinds,
            debug_enabled,
            provider,
        ));
    }
    while i < rows.len()
        invariant
            i <= rows.len(),
            kinds == packet_kinds.deep_view(),
            provider == accounting_provider.deep_view(),
            forall|kind: Seq<char>|
                kinds.contains(kind) ==> (#[trigger] seen.deep_view().contains(kind)
                    <==> generated_in(rows@.take(i as int), item_id@, kind)),
            out.deep_view() == produce_failures(
                rows@.take(i as int),
                item_id@,
                kinds,
                debug_enabled,
                provider,
            ),
        decreases rows.len() - i,
    {
        let row: &UsageRow = &rows[i];
        let ghost before = out.deep_view();
        let ghost had = seen.deep_view();
        let ghost past = rows@.take(i as int);
        let ghost now = rows@.take(i + 1);
        proof {
            assert(now.drop_last() =~= past);
            assert(now.last() == rows@[i as int]);
            assert forall|kind: Seq<char>| #[trigger]
                generated_in(now, item_id@, kind) <==> generated_in(past, item_id@, kind)
                || generates(rows@[i as int], item_id@, kind) by {
                if generated_in(past, item_id@, kind) {
                    let k = choose|k: int|
                        0 <= k < past.len() && generates(#[trigger] past[k], item_id@, kind);
                    assert(now[k] == past[k]);
                }
                if generates(rows@[i as int], item_id@, kind) {
                    assert(now[i as int] == rows@[i as int]);
                }
                if generated_in(now, item_id@, kind) {
                    let k = choose|k: int|
                        0 <= k < now.len() && generates(#[trigger] now[k], item_id@, kind);
                    if k < i {
                        assert(past[k] == now[k]);
                    }
                }
            }
        }
        if let Some(kind) = &row.packet_kind {
            if same_text(row.correlation_id.as_str(), item_id) && list_has(
                packet_kinds,
                kind.as_str(),
            ) {
                if !list_has(&seen, kind.as_str()) {
                    seen.push(kind.clone());
                    proof {
                        assert(seen.deep_view() =~= had.push(kind@));
                        assert forall|k: Seq<char>| #[trigger]
                            seen.deep_view().contains(k) <==> had.contains(k) || k == kind@ by {
                            if had.contains(k) {
                                let j = choose|j: int| 0 <= j < had.len() && had[j] == k;
                                assert(seen.deep_view()[j] == k);
                            }
                            assert(seen.deep_view()[had.len() as int] == kind@);
                            if seen.deep_view().contains(k) && k != kind@ {
                                let j = choose|j: int|
                                    0 <= j < seen.deep_view().len() && seen.deep_view()[j] == k;
                                assert(had[j] == k);
                            }
                        }
                    }
                    if !row.success {
                        let notification: WorkItemFailureNotification =
                            produce_failure_notification(
                            row,
                            kind.as_str(),
                            debug_enabled,
                            accounting_provider,
                        );
                        let ghost said = notification.deep_view();
                        out.push(notification);
                        proof {
                            assert(out.deep_view() =~= before.push(said));
                        }
                    }
                }
            }
        }
        proof {
            assert forall|kind: Seq<char>| kinds.contains(kind) implies (
            #[trigger] seen.deep_view().contains(kind) <==> generated_in(now, item_id@, kind)) by {
                assert(had.contains(kind) <==> generated_in(past, item_id@, kind));
            }
        }
        i += 1;
    }
    proof {
        assert(rows@.take(i as int) =~= rows@);
    }
    out
}

/// The notification of a failed delivery.
pub open spec fn delivery_failure(
    row: OutboxFailureRow,
    debug_enabled: bool,
    provider: Option<Seq<char>>,
) -> FailureView {
    FailureView {
        notification_id: "provider_delivery:"@ + row.job_id@ + ":"@ + row.status@,
        source: "provider_delivery"@,
        packet_kind: Some(row.packet_kind@),
        title: "Couldn't deliver draft"@,
        message: "We couldn't deliver your "@ + label_of_kind(row.packet_kind@, provider)
            + " — open the draft panel to see what happened or try again."@,
        next_action: Some("Open the draft panel to retry or see what went wrong."@),
        diagnostic_href: shown_href(debug_enabled, "outbox:"@ + row.job_id@),
        diagnostic_id: shown_diagnostic(debug_enabled, "outbox:"@ + row.job_id@),
        error_code: Some(row.status@),
        occurred_at_ms: row.updated_at_ms,
    }
}

fn delivery_failure_notification(
    row: &OutboxFailureRow,
    debug_enabled: bool,
    accounting_provider: Option<&str>,
) -> (r: WorkItemFailureNotification)
    ensures
        r.deep_view() == delivery_failure(*row, debug_enabled, accounting_provider.deep_view()),
{
    let (diagnostic_href, diagnostic_id) = diagnostic(
        debug_enabled,
        "outbox:".to_owned().concat(row.job_id.as_str()),
    );
    WorkItemFailureNotification {
        notification_id: "provider_delivery:".to_owned().concat(row.job_id.as_str()).concat(
            ":",
        ).concat(row.status.as_str()),
        source: "provider_delivery".to_owned(),
        packet_kind: Some(row.packet_kind.clone()),
        title: "Couldn't deliver draft".to_owned(),
        message: "We couldn't deliver your ".to_owned().concat(
            packet_label(row.packet_kind.as_str(), accounting_provider).as_str(),
        ).concat(" — open the draft panel to see what happened or try again."),
        next_action: Some("Open the draft panel to retry or see what went wrong.".to_owned()),
        diagnostic_href,
        diagnostic_id,
        error_code: Some(row.status.clone()),
        occurred_at_ms: row.updated_at_ms,
    }
}

/// One of the rows is of this job.
pub open spec fn job_in(rows: Seq<OutboxFailureRow>, job_id: Seq<char>) -> bool {
    exists|i: int| 0 <= i < rows.len() && (#[trigger] rows[i]).job_id@ == job_id
}

/// The failed deliveries of an item's drafts, each job once.
pub open spec fn delivery_failures(
    rows: Seq<OutboxFailureRow>,
    item_id: Seq<char>,
    debug_enabled: bool,
    provider: Option<Seq<char>>,
) -> Seq<FailureView>
    decreases rows.len(),
{
    if rows.len() == 0 {
        Seq::empty()
    } else {
        let so_far = delivery_failures(rows.drop_last(), item_id, debug_enabled, provider);
        let row = rows.last();
        if row.item_id@ == item_id && !job_in(rows.drop_last(), row.job_id@) {
            so_far.push(delivery_failure(row, debug_enabled, provider))
        } else {
            so_far
        }
    }
}

fn job_before(rows: &Vec<OutboxFailureRow>, n: usize, job_id: &str) -> (r: bool)
    requires
        n <= rows.len(),
    ensures
        r == job_in(rows@.take(n as int), job_id@),
{
    let mut i: usize = 0;
    while i < n
        invariant
            i <= n,
            n <= rows.len(),
            forall|j: int| 0 <= j < i ==> (#[trigger] rows@[j]).job_id@ != job_id@,
        decreases n - i,
    {
        if same_text(rows[i].job_id.as_str(), job_id) {
            assert(rows@.take(n as int)[i as int].job_id@ == job_id@);
            return true;
        }
        i += 1;
    }
    proof {
        assert forall|j: int| 0 <= j < n implies (#[trigger] rows@.take(n as int)[j]).job_id@
            != job_id@ by {
            assert(rows@.take(n as int)[j] == rows@[j]);
        }
    }
    false
}

pub fn outbox_failure_notifications(
    rows: &Vec<OutboxFailureRow>,
    item_id: &str,
    debug_enabled: bool,
    accounting_provider: Option<&str>,
) -> (r: Vec<WorkItemFailureNotification>)
    ensures
        r.deep_view() == delivery_failures(
            rows@,
            item_id@,
            debug_enabled,
            accounting_provider.deep_view(),
        ),
{
    let mut out: Vec<WorkItemFailureNotification> = Vec::new();
    let ghost provider = accounting_provider.deep_view();
    let mut i: usize = 0;
    proof {
        assert(out.deep_view() =~= delivery_failures(
            rows@.take(0),
            item_id@,
            debug_enabled,
            provider,
        ));
    }
    while i < rows.len()
        invariant
            i <= rows.len(),
            provider == accounting_provider.deep_view(),
            out.deep_view() == delivery_failures(
                rows@.take(i as int),
                item_id@,
                debug_enabled,
                provider,
            ),
        decreases rows.len() - i,
    {
        let row: &OutboxFailureRow = &rows[i];
        let ghost before = out.deep_view();
        proof {
            assert(rows@.take(i + 1).drop_last() =~= rows@.take(i as int));
            assert(rows@.take(i + 1).last() == rows@[i as int]);
        }
        if same_text(row.item_id.as_str(), item_id) && !job_before(rows, i, row.job_id.as_str()) {
            let notification: WorkItemFailureNotification = delivery_failure_notification(
                row,
                debug_enabled,
                accounting_provider,
            );
            let ghost said = notification.deep_view();
            out.push(notification);
            proof {
                assert(out.deep_view() =~= before.push(said));
            }
        }
        i += 1;
    }
    proof {
        assert(rows@.take(i as int) =~= rows@);
    }
    out
}

/// One of the outcomes is a draft.
pub open spec fn drafted_any(outcomes: Seq<PacketProposalKindOutcome>) -> bool {
    exists|i: int|
        0 <= i < outcomes.len() && (#[trigger] outcomes[i]).status
            == PacketProposalKindOutcomeStatus::Drafted
}

fn any_drafted(outcomes: &Vec<PacketProposalKindOutcome>) -> (r: bool)
    ensures
        r == drafted_any(outcomes@),
{
    let mut i: usize = 0;
    while i < outcomes.len()
        invariant
            i <= outcomes.len(),
            forall|j: int|
                0 <= j < i ==> (#[trigger] outcomes@[j]).status
                    != PacketProposalKindOutcomeStatus::Drafted,
        decreases outcomes.len() - i,
    {
        if outcomes[i].status == PacketProposalKindOutcomeStatus::Drafted {
            assert(outcomes@[i as int].status == PacketProposalKindOutcomeStatus::Drafted);
            return true;
        }
        i += 1;
    }
    false
}

/// The notification of a run that failed or drafted nothing.
pub open spec fn proposal_failure(
    row: ProposalRow,
    debug_enabled: bool,
    provider: Option<Seq<char>>,
) -> FailureView {
    let status = proposal_status_of(row.status@);
    FailureView {
        notification_id: "smart_draft:"@ + row.run_id@ + ":"@ + row.status@,
        source: "smart_draft"@,
        packet_kind: None,
        title: if status == PacketProposalRunStatus::Failed {
            "Smart draft failed"@
        } else {
            "Smart draft produced no drafts"@
        },
        message: proposal_message(
            status,
            row.outcomes@,
            row.error_code.deep_view(),
            provider,
        ),
        next_action: Some("Open Smart draft again after adjusting the item or source."@),
        diagnostic_href: shown_href(debug_enabled, "packet_proposal:"@ + row.run_id@),
        diagnostic_id: shown_diagnostic(debug_enabled, "packet_proposal:"@ + row.run_id@),
        error_code: row.error_code.deep_view(),
        occurred_at_ms: row.updated_at_ms,
    }
}

fn proposal_failure_notification(
    row: &ProposalRow,
    debug_enabled: bool,
    accounting_provider: Option<&str>,
) -> (r: WorkItemFailureNotification)
    ensures
        r.deep_view() == proposal_failure(*row, debug_enabled, accounting_provider.deep_view()),
{
    let status: PacketProposalRunStatus = packet_proposal_status_from_str(row.status.as_str());
    let title: &str = if status == PacketProposalRunStatus::Failed {
        "Smart draft failed"
    } else {
        "Smart draft produced no drafts"
    };
    let (diagnostic_href, diagnostic_id) = diagnostic(
        debug_enabled,
        "packet_proposal:".to_owned().concat(row.run_id.as_str()),
    );
    WorkItemFailureNotification {
        notification_id: "smart_draft:".to_owned().concat(row.run_id.as_str()).concat(":").concat(
            row.status.as_str(),
        ),
        source: "smart_draft".to_owned(),
        packet_kind: None,
        title: title.to_owned(),
        message: packet_proposal_failure_message(
            status,
            &row.outcomes,
            optional_str(&row.error_code),
            accounting_provider,
        ),
        next_action: Some(
            "Open Smart draft again after adjusting the item or source.".to_owned(),
        ),
        diagnostic_href,
        diagnostic_id,
        error_code: row.error_code.clone(),
        occurred_at_ms: row.updated_at_ms,
    }
}

/// The newest run of an item, where it has one.
pub open spec fn newest_run(rows: Seq<ProposalRow>, item_id: Seq<char>) -> Option<ProposalRow>
    decreases rows.len(),
{
    if rows.len() == 0 {
        None
    } else if rows[0].item_id@ == item_id {
        Some(rows[0])
    } else {
        newest_run(rows.drop_first(), item_id)
    }
}

/// A run that an operator is told of: it failed, or it finished without a draft
/// and an operator had started it.
pub open spec fn wants_notice(row: ProposalRow) -> bool {
    match proposal_status_of(row.status@) {
        PacketProposalRunStatus::Running => false,
        PacketProposalRunStatus::Failed => true,
        PacketProposalRunStatus::Completed => !drafted_any(row.outcomes@) && !is_automatic_actor(
            row.start_actor_id.deep_view(),
        ),
    }
}

/// What an operator is told of an item's runs: only the newest counts, so a retry
/// that is running takes an older failure away.
pub open spec fn proposal_failures(
    rows: Seq<ProposalRow>,
    item_id: Seq<char>,
    debug_enabled: bool,
    provider: Option<Seq<char>>,
) -> Seq<FailureView> {
    match newest_run(rows, item_id) {
        Some(row) => if wants_notice(row) {
            seq![proposal_failure(row, debug_enabled, provider)]
        } else {
            Seq::empty()
        },
        None => Seq::empty(),
    }
}

/// The kinds that an item's running runs may draft, each once.
pub open spec fn running_kinds(rows: Seq<ProposalRow>, item_id: Seq<char>) -> Seq<Seq<char>>
    decreases rows.len(),
{
    if rows.len() == 0 {
        Seq::empty()
    } else {
        let so_far = running_kinds(rows.drop_last(), item_id);
        let row = rows.last();
        if row.item_id@ == item_id && proposal_status_of(row.status@)
            == PacketProposalRunStatus::Running {
            merged(so_far, row.candidate_packet_kinds.deep_view())
        } else {
            so_far
        }
    }
}

/// The signals of an item's smart-draft runs: the kinds that running ones may
/// draft, and what an operator is told of the newest.
pub fn packet_proposal_signals(
    rows: &Vec<ProposalRow>,
    item_id: &str,
    debug_enabled: bool,
    accounting_provider: Option<&str>,
) -> (r: (Vec<String>, Vec<WorkItemFailureNotification>))
    ensures
        r.0.deep_view() == running_kinds(rows@, item_id@),
        r.1.deep_view() == proposal_failures(
            rows@,
            item_id@,
            debug_enabled,
            accounting_provider.deep_view(),
        ),
{
    let mut pending: Vec<String> = Vec::new();
    let mut failures: Vec<WorkItemFailureNotification> = Vec::new();
    let mut seen: bool = false;
    let ghost provider = accounting_provider.deep_view();
    let mut i: usize = 0;
    proof {
        assert(pending.deep_view() =~= running_kinds(rows@.take(0), item_id@));
        assert(failures.deep_view() =~= Seq::<FailureView>::empty());
        assert(rows@.skip(0) =~= rows@);
    }
    while i < rows.len()
        invariant
            i <= rows.len(),
            provider == accounting_provider.deep_view(),
            pending.deep_view() == running_kinds(rows@.take(i as int), item_id@),
            !seen ==> failures.deep_view() == Seq::<FailureView>::empty() && newest_run(
                rows@,
                item_id@,
            ) == newest_run(rows@.skip(i as int), item_id@),
            seen ==> failures.deep_view() == proposal_failures(
                rows@,
                item_id@,
                debug_enabled,
                provider,
            ),
        decreases rows.len() - i,
    {
        let row: &ProposalRow = &rows[i];
        proof {
            assert(rows@.take(i + 1).drop_last() =~= rows@.take(i as int));
            assert(rows@.take(i + 1).last() == rows@[i as int]);
            assert(rows@.skip(i as int)[0] == rows@[i as int]);
            assert(rows@.skip(i as int).drop_first() =~= rows@.skip(i + 1));
        }
        if same_text(row.item_id.as_str(), item_id) {
            let status: PacketProposalRunStatus = packet_proposal_status_from_str(
                row.status.as_str(),
            );
            if status == PacketProposalRunStatus::Running {
                merge_into(&mut pending, &row.candidate_packet_kinds);
            }
            if !seen {
                seen = true;
                let notice: bool = match status {
                    PacketProposalRunStatus::Running => false,
                    PacketProposalRunStatus::Failed => true,
                    PacketProposalRunStatus::Completed => !any_drafted(&row.outcomes)
                        && !is_automatic_packet_proposal_actor(optional_str(&row.start_actor_id)),
                };
                if notice {
                    let notification: WorkItemFailureNotification = proposal_failure_notification(
                        row,
                        debug_enabled,
                        accounting_provider,
                    );
                    let ghost said = notification.deep_view();
                    failures.push(notification);
                    proof {
                        assert(failures.deep_view() =~= seq![said]);
                    }
                }
            }
        }
        i += 1;
    }
    proof {
        assert(rows@.take(i as int) =~= rows@);
        if !seen {
            assert(newest_run(rows@.skip(i as int), item_id@) is None);
        }
    }
    (pending, failures)
}

/// `list` with `x` put behind the last notification that is not older.
pub open spec fn placed_by_time(list: Seq<FailureView>, x: FailureView) -> Seq<FailureView>
    decreases list.len(),
{
    if list.len() > 0 && list.last().occurred_at_ms < x.occurred_at_ms {
        placed_by_time(list.drop_last(), x).push(list.last())
    } else {
        list.push(x)
    }
}

/// `list` with the newest notification first; notifications of one moment keep
/// their order.
pub open spec fn newest_first(list: Seq<FailureView>) -> Seq<FailureView>
    decreases list.len(),
{
    if list.len() == 0 {
        list
    } else {
        placed_by_time(newest_first(list.drop_last()), list.last())
    }
}

fn place_by_time(list: &mut Vec<WorkItemFailureNotification>, x: WorkItemFailureNotification)
    ensures
        final(list).deep_view() == placed_by_time(old(list).deep_view(), x.deep_view()),
    decreases old(list).len(),
{
    let n: usize = list.len();
    let ghost before = list.deep_view();
    let ghost said = x.deep_view();
    proof {
        if n > 0 {
            assert(before.last() == list[n - 1].deep_view());
        }
    }
    if n > 0 && list[n - 1].occurred_at_ms < x.occurred_at_ms {
        match list.pop() {
            Some(last) => {
                let ghost tail = last.deep_view();
                proof {
                    assert(list.deep_view() =~= before.drop_last());
                    assert(tail == before.last());
                }
                place_by_time(list, x);
                let ghost middle = list.deep_view();
                list.push(last);
                proof {
                    assert(list.deep_view() =~= middle.push(tail));
                }
            },
            None => {},
        }
    } else {
        list.push(x);
        proof {
            assert(list.deep_view() =~= before.push(said));
        }
    }
}

fn sort_newest_first(list: Vec<WorkItemFailureNotification>) -> (r: Vec<WorkItemFailureNotification>)
    ensures
        r.deep_view() == newest_first(list.deep_view()),
{
    let mut out: Vec<WorkItemFailureNotification> = Vec::new();
    let ghost all = list.deep_view();
    proof {
        assert(out.deep_view() =~= all.take(0));
    }
    for x in it: list
        invariant
            it.seq().len() == all.len(),
            forall|i: int| 0 <= i < all.len() ==> (#[trigger] it.seq()[i]).deep_view() == all[i],
            out.deep_view() == newest_first(all.take(it.index())),
    {
        proof {
            let n = it.index();
            assert(all.take(n + 1).drop_last() =~= all.take(n));
            assert(all.take(n + 1).last() == all[n]);
        }
        place_by_time(&mut out, x);
    }
    proof {
        assert(all.take(all.len() as int) =~= all);
    }
    out
}

/// A kind whose staged drafts only the source's own operator sees.
pub open spec fn is_source_scoped(kind: Seq<char>) -> bool {
    ||| kind == "calendar_event_draft"@
    ||| kind == "crm_activity"@
    ||| kind == "crm_sales_intent"@
    ||| kind == "email_draft_reply"@
    ||| kind == "follow_up_task"@
}

fn source_scoped(kind: &str) -> (r: bool)
    ensures
        r == is_source_scoped(kind@),
{
    same_text(kind, "calendar_event_draft") || same_text(kind, "crm_activity") || same_text(
        kind,
        "crm_sales_intent",
    ) || same_text(kind, "email_draft_reply") || same_text(kind, "follow_up_task")
}

/// The staged kinds that are shown: all of them to the source's own operator, the
/// ones that are not source-scoped to anyone else.
pub open spec fn shown_staged(kinds: Seq<Seq<char>>, owner: bool) -> Seq<Seq<char>>
    decreases kinds.len(),
{
    if kinds.len() == 0 {
        kinds
    } else if owner || !is_source_scoped(kinds.last()) {
        shown_staged(kinds.drop_last(), owner).push(kinds.last())
    } else {
        shown_staged(kinds.drop_last(), owner)
    }
}

fn staged_for(kinds: &Vec<String>, owner: bool) -> (r: Vec<String>)
    ensures
        r.deep_view() == shown_staged(kinds.deep_view(), owner),
{
    let mut out: Vec<String> = Vec::new();
    let ghost all = kinds.deep_view();
    let mut i: usize = 0;
    proof {
        assert(out.deep_view() =~= all.take(0));
    }
    while i < kinds.len()
        invariant
            i <= kinds.len(),
            all == kinds.deep_view(),
            out.deep_view() == shown_staged(all.take(i as int), owner),
        decreases kinds.len() - i,
    {
        let ghost before = out.deep_view();
        proof {
            assert(all.take(i + 1).drop_last() =~= all.take(i as int));
            assert(all.take(i + 1).last() == kinds[i as int]@);
        }
        if owner || !source_scoped(kinds[i].as_str()) {
            out.push(kinds[i].clone());
            proof {
                assert(out.deep_view() =~= before.push(kinds[i as int]@));
            }
        }
        i += 1;
    }
    proof {
        assert(all.take(i as int) =~= all);
    }
    out
}

/// The kinds listed for an item, where it is listed.
pub open spec fn listed_kinds(entries: Seq<(Seq<char>, Seq<Seq<char>>)>, item_id: Seq<char>) -> Seq<
    Seq<char>,
>
    decreases entries.len(),
{
    if entries.len() == 0 {
        Seq::empty()
    } else if entries[0].0 == item_id {
        entries[0].1
    } else {
        listed_kinds(entries.drop_first(), item_id)
    }
}

fn kinds_listed_for(entries: &Vec<(String, Vec<String>)>, item_id: &str) -> (r: Vec<String>)
    ensures
        r.deep_view() == listed_kinds(entries.deep_view(), item_id@),
{
    let ghost all = entries.deep_view();
    let mut i: usize = 0;
    proof {
        assert(all.skip(0) =~= all);
    }
    while i < entries.len()
        invariant
            i <= entries.len(),
            all == entries.deep_view(),
            listed_kinds(all, item_id@) == listed_kinds(all.skip(i as int), item_id@),
        decreases entries.len() - i,
    {
        proof {
            assert(all[i as int] == (entries[i as int].0@, entries[i as int].1.deep_view()));
            assert(all.skip(i as int)[0] == all[i as int]);
            assert(all.skip(i as int).drop_first() =~= all.skip(i + 1));
        }
        if same_text(entries[i].0.as_str(), item_id) {
            return copy_texts(&entries[i].1);
        }
        i += 1;
    }
    let none: Vec<String> = Vec::new();
    proof {
        assert(none.deep_view() =~= Seq::<Seq<char>>::empty());
    }
    none
}

/// The kinds of an item's pairs, in their order.
pub open spec fn paired_kinds(pairs: Seq<(Seq<char>, Seq<char>)>, item_id: Seq<char>) -> Seq<
    Seq<char>,
>
    decreases pairs.len(),
{
    if pairs.len() == 0 {
        Seq::empty()
    } else if pairs.last().0 == item_id {
        paired_kinds(pairs.drop_last(), item_id).push(pairs.last().1)
    } else {
        paired_kinds(pairs.drop_last(), item_id)
    }
}

fn kinds_paired_with(pairs: &Vec<(String, String)>, item_id: &str) -> (r: Vec<String>)
    ensures
        r.deep_view() == paired_kinds(pairs.deep_view(), item_id@),
{
    let mut out: Vec<String> = Vec::new();
    let ghost all = pairs.deep_view();
    let mut i: usize = 0;
    proof {
        assert(out.deep_view() =~= paired_kinds(all.take(0), item_id@));
    }
    while i < pairs.len()
        invariant
            i <= pairs.len(),
            all == pairs.deep_view(),
            out.deep_view() == paired_kinds(all.take(i as int), item_id@),
        decreases pairs.len() - i,
    {
        let ghost before = out.deep_view();
        proof {
            assert(all[i as int] == (pairs[i as int].0@, pairs[i as int].1@));
            assert(all.take(i + 1).drop_last() =~= all.take(i as int));
            assert(all.take(i + 1).last() == all[i as int]);
        }
        if same_text(pairs[i].0.as_str(), item_id) {
            out.push(pairs[i].1.clone());
            proof {
                assert(out.deep_view() =~= before.push(pairs[i as int].1@));
            }
        }
        i += 1;
    }
    proof {
        assert(all.take(i as int) =~= all);
    }
    out
}

/// The kinds that are being drafted for an item, or are about to be: those of its
/// running smart drafts, those in flight, and the auto-produce candidates where the
/// pump runs.
pub open spec fn pending_kinds(signals: FeedSignals, options: FeedOptions<'_>, item_id: Seq<char>) -> Seq<
    Seq<char>,
> {
    let drafting = running_kinds(signals.proposals@, item_id) + paired_kinds(
        options.in_flight.deep_view(),
        item_id,
    );
    if options.auto_produce_running {
        merged(drafting, paired_kinds(signals.auto_produce_candidates.deep_view(), item_id))
    } else {
        drafting
    }
}

/// A notification whose kind is not being worked on; one without a kind is shown
/// always.
pub open spec fn still_stands(failure: FailureView, active: Seq<Seq<char>>) -> bool {
    failure.packet_kind is None || !active.contains(failure.packet_kind->Some_0)
}

/// The notifications whose kinds are not being worked on.
pub open spec fn standing(failures: Seq<FailureView>, active: Seq<Seq<char>>) -> Seq<FailureView>
    decreases failures.len(),
{
    if failures.len() == 0 {
        failures
    } else if still_stands(failures.last(), active) {
        standing(failures.drop_last(), active).push(failures.last())
    } else {
        standing(failures.drop_last(), active)
    }
}

fn keep_standing(
    failures: Vec<WorkItemFailureNotification>,
    staged: &Vec<String>,
    pending: &Vec<String>,
) -> (r: Vec<WorkItemFailureNotification>)
    ensures
        r.deep_view() == standing(
            failures.deep_view(),
            staged.deep_view() + pending.deep_view(),
        ),
{
    let mut out: Vec<WorkItemFailureNotification> = Vec::new();
    let ghost all = failures.deep_view();
    let ghost active = staged.deep_view() + pending.deep_view();
    proof {
        assert(out.deep_view() =~= all.take(0));
        assert forall|k: Seq<char>| #[trigger]
            active.contains(k) <==> staged.deep_view().contains(k) || pending.deep_view().contains(
                k,
            ) by {
            in_either(staged.deep_view(), pending.deep_view(), k);
        }
    }
    for failure in it: failures
        invariant
            it.seq().len() == all.len(),
            forall|i: int| 0 <= i < all.len() ==> (#[trigger] it.seq()[i]).deep_view() == all[i],
            forall|k: Seq<char>| #[trigger]
                active.contains(k) <==> staged.deep_view().contains(k)
                    || pending.deep_view().contains(k),
            out.deep_view() == standing(all.take(it.index()), active),
    {
        let ghost before = out.deep_view();
        let ghost said = failure.deep_view();
        proof {
            let n = it.index();
            assert(all.take(n + 1).drop_last() =~= all.take(n));
            assert(all.take(n + 1).last() == all[n]);
            assert(said == all[n]);
        }
        let stands: bool = match &failure.packet_kind {
            Some(kind) => !list_has(staged, kind.as_str()) && !list_has(pending, kind.as_str()),
            None => true,
        };
        assert(stands == still_stands(said, active));
        if stands {
            out.push(failure);
            proof {
                assert(out.deep_view() =~= before.push(said));
            }
        }
    }
    proof {
        assert(all.take(all.len() as int) =~= all);
    }
    out
}

proof fn in_either<T>(a: Seq<T>, b: Seq<T>, x: T)
    ensures
        (a + b).contains(x) <==> a.contains(x) || b.contains(x),
{
    if a.contains(x) {
        let i = choose|i: int| 0 <= i < a.len() && a[i] == x;
        assert((a + b)[i] == x);
    }
    if b.contains(x) {
        let i = choose|i: int| 0 <= i < b.len() && b[i] == x;
        assert((a + b)[a.len() + i] == x);
    }
    if (a + b).contains(x) {
        let i = choose|i: int| 0 <= i < (a + b).len() && (a + b)[i] == x;
        if i < a.len() {
            assert(a[i] == x);
        } else {
            assert(b[i - a.len()] == x);
        }
    }
}

/// Everything that went wrong for an item: failed generations and deliveries, the
/// newest first, and behind them what its smart drafts say.
pub open spec fn all_failures(
    signals: FeedSignals,
    options: FeedOptions<'_>,
    item_id: Seq<char>,
    packet_kinds: Seq<Seq<char>>,
) -> Seq<FailureView> {
    let provider = options.accounting_provider.deep_view();
    newest_first(
        produce_failures(
            signals.usage@,
            item_id,
            packet_kinds,
            options.debug_enabled,
            provider,
        ) + delivery_failures(
            signals.outbox_failures@,
            item_id,
            options.debug_enabled,
            provider,
        ),
    ) + proposal_failures(signals.proposals@, item_id, options.debug_enabled, provider)
}

/// An earlier accepted entry has the id of entry `i`.
pub open spec fn accepted_before(items: Seq<EntryView>, i: int) -> bool {
    exists|j: int|
        0 <= j < i && (#[trigger] items[j]).item.status == WorkItemStatus::Accepted
            && items[j].item.item_id == items[i].item.item_id
}

/// The kinds of the accepted entry with this id; of the last one, where a list
/// holds several.
pub open spec fn accepted_kinds(items: Seq<EntryView>, item_id: Seq<char>) -> Seq<Seq<char>>
    decreases items.len(),
{
    if items.len() == 0 {
        Seq::empty()
    } else if items.last().item.status == WorkItemStatus::Accepted && items.last().item.item_id
        == item_id {
        items.last().item.packet_kinds
    } else {
        accepted_kinds(items.drop_last(), item_id)
    }
}

/// The attention signal of an email, where it has one.
pub open spec fn signal_of(signals: Seq<(String, AttentionSignal)>, source_ref: Seq<char>) -> Option<
    AttentionSignal,
>
    decreases signals.len(),
{
    if signals.len() == 0 {
        None
    } else if signals[0].0@ == source_ref {
        Some(signals[0].1)
    } else {
        signal_of(signals.drop_first(), source_ref)
    }
}

/// The attention that an entry asks for: that of its email's signal.
pub open spec fn attention_of(
    signals: Seq<(String, AttentionSignal)>,
    source_kind: Seq<char>,
    source_ref: Seq<char>,
) -> Option<AttentionView> {
    if source_kind != SOURCE_KIND_EMAIL@ {
        None
    } else {
        match signal_of(signals, source_ref) {
            Some(signal) => Some(summary_of(signal)),
            None => None,
        }
    }
}

fn attention_for(
    signals: &Vec<(String, AttentionSignal)>,
    source_kind: &str,
    source_ref: &str,
) -> (r: Option<WorkItemAttentionSummary>)
    ensures
        r.deep_view() == attention_of(signals@, source_kind@, source_ref@),
{
    if !same_text(source_kind, SOURCE_KIND_EMAIL) {
        return None;
    }
    let mut i: usize = 0;
    proof {
        assert(signals@.skip(0) =~= signals@);
    }
    while i < signals.len()
        invariant
            i <= signals.len(),
            signal_of(signals@, source_ref@) == signal_of(signals@.skip(i as int), source_ref@),
            source_kind@ == SOURCE_KIND_EMAIL@,
        decreases signals.len() - i,
    {
        proof {
            assert(signals@.skip(i as int)[0] == signals@[i as int]);
            assert(signals@.skip(i as int).drop_first() =~= signals@.skip(i + 1));
        }
        if same_text(signals[i].0.as_str(), source_ref) {
            return Some(attention_summary(&signals[i].1));
        }
        i += 1;
    }
    None
}

/// Entry `i` of the feed. Its item and revision are the stored ones. An email's
/// attention shows whatever the item's status; drafts and failures show on an
/// accepted item alone.
pub open spec fn decorated(
    items: Seq<EntryView>,
    i: int,
    scope: ScopeView,
    signals: FeedSignals,
    options: FeedOptions<'_>,
) -> EntryView {
    let item = items[i].item;
    let attention = attention_of(signals.attention@, item.source_kind, item.source_ref);
    if item.status == WorkItemStatus::Accepted && !accepted_before(items, i) {
        let staged = shown_staged(
            listed_kinds(signals.staged.deep_view(), item.item_id),
            scope_owns(scope, item.source_user_id),
        );
        let pending = pending_kinds(signals, options, item.item_id);
        EntryView {
            item,
            revision: items[i].revision,
            staged_draft_kinds: staged,
            pending_produce_kinds: pending,
            failure_notifications: standing(
                all_failures(
                    signals,
                    options,
                    item.item_id,
                    accepted_kinds(items, item.item_id),
                ),
                staged + pending,
            ),
            attention,
        }
    } else {
        EntryView {
            item,
            revision: items[i].revision,
            staged_draft_kinds: Seq::empty(),
            pending_produce_kinds: Seq::empty(),
            failure_notifications: Seq::empty(),
            attention,
        }
    }
}

/// The feed over a listing: its entries in their order, each decorated.
pub open spec fn fed(
    items: Seq<EntryView>,
    scope: ScopeView,
    signals: FeedSignals,
    options: FeedOptions<'_>,
) -> Seq<EntryView> {
    Seq::new(items.len(), |i: int| decorated(items, i, scope, signals, options))
}

/// The ids of the accepted entries, whose signals the feed reads.
pub open spec fn accepted_ids(items: Seq<EntryView>) -> Seq<Seq<char>>
    decreases items.len(),
{
    if items.len() == 0 {
        Seq::empty()
    } else if items.last().item.status == WorkItemStatus::Accepted {
        accepted_ids(items.drop_last()).push(items.last().item.item_id)
    } else {
        accepted_ids(items.drop_last())
    }
}

/// The ids of the accepted entries, whose signals the feed reads.
pub fn accepted_item_ids(items: &Vec<WorkItemWithRevision>) -> (r: Vec<String>)
    ensures
        r.deep_view() == accepted_ids(items.deep_view()),
{
    let mut out: Vec<String> = Vec::new();
    let ghost all = items.deep_view();
    let mut i: usize = 0;
    proof {
        assert(out.deep_view() =~= accepted_ids(all.take(0)));
    }
    while i < items.len()
        invariant
            i <= items.len(),
            all == items.deep_view(),
            out.deep_view() == accepted_ids(all.take(i as int)),
        decreases items.len() - i,
    {
        let ghost before = out.deep_view();
        proof {
            assert(all[i as int] == items[i as int].deep_view());
            assert(all.take(i + 1).drop_last() =~= all.take(i as int));
            assert(all.take(i + 1).last() == all[i as int]);
        }
        if items[i].item.status == WorkItemStatus::Accepted {
            out.push(items[i].item.item_id.clone());
            proof {
                assert(out.deep_view() =~= before.push(items[i as int].item.item_id@));
            }
        }
        i += 1;
    }
    proof {
        assert(all.take(i as int) =~= all);
    }
    out
}

fn is_accepted_before(items: &Vec<WorkItemWithRevision>, i: usize) -> (r: bool)
    requires
        i < items.len(),
    ensures
        r == accepted_before(items.deep_view(), i as int),
{
    let ghost all = items.deep_view();
    let mut j: usize = 0;
    while j < i
        invariant
            j <= i < items.len(),
            all == items.deep_view(),
            forall|k: int|
                0 <= k < j ==> !((#[trigger] all[k]).item.status == WorkItemStatus::Accepted
                    && all[k].item.item_id == all[i as int].item.item_id),
        decreases i - j,
    {
        assert(all[j as int] == items[j as int].deep_view());
        assert(all[i as int] == items[i as int].deep_view());
        if items[j].item.status == WorkItemStatus::Accepted && same_text(
            items[j].item.item_id.as_str(),
            items[i].item.item_id.as_str(),
        ) {
            return true;
        }
        j += 1;
    }
    false
}

fn kinds_of_accepted(items: &Vec<WorkItemWithRevision>, item_id: &str) -> (r: Vec<String>)
    ensures
        r.deep_view() == accepted_kinds(items.deep_view(), item_id@),
{
    let ghost all = items.deep_view();
    let mut i: usize = items.len();
    proof {
        assert(all.take(i as int) =~= all);
    }
    while i > 0
        invariant
            i <= items.len(),
            all == items.deep_view(),
            accepted_kinds(all, item_id@) == accepted_kinds(all.take(i as int), item_id@),
        decreases i,
    {
        proof {
            assert(all[i - 1] == items[i - 1].deep_view());
            assert(all.take(i as int).drop_last() =~= all.take(i - 1));
            assert(all.take(i as int).last() == all[i - 1]);
        }
        if items[i - 1].item.status == WorkItemStatus::Accepted && same_text(
            items[i - 1].item.item_id.as_str(),
            item_id,
        ) {
            return copy_texts(&items[i - 1].item.packet_kinds);
        }
        i -= 1;
    }
    let none: Vec<String> = Vec::new();
    proof {
        assert(none.deep_view() =~= Seq::<Seq<char>>::empty());
    }
    none
}

fn pending_for(signals: &FeedSignals, options: &FeedOptions<'_>, item_id: &str, running: Vec<
    String,
>) -> (r: Vec<String>)
    requires
        running.deep_view() == running_kinds(signals.proposals@, item_id@),
    ensures
        r.deep_view() == pending_kinds(*signals, *options, item_id@),
{
    let ghost head = running.deep_view();
    let mut pending: Vec<String> = running;
    let mut in_flight: Vec<String> = kinds_paired_with(options.in_flight, item_id);
    let ghost tail = in_flight.deep_view();
    pending.append(&mut in_flight);
    proof {
        assert(pending.deep_view() =~= head + tail);
    }
    if options.auto_produce_running {
        merge_into(
            &mut pending,
            &kinds_paired_with(&signals.auto_produce_candidates, item_id),
        );
    }
    pending
}

/// Everything that went wrong for an item, in the order in which it is shown.
pub fn failure_notifications(
    signals: &FeedSignals,
    options: &FeedOptions<'_>,
    item_id: &str,
    packet_kinds: &Vec<String>,
) -> (r: Vec<WorkItemFailureNotification>)
    ensures
        r.deep_view() == newest_first(
            produce_failures(
                signals.usage@,
                item_id@,
                packet_kinds.deep_view(),
                options.debug_enabled,
                options.accounting_provider.deep_view(),
            ) + delivery_failures(
                signals.outbox_failures@,
                item_id@,
                options.debug_enabled,
                options.accounting_provider.deep_view(),
            ),
        ),
{
    let mut out: Vec<WorkItemFailureNotification> = produce_failure_notifications(
        &signals.usage,
        item_id,
        packet_kinds,
        options.debug_enabled,
        options.accounting_provider,
    );
    let ghost head = out.deep_view();
    let mut deliveries: Vec<WorkItemFailureNotification> = outbox_failure_notifications(
        &signals.outbox_failures,
        item_id,
        options.debug_enabled,
        options.accounting_provider,
    );
    let ghost tail = deliveries.deep_view();
    out.append(&mut deliveries);
    proof {
        assert(out.deep_view() =~= head + tail);
    }
    sort_newest_first(out)
}

fn decorate(
    items: &Vec<WorkItemWithRevision>,
    i: usize,
    scope: &OperatorScope,
    signals: &FeedSignals,
    options: &FeedOptions<'_>,
) -> (r: WorkItemWithRevision)
    requires
        i < items.len(),
    ensures
        r.deep_view() == decorated(
            items.deep_view(),
            i as int,
            scope.deep_view(),
            *signals,
            *options,
        ),
{
    let entry: &WorkItemWithRevision = &items[i];
    proof {
        assert(items.deep_view()[i as int] == entry.deep_view());
    }
    let attention: Option<WorkItemAttentionSummary> = attention_for(
        &signals.attention,
        entry.item.source_kind.as_str(),
        entry.item.source_ref.as_str(),
    );
    if entry.item.status == WorkItemStatus::Accepted && !is_accepted_before(items, i) {
        let item_id: &str = entry.item.item_id.as_str();
        let staged: Vec<String> = staged_for(
            &kinds_listed_for(&signals.staged, item_id),
            scope.matches_source_user(optional_str(&entry.item.source_user_id)),
        );
        let (running, mut proposal_notices) = packet_proposal_signals(
            &signals.proposals,
            item_id,
            options.debug_enabled,
            options.accounting_provider,
        );
        let pending: Vec<String> = pending_for(signals, options, item_id, running);
        let mut failures: Vec<WorkItemFailureNotification> = failure_notifications(
            signals,
            options,
            item_id,
            &kinds_of_accepted(items, item_id),
        );
        let ghost head = failures.deep_view();
        let ghost tail = proposal_notices.deep_view();
        failures.append(&mut proposal_notices);
        proof {
            assert(failures.deep_view() =~= head + tail);
        }
        let standing_failures: Vec<WorkItemFailureNotification> = keep_standing(
            failures,
            &staged,
            &pending,
        );
        WorkItemWithRevision {
            item: entry.item.copy(),
            revision: entry.revision,
            staged_draft_kinds: staged,
            pending_produce_kinds: pending,
            failure_notifications: standing_failures,
            attention,
        }
    } else {
        let plain: WorkItemWithRevision = WorkItemWithRevision {
            item: entry.item.copy(),
            revision: entry.revision,
            staged_draft_kinds: Vec::new(),
            pending_produce_kinds: Vec::new(),
            failure_notifications: Vec::new(),
            attention,
        };
        proof {
            assert(plain.staged_draft_kinds.deep_view() =~= Seq::<Seq<char>>::empty());
            assert(plain.pending_produce_kinds.deep_view() =~= Seq::<Seq<char>>::empty());
            assert(plain.failure_notifications.deep_view() =~= Seq::<FailureView>::empty());
        }
        plain
    }
}

/// The queue feed over a listing: its items in their order, decorated with what
/// the signals say of them.
pub fn feed(
    items: &Vec<WorkItemWithRevision>,
    scope: &OperatorScope,
    signals: &FeedSignals,
    options: &FeedOptions<'_>,
) -> (r: Vec<WorkItemWithRevision>)
    ensures
        r.deep_view() == fed(items.deep_view(), scope.deep_view(), *signals, *options),
{
    let ghost all = fed(items.deep_view(), scope.deep_view(), *signals, *options);
    let mut out: Vec<WorkItemWithRevision> = Vec::new();
    let mut i: usize = 0;
    proof {
        assert(out.deep_view() =~= all.take(0));
    }
    while i < items.len()
        invariant
            i <= items.len(),
            all == fed(items.deep_view(), scope.deep_view(), *signals, *options),
            out.deep_view() == all.take(i as int),
        decreases items.len() - i,
    {
        let ghost before = out.deep_view();
        let entry: WorkItemWithRevision = decorate(items, i, scope, signals, options);
        let ghost said = entry.deep_view();
        out.push(entry);
        proof {
            assert(out.deep_view() =~= before.push(said));
            assert(all.take(i + 1) =~= all.take(i as int).push(all[i as int]));
        }
        i += 1;
    }
    proof {
        assert(all.take(i as int) =~= all);
    }
    out
}

/// An entry that waits for the operator: it is open, or it is accepted and has a
/// draft, a draft on the way, or a failure to look at.
pub open spec fn asks_attention(entry: EntryView) -> bool {
    ||| entry.item.status == WorkItemStatus::Open
    ||| entry.item.status == WorkItemStatus::Accepted && (entry.staged_draft_kinds.len() > 0
        || entry.pending_produce_kinds.len() > 0 || entry.failure_notifications.len() > 0)
}

/// True for an entry that waits for the operator.
pub fn needs_attention(entry: &WorkItemWithRevision) -> (r: bool)
    ensures
        r == asks_attention(entry.deep_view()),
{
    entry.item.status == WorkItemStatus::Open || (entry.item.status == WorkItemStatus::Accepted && (
    entry.staged_draft_kinds.len() > 0 || entry.pending_produce_kinds.len() > 0
        || entry.failure_notifications.len() > 0))
}

/// An entry whose source asks for this attention.
pub open spec fn asks_level(entry: EntryView, level: AttentionLevel) -> bool {
    entry.attention is Some && entry.attention->Some_0.level == level
}

/// The entries of a feed that pass, in their order, at most `limit` of them: the
/// first ones.
pub open spec fn narrowed(
    entries: Seq<EntryView>,
    limit: nat,
    passes: spec_fn(EntryView) -> bool,
) -> Seq<EntryView> {
    let kept = entries.filter(passes);
    if kept.len() > limit {
        kept.take(limit as int)
    } else {
        kept
    }
}

/// The entries of a feed that wait for the operator, at most `limit` of them.
pub fn attention_feed(
    items: &Vec<WorkItemWithRevision>,
    limit: usize,
    scope: &OperatorScope,
    signals: &FeedSignals,
    options: &FeedOptions<'_>,
) -> (r: Vec<WorkItemWithRevision>)
    ensures
        r.deep_view() == narrowed(
            fed(items.deep_view(), scope.deep_view(), *signals, *options),
            limit as nat,
            |entry: EntryView| asks_attention(entry),
        ),
{
    let entries: Vec<WorkItemWithRevision> = feed(items, scope, signals, options);
    let ghost all = entries.deep_view();
    let ghost passes = |entry: EntryView| asks_attention(entry);
    let mut out: Vec<WorkItemWithRevision> = Vec::new();
    proof {
        assert(out.deep_view() =~= narrowed(all.take(0), limit as nat, passes)) by {
            reveal(Seq::filter);
        }
    }
    for entry in it: entries
        invariant
            it.seq().len() == all.len(),
            forall|i: int| 0 <= i < all.len() ==> (#[trigger] it.seq()[i]).deep_view() == all[i],
            passes == (|entry: EntryView| asks_attention(entry)),
            out.deep_view() == narrowed(all.take(it.index()), limit as nat, passes),
    {
        let ghost n = it.index();
        let ghost before = out.deep_view();
        let ghost said = entry.deep_view();
        proof {
            narrowing_steps(all, n, limit as nat, passes);
        }
        if needs_attention(&entry) && out.len() < limit {
            out.push(entry);
            proof {
                assert(out.deep_view() =~= before.push(said));
            }
        }
    }
    proof {
        assert(all.take(all.len() as int) =~= all);
    }
    out
}

proof fn narrowing_steps(
    all: Seq<EntryView>,
    n: int,
    limit: nat,
    passes: spec_fn(EntryView) -> bool,
)
    requires
        0 <= n < all.len(),
    ensures
        narrowed(all.take(n + 1), limit, passes) == (if passes(all[n]) && narrowed(
            all.take(n),
            limit,
            passes,
        ).len() < limit {
            narrowed(all.take(n), limit, passes).push(all[n])
        } else {
            narrowed(all.take(n), limit, passes)
        }),
{
    reveal(Seq::filter);
    assert(all.take(n + 1).drop_last() =~= all.take(n));
    assert(all.take(n + 1).last() == all[n]);
    let kept = all.take(n).filter(passes);
    if passes(all[n]) {
        let more = kept.push(all[n]);
        assert(all.take(n + 1).filter(passes) == more);
        if kept.len() == limit {
            assert(more.take(limit as int) =~= kept);
        } else if kept.len() > limit {
            assert(more.take(limit as int) =~= kept.take(limit as int));
        }
    }
}

/// The entries of a feed whose source asks for one level of attention, at most
/// `limit` of them.
pub fn source_attention_feed(
    items: &Vec<WorkItemWithRevision>,
    level: AttentionLevel,
    limit: usize,
    scope: &OperatorScope,
    signals: &FeedSignals,
    options: &FeedOptions<'_>,
) -> (r: Vec<WorkItemWithRevision>)
    ensures
        r.deep_view() == narrowed(
            fed(items.deep_view(), scope.deep_view(), *signals, *options),
            limit as nat,
            |entry: EntryView| asks_level(entry, level),
        ),
{
    let entries: Vec<WorkItemWithRevision> = feed(items, scope, signals, options);
    let ghost all = entries.deep_view();
    let ghost passes = |entry: EntryView| asks_level(entry, level);
    let mut out: Vec<WorkItemWithRevision> = Vec::new();
    proof {
        assert(out.deep_view() =~= narrowed(all.take(0), limit as nat, passes)) by {
            reveal(Seq::filter);
        }
    }
    for entry in it: entries
        invariant
            it.seq().len() == all.len(),
            forall|i: int| 0 <= i < all.len() ==> (#[trigger] it.seq()[i]).deep_view() == all[i],
            passes == (|entry: EntryView| asks_level(entry, level)),
            out.deep_view() == narrowed(all.take(it.index()), limit as nat, passes),
    {
        let ghost n = it.index();
        let ghost before = out.deep_view();
        let ghost said = entry.deep_view();
        proof {
            narrowing_steps(all, n, limit as nat, passes);
        }
        let asks: bool = match &entry.attention {
            Some(attention) => attention.level == level,
            None => false,
        };
        if asks && out.len() < limit {
            out.push(entry);
            proof {
                assert(out.deep_view() =~= before.push(said));
            }
        }
    }
    proof {
        assert(all.take(all.len() as int) =~= all);
    }
    out
}

} // verus!
