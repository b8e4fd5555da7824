//! The one persistence path for mutations. Slices never write raw CRUD.
//!
//! A mutation runs in a single transaction:
//!   idempotency replay check → revision check → domain write →
//!   revision bump → receipt insert.
//!
//! A slice therefore cannot mutate state without producing an audit record, and
//! failed mutations are recorded as receipts too (outcome = failed/conflict).
//! This module decides each of these steps from what the transaction read; the
//! caller holds the transaction and writes what a [`Verdict`] says.

use vstd::prelude::*;

use crate::contracts::receipt::{ActorKindDto, ReceiptOutcomeDto};
use crate::text::{contains_text, decimal, padded_decimal_text, same_text, zero_padded};

verus! {

#[derive(Debug, Clone)]
pub struct MutationRequest<'a> {
    pub client_id: &'a str,
    pub entity_kind: &'a str,
    pub entity_id: &'a str,
    pub change_kind: &'a str,
    pub actor_id: &'a str,
    pub actor_kind: ActorKindDto,
    /// `None` = create or unconditional write; `Some(n)` = optimistic concurrency.
    pub expected_revision: Option<u64>,
    pub idempotency_key: &'a str,
    pub correlation_id: Option<&'a str>,
    pub causation_id: Option<&'a str>,
    pub before_json: Option<String>,
    pub after_json: Option<String>,
    pub now_ms: u64,
}

/// What a [`MutationRequest`] says.
pub struct RequestView {
    pub client_id: Seq<char>,
    pub entity_kind: Seq<char>,
    pub entity_id: Seq<char>,
    pub change_kind: Seq<char>,
    pub actor_id: Seq<char>,
    pub actor_kind: ActorKindDto,
    pub expected_revision: Option<u64>,
    pub idempotency_key: Seq<char>,
    pub correlation_id: Option<Seq<char>>,
    pub causation_id: Option<Seq<char>>,
    pub before_json: Option<Seq<char>>,
    pub after_json: Option<Seq<char>>,
    pub now_ms: u64,
}

impl<'a> DeepView for MutationRequest<'a> {
    type V = RequestView;

    open spec fn deep_view(&self) -> RequestView {
        RequestView {
            client_id: self.client_id@,
            entity_kind: self.entity_kind@,
            entity_id: self.entity_id@,
            change_kind: self.change_kind@,
            actor_id: self.actor_id@,
            actor_kind: self.actor_kind,
            expected_revision: self.expected_revision,
            idempotency_key: self.idempotency_key@,
            correlation_id: self.correlation_id.deep_view(),
            causation_id: self.causation_id.deep_view(),
            before_json: self.before_json.deep_view(),
            after_json: self.after_json.deep_view(),
            now_ms: self.now_ms,
        }
    }
}

#[derive(Debug, Clone, PartialEq, Eq)]
pub enum MutationOutcome {
    Applied {
        receipt_id: String,
        revision: u64,
    },
    ReplayedIdempotent {
        receipt_id: String,
        revision: Option<u64>,
    },
    RevisionConflict {
        receipt_id: String,
        current_revision: Option<u64>,
    },
}

/// What a [`MutationOutcome`] says.
pub enum OutcomeView {
    Applied { receipt_id: Seq<char>, revision: u64 },
    ReplayedIdempotent { receipt_id: Seq<char>, revision: Option<u64> },
    RevisionConflict { receipt_id: Seq<char>, current_revision: Option<u64> },
}

impl DeepView for MutationOutcome {
    type V = OutcomeView;

    open spec fn deep_view(&self) -> OutcomeView {
        match self {
            MutationOutcome::Applied { receipt_id, revision } => OutcomeView::Applied {
                receipt_id: receipt_id@,
                revision: *revision,
            },
            MutationOutcome::ReplayedIdempotent { receipt_id, revision } =>
                OutcomeView::ReplayedIdempotent {
                receipt_id: receipt_id@,
                revision: *revision,
            },
            MutationOutcome::RevisionConflict { receipt_id, current_revision } =>
                OutcomeView::RevisionConflict {
                receipt_id: receipt_id@,
                current_revision: *current_revision,
            },
        }
    }
}

impl MutationOutcome {
    /// True when this request's own domain write was applied.
    pub fn is_applied(&self) -> (r: bool)
        ensures
            r == (self.deep_view() is Applied),
    {
        match self {
            MutationOutcome::Applied { .. } => true,
            _ => false,
        }
    }
}

#[derive(Debug)]
pub enum StoreError {
    Sqlite(String),
    Domain(String),
}

/// What a [`StoreError`] says.
pub enum ErrorView {
    Sqlite(Seq<char>),
    Domain(Seq<char>),
}

impl DeepView for StoreError {
    type V = ErrorView;

    open spec fn deep_view(&self) -> ErrorView {
        match self {
            StoreError::Sqlite(message) => ErrorView::Sqlite(message@),
            StoreError::Domain(message) => ErrorView::Domain(message@),
        }
    }
}

/// A message that says SQLite asked the caller to retry.
pub open spec fn says_busy(message: Seq<char>) -> bool {
    let lower = crate::text::ascii_lowered(message);
    ||| crate::text::has_text(lower, "database is locked"@)
    ||| crate::text::has_text(lower, "database is busy"@)
    ||| crate::text::has_text(lower, "sqlite_busy"@)
    ||| crate::text::has_text(lower, "sqlite_locked"@)
    ||| crate::text::has_text(lower, "database schema is locked"@)
}

impl StoreError {
    /// The domain error with this code.
    pub fn domain(code: &str) -> (r: StoreError)
        ensures
            r.deep_view() == ErrorView::Domain(code@),
    {
        StoreError::Domain(code.to_owned())
    }

    /// The text an error is shown as.
    pub fn message(&self) -> (r: String)
        ensures
            r@ == (match self.deep_view() {
                ErrorView::Sqlite(m) => "store sqlite error: "@ + m,
                ErrorView::Domain(m) => "store domain error: "@ + m,
            }),
    {
        match self {
            StoreError::Sqlite(m) => "store sqlite error: ".to_owned().concat(m.as_str()),
            StoreError::Domain(m) => "store domain error: ".to_owned().concat(m.as_str()),
        }
    }

    /// True when SQLite asked the caller to retry because the file is busy.
    pub fn is_sqlite_busy(&self) -> (r: bool)
        ensures
            r == (match self.deep_view() {
                ErrorView::Sqlite(m) => says_busy(m),
                ErrorView::Domain(_) => false,
            }),
    {
        match self {
            StoreError::Sqlite(message) => sqlite_busy_message(message.as_str()),
            StoreError::Domain(_) => false,
        }
    }
}

pub fn sqlite_busy_message(message: &str) -> (r: bool)
    ensures
        r == says_busy(message@),
{
    let lower: String = message.to_ascii_lowercase();
    contains_text(lower.as_str(), "database is locked")
        || contains_text(lower.as_str(), "database is busy")
        || contains_text(lower.as_str(), "sqlite_busy")
        || contains_text(lower.as_str(), "sqlite_locked")
        || contains_text(lower.as_str(), "database schema is locked")
}

/// The class a failure is recorded under.
pub open spec fn error_class_text(err: ErrorView) -> Seq<char> {
    match err {
        ErrorView::Sqlite(_) => "sqlite"@,
        ErrorView::Domain(_) => "domain"@,
    }
}

pub fn error_class(err: &StoreError) -> (r: String)
    ensures
        r@ == error_class_text(err.deep_view()),
{
    match err {
        StoreError::Sqlite(_) => "sqlite".to_owned(),
        StoreError::Domain(_) => "domain".to_owned(),
    }
}

pub open spec fn actor_kind_text(kind: ActorKindDto) -> Seq<char> {
    match kind {
        ActorKindDto::Operator => "operator"@,
        ActorKindDto::System => "system"@,
        ActorKindDto::Agent => "agent"@,
    }
}

pub fn actor_kind_str(kind: ActorKindDto) -> (r: &'static str)
    ensures
        r@ == actor_kind_text(kind),
{
    match kind {
        ActorKindDto::Operator => "operator",
        ActorKindDto::System => "system",
        ActorKindDto::Agent => "agent",
    }
}

/// The actor kind a stored text stands for; an unknown text is the system's.
pub open spec fn actor_kind_of(raw: Seq<char>) -> ActorKindDto {
    if raw == "operator"@ {
        ActorKindDto::Operator
    } else if raw == "agent"@ {
        ActorKindDto::Agent
    } else {
        ActorKindDto::System
    }
}

pub fn actor_kind_from_str(raw: &str) -> (r: ActorKindDto)
    ensures
        r == actor_kind_of(raw@),
{
    if same_text(raw, "operator") {
        ActorKindDto::Operator
    } else if same_text(raw, "agent") {
        ActorKindDto::Agent
    } else {
        ActorKindDto::System
    }
}

pub open spec fn outcome_text(outcome: ReceiptOutcomeDto) -> Seq<char> {
    match outcome {
        ReceiptOutcomeDto::Applied => "applied"@,
        ReceiptOutcomeDto::ReplayedIdempotent => "replayed_idempotent"@,
        ReceiptOutcomeDto::RevisionConflict => "revision_conflict"@,
        ReceiptOutcomeDto::Failed => "failed"@,
    }
}

pub fn outcome_str(outcome: ReceiptOutcomeDto) -> (r: &'static str)
    ensures
        r@ == outcome_text(outcome),
{
    match outcome {
        ReceiptOutcomeDto::Applied => "applied",
        ReceiptOutcomeDto::ReplayedIdempotent => "replayed_idempotent",
        ReceiptOutcomeDto::RevisionConflict => "revision_conflict",
        ReceiptOutcomeDto::Failed => "failed",
    }
}

/// The outcome a stored text stands for; an unknown text is a failure.
pub open spec fn outcome_of(raw: Seq<char>) -> ReceiptOutcomeDto {
    if raw == "applied"@ {
        ReceiptOutcomeDto::Applied
    } else if raw == "replayed_idempotent"@ {
        ReceiptOutcomeDto::ReplayedIdempotent
    } else if raw == "revision_conflict"@ {
        ReceiptOutcomeDto::RevisionConflict
    } else {
        ReceiptOutcomeDto::Failed
    }
}

pub fn outcome_from_str(raw: &str) -> (r: ReceiptOutcomeDto)
    ensures
        r == outcome_of(raw@),
{
    if same_text(raw, "applied") {
        ReceiptOutcomeDto::Applied
    } else if same_text(raw, "replayed_idempotent") {
        ReceiptOutcomeDto::ReplayedIdempotent
    } else if same_text(raw, "revision_conflict") {
        ReceiptOutcomeDto::RevisionConflict
    } else {
        ReceiptOutcomeDto::Failed
    }
}

/// The stored texts of actor kinds and outcomes read back as what was written.
pub proof fn stored_texts_read_back(kind: ActorKindDto, outcome: ReceiptOutcomeDto)
    ensures
        actor_kind_of(actor_kind_text(kind)) == kind,
        outcome_of(outcome_text(outcome)) == outcome,
{
    reveal_strlit("operator");
    reveal_strlit("system");
    reveal_strlit("agent");
    reveal_strlit("applied");
    reveal_strlit("replayed_idempotent");
    reveal_strlit("revision_conflict");
    reveal_strlit("failed");
    assert("operator"@.len() != "agent"@.len());
    assert("operator"@.len() != "system"@.len());
    assert("agent"@.len() != "system"@.len());
    assert("applied"@.len() != "failed"@.len());
    assert("replayed_idempotent"@.len() != "failed"@.len());
    assert("revision_conflict"@.len() != "failed"@.len());
    assert("replayed_idempotent"@.len() != "applied"@.len());
    assert("revision_conflict"@.len() != "applied"@.len());
    assert("revision_conflict"@.len() != "replayed_idempotent"@.len());
}

/// The id of the `n`th receipt.
pub open spec fn receipt_id_text(n: nat) -> Seq<char> {
    "rcpt_"@ + zero_padded(decimal(n), 12)
}

/// The id of the next receipt, where `count` receipts are stored.
pub fn next_receipt_id(count: u64) -> (r: String)
    requires
        count < u64::MAX,
    ensures
        r@ == receipt_id_text(count as nat + 1),
{
    "rcpt_".to_owned().concat(padded_decimal_text(count + 1, 12).as_str())
}

/// A receipt as its row stores it.
#[derive(Debug, Clone, PartialEq, Eq)]
pub struct ReceiptRow {
    pub receipt_id: String,
    pub client_id: String,
    pub entity_kind: String,
    pub entity_id: String,
    pub change_kind: String,
    pub actor_id: String,
    pub actor_kind: String,
    pub outcome: String,
    pub error_class: Option<String>,
    pub before_json: Option<String>,
    pub after_json: Option<String>,
    pub revision_before: Option<i64>,
    pub revision_after: Option<i64>,
    pub idempotency_key: String,
    pub correlation_id: Option<String>,
    pub causation_id: Option<String>,
    pub created_at_ms: i64,
}

/// What a [`ReceiptRow`] says.
pub struct ReceiptView {
    pub receipt_id: Seq<char>,
    pub client_id: Seq<char>,
    pub entity_kind: Seq<char>,
    pub entity_id: Seq<char>,
    pub change_kind: Seq<char>,
    pub actor_id: Seq<char>,
    pub actor_kind: Seq<char>,
    pub outcome: Seq<char>,
    pub error_class: Option<Seq<char>>,
    pub before_json: Option<Seq<char>>,
    pub after_json: Option<Seq<char>>,
    pub revision_before: Option<i64>,
    pub revision_after: Option<i64>,
    pub idempotency_key: Seq<char>,
    pub correlation_id: Option<Seq<char>>,
    pub causation_id: Option<Seq<char>>,
    pub created_at_ms: i64,
}

impl DeepView for ReceiptRow {
    type V = ReceiptView;

    open spec fn deep_view(&self) -> ReceiptView {
        ReceiptView {
            receipt_id: self.receipt_id@,
            client_id: self.client_id@,
            entity_kind: self.entity_kind@,
            entity_id: self.entity_id@,
            change_kind: self.change_kind@,
            actor_id: self.actor_id@,
            actor_kind: self.actor_kind@,
            outcome: self.outcome@,
            error_class: self.error_class.deep_view(),
            before_json: self.before_json.deep_view(),
            after_json: self.after_json.deep_view(),
            revision_before: self.revision_before,
            revision_after: self.revision_after,
            idempotency_key: self.idempotency_key@,
            correlation_id: self.correlation_id.deep_view(),
            causation_id: self.causation_id.deep_view(),
            created_at_ms: self.created_at_ms,
        }
    }
}

/// A revision as a column stores it.
pub open spec fn stored_revision(revision: Option<u64>) -> Option<i64> {
    match revision {
        Some(v) => Some(v as i64),
        None => None,
    }
}

/// A revision as it is read from a column.
pub open spec fn read_revision_of(stored: Option<i64>) -> Option<u64> {
    match stored {
        Some(v) => Some(v as u64),
        None => None,
    }
}

pub fn revision_column(revision: Option<u64>) -> (r: Option<i64>)
    ensures
        r == stored_revision(revision),
{
    match revision {
        Some(v) => Some(v as i64),
        None => None,
    }
}

pub fn revision_from_column(stored: Option<i64>) -> (r: Option<u64>)
    ensures
        r == read_revision_of(stored),
{
    match stored {
        Some(v) => Some(v as u64),
        None => None,
    }
}

/// A stored revision reads back as the one that was written.
pub proof fn stored_revision_reads_back(revision: Option<u64>)
    ensures
        read_revision_of(stored_revision(revision)) == revision,
{
    if let Some(v) = revision {
        assert((v as i64) as u64 == v) by (bit_vector);
    }
}

/// The receipt that a request leaves behind, with the given id and verdict.
pub open spec fn receipt_of(
    request: RequestView,
    receipt_id: Seq<char>,
    outcome: ReceiptOutcomeDto,
    error_class: Option<Seq<char>>,
    revision_before: Option<u64>,
    revision_after: Option<u64>,
) -> ReceiptView {
    ReceiptView {
        receipt_id,
        client_id: request.client_id,
        entity_kind: request.entity_kind,
        entity_id: request.entity_id,
        change_kind: request.change_kind,
        actor_id: request.actor_id,
        actor_kind: actor_kind_text(request.actor_kind),
        outcome: outcome_text(outcome),
        error_class,
        before_json: request.before_json,
        after_json: request.after_json,
        revision_before: stored_revision(revision_before),
        revision_after: stored_revision(revision_after),
        idempotency_key: request.idempotency_key,
        correlation_id: request.correlation_id,
        causation_id: request.causation_id,
        created_at_ms: request.now_ms as i64,
    }
}

fn owned(text: Option<&str>) -> (r: Option<String>)
    ensures
        r.deep_view() == text.deep_view(),
{
    match text {
        Some(t) => Some(t.to_owned()),
        None => None,
    }
}

/// The receipt row that a request leaves behind where `receipt_count` receipts
/// are stored.
pub fn insert_receipt(
    request: &MutationRequest<'_>,
    receipt_count: u64,
    outcome: ReceiptOutcomeDto,
    error_class: Option<&str>,
    revision_before: Option<u64>,
    revision_after: Option<u64>,
) -> (row: ReceiptRow)
    requires
        receipt_count < u64::MAX,
    ensures
        row.deep_view() == receipt_of(
            request.deep_view(),
            receipt_id_text(receipt_count as nat + 1),
            outcome,
            error_class.deep_view(),
            revision_before,
            revision_after,
        ),
{
    ReceiptRow {
        receipt_id: next_receipt_id(receipt_count),
        client_id: request.client_id.to_owned(),
        entity_kind: request.entity_kind.to_owned(),
        entity_id: request.entity_id.to_owned(),
        change_kind: request.change_kind.to_owned(),
        actor_id: request.actor_id.to_owned(),
        actor_kind: actor_kind_str(request.actor_kind).to_owned(),
        outcome: outcome_str(outcome).to_owned(),
        error_class: owned(error_class),
        before_json: request.before_json.clone(),
        after_json: request.after_json.clone(),
        revision_before: revision_column(revision_before),
        revision_after: revision_column(revision_after),
        idempotency_key: request.idempotency_key.to_owned(),
        correlation_id: owned(request.correlation_id),
        causation_id: owned(request.causation_id),
        created_at_ms: request.now_ms as i64,
    }
}

/// The applied receipt that already carries a request's idempotency key.
#[derive(Debug, Clone, PartialEq, Eq)]
pub struct AppliedReceipt {
    pub receipt_id: String,
    pub revision: Option<u64>,
}

/// What a mutation's transaction reads before anything is written.
#[derive(Debug, Clone, PartialEq, Eq)]
pub struct LedgerReads {
    pub applied: Option<AppliedReceipt>,
    /// The entity's revision. It is not looked at where `applied` is present.
    pub current_revision: Option<u64>,
    /// How many receipts are stored.
    pub receipt_count: u64,
}

/// How a mutation ends.
#[derive(Debug)]
pub enum Verdict {
    /// The key was applied before: nothing is written but the replay's receipt.
    Replayed { revision: Option<u64> },
    /// The caller expected another revision: nothing is written but the receipt.
    Conflict { current_revision: Option<u64> },
    /// The domain write stands, and the entity moves on to `revision`.
    Applied { current_revision: Option<u64>, revision: u64 },
    /// The domain write failed: it is rolled back, and the failure's receipt is
    /// written in a transaction of its own.
    Failed { current_revision: Option<u64>, error: StoreError },
}

/// What a [`Verdict`] says.
pub enum VerdictView {
    Replayed { revision: Option<u64> },
    Conflict { current_revision: Option<u64> },
    Applied { current_revision: Option<u64>, revision: u64 },
    Failed { current_revision: Option<u64>, error: ErrorView },
}

impl DeepView for Verdict {
    type V = VerdictView;

    open spec fn deep_view(&self) -> VerdictView {
        match self {
            Verdict::Replayed { revision } => VerdictView::Replayed { revision: *revision },
            Verdict::Conflict { current_revision } => VerdictView::Conflict {
                current_revision: *current_revision,
            },
            Verdict::Applied { current_revision, revision } => VerdictView::Applied {
                current_revision: *current_revision,
                revision: *revision,
            },
            Verdict::Failed { current_revision, error } => VerdictView::Failed {
                current_revision: *current_revision,
                error: error.deep_view(),
            },
        }
    }
}

/// The caller expected a revision that is not the entity's.
pub open spec fn revision_conflicts(request: RequestView, current: Option<u64>) -> bool {
    request.expected_revision is Some && current != request.expected_revision
}

/// The revision after the current one; a first write makes revision 1.
pub open spec fn next_revision(current: Option<u64>) -> int {
    match current {
        Some(revision) => revision + 1,
        None => 1,
    }
}

/// How a mutation ends: a key that was applied before is replayed, another
/// revision than the expected one is a conflict, and otherwise the domain write
/// (`None`, or its error) decides.
pub open spec fn verdict_of(
    request: RequestView,
    applied: Option<Option<u64>>,
    current: Option<u64>,
    domain_error: Option<ErrorView>,
) -> VerdictView {
    match applied {
        Some(revision) => VerdictView::Replayed { revision },
        None => if revision_conflicts(request, current) {
            VerdictView::Conflict { current_revision: current }
        } else {
            match domain_error {
                None => VerdictView::Applied {
                    current_revision: current,
                    revision: next_revision(current) as u64,
                },
                Some(error) => VerdictView::Failed { current_revision: current, error },
            }
        },
    }
}

/// The revision of the applied receipt, where there is one.
pub open spec fn applied_revision(applied: Option<AppliedReceipt>) -> Option<Option<u64>> {
    match applied {
        Some(receipt) => Some(receipt.revision),
        None => None,
    }
}

/// The error of a domain write, where it has one.
pub open spec fn domain_error_of(result: Result<(), StoreError>) -> Option<ErrorView> {
    match result {
        Ok(_) => None,
        Err(error) => Some(error.deep_view()),
    }
}

/// Neither a replay nor a conflict stands before the domain write.
pub open spec fn reaches_domain_write(request: RequestView, reads: LedgerReads) -> bool {
    reads.applied is None && !revision_conflicts(request, reads.current_revision)
}

/// Decide a mutation, and make the id of the applied receipt available to the
/// domain write. `domain_write` runs at most once, and only where the key was not
/// applied before and the revision is the expected one.
pub fn mutate_with_receipt_id<F>(
    request: &MutationRequest<'_>,
    reads: &LedgerReads,
    domain_write: F,
) -> (verdict: Verdict) where F: FnOnce(&str) -> Result<(), StoreError>
    requires
        reads.receipt_count < u64::MAX,
        reaches_domain_write(request.deep_view(), *reads) ==> {
            &&& reads.current_revision != Some(u64::MAX)
            &&& forall|id: &str|
                id@ == receipt_id_text(reads.receipt_count as nat + 1)
                    ==> #[trigger] domain_write.requires((id,))
        },
    ensures
        !reaches_domain_write(request.deep_view(), *reads) ==> verdict.deep_view() == verdict_of(
            request.deep_view(),
            applied_revision(reads.applied),
            reads.current_revision,
            None,
        ),
        reaches_domain_write(request.deep_view(), *reads) ==> exists|
            id: &str,
            result: Result<(), StoreError>,
        |
            {
                &&& id@ == receipt_id_text(reads.receipt_count as nat + 1)
                &&& #[trigger] domain_write.ensures((id,), result)
                &&& verdict.deep_view() == verdict_of(
                    request.deep_view(),
                    None,
                    reads.current_revision,
                    domain_error_of(result),
                )
            },
{
    match &reads.applied {
        Some(receipt) => Verdict::Replayed { revision: receipt.revision },
        None => {
            if let Some(expected) = request.expected_revision {
                let conflicts: bool = match reads.current_revision {
                    Some(revision) => revision != expected,
                    None => true,
                };
                if conflicts {
                    return Verdict::Conflict { current_revision: reads.current_revision };
                }
            }
            let applied_receipt_id: String = next_receipt_id(reads.receipt_count);
            let id: &str = applied_receipt_id.as_str();
            match domain_write(id) {
                Ok(_) => {
                    let revision: u64 = match reads.current_revision {
                        Some(revision) => revision + 1,
                        None => 1,
                    };
                    Verdict::Applied { current_revision: reads.current_revision, revision }
                },
                Err(error) => Verdict::Failed { current_revision: reads.current_revision, error },
            }
        },
    }
}

/// Decide a mutation through the receipt spine.
///
/// `domain_write` performs the slice's own table writes in the open transaction.
/// If it errors, the transaction rolls back and a failure receipt is written in a
/// fresh transaction so the failure remains auditable.
pub fn mutate<F>(request: &MutationRequest<'_>, reads: &LedgerReads, domain_write: F) -> (verdict:
    Verdict) where F: FnOnce() -> Result<(), StoreError>
    requires
        reads.receipt_count < u64::MAX,
        reaches_domain_write(request.deep_view(), *reads) ==> reads.current_revision != Some(
            u64::MAX,
        ) && domain_write.requires(()),
    ensures
        !reaches_domain_write(request.deep_view(), *reads) ==> verdict.deep_view() == verdict_of(
            request.deep_view(),
            applied_revision(reads.applied),
            reads.current_revision,
            None,
        ),
        reaches_domain_write(request.deep_view(), *reads) ==> exists|
            result: Result<(), StoreError>,
        |
            #[trigger] domain_write.ensures((), result) && verdict.deep_view() == verdict_of(
                request.deep_view(),
                None,
                reads.current_revision,
                domain_error_of(result),
            ),
{
    let write = |_receipt_id: &str| -> (result: Result<(), StoreError>)
        requires
            call_requires(domain_write, ()),
        ensures
            call_ensures(domain_write, (), result),
        { domain_write() };
    mutate_with_receipt_id(request, reads, write)
}

/// The class of failure that a verdict records, where it records one.
pub open spec fn verdict_error_class(verdict: VerdictView) -> Option<Seq<char>> {
    match verdict {
        VerdictView::Replayed { .. } => None,
        VerdictView::Conflict { .. } => Some("revision_conflict"@),
        VerdictView::Applied { .. } => None,
        VerdictView::Failed { error, .. } => Some(error_class_text(error)),
    }
}

/// The outcome that a verdict is recorded as.
pub open spec fn verdict_outcome(verdict: VerdictView) -> ReceiptOutcomeDto {
    match verdict {
        VerdictView::Replayed { .. } => ReceiptOutcomeDto::ReplayedIdempotent,
        VerdictView::Conflict { .. } => ReceiptOutcomeDto::RevisionConflict,
        VerdictView::Applied { .. } => ReceiptOutcomeDto::Applied,
        VerdictView::Failed { .. } => ReceiptOutcomeDto::Failed,
    }
}

/// The entity's revision before the mutation, as the receipt records it.
pub open spec fn verdict_revision_before(verdict: VerdictView) -> Option<u64> {
    match verdict {
        VerdictView::Replayed { revision } => revision,
        VerdictView::Conflict { current_revision } => current_revision,
        VerdictView::Applied { current_revision, .. } => current_revision,
        VerdictView::Failed { current_revision, .. } => current_revision,
    }
}

/// The entity's revision after the mutation, as the receipt records it.
pub open spec fn verdict_revision_after(verdict: VerdictView) -> Option<u64> {
    match verdict {
        VerdictView::Applied { revision, .. } => Some(revision),
        _ => verdict_revision_before(verdict),
    }
}

/// The receipt that a verdict leaves behind.
pub open spec fn verdict_receipt(
    request: RequestView,
    verdict: VerdictView,
    receipt_id: Seq<char>,
) -> ReceiptView {
    receipt_of(
        request,
        receipt_id,
        verdict_outcome(verdict),
        verdict_error_class(verdict),
        verdict_revision_before(verdict),
        verdict_revision_after(verdict),
    )
}

/// The revision that a verdict writes, where it writes one.
pub open spec fn verdict_revision_write(verdict: VerdictView) -> Option<u64> {
    match verdict {
        VerdictView::Applied { revision, .. } => Some(revision),
        _ => None,
    }
}

/// What the caller of a mutation is answered.
pub open spec fn verdict_answer(verdict: VerdictView, receipt_id: Seq<char>) -> Result<
    OutcomeView,
    ErrorView,
> {
    match verdict {
        VerdictView::Replayed { revision } => Ok(
            OutcomeView::ReplayedIdempotent { receipt_id, revision },
        ),
        VerdictView::Conflict { current_revision } => Ok(
            OutcomeView::RevisionConflict { receipt_id, current_revision },
        ),
        VerdictView::Applied { revision, .. } => Ok(OutcomeView::Applied { receipt_id, revision }),
        VerdictView::Failed { error, .. } => Err(error),
    }
}

/// What a caller's answer says.
pub open spec fn answer_view(answer: Result<MutationOutcome, StoreError>) -> Result<
    OutcomeView,
    ErrorView,
> {
    match answer {
        Ok(outcome) => Ok(outcome.deep_view()),
        Err(error) => Err(error.deep_view()),
    }
}

impl Verdict {
    /// The receipt to insert, in the transaction that counts `receipt_count`
    /// receipts: for a failure a fresh one, else the mutation's own.
    pub fn receipt(&self, request: &MutationRequest<'_>, receipt_count: u64) -> (row: ReceiptRow)
        requires
            receipt_count < u64::MAX,
        ensures
            row.deep_view() == verdict_receipt(
                request.deep_view(),
                self.deep_view(),
                receipt_id_text(receipt_count as nat + 1),
            ),
    {
        match self {
            Verdict::Replayed { revision } => insert_receipt(
                request,
                receipt_count,
                ReceiptOutcomeDto::ReplayedIdempotent,
                None,
                *revision,
                *revision,
            ),
            Verdict::Conflict { current_revision } => insert_receipt(
                request,
                receipt_count,
                ReceiptOutcomeDto::RevisionConflict,
                Some("revision_conflict"),
                *current_revision,
                *current_revision,
            ),
            Verdict::Applied { current_revision, revision } => insert_receipt(
                request,
                receipt_count,
                ReceiptOutcomeDto::Applied,
                None,
                *current_revision,
                Some(*revision),
            ),
            Verdict::Failed { current_revision, error } => {
                let class: String = error_class(error);
                insert_receipt(
                    request,
                    receipt_count,
                    ReceiptOutcomeDto::Failed,
                    Some(class.as_str()),
                    *current_revision,
                    *current_revision,
                )
            },
        }
    }

    /// The entity revision to write, where one is to be written.
    pub fn revision_write(&self) -> (r: Option<u64>)
        ensures
            r == verdict_revision_write(self.deep_view()),
    {
        match self {
            Verdict::Applied { revision, .. } => Some(*revision),
            _ => None,
        }
    }

    /// True when the domain write is rolled back before the receipt is written.
    pub fn rolls_back(&self) -> (r: bool)
        ensures
            r == (self.deep_view() is Failed),
    {
        match self {
            Verdict::Failed { .. } => true,
            _ => false,
        }
    }

    /// The caller's answer, once the receipt with this id is stored.
    pub fn answer(self, receipt_id: String) -> (r: Result<MutationOutcome, StoreError>)
        ensures
            answer_view(r) == verdict_answer(self.deep_view(), receipt_id@),
    {
        match self {
            Verdict::Replayed { revision } => Ok(
                MutationOutcome::ReplayedIdempotent { receipt_id, revision },
            ),
            Verdict::Conflict { current_revision } => Ok(
                MutationOutcome::RevisionConflict { receipt_id, current_revision },
            ),
            Verdict::Applied { revision, .. } => Ok(MutationOutcome::Applied { receipt_id, revision }),
            Verdict::Failed { error, .. } => Err(error),
        }
    }
}

/// The receipt of an auditable failed operation that did not reach a domain write.
///
/// For asynchronous/background stages where validation or orchestration fails
/// after the initiating HTTP request has already returned. It keeps those
/// failures visible through the normal receipt/debug spine without pretending a
/// domain row was mutated.
pub fn record_failed_receipt(
    request: &MutationRequest<'_>,
    current_revision: Option<u64>,
    receipt_count: u64,
    error_class: &str,
) -> (row: ReceiptRow)
    requires
        receipt_count < u64::MAX,
    ensures
        row.deep_view() == receipt_of(
            request.deep_view(),
            receipt_id_text(receipt_count as nat + 1),
            ReceiptOutcomeDto::Failed,
            Some(error_class@),
            current_revision,
            current_revision,
        ),
{
    insert_receipt(
        request,
        receipt_count,
        ReceiptOutcomeDto::Failed,
        Some(error_class),
        current_revision,
        current_revision,
    )
}

} // verus!
