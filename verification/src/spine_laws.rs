//! How a mutation ends, what its receipt says, and what its caller is answered.

use vstd::prelude::*;

use crate::contracts::receipt::ActorKindDto;
use crate::json::{member, quoted};
use crate::receipt_laws::{matching_selects, queries_list_in_order};
use crate::receipt_query::{all_hold, comes_before, ids_differ, older, Order};
use crate::receipts::{
    compaction_json, compaction_request, correlation_query, ReceiptPayloadCompactionBatch,
};
use crate::spine::applied_revision_query;
use crate::store_core::{
    actor_kind_of, outcome_of, read_revision_of, receipt_id_text, says_busy,
    stored_revision_reads_back, verdict_answer, verdict_of, verdict_receipt,
    verdict_revision_write, ErrorView, OutcomeView, ReceiptView, RequestView, VerdictView,
};
use crate::text::{
    ascii_lowered, contains_at, decimal, decimal_has_its_value, has_text, value_of,
};
use crate::work_queue::prompt_laws::{members_stand_in_the_object, stands_in_the_whole};

verus! {

/// A key that was applied before is a replay, whatever the entity's revision is by
/// now. Else a caller that expects another revision than the entity's meets a
/// conflict. Else the domain write decides: it fails with its error, or the entity
/// moves on to the revision after its own, the first one being one.
pub proof fn mutations_are_decided_in_order(
    request: RequestView,
    applied: Option<Option<u64>>,
    current: Option<u64>,
    domain_error: Option<ErrorView>,
)
    ensures
        ({
            let verdict = verdict_of(request, applied, current, domain_error);
            let expected = request.expected_revision;
            let agrees = expected is None || expected == current;
            &&& verdict is Replayed <==> applied is Some
            &&& applied is Some ==> verdict->Replayed_revision == applied->Some_0
            &&& verdict is Conflict <==> applied is None && !agrees
            &&& verdict is Conflict ==> verdict->Conflict_current_revision == current
            &&& verdict is Failed <==> applied is None && agrees && domain_error is Some
            &&& verdict is Failed ==> verdict->error == domain_error->Some_0
                && verdict->Failed_current_revision == current
            &&& verdict is Applied <==> applied is None && agrees && domain_error is None
            &&& verdict is Applied ==> verdict->Applied_current_revision == current
            &&& verdict is Applied && current is None ==> verdict->Applied_revision == 1
            &&& verdict is Applied && current is Some && current->Some_0 < u64::MAX
                ==> verdict->Applied_revision == current->Some_0 + 1
        }),
{
}

/// The receipt of a mutation names its entity, its actor and its key as the request
/// does, keeps the payloads, and tells how it ended: an applied one from which
/// revision to which, a conflict and a failure with the entity's revision unmoved
/// and the class of the error.
pub proof fn receipts_say_how_it_ended(
    request: RequestView,
    verdict: VerdictView,
    receipt_id: Seq<char>,
)
    ensures
        ({
            let receipt = verdict_receipt(request, verdict, receipt_id);
            let before = read_revision_of(receipt.revision_before);
            let after = read_revision_of(receipt.revision_after);
            &&& receipt.receipt_id == receipt_id
            &&& receipt.client_id == request.client_id
            &&& receipt.entity_kind == request.entity_kind
            &&& receipt.entity_id == request.entity_id
            &&& receipt.change_kind == request.change_kind
            &&& receipt.actor_id == request.actor_id
            &&& receipt.idempotency_key == request.idempotency_key
            &&& receipt.correlation_id == request.correlation_id
            &&& receipt.causation_id == request.causation_id
            &&& receipt.before_json == request.before_json
            &&& receipt.after_json == request.after_json
            &&& receipt.created_at_ms == request.now_ms as i64
            &&& request.actor_kind == ActorKindDto::Operator ==> receipt.actor_kind == "operator"@
            &&& request.actor_kind == ActorKindDto::System ==> receipt.actor_kind == "system"@
            &&& request.actor_kind == ActorKindDto::Agent ==> receipt.actor_kind == "agent"@
            &&& verdict is Applied ==> receipt.outcome == "applied"@ && receipt.error_class is None
                && before == verdict->Applied_current_revision && after == Some(
                verdict->Applied_revision,
            )
            &&& verdict is Replayed ==> receipt.outcome == "replayed_idempotent"@
                && receipt.error_class is None && before == verdict->Replayed_revision && after
                == verdict->Replayed_revision
            &&& verdict is Conflict ==> receipt.outcome == "revision_conflict"@
                && receipt.error_class == Some("revision_conflict"@) && before
                == verdict->Conflict_current_revision && after
                == verdict->Conflict_current_revision
            &&& verdict is Failed ==> receipt.outcome == "failed"@ && before
                == verdict->Failed_current_revision && after == verdict->Failed_current_revision
            &&& verdict is Failed && verdict->error is Sqlite ==> receipt.error_class == Some(
                "sqlite"@,
            )
            &&& verdict is Failed && verdict->error is Domain ==> receipt.error_class == Some(
                "domain"@,
            )
        }),
{
    match verdict {
        VerdictView::Applied { current_revision, revision } => {
            stored_revision_reads_back(current_revision);
            stored_revision_reads_back(Some(revision));
        },
        VerdictView::Replayed { revision } => {
            stored_revision_reads_back(revision);
        },
        VerdictView::Conflict { current_revision } => {
            stored_revision_reads_back(current_revision);
        },
        VerdictView::Failed { current_revision, error } => {
            stored_revision_reads_back(current_revision);
        },
    }
}

/// A caller is answered with the receipt of the mutation and the revision it ended
/// at; only a failed domain write is answered with its error. Only an applied
/// mutation writes a revision, and it writes the one it is answered with.
pub proof fn callers_are_answered_as_it_ended(verdict: VerdictView, receipt_id: Seq<char>)
    ensures
        ({
            let answer = verdict_answer(verdict, receipt_id);
            &&& answer is Err <==> verdict is Failed
            &&& verdict is Failed ==> answer->Err_0 == verdict->error
            &&& verdict is Applied ==> answer->Ok_0 == (OutcomeView::Applied {
                receipt_id,
                revision: verdict->Applied_revision,
            })
            &&& verdict is Replayed ==> answer->Ok_0 == (OutcomeView::ReplayedIdempotent {
                receipt_id,
                revision: verdict->Replayed_revision,
            })
            &&& verdict is Conflict ==> answer->Ok_0 == (OutcomeView::RevisionConflict {
                receipt_id,
                current_revision: verdict->Conflict_current_revision,
            })
            &&& verdict_revision_write(verdict) is Some <==> verdict is Applied
            &&& verdict is Applied ==> verdict_revision_write(verdict) == Some(
                verdict->Applied_revision,
            )
        }),
{
}

/// Stored texts that no actor kind or outcome is written as are read as the most
/// careful of them: the system, and a failure.
pub proof fn unknown_texts_are_read_with_care(raw: Seq<char>)
    ensures
        raw == "operator"@ ==> actor_kind_of(raw) == ActorKindDto::Operator,
        raw != "operator"@ && raw != "agent"@ ==> actor_kind_of(raw) == ActorKindDto::System,
        raw != "applied"@ && raw != "replayed_idempotent"@ && raw != "revision_conflict"@
            ==> outcome_of(raw) is Failed,
        outcome_of(raw) is Applied <==> raw == "applied"@,
{
}

proof fn lowering_again_changes_nothing(s: Seq<char>)
    ensures
        ascii_lowered(ascii_lowered(s)) == ascii_lowered(s),
{
    assert(ascii_lowered(ascii_lowered(s)) =~= ascii_lowered(s));
}

/// A message says that the database is busy wherever in it, and in whatever case, one
/// of SQLite's words for it stands; and what is written around such a message does
/// not hide it.
pub proof fn busy_messages_are_recognized(message: Seq<char>, before: Seq<char>, after: Seq<char>)
    ensures
        says_busy(message) == says_busy(ascii_lowered(message)),
        has_text(ascii_lowered(message), "database is locked"@) ==> says_busy(message),
        has_text(ascii_lowered(message), "database is busy"@) ==> says_busy(message),
        has_text(ascii_lowered(message), "sqlite_busy"@) ==> says_busy(message),
        has_text(ascii_lowered(message), "sqlite_locked"@) ==> says_busy(message),
        has_text(ascii_lowered(message), "database schema is locked"@) ==> says_busy(message),
        says_busy(message) ==> has_text(ascii_lowered(message), "locked"@) || has_text(
            ascii_lowered(message),
            "busy"@,
        ),
        says_busy(message) ==> says_busy(before + message + after),
{
    let lower = ascii_lowered(message);
    lowering_again_changes_nothing(message);
    if says_busy(message) {
        word_ends_the_text(lower);
        let whole = before + message + after;
        assert(ascii_lowered(whole) =~= ascii_lowered(before) + lower + ascii_lowered(after));
        let texts = seq![
            "database is locked"@,
            "database is busy"@,
            "sqlite_busy"@,
            "sqlite_locked"@,
            "database schema is locked"@,
        ];
        assert forall|i: int| 0 <= i < 5 && has_text(lower, #[trigger] texts[i]) implies has_text(
            ascii_lowered(whole),
            texts[i],
        ) by {
            stands_in_the_whole(ascii_lowered(before), lower, ascii_lowered(after), texts[i]);
        }
        assert(texts[0] == "database is locked"@ && texts[1] == "database is busy"@ && texts[2]
            == "sqlite_busy"@ && texts[3] == "sqlite_locked"@ && texts[4]
            == "database schema is locked"@);
    }
}

proof fn tail_stands(lower: Seq<char>, text: Seq<char>, tail: Seq<char>)
    requires
        has_text(lower, text),
        tail.len() <= text.len(),
        text.skip(text.len() - tail.len()) == tail,
    ensures
        has_text(lower, tail),
{
    let at = choose|at: int| #[trigger] contains_at(lower, text, at);
    let skipped = text.len() - tail.len();
    assert(lower.subrange(at + skipped, at + skipped + tail.len()) =~= lower.subrange(
        at,
        at + text.len(),
    ).skip(skipped));
    assert(contains_at(lower, tail, at + skipped));
}

proof fn word_ends_the_text(lower: Seq<char>)
    requires
        has_text(lower, "database is locked"@) || has_text(lower, "database is busy"@) || has_text(
            lower,
            "sqlite_busy"@,
        ) || has_text(lower, "sqlite_locked"@) || has_text(lower, "database schema is locked"@),
    ensures
        has_text(lower, "locked"@) || has_text(lower, "busy"@),
{
    reveal_strlit("locked");
    reveal_strlit("busy");
    if has_text(lower, "database is locked"@) {
        reveal_strlit("database is locked");
        assert("database is locked"@.skip(12) =~= "locked"@);
        tail_stands(lower, "database is locked"@, "locked"@);
    } else if has_text(lower, "database is busy"@) {
        reveal_strlit("database is busy");
        assert("database is busy"@.skip(12) =~= "busy"@);
        tail_stands(lower, "database is busy"@, "busy"@);
    } else if has_text(lower, "sqlite_busy"@) {
        reveal_strlit("sqlite_busy");
        assert("sqlite_busy"@.skip(7) =~= "busy"@);
        tail_stands(lower, "sqlite_busy"@, "busy"@);
    } else if has_text(lower, "sqlite_locked"@) {
        reveal_strlit("sqlite_locked");
        assert("sqlite_locked"@.skip(7) =~= "locked"@);
        tail_stands(lower, "sqlite_locked"@, "locked"@);
    } else {
        reveal_strlit("database schema is locked");
        assert("database schema is locked"@.skip(19) =~= "locked"@);
        tail_stands(lower, "database schema is locked"@, "locked"@);
    }
}

/// The receipts of correlation ids are those of the client that carry one of the ids,
/// newest first and each once: all of them, or the newest that the limit admits.
pub proof fn correlated_receipts_stand_newest_first(
    receipts: Seq<ReceiptView>,
    client_id: Seq<char>,
    ids: Seq<Seq<char>>,
    limit: usize,
)
    requires
        ids_differ(receipts),
    ensures
        ({
            let list = correlation_query(client_id, ids, limit).rows(receipts);
            &&& forall|i: int, j: int|
                0 <= i < j < list.len() ==> older(#[trigger] list[j], #[trigger] list[i])
            &&& forall|r: ReceiptView| #[trigger]
                list.contains(r) ==> receipts.contains(r) && r.client_id == client_id
                    && r.correlation_id is Some && ids.contains(r.correlation_id->Some_0)
            &&& forall|r: ReceiptView| #[trigger]
                receipts.contains(r) && r.client_id == client_id && r.correlation_id is Some
                    && ids.contains(r.correlation_id->Some_0) && !list.contains(r) ==> list.len()
                    == limit && forall|i: int| 0 <= i < list.len() ==> older(r, #[trigger] list[i])
        }),
{
    let query = correlation_query(client_id, ids, limit);
    let list = query.rows(receipts);
    queries_list_in_order(query, receipts, limit);
    assert forall|r: ReceiptView| #[trigger] all_hold(query.conditions, r) <==> (r.client_id
        == client_id && r.correlation_id is Some && ids.contains(r.correlation_id->Some_0)) by {
        if all_hold(query.conditions, r) {
            assert(query.conditions[0].holds(r) && query.conditions[1].holds(r));
        }
    }
    assert forall|i: int, j: int| 0 <= i < j < list.len() implies older(
        #[trigger] list[j],
        #[trigger] list[i],
    ) by {
        assert(comes_before(Order::NewestFirst, list[i], list[j]));
    }
    assert forall|r: ReceiptView| #[trigger]
        receipts.contains(r) && r.client_id == client_id && r.correlation_id is Some
            && ids.contains(r.correlation_id->Some_0) && !list.contains(r) implies list.len()
        == limit && forall|i: int| 0 <= i < list.len() ==> older(r, #[trigger] list[i]) by {
        assert(all_hold(query.conditions, r));
        assert forall|i: int| 0 <= i < list.len() implies older(r, #[trigger] list[i]) by {
            assert(comes_before(Order::NewestFirst, list[i], r));
        }
    }
}

/// The applied revision of a key is looked up in one receipt: an applied one of the
/// client under that key, where there is any.
pub proof fn applied_revisions_are_looked_up_by_key(
    receipts: Seq<ReceiptView>,
    client_id: Seq<char>,
    key: Seq<char>,
)
    requires
        ids_differ(receipts),
    ensures
        ({
            let found = applied_revision_query(client_id, key).rows(receipts);
            &&& found.len() <= 1
            &&& found.len() == 1 ==> receipts.contains(found[0]) && found[0].client_id == client_id
                && found[0].idempotency_key == key && found[0].outcome == "applied"@
            &&& found.len() == 0 ==> forall|r: ReceiptView| #[trigger]
                receipts.contains(r) && r.client_id == client_id && r.idempotency_key == key
                    ==> r.outcome != "applied"@
        }),
{
    let query = applied_revision_query(client_id, key);
    let found = query.rows(receipts);
    queries_list_in_order(query, receipts, 1);
    matching_selects(query.conditions, receipts);
    assert forall|r: ReceiptView| #[trigger] all_hold(query.conditions, r) <==> (r.client_id
        == client_id && r.idempotency_key == key && r.outcome == "applied"@) by {
        if all_hold(query.conditions, r) {
            assert(query.conditions[0].holds(r) && query.conditions[1].holds(r)
                && query.conditions[2].holds(r));
        }
    }
    if found.len() == 1 {
        assert(found.contains(found[0]));
    } else {
        assert forall|r: ReceiptView| #[trigger]
            receipts.contains(r) && r.client_id == client_id && r.idempotency_key == key implies
            r.outcome != "applied"@ by {
            if r.outcome == "applied"@ {
                assert(all_hold(query.conditions, r));
                assert(!found.contains(r));
            }
        }
    }
}

/// The receipt of a compaction tells its cutoff, the first and the last receipt of
/// the batch, and how many there were.
pub proof fn compactions_tell_their_batch(cutoff_ms: u64, receipt_ids: Seq<Seq<char>>)
    requires
        receipt_ids.len() > 0,
    ensures
        ({
            let json = compaction_json(cutoff_ms, receipt_ids);
            &&& has_text(json, quoted("cutoff_ms"@) + seq![':'] + decimal(cutoff_ms as nat))
            &&& value_of(decimal(cutoff_ms as nat)) == cutoff_ms
            &&& has_text(json, quoted("first_receipt_id"@) + seq![':'] + quoted(receipt_ids[0]))
            &&& has_text(
                json,
                quoted("last_receipt_id"@) + seq![':'] + quoted(
                    receipt_ids[receipt_ids.len() - 1],
                ),
            )
            &&& has_text(json, quoted("rows_compacted"@) + seq![':'] + decimal(receipt_ids.len()))
            &&& value_of(decimal(receipt_ids.len())) == receipt_ids.len()
        }),
{
    decimal_has_its_value(cutoff_ms as nat);
    decimal_has_its_value(receipt_ids.len());
    let members = seq![
        member("cutoff_ms"@, decimal(cutoff_ms as nat)),
        member("first_receipt_id"@, quoted(receipt_ids.first())),
        member("last_receipt_id"@, quoted(receipt_ids.last())),
        member("operation"@, quoted("receipt_payload_compaction"@)),
        member("rows_compacted"@, decimal(receipt_ids.len())),
    ];
    members_stand_in_the_object(members, 0);
    members_stand_in_the_object(members, 1);
    members_stand_in_the_object(members, 2);
    members_stand_in_the_object(members, 4);
}

/// A compaction is receipted as a mutation of its own, in its actor's name and under
/// its own key, whatever the revision of the entity it is kept under.
pub proof fn compactions_are_receipted(batch: ReceiptPayloadCompactionBatch<'_>)
    ensures
        ({
            let request = compaction_request(batch);
            &&& request.client_id == batch.client_id@
            &&& request.entity_kind == batch.mutation_entity_kind@
            &&& request.entity_id == batch.entity_id@
            &&& request.change_kind == batch.mutation_change_kind@
            &&& request.actor_id == batch.actor_id@
            &&& request.actor_kind == batch.actor_kind
            &&& request.expected_revision is None
            &&& request.idempotency_key == batch.idempotency_key@
            &&& request.correlation_id == batch.correlation_id.deep_view()
            &&& request.causation_id == batch.causation_id.deep_view()
            &&& request.before_json is None
            &&& request.after_json == Some(
                compaction_json(batch.cutoff_ms, batch.receipt_ids.deep_view()),
            )
            &&& request.now_ms == batch.now_ms
        }),
{
}

/// A receipt id starts with its prefix, has at least twelve digits behind it, and
/// they write its number.
pub proof fn receipt_ids_write_their_number(n: nat)
    ensures
        receipt_id_text(n).len() >= 17,
        receipt_id_text(n).take(5) == "rcpt_"@,
        value_of(receipt_id_text(n).skip(5)) == n,
{
    reveal_strlit("rcpt_");
    decimal_has_its_value(n);
    crate::ledger::padding_keeps_the_value(decimal(n), 12);
    padding_fills(decimal(n), 12);
    let digits = crate::text::zero_padded(decimal(n), 12);
    assert(receipt_id_text(n).take(5) =~= "rcpt_"@);
    assert(receipt_id_text(n).skip(5) =~= digits);
}

proof fn padding_fills(s: Seq<char>, width: nat)
    ensures
        crate::text::zero_padded(s, width).len() >= width,
    decreases width - s.len(),
{
    if s.len() < width {
        padding_fills(seq!['0'] + s, width);
    }
}

} // verus!
