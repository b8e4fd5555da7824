//! The receipt ledger as a whole: what the stored receipts and revisions are
//! after a mutation, and what every mutation keeps.

use vstd::prelude::*;

use crate::contracts::receipt::ReceiptOutcomeDto;
use crate::store_core::{
    next_revision, outcome_text, read_revision_of, receipt_id_text, receipt_of,
    stored_revision_reads_back, stored_texts_read_back, verdict_answer, verdict_of,
    verdict_receipt, verdict_revision_write, ErrorView, OutcomeView, ReceiptView, RequestView,
    VerdictView,
};
use crate::text::{decimal, decimal_has_its_value, value_of, zero_padded};

verus! {

/// What a revision is counted for.
pub struct EntityKey {
    pub client_id: Seq<char>,
    pub entity_kind: Seq<char>,
    pub entity_id: Seq<char>,
}

/// The stored receipts, oldest first, and the revision of each entity.
pub struct LedgerView {
    pub receipts: Seq<ReceiptView>,
    pub revisions: Map<EntityKey, u64>,
}

/// The entity that a request changes.
pub open spec fn entity_of(request: RequestView) -> EntityKey {
    EntityKey {
        client_id: request.client_id,
        entity_kind: request.entity_kind,
        entity_id: request.entity_id,
    }
}

/// The receipt records an applied mutation of this client under this key.
pub open spec fn is_applied(receipt: ReceiptView, client_id: Seq<char>, key: Seq<char>) -> bool {
    receipt.client_id == client_id && receipt.idempotency_key == key && receipt.outcome
        == outcome_text(ReceiptOutcomeDto::Applied)
}

/// The revision that was applied under a client's idempotency key, where one was.
pub open spec fn applied_under(
    ledger: LedgerView,
    client_id: Seq<char>,
    key: Seq<char>,
) -> Option<Option<u64>> {
    if exists|i: int|
        0 <= i < ledger.receipts.len() && is_applied(#[trigger] ledger.receipts[i], client_id, key) {
        let i = choose|i: int|
            0 <= i < ledger.receipts.len() && is_applied(
                #[trigger] ledger.receipts[i],
                client_id,
                key,
            );
        Some(read_revision_of(ledger.receipts[i].revision_after))
    } else {
        None
    }
}

/// The revision of an entity, where it has one.
pub open spec fn revision_in(ledger: LedgerView, entity: EntityKey) -> Option<u64> {
    if ledger.revisions.contains_key(entity) {
        Some(ledger.revisions[entity])
    } else {
        None
    }
}

/// How a request ends on this ledger, given what its domain write would answer.
pub open spec fn verdict_on(
    ledger: LedgerView,
    request: RequestView,
    domain_error: Option<ErrorView>,
) -> VerdictView {
    verdict_of(
        request,
        applied_under(ledger, request.client_id, request.idempotency_key),
        revision_in(ledger, entity_of(request)),
        domain_error,
    )
}

/// The id of the receipt that is written next.
pub open spec fn next_id(ledger: LedgerView) -> Seq<char> {
    receipt_id_text(ledger.receipts.len() + 1)
}

/// The ledger after a request.
pub open spec fn ledger_after(
    ledger: LedgerView,
    request: RequestView,
    domain_error: Option<ErrorView>,
) -> LedgerView {
    let verdict = verdict_on(ledger, request, domain_error);
    LedgerView {
        receipts: ledger.receipts.push(verdict_receipt(request, verdict, next_id(ledger))),
        revisions: match verdict_revision_write(verdict) {
            Some(revision) => ledger.revisions.insert(entity_of(request), revision),
            None => ledger.revisions,
        },
    }
}

/// What the caller of a request is answered.
pub open spec fn answer_on(
    ledger: LedgerView,
    request: RequestView,
    domain_error: Option<ErrorView>,
) -> Result<OutcomeView, ErrorView> {
    verdict_answer(verdict_on(ledger, request, domain_error), next_id(ledger))
}

/// Receipts are numbered in the order they were written, and no client's key was
/// applied twice.
pub open spec fn ledger_ok(ledger: LedgerView) -> bool {
    &&& forall|i: int|
        0 <= i < ledger.receipts.len() ==> (#[trigger] ledger.receipts[i]).receipt_id
            == receipt_id_text((i + 1) as nat)
    &&& forall|i: int, j: int|
        0 <= i < j < ledger.receipts.len() && (#[trigger] ledger.receipts[i]).outcome
            == outcome_text(ReceiptOutcomeDto::Applied) && (#[trigger] ledger.receipts[j]).outcome
            == outcome_text(ReceiptOutcomeDto::Applied) && ledger.receipts[i].client_id
            == ledger.receipts[j].client_id ==> ledger.receipts[i].idempotency_key
            != ledger.receipts[j].idempotency_key
}

/// A ledger with nothing in it is in order.
pub proof fn empty_ledger_is_ok()
    ensures
        ledger_ok(LedgerView { receipts: Seq::empty(), revisions: Map::empty() }),
{
}

/// Every mutation keeps the ledger in order, whatever its outcome.
pub proof fn mutation_keeps_the_ledger_ok(
    ledger: LedgerView,
    request: RequestView,
    domain_error: Option<ErrorView>,
)
    requires
        ledger_ok(ledger),
    ensures
        ledger_ok(ledger_after(ledger, request, domain_error)),
{
    let after = ledger_after(ledger, request, domain_error);
    let verdict = verdict_on(ledger, request, domain_error);
    applied_text_is_its_own();
    assert forall|i: int, j: int|
        0 <= i < j < after.receipts.len() && (#[trigger] after.receipts[i]).outcome == outcome_text(
            ReceiptOutcomeDto::Applied,
        ) && (#[trigger] after.receipts[j]).outcome == outcome_text(ReceiptOutcomeDto::Applied)
            && after.receipts[i].client_id == after.receipts[j].client_id implies after.receipts[i].idempotency_key
        != after.receipts[j].idempotency_key by {
        if j == ledger.receipts.len() {
            assert(verdict is Applied);
            assert(after.receipts[i] == ledger.receipts[i]);
            if after.receipts[i].idempotency_key == request.idempotency_key {
                assert(is_applied(ledger.receipts[i], request.client_id, request.idempotency_key));
                assert(false);
            }
        } else {
            assert(after.receipts[i] == ledger.receipts[i]);
            assert(after.receipts[j] == ledger.receipts[j]);
        }
    }
}

/// Only an applied mutation is recorded as applied.
proof fn applied_text_is_its_own()
    ensures
        forall|o: ReceiptOutcomeDto|
            #[trigger] outcome_text(o) == outcome_text(ReceiptOutcomeDto::Applied) ==> o
                == ReceiptOutcomeDto::Applied,
{
    assert forall|o: ReceiptOutcomeDto|
        #[trigger] outcome_text(o) == outcome_text(ReceiptOutcomeDto::Applied) implies o
        == ReceiptOutcomeDto::Applied by {
        stored_texts_read_back(crate::contracts::receipt::ActorKindDto::Operator, o);
        stored_texts_read_back(
            crate::contracts::receipt::ActorKindDto::Operator,
            ReceiptOutcomeDto::Applied,
        );
    }
}

/// Every mutation writes exactly one receipt, whether it succeeds, is a replay,
/// meets a conflict or fails, and its own bookkeeping changes no receipt that was
/// there.
pub proof fn every_mutation_is_audited(
    ledger: LedgerView,
    request: RequestView,
    domain_error: Option<ErrorView>,
)
    ensures
        ({
            let after = ledger_after(ledger, request, domain_error);
            &&& after.receipts.len() == ledger.receipts.len() + 1
            &&& after.receipts.drop_last() == ledger.receipts
            &&& after.receipts.last() == verdict_receipt(
                request,
                verdict_on(ledger, request, domain_error),
                next_id(ledger),
            )
        }),
{
    let after = ledger_after(ledger, request, domain_error);
    assert(after.receipts.drop_last() =~= ledger.receipts);
}

/// An applied mutation moves its entity on by one revision, and no other entity.
pub proof fn applied_mutation_bumps_one_revision(
    ledger: LedgerView,
    request: RequestView,
    domain_error: Option<ErrorView>,
    other: EntityKey,
)
    requires
        verdict_on(ledger, request, domain_error) is Applied,
        revision_in(ledger, entity_of(request)) != Some(u64::MAX),
        other != entity_of(request),
    ensures
        ({
            let after = ledger_after(ledger, request, domain_error);
            let before = revision_in(ledger, entity_of(request));
            &&& revision_in(after, entity_of(request)) == Some(next_revision(before) as u64)
            &&& next_revision(before) as u64 == (match before {
                Some(r) => r + 1,
                None => 1,
            })
            &&& revision_in(after, other) == revision_in(ledger, other)
        }),
{
}

/// A replay, a conflict and a failure leave every revision as it was.
pub proof fn other_verdicts_change_no_revision(
    ledger: LedgerView,
    request: RequestView,
    domain_error: Option<ErrorView>,
)
    requires
        !(verdict_on(ledger, request, domain_error) is Applied),
    ensures
        ledger_after(ledger, request, domain_error).revisions == ledger.revisions,
{
}

/// A request, and what its domain write would answer.
pub struct Attempt {
    pub request: RequestView,
    pub domain_error: Option<ErrorView>,
}

/// The ledger after a number of requests, one after the other.
pub open spec fn ledger_through(ledger: LedgerView, attempts: Seq<Attempt>) -> LedgerView
    decreases attempts.len(),
{
    if attempts.len() == 0 {
        ledger
    } else {
        let last = attempts.last();
        ledger_after(
            ledger_through(ledger, attempts.drop_last()),
            last.request,
            last.domain_error,
        )
    }
}

/// Any number of mutations keep the ledger in order, and the receipts that were
/// there stay as they were.
pub proof fn any_run_keeps_the_ledger_ok(ledger: LedgerView, attempts: Seq<Attempt>)
    requires
        ledger_ok(ledger),
    ensures
        ledger_ok(ledger_through(ledger, attempts)),
        ledger.receipts.is_prefix_of(ledger_through(ledger, attempts).receipts),
    decreases attempts.len(),
{
    if attempts.len() > 0 {
        any_run_keeps_the_ledger_ok(ledger, attempts.drop_last());
        mutation_keeps_the_ledger_ok(
            ledger_through(ledger, attempts.drop_last()),
            attempts.last().request,
            attempts.last().domain_error,
        );
    }
}

/// The one receipt that records a key as applied says what the key was applied as.
proof fn applied_receipt_decides(ledger: LedgerView, client_id: Seq<char>, key: Seq<char>, n: int)
    requires
        ledger_ok(ledger),
        0 <= n < ledger.receipts.len(),
        is_applied(ledger.receipts[n], client_id, key),
    ensures
        applied_under(ledger, client_id, key) == Some(
            read_revision_of(ledger.receipts[n].revision_after),
        ),
{
    let i = choose|i: int|
        0 <= i < ledger.receipts.len() && is_applied(#[trigger] ledger.receipts[i], client_id, key);
    if i < n {
        assert(ledger.receipts[i].idempotency_key != ledger.receipts[n].idempotency_key);
    } else if n < i {
        assert(ledger.receipts[n].idempotency_key != ledger.receipts[i].idempotency_key);
    }
}

/// What a key was applied as stays so through any number of further requests.
pub proof fn applied_keys_stay_applied(
    ledger: LedgerView,
    attempts: Seq<Attempt>,
    client_id: Seq<char>,
    key: Seq<char>,
)
    requires
        ledger_ok(ledger),
        applied_under(ledger, client_id, key) is Some,
    ensures
        applied_under(ledger_through(ledger, attempts), client_id, key) == applied_under(
            ledger,
            client_id,
            key,
        ),
{
    let after = ledger_through(ledger, attempts);
    any_run_keeps_the_ledger_ok(ledger, attempts);
    let n = choose|i: int|
        0 <= i < ledger.receipts.len() && is_applied(#[trigger] ledger.receipts[i], client_id, key);
    assert(after.receipts[n] == ledger.receipts[n]);
    applied_receipt_decides(after, client_id, key, n);
}

/// Once a request is applied, every later request of the same client under the
/// same key, whatever was asked in between, is answered as a replay of the applied
/// revision: its domain write does not run, and no revision changes.
pub proof fn idempotency_key_replays_without_reapplying(
    ledger: LedgerView,
    request: RequestView,
    domain_error: Option<ErrorView>,
    between: Seq<Attempt>,
    again: RequestView,
    again_error: Option<ErrorView>,
)
    requires
        ledger_ok(ledger),
        verdict_on(ledger, request, domain_error) is Applied,
        again.client_id == request.client_id,
        again.idempotency_key == request.idempotency_key,
    ensures
        ({
            let after = ledger_through(ledger_after(ledger, request, domain_error), between);
            let revision = verdict_on(ledger, request, domain_error)->Applied_revision;
            &&& verdict_on(after, again, again_error) == (VerdictView::Replayed {
                revision: Some(revision),
            })
            &&& answer_on(after, again, again_error) == Ok::<OutcomeView, ErrorView>(
                OutcomeView::ReplayedIdempotent {
                    receipt_id: next_id(after),
                    revision: Some(revision),
                },
            )
            &&& ledger_after(after, again, again_error).revisions == after.revisions
        }),
{
    let applied = ledger_after(ledger, request, domain_error);
    let revision = verdict_on(ledger, request, domain_error)->Applied_revision;
    let n = ledger.receipts.len() as int;
    mutation_keeps_the_ledger_ok(ledger, request, domain_error);
    assert(is_applied(applied.receipts[n], request.client_id, request.idempotency_key));
    applied_receipt_decides(applied, request.client_id, request.idempotency_key, n);
    stored_revision_reads_back(Some(revision));
    applied_keys_stay_applied(applied, between, request.client_id, request.idempotency_key);
}

/// A key that no request uses is not applied by any number of them.
pub proof fn unused_keys_stay_unused(
    ledger: LedgerView,
    attempts: Seq<Attempt>,
    client_id: Seq<char>,
    key: Seq<char>,
)
    requires
        applied_under(ledger, client_id, key) is None,
        forall|i: int|
            0 <= i < attempts.len() ==> (#[trigger] attempts[i]).request.client_id != client_id
                || attempts[i].request.idempotency_key != key,
    ensures
        applied_under(ledger_through(ledger, attempts), client_id, key) is None,
    decreases attempts.len(),
{
    if attempts.len() > 0 {
        let front = attempts.drop_last();
        let before = ledger_through(ledger, front);
        let after = ledger_through(ledger, attempts);
        assert forall|i: int| 0 <= i < front.len() implies (
        #[trigger] front[i]).request.client_id != client_id || front[i].request.idempotency_key
            != key by {
            assert(attempts[i] == front[i]);
        }
        unused_keys_stay_unused(ledger, front, client_id, key);
        assert(attempts[attempts.len() - 1] == attempts.last());
        assert forall|i: int| 0 <= i < after.receipts.len() implies !is_applied(
            #[trigger] after.receipts[i],
            client_id,
            key,
        ) by {
            if i < before.receipts.len() {
                assert(after.receipts[i] == before.receipts[i]);
                assert(!is_applied(before.receipts[i], client_id, key));
            }
        }
    }
}

/// The revision of an entity, counted from zero where it has none.
pub open spec fn present_revision(ledger: LedgerView, entity: EntityKey) -> u64 {
    match revision_in(ledger, entity) {
        Some(revision) => revision,
        None => 0,
    }
}

/// No revision ever goes back, and none goes ahead of the requests that were made.
pub proof fn revisions_only_grow(ledger: LedgerView, attempts: Seq<Attempt>, entity: EntityKey)
    requires
        present_revision(ledger, entity) + attempts.len() <= u64::MAX,
    ensures
        present_revision(ledger, entity) <= present_revision(
            ledger_through(ledger, attempts),
            entity,
        ) <= present_revision(ledger, entity) + attempts.len(),
    decreases attempts.len(),
{
    if attempts.len() > 0 {
        revisions_only_grow(ledger, attempts.drop_last(), entity);
    }
}

/// Two requests that expect the same revision of an entity cannot both be
/// applied: once one is, the other is a conflict.
pub proof fn one_writer_wins_a_revision(
    ledger: LedgerView,
    first: RequestView,
    first_error: Option<ErrorView>,
    second: RequestView,
    second_error: Option<ErrorView>,
)
    requires
        verdict_on(ledger, first, first_error) is Applied,
        revision_in(ledger, entity_of(first)) != Some(u64::MAX),
        entity_of(second) == entity_of(first),
        first.expected_revision is Some,
        second.expected_revision == first.expected_revision,
        applied_under(
            ledger_after(ledger, first, first_error),
            second.client_id,
            second.idempotency_key,
        ) is None,
    ensures
        verdict_on(ledger_after(ledger, first, first_error), second, second_error) is Conflict,
{
}

/// A receipt that records no applied mutation, put behind the others, changes
/// nothing about which keys were applied.
proof fn unapplied_receipts_use_no_key(
    ledger: LedgerView,
    after: LedgerView,
    client_id: Seq<char>,
    key: Seq<char>,
)
    requires
        ledger_ok(ledger),
        ledger_ok(after),
        after.receipts.len() == ledger.receipts.len() + 1,
        after.receipts.drop_last() == ledger.receipts,
        after.receipts.last().outcome != outcome_text(ReceiptOutcomeDto::Applied),
    ensures
        applied_under(after, client_id, key) == applied_under(ledger, client_id, key),
{
    let n = ledger.receipts.len() as int;
    assert(!is_applied(after.receipts[n], client_id, key));
    if applied_under(ledger, client_id, key) is Some {
        let i = choose|i: int|
            0 <= i < ledger.receipts.len() && is_applied(
                #[trigger] ledger.receipts[i],
                client_id,
                key,
            );
        assert(after.receipts.drop_last()[i] == after.receipts[i]);
        applied_receipt_decides(after, client_id, key, i);
    }
    if applied_under(after, client_id, key) is Some {
        let i = choose|i: int|
            0 <= i < after.receipts.len() && is_applied(#[trigger] after.receipts[i], client_id, key);
        assert(after.receipts.drop_last()[i] == after.receipts[i]);
        applied_receipt_decides(ledger, client_id, key, i);
    }
}

/// A request that failed, met a conflict or was a replay has used up no key: every
/// later request is decided as if it had not been made.
pub proof fn refused_requests_leave_the_key_free(
    ledger: LedgerView,
    request: RequestView,
    domain_error: Option<ErrorView>,
    again: RequestView,
    again_error: Option<ErrorView>,
)
    requires
        ledger_ok(ledger),
        !(verdict_on(ledger, request, domain_error) is Applied),
    ensures
        verdict_on(ledger_after(ledger, request, domain_error), again, again_error) == verdict_on(
            ledger,
            again,
            again_error,
        ),
{
    let after = ledger_after(ledger, request, domain_error);
    mutation_keeps_the_ledger_ok(ledger, request, domain_error);
    every_mutation_is_audited(ledger, request, domain_error);
    applied_text_is_its_own();
    unapplied_receipts_use_no_key(ledger, after, again.client_id, again.idempotency_key);
}

/// The ledger after the receipt of a failed operation that reached no domain write.
pub open spec fn ledger_after_failure(
    ledger: LedgerView,
    request: RequestView,
    error_class: Seq<char>,
) -> LedgerView {
    let current = revision_in(ledger, entity_of(request));
    LedgerView {
        receipts: ledger.receipts.push(
            receipt_of(
                request,
                next_id(ledger),
                ReceiptOutcomeDto::Failed,
                Some(error_class),
                current,
                current,
            ),
        ),
        revisions: ledger.revisions,
    }
}

/// The receipt of a failed operation keeps the ledger in order and decides nothing:
/// every later request is answered as if it were not there, but for its receipt's
/// number.
pub proof fn failed_receipts_decide_nothing(
    ledger: LedgerView,
    request: RequestView,
    error_class: Seq<char>,
    again: RequestView,
    again_error: Option<ErrorView>,
)
    requires
        ledger_ok(ledger),
    ensures
        ledger_ok(ledger_after_failure(ledger, request, error_class)),
        verdict_on(ledger_after_failure(ledger, request, error_class), again, again_error)
            == verdict_on(ledger, again, again_error),
{
    let after = ledger_after_failure(ledger, request, error_class);
    let n = ledger.receipts.len() as int;
    applied_text_is_its_own();
    assert(after.receipts[n].outcome == outcome_text(ReceiptOutcomeDto::Failed));
    assert(after.receipts.drop_last() =~= ledger.receipts);
    unapplied_receipts_use_no_key(ledger, after, again.client_id, again.idempotency_key);
}

proof fn leading_zero_adds_nothing(s: Seq<char>)
    ensures
        value_of(seq!['0'] + s) == value_of(s),
    decreases s.len(),
{
    reveal_with_fuel(value_of, 2);
    if s.len() == 0 {
        assert((seq!['0'] + s).drop_last() =~= Seq::<char>::empty());
        assert((seq!['0'] + s).last() == '0');
    } else {
        leading_zero_adds_nothing(s.drop_last());
        assert((seq!['0'] + s).last() == s.last());
        assert((seq!['0'] + s).drop_last() =~= seq!['0'] + s.drop_last());
    }
}

/// Zeros before a number do not change it.
pub proof fn padding_keeps_the_value(s: Seq<char>, width: nat)
    ensures
        value_of(zero_padded(s, width)) == value_of(s),
    decreases width - s.len(),
{
    if s.len() < width {
        leading_zero_adds_nothing(s);
        padding_keeps_the_value(seq!['0'] + s, width);
    }
}

/// Different numbers give different receipt ids.
pub proof fn receipt_ids_differ(a: nat, b: nat)
    requires
        receipt_id_text(a) == receipt_id_text(b),
    ensures
        a == b,
{
    let pa = zero_padded(decimal(a), 12);
    let pb = zero_padded(decimal(b), 12);
    let n = "rcpt_"@.len() as int;
    assert(receipt_id_text(a).skip(n) =~= pa);
    assert(receipt_id_text(b).skip(n) =~= pb);
    decimal_has_its_value(a);
    decimal_has_its_value(b);
    padding_keeps_the_value(decimal(a), 12);
    padding_keeps_the_value(decimal(b), 12);
}

/// In a ledger in order, no two receipts share an id.
pub proof fn receipt_ids_are_unique(ledger: LedgerView, i: int, j: int)
    requires
        ledger_ok(ledger),
        0 <= i < ledger.receipts.len(),
        0 <= j < ledger.receipts.len(),
        ledger.receipts[i].receipt_id == ledger.receipts[j].receipt_id,
    ensures
        i == j,
{
    receipt_ids_differ((i + 1) as nat, (j + 1) as nat);
}

} // verus!
