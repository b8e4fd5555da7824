//! What the queries over stored receipts list, and what compaction does to them.

use vstd::prelude::*;

use crate::contracts::receipt::ReceiptOutcomeDto;
use crate::ledger::{applied_under, is_applied, ledger_ok, receipt_ids_are_unique, LedgerView};
use crate::ordering::{
    admitted, comparable, filtering_keeps, limits_keep_the_first, transitive,
};
use crate::receipt_query::{
    all_hold, comes_before, ids_differ, listed_before, matching, meets, older, ConditionView, Order,
    QueryView,
};
use crate::receipts::{
    batch_conditions, candidates_query, compaction_conditions, eligible_count_query,
};
use crate::spine::{applied_query, entity_query, latest_applied_query};
use crate::store_core::{outcome_text, read_revision_of, ReceiptView};
use crate::text::{lex_less, lex_less_irreflexive, lex_less_total, lex_less_transitive};

verus! {

/// In a ledger in order, the receipts have ids of their own.
pub proof fn ledger_receipts_have_ids_of_their_own(ledger: LedgerView)
    requires
        ledger_ok(ledger),
    ensures
        ids_differ(ledger.receipts),
{
    assert forall|i: int, j: int| 0 <= i < j < ledger.receipts.len() implies (
    #[trigger] ledger.receipts[i]).receipt_id != (#[trigger] ledger.receipts[j]).receipt_id by {
        if ledger.receipts[i].receipt_id == ledger.receipts[j].receipt_id {
            receipt_ids_are_unique(ledger, i, j);
        }
    }
}

proof fn ages_are_ordered(a: ReceiptView, b: ReceiptView, c: ReceiptView)
    ensures
        !older(a, a),
        older(a, b) ==> !older(b, a),
        older(a, b) && older(b, c) ==> older(a, c),
        a.receipt_id != b.receipt_id ==> older(a, b) || older(b, a),
{
    lex_less_irreflexive(a.receipt_id);
    lex_less_total(a.receipt_id, b.receipt_id);
    if lex_less(a.receipt_id, b.receipt_id) {
        if lex_less(b.receipt_id, a.receipt_id) {
            lex_less_transitive(a.receipt_id, b.receipt_id, a.receipt_id);
        }
        if lex_less(b.receipt_id, c.receipt_id) {
            lex_less_transitive(a.receipt_id, b.receipt_id, c.receipt_id);
        }
    }
}

/// Receipts with ids of their own can be listed by age, in either direction.
proof fn ages_order(order: Order, receipts: Seq<ReceiptView>)
    requires
        ids_differ(receipts),
        order != Order::Unordered,
    ensures
        transitive(listed_before(order)),
        comparable(receipts, listed_before(order)),
{
    let before = listed_before(order);
    assert forall|a: ReceiptView, b: ReceiptView, c: ReceiptView| #[trigger]
        before(a, b) && #[trigger] before(b, c) implies before(a, c) by {
        ages_are_ordered(a, b, c);
        ages_are_ordered(c, b, a);
    }
    assert forall|i: int, j: int| 0 <= i < j < receipts.len() implies before(
        #[trigger] receipts[i],
        #[trigger] receipts[j],
    ) || before(receipts[j], receipts[i]) by {
        ages_are_ordered(receipts[i], receipts[j], receipts[i]);
    }
}

/// The receipts that meet conditions are those of the stored ones that do, and have
/// ids of their own.
pub proof fn matching_selects(conditions: Seq<ConditionView>, receipts: Seq<ReceiptView>)
    ensures
        forall|y: ReceiptView| #[trigger]
            matching(conditions, receipts).contains(y) <==> receipts.contains(y) && all_hold(
                conditions,
                y,
            ),
        ids_differ(receipts) ==> ids_differ(matching(conditions, receipts)),
{
    let differ = |a: ReceiptView, b: ReceiptView| a.receipt_id != b.receipt_id;
    let found = matching(conditions, receipts);
    filtering_keeps(receipts, meets(conditions), differ);
    if ids_differ(receipts) {
        assert(comparable(receipts, differ));
        assert forall|i: int, j: int| 0 <= i < j < found.len() implies (
        #[trigger] found[i]).receipt_id != (#[trigger] found[j]).receipt_id by {
            assert(differ(found[i], found[j]) || differ(found[j], found[i]));
        }
    }
}

/// An ordered query lists receipts that meet its conditions, each once and in its
/// order, as many as its limit admits. Where it leaves one out, it lists as many as
/// its limit says, and that one comes behind them.
pub proof fn queries_list_in_order(query: QueryView, receipts: Seq<ReceiptView>, limit: usize)
    requires
        ids_differ(receipts),
        query.order != Order::Unordered,
        query.limit == Some(limit),
    ensures
        ({
            let rows = query.rows(receipts);
            let found = matching(query.conditions, receipts);
            &&& rows.len() == admitted(found.len(), limit)
            &&& forall|i: int, j: int|
                0 <= i < j < rows.len() ==> comes_before(
                    query.order,
                    #[trigger] rows[i],
                    #[trigger] rows[j],
                )
            &&& forall|r: ReceiptView| #[trigger]
                rows.contains(r) ==> receipts.contains(r) && all_hold(query.conditions, r)
            &&& forall|r: ReceiptView| #[trigger]
                receipts.contains(r) && all_hold(query.conditions, r) && !rows.contains(r)
                    ==> rows.len() == limit && found.len() > limit && forall|i: int|
                    0 <= i < rows.len() ==> comes_before(query.order, #[trigger] rows[i], r)
        }),
{
    let before = listed_before(query.order);
    let found = matching(query.conditions, receipts);
    let rows = query.rows(receipts);
    matching_selects(query.conditions, receipts);
    ages_order(query.order, found);
    limits_keep_the_first(found, before, limit);
    assert forall|i: int, j: int| 0 <= i < j < rows.len() implies comes_before(
        query.order,
        #[trigger] rows[i],
        #[trigger] rows[j],
    ) by {
        assert(before(rows[i], rows[j]));
    }
    assert forall|r: ReceiptView| #[trigger] rows.contains(r) implies receipts.contains(r)
        && all_hold(query.conditions, r) by {
        assert(found.contains(r));
    }
    assert forall|r: ReceiptView| #[trigger]
        receipts.contains(r) && all_hold(query.conditions, r) && !rows.contains(r) implies rows.len()
        == limit && found.len() > limit && forall|i: int|
        0 <= i < rows.len() ==> comes_before(query.order, #[trigger] rows[i], r) by {
        assert(found.contains(r));
        assert forall|i: int| 0 <= i < rows.len() implies comes_before(
            query.order,
            #[trigger] rows[i],
            r,
        ) by {
            assert(before(rows[i], r));
        }
    }
}

/// A receipt whose payloads may be compacted: an applied one of the client, written
/// before the cutoff, that still has a payload, of an allowlisted kind and, where
/// that kind is restricted, of a listed change.
pub open spec fn eligible(
    receipt: ReceiptView,
    client_id: Seq<char>,
    cutoff_ms: u64,
    kinds: Seq<Seq<char>>,
    restrictions: Seq<(Seq<char>, Seq<Seq<char>>)>,
) -> bool {
    &&& receipt.client_id == client_id
    &&& receipt.outcome == outcome_text(ReceiptOutcomeDto::Applied)
    &&& receipt.created_at_ms < cutoff_ms as i64
    &&& receipt.before_json is Some || receipt.after_json is Some
    &&& kinds.contains(receipt.entity_kind)
    &&& forall|i: int|
        0 <= i < restrictions.len() && (#[trigger] restrictions[i]).0 == receipt.entity_kind
            ==> restrictions[i].1.contains(receipt.change_kind)
}

proof fn conditions_say_eligible(
    receipt: ReceiptView,
    client_id: Seq<char>,
    cutoff_ms: u64,
    kinds: Seq<Seq<char>>,
    restrictions: Seq<(Seq<char>, Seq<Seq<char>>)>,
)
    ensures
        all_hold(compaction_conditions(client_id, cutoff_ms, kinds, restrictions), receipt)
            <==> eligible(receipt, client_id, cutoff_ms, kinds, restrictions),
{
    let conditions = compaction_conditions(client_id, cutoff_ms, kinds, restrictions);
    if all_hold(conditions, receipt) {
        assert(conditions[0].holds(receipt));
        assert(conditions[1].holds(receipt));
        assert(conditions[2].holds(receipt));
        assert(conditions[3].holds(receipt));
        assert(conditions[4].holds(receipt));
        assert forall|i: int|
            0 <= i < restrictions.len() && (#[trigger] restrictions[i]).0
                == receipt.entity_kind implies restrictions[i].1.contains(receipt.change_kind) by {
            assert(conditions[i + 5].holds(receipt));
        }
    }
    if eligible(receipt, client_id, cutoff_ms, kinds, restrictions) {
        assert forall|i: int| 0 <= i < conditions.len() implies (#[trigger] conditions[i]).holds(
            receipt,
        ) by {
            if i >= 5 {
                assert(conditions[i] == ConditionView::ChangeKindIn(
                    restrictions[i - 5].0,
                    restrictions[i - 5].1,
                ));
            }
        }
    }
}

/// What an optional query lists; no query lists nothing.
pub open spec fn listed(query: Option<QueryView>, receipts: Seq<ReceiptView>) -> Seq<ReceiptView> {
    match query {
        Some(q) => q.rows(receipts),
        None => Seq::empty(),
    }
}

/// What is counted as eligible is the eligible receipts, each once.
pub proof fn the_count_is_of_the_eligible(
    receipts: Seq<ReceiptView>,
    client_id: Seq<char>,
    cutoff_ms: u64,
    kinds: Seq<Seq<char>>,
    restrictions: Seq<(Seq<char>, Seq<Seq<char>>)>,
)
    requires
        ids_differ(receipts),
    ensures
        ({
            let counted = listed(
                eligible_count_query(client_id, cutoff_ms, kinds, restrictions),
                receipts,
            );
            &&& ids_differ(counted)
            &&& forall|r: ReceiptView| #[trigger]
                counted.contains(r) <==> receipts.contains(r) && eligible(
                    r,
                    client_id,
                    cutoff_ms,
                    kinds,
                    restrictions,
                )
        }),
{
    let conditions = compaction_conditions(client_id, cutoff_ms, kinds, restrictions);
    let counted = listed(
        eligible_count_query(client_id, cutoff_ms, kinds, restrictions),
        receipts,
    );
    matching_selects(conditions, receipts);
    assert forall|r: ReceiptView| #[trigger] counted.contains(r) <==> receipts.contains(r)
        && eligible(r, client_id, cutoff_ms, kinds, restrictions) by {
        conditions_say_eligible(r, client_id, cutoff_ms, kinds, restrictions);
        assert(matching(conditions, receipts).contains(r) <==> receipts.contains(r) && all_hold(
            conditions,
            r,
        ));
    }
}

/// The candidates of a compaction are the oldest eligible receipts, each once,
/// oldest first: all that are counted, or as many as the limit admits. An empty
/// allowlist has none.
pub proof fn candidates_are_the_oldest_eligible(
    receipts: Seq<ReceiptView>,
    client_id: Seq<char>,
    cutoff_ms: u64,
    kinds: Seq<Seq<char>>,
    restrictions: Seq<(Seq<char>, Seq<Seq<char>>)>,
    limit: usize,
)
    requires
        ids_differ(receipts),
    ensures
        ({
            let candidates = listed(
                candidates_query(client_id, cutoff_ms, kinds, restrictions, limit),
                receipts,
            );
            let counted = listed(
                eligible_count_query(client_id, cutoff_ms, kinds, restrictions),
                receipts,
            );
            &&& candidates.len() == admitted(counted.len(), limit)
            &&& kinds.len() == 0 ==> candidates.len() == 0
            &&& forall|i: int, j: int|
                0 <= i < j < candidates.len() ==> older(
                    #[trigger] candidates[i],
                    #[trigger] candidates[j],
                )
            &&& forall|r: ReceiptView| #[trigger]
                candidates.contains(r) ==> receipts.contains(r) && eligible(
                    r,
                    client_id,
                    cutoff_ms,
                    kinds,
                    restrictions,
                )
            &&& forall|r: ReceiptView, i: int|
                #![trigger receipts.contains(r), candidates[i]]
                receipts.contains(r) && eligible(r, client_id, cutoff_ms, kinds, restrictions)
                    && !candidates.contains(r) && 0 <= i < candidates.len() ==> older(
                    candidates[i],
                    r,
                )
        }),
{
    let conditions = compaction_conditions(client_id, cutoff_ms, kinds, restrictions);
    let query = candidates_query(client_id, cutoff_ms, kinds, restrictions, limit);
    let candidates = listed(query, receipts);
    if kinds.len() > 0 && limit > 0 {
        queries_list_in_order(query->Some_0, receipts, limit);
        assert forall|r: ReceiptView| #[trigger] candidates.contains(r) implies receipts.contains(r)
            && eligible(r, client_id, cutoff_ms, kinds, restrictions) by {
            conditions_say_eligible(r, client_id, cutoff_ms, kinds, restrictions);
        }
        assert forall|r: ReceiptView, i: int|
            #![trigger receipts.contains(r), candidates[i]]
            receipts.contains(r) && eligible(r, client_id, cutoff_ms, kinds, restrictions)
                && !candidates.contains(r) && 0 <= i < candidates.len() implies older(
            candidates[i],
            r,
        ) by {
            conditions_say_eligible(r, client_id, cutoff_ms, kinds, restrictions);
            assert(comes_before(Order::OldestFirst, candidates[i], r));
        }
        assert forall|i: int, j: int| 0 <= i < j < candidates.len() implies older(
            #[trigger] candidates[i],
            #[trigger] candidates[j],
        ) by {
            assert(comes_before(Order::OldestFirst, candidates[i], candidates[j]));
        }
    }
}

/// A receipt without its payloads; every other field stays.
pub open spec fn cleared(receipt: ReceiptView) -> ReceiptView {
    ReceiptView { before_json: None, after_json: None, ..receipt }
}

/// The stored receipts after [`clearing_statement`](crate::receipts::clearing_statement).
pub open spec fn receipts_cleared(
    receipts: Seq<ReceiptView>,
    conditions: Seq<ConditionView>,
) -> Seq<ReceiptView> {
    receipts.map_values(
        |r: ReceiptView|
            if all_hold(conditions, r) {
                cleared(r)
            } else {
                r
            },
    )
}

proof fn conditions_say_batch(
    receipt: ReceiptView,
    client_id: Seq<char>,
    cutoff_ms: u64,
    kinds: Seq<Seq<char>>,
    restrictions: Seq<(Seq<char>, Seq<Seq<char>>)>,
    receipt_ids: Seq<Seq<char>>,
)
    ensures
        all_hold(
            batch_conditions(client_id, cutoff_ms, kinds, restrictions, receipt_ids),
            receipt,
        ) <==> eligible(receipt, client_id, cutoff_ms, kinds, restrictions)
            && receipt_ids.contains(receipt.receipt_id),
{
    let base = compaction_conditions(client_id, cutoff_ms, kinds, restrictions);
    let all = batch_conditions(client_id, cutoff_ms, kinds, restrictions, receipt_ids);
    conditions_say_eligible(receipt, client_id, cutoff_ms, kinds, restrictions);
    if all_hold(all, receipt) {
        assert(all[base.len() as int].holds(receipt));
        assert forall|i: int| 0 <= i < base.len() implies (#[trigger] base[i]).holds(receipt) by {
            assert(all[i].holds(receipt));
        }
    }
    if all_hold(base, receipt) && receipt_ids.contains(receipt.receipt_id) {
        assert forall|i: int| 0 <= i < all.len() implies (#[trigger] all[i]).holds(receipt) by {
            if i < base.len() {
                assert(base[i].holds(receipt));
            }
        }
    }
}

/// A compaction clears the payloads of the eligible receipts that its batch names,
/// and changes nothing else: every receipt keeps its place, and each of its other
/// fields. None that the batch names is eligible behind it.
pub proof fn compaction_clears_its_batch_alone(
    receipts: Seq<ReceiptView>,
    client_id: Seq<char>,
    cutoff_ms: u64,
    kinds: Seq<Seq<char>>,
    restrictions: Seq<(Seq<char>, Seq<Seq<char>>)>,
    receipt_ids: Seq<Seq<char>>,
)
    ensures
        ({
            let after = receipts_cleared(
                receipts,
                batch_conditions(client_id, cutoff_ms, kinds, restrictions, receipt_ids),
            );
            &&& after.len() == receipts.len()
            &&& forall|i: int|
                0 <= i < receipts.len() ==> #[trigger] after[i] == (if eligible(
                    receipts[i],
                    client_id,
                    cutoff_ms,
                    kinds,
                    restrictions,
                ) && receipt_ids.contains(receipts[i].receipt_id) {
                    cleared(receipts[i])
                } else {
                    receipts[i]
                })
            &&& forall|i: int|
                0 <= i < after.len() && receipt_ids.contains((#[trigger] after[i]).receipt_id)
                    ==> !eligible(after[i], client_id, cutoff_ms, kinds, restrictions)
        }),
{
    let conditions = batch_conditions(client_id, cutoff_ms, kinds, restrictions, receipt_ids);
    let after = receipts_cleared(receipts, conditions);
    assert forall|i: int| 0 <= i < receipts.len() implies #[trigger] after[i] == (if eligible(
        receipts[i],
        client_id,
        cutoff_ms,
        kinds,
        restrictions,
    ) && receipt_ids.contains(receipts[i].receipt_id) {
        cleared(receipts[i])
    } else {
        receipts[i]
    }) by {
        conditions_say_batch(
            receipts[i],
            client_id,
            cutoff_ms,
            kinds,
            restrictions,
            receipt_ids,
        );
    }
}

/// The ids of receipts, in their order.
pub open spec fn ids_of(receipts: Seq<ReceiptView>) -> Seq<Seq<char>> {
    receipts.map_values(|r: ReceiptView| r.receipt_id)
}

/// A compaction of the candidates changes as many rows as they are, which is what
/// it is held to; where they were all that is eligible, nothing is eligible behind
/// it.
pub proof fn compacting_the_candidates_uses_them_up(
    receipts: Seq<ReceiptView>,
    client_id: Seq<char>,
    cutoff_ms: u64,
    kinds: Seq<Seq<char>>,
    restrictions: Seq<(Seq<char>, Seq<Seq<char>>)>,
    limit: usize,
)
    requires
        ids_differ(receipts),
    ensures
        ({
            let candidates = listed(
                candidates_query(client_id, cutoff_ms, kinds, restrictions, limit),
                receipts,
            );
            let count = eligible_count_query(client_id, cutoff_ms, kinds, restrictions);
            let conditions = batch_conditions(
                client_id,
                cutoff_ms,
                kinds,
                restrictions,
                ids_of(candidates),
            );
            &&& matching(conditions, receipts).len() == candidates.len()
            &&& candidates.len() == listed(count, receipts).len() ==> listed(
                count,
                receipts_cleared(receipts, conditions),
            ).len() == 0
        }),
{
    let candidates = listed(
        candidates_query(client_id, cutoff_ms, kinds, restrictions, limit),
        receipts,
    );
    let counted = listed(
        eligible_count_query(client_id, cutoff_ms, kinds, restrictions),
        receipts,
    );
    let ids = ids_of(candidates);
    let conditions = batch_conditions(client_id, cutoff_ms, kinds, restrictions, ids);
    let changed = matching(conditions, receipts);
    let after = receipts_cleared(receipts, conditions);
    candidates_are_the_oldest_eligible(
        receipts,
        client_id,
        cutoff_ms,
        kinds,
        restrictions,
        limit,
    );
    the_count_is_of_the_eligible(receipts, client_id, cutoff_ms, kinds, restrictions);
    compaction_clears_its_batch_alone(
        receipts,
        client_id,
        cutoff_ms,
        kinds,
        restrictions,
        ids,
    );
    matching_selects(conditions, receipts);
    assert forall|r: ReceiptView| #[trigger] changed.contains(r) <==> candidates.contains(r) by {
        conditions_say_batch(r, client_id, cutoff_ms, kinds, restrictions, ids);
        if changed.contains(r) {
            let k = choose|k: int| 0 <= k < ids.len() && ids[k] == r.receipt_id;
            assert(candidates.contains(candidates[k]));
            same_id_same_receipt(receipts, candidates[k], r);
        }
        if candidates.contains(r) {
            let k = choose|k: int| 0 <= k < candidates.len() && candidates[k] == r;
            assert(ids[k] == r.receipt_id);
        }
    }
    assert(candidates.no_duplicates()) by {
        assert forall|i: int, j: int|
            0 <= i < candidates.len() && 0 <= j < candidates.len() && i != j implies candidates[i]
            != candidates[j] by {
            ages_are_ordered(candidates[i], candidates[i], candidates[i]);
            if i < j {
                assert(older(candidates[i], candidates[j]));
            } else {
                assert(older(candidates[j], candidates[i]));
            }
        }
    }
    assert(changed.no_duplicates());
    assert(changed.to_set() =~= candidates.to_set());
    changed.unique_seq_to_set();
    candidates.unique_seq_to_set();
    if candidates.len() == counted.len() {
        let left = listed(
            eligible_count_query(client_id, cutoff_ms, kinds, restrictions),
            after,
        );
        if left.len() > 0 {
            let base = compaction_conditions(client_id, cutoff_ms, kinds, restrictions);
            let r = left[0];
            matching_selects(base, after);
            assert(matching(base, after).contains(r));
            conditions_say_eligible(r, client_id, cutoff_ms, kinds, restrictions);
            let k = choose|k: int| 0 <= k < after.len() && after[k] == r;
            assert(after[k] == r);
            assert(r == receipts[k]);
            assert(receipts.contains(r));
            assert(counted.contains(r));
            assert(!candidates.contains(r)) by {
                if candidates.contains(r) {
                    let n = choose|n: int| 0 <= n < candidates.len() && candidates[n] == r;
                    assert(ids[n] == r.receipt_id);
                }
            }
            assert(counted.no_duplicates());
            assert forall|x: ReceiptView| #[trigger] candidates.contains(x) implies counted.contains(
                x,
            ) by {}
            assert(candidates.to_set().subset_of(counted.to_set().remove(r)));
            counted.unique_seq_to_set();
            vstd::set_lib::lemma_len_subset(candidates.to_set(), counted.to_set().remove(r));
        }
    }
}

proof fn same_id_same_receipt(receipts: Seq<ReceiptView>, a: ReceiptView, b: ReceiptView)
    requires
        ids_differ(receipts),
        receipts.contains(a),
        receipts.contains(b),
        a.receipt_id == b.receipt_id,
    ensures
        a == b,
{
    let i = choose|i: int| 0 <= i < receipts.len() && receipts[i] == a;
    let j = choose|j: int| 0 <= j < receipts.len() && receipts[j] == b;
    if i < j {
        assert(receipts[i].receipt_id != receipts[j].receipt_id);
    } else if j < i {
        assert(receipts[j].receipt_id != receipts[i].receipt_id);
    }
}

/// The receipt records an applied mutation.
pub open spec fn was_applied(receipt: ReceiptView) -> bool {
    receipt.outcome == outcome_text(ReceiptOutcomeDto::Applied)
}

/// The first receipt of a list that records an applied mutation.
pub open spec fn first_applied(list: Seq<ReceiptView>) -> Option<ReceiptView>
    decreases list.len(),
{
    if list.len() == 0 {
        None
    } else if was_applied(list[0]) {
        Some(list[0])
    } else {
        first_applied(list.drop_first())
    }
}

proof fn first_applied_is_first(list: Seq<ReceiptView>)
    ensures
        match first_applied(list) {
            None => forall|i: int| 0 <= i < list.len() ==> !was_applied(#[trigger] list[i]),
            Some(r) => exists|k: int| #![trigger list[k]]
                0 <= k < list.len() && list[k] == r && was_applied(r) && forall|j: int|
                    0 <= j < k ==> !was_applied(#[trigger] list[j]),
        },
    decreases list.len(),
{
    if list.len() > 0 && !was_applied(list[0]) {
        let rest = list.drop_first();
        first_applied_is_first(rest);
        match first_applied(list) {
            None => {
                assert forall|i: int| 0 <= i < list.len() implies !was_applied(
                    #[trigger] list[i],
                ) by {
                    if i > 0 {
                        assert(rest[i - 1] == list[i]);
                    }
                }
            },
            Some(r) => {
                let k = choose|k: int| #![trigger rest[k]]
                    0 <= k < rest.len() && rest[k] == r && was_applied(r) && forall|j: int|
                        0 <= j < k ==> !was_applied(#[trigger] rest[j]);
                assert(list[k + 1] == r);
                assert forall|j: int| 0 <= j < k + 1 implies !was_applied(#[trigger] list[j]) by {
                    if j > 0 {
                        assert(rest[j - 1] == list[j]);
                    }
                }
            },
        }
    }
}

/// The receipt is of this entity.
pub open spec fn is_of_entity(
    receipt: ReceiptView,
    client_id: Seq<char>,
    entity_kind: Seq<char>,
    entity_id: Seq<char>,
) -> bool {
    receipt.client_id == client_id && receipt.entity_kind == entity_kind && receipt.entity_id
        == entity_id
}

proof fn conditions_say_entity(
    receipt: ReceiptView,
    client_id: Seq<char>,
    entity_kind: Seq<char>,
    entity_id: Seq<char>,
    limit: usize,
)
    ensures
        all_hold(entity_query(client_id, entity_kind, entity_id, limit).conditions, receipt)
            <==> is_of_entity(receipt, client_id, entity_kind, entity_id),
        all_hold(latest_applied_query(client_id, entity_kind, entity_id).conditions, receipt)
            <==> is_of_entity(receipt, client_id, entity_kind, entity_id) && was_applied(receipt),
{
    let three = entity_query(client_id, entity_kind, entity_id, limit).conditions;
    let four = latest_applied_query(client_id, entity_kind, entity_id).conditions;
    if all_hold(three, receipt) {
        assert(three[0].holds(receipt) && three[1].holds(receipt) && three[2].holds(receipt));
    }
    if all_hold(four, receipt) {
        assert(four[0].holds(receipt) && four[1].holds(receipt) && four[2].holds(receipt)
            && four[3].holds(receipt));
    }
}

/// An entity's receipts are listed newest first, each once: all of them, or the
/// newest that the limit admits.
pub proof fn entity_receipts_stand_newest_first(
    receipts: Seq<ReceiptView>,
    client_id: Seq<char>,
    entity_kind: Seq<char>,
    entity_id: Seq<char>,
    limit: usize,
)
    requires
        ids_differ(receipts),
    ensures
        ({
            let list = entity_query(client_id, entity_kind, entity_id, limit).rows(receipts);
            &&& forall|i: int, j: int|
                0 <= i < j < list.len() ==> older(#[trigger] list[j], #[trigger] list[i])
            &&& forall|r: ReceiptView| #[trigger]
                list.contains(r) ==> receipts.contains(r) && is_of_entity(
                    r,
                    client_id,
                    entity_kind,
                    entity_id,
                )
            &&& forall|r: ReceiptView| #[trigger]
                receipts.contains(r) && is_of_entity(r, client_id, entity_kind, entity_id)
                    && !list.contains(r) ==> list.len() == limit && forall|i: int|
                    0 <= i < list.len() ==> older(r, #[trigger] list[i])
        }),
{
    let query = entity_query(client_id, entity_kind, entity_id, limit);
    let list = query.rows(receipts);
    queries_list_in_order(query, receipts, limit);
    matching_selects(query.conditions, receipts);
    assert forall|i: int, j: int| 0 <= i < j < list.len() implies older(
        #[trigger] list[j],
        #[trigger] list[i],
    ) by {
        assert(comes_before(Order::NewestFirst, list[i], list[j]));
    }
    assert forall|r: ReceiptView| #[trigger] list.contains(r) implies receipts.contains(r)
        && is_of_entity(r, client_id, entity_kind, entity_id) by {
        conditions_say_entity(r, client_id, entity_kind, entity_id, limit);
    }
    assert forall|r: ReceiptView| #[trigger]
        receipts.contains(r) && is_of_entity(r, client_id, entity_kind, entity_id)
            && !list.contains(r) implies list.len() == limit && forall|i: int|
        0 <= i < list.len() ==> older(r, #[trigger] list[i]) by {
        conditions_say_entity(r, client_id, entity_kind, entity_id, limit);
        assert forall|i: int| 0 <= i < list.len() implies older(r, #[trigger] list[i]) by {
            assert(comes_before(Order::NewestFirst, list[i], r));
        }
    }
}

/// The actor of the latest applied receipt is that of the first applied one among
/// the entity's receipts, newest first; there is none where none was applied.
pub proof fn latest_actor_is_the_first_applied(
    receipts: Seq<ReceiptView>,
    client_id: Seq<char>,
    entity_kind: Seq<char>,
    entity_id: Seq<char>,
    limit: usize,
)
    requires
        ids_differ(receipts),
        matching(
            entity_query(client_id, entity_kind, entity_id, limit).conditions,
            receipts,
        ).len() <= limit,
    ensures
        ({
            let list = entity_query(client_id, entity_kind, entity_id, limit).rows(receipts);
            let latest = latest_applied_query(client_id, entity_kind, entity_id).rows(receipts);
            match first_applied(list) {
                Some(receipt) => latest == seq![receipt],
                None => latest.len() == 0,
            }
        }),
{
    let query = entity_query(client_id, entity_kind, entity_id, limit);
    let latest_query = latest_applied_query(client_id, entity_kind, entity_id);
    let list = query.rows(receipts);
    let latest = latest_query.rows(receipts);
    entity_receipts_stand_newest_first(receipts, client_id, entity_kind, entity_id, limit);
    queries_list_in_order(latest_query, receipts, 1);
    let found = matching(query.conditions, receipts);
    matching_selects(query.conditions, receipts);
    queries_list_in_order(query, receipts, limit);
    assert forall|r: ReceiptView| #[trigger] found.contains(r) implies list.contains(r) by {
        assert(receipts.contains(r));
    }
    matching_selects(latest_query.conditions, receipts);
    first_applied_is_first(list);
    match first_applied(list) {
        None => {
            if latest.len() > 0 {
                let r = latest[0];
                assert(latest.contains(r));
                conditions_say_entity(r, client_id, entity_kind, entity_id, limit);
                assert(found.contains(r));
                assert(list.contains(r));
                let k = choose|k: int| 0 <= k < list.len() && list[k] == r;
                assert(was_applied(list[k]));
            }
        },
        Some(receipt) => {
            let k = choose|k: int| #![trigger list[k]]
                0 <= k < list.len() && list[k] == receipt && was_applied(receipt) && forall|j: int|
                    0 <= j < k ==> !was_applied(#[trigger] list[j]);
            assert(list.contains(list[k]));
            conditions_say_entity(receipt, client_id, entity_kind, entity_id, limit);
            assert(matching(latest_query.conditions, receipts).contains(receipt));
            assert(latest.len() == 1);
            let r = latest[0];
            assert(latest.contains(r));
            conditions_say_entity(r, client_id, entity_kind, entity_id, limit);
            assert(found.contains(r));
            assert(list.contains(r));
            let m = choose|m: int| 0 <= m < list.len() && list[m] == r;
            assert(!(m < k)) by {
                if m < k {
                    assert(!was_applied(list[m]));
                }
            }
            if k < m {
                assert(older(list[m], list[k]));
                ages_are_ordered(r, receipt, r);
                assert(!latest.contains(receipt)) by {
                    if latest.contains(receipt) {
                        let z = choose|z: int| 0 <= z < latest.len() && latest[z] == receipt;
                        assert(z == 0);
                    }
                }
                assert(comes_before(Order::NewestFirst, latest[0], receipt));
            }
            assert(latest =~= seq![receipt]);
        },
    }
}

/// A receipt that records no applied mutation leaves the latest applied actor of
/// every entity as it is.
pub proof fn refusals_leave_the_latest_actor(
    receipts: Seq<ReceiptView>,
    refused: ReceiptView,
    client_id: Seq<char>,
    entity_kind: Seq<char>,
    entity_id: Seq<char>,
)
    requires
        !was_applied(refused),
    ensures
        latest_applied_query(client_id, entity_kind, entity_id).rows(receipts.push(refused))
            == latest_applied_query(client_id, entity_kind, entity_id).rows(receipts),
{
    reveal(Seq::filter);
    conditions_say_entity(refused, client_id, entity_kind, entity_id, 1);
    assert(receipts.push(refused).drop_last() =~= receipts);
}

/// The receipt that a mutation finds applied under its key is the one that the
/// ledger decides by: there is at most one, and it says what the key was applied as.
pub proof fn the_applied_receipt_is_found(
    ledger: LedgerView,
    client_id: Seq<char>,
    key: Seq<char>,
)
    requires
        ledger_ok(ledger),
    ensures
        ({
            let found = applied_query(client_id, key).rows(ledger.receipts);
            &&& found.len() <= 1
            &&& applied_under(ledger, client_id, key) == (if found.len() == 0 {
                None
            } else {
                Some(read_revision_of(found[0].revision_after))
            })
        }),
{
    let conditions = applied_query(client_id, key).conditions;
    let found = applied_query(client_id, key).rows(ledger.receipts);
    ledger_receipts_have_ids_of_their_own(ledger);
    matching_selects(conditions, ledger.receipts);
    assert forall|r: ReceiptView| #[trigger] all_hold(conditions, r) <==> is_applied(
        r,
        client_id,
        key,
    ) by {
        if all_hold(conditions, r) {
            assert(conditions[0].holds(r) && conditions[1].holds(r) && conditions[2].holds(r));
        }
    }
    if found.len() > 0 {
        assert(found.contains(found[0]));
        let i = choose|i: int| 0 <= i < ledger.receipts.len() && ledger.receipts[i] == found[0];
        assert(is_applied(ledger.receipts[i], client_id, key));
        let n = choose|n: int|
            0 <= n < ledger.receipts.len() && is_applied(
                #[trigger] ledger.receipts[n],
                client_id,
                key,
            );
        assert(n == i) by {
            if n < i {
                assert(ledger.receipts[n].idempotency_key != ledger.receipts[i].idempotency_key);
            } else if i < n {
                assert(ledger.receipts[i].idempotency_key != ledger.receipts[n].idempotency_key);
            }
        }
        if found.len() > 1 {
            assert(found.contains(found[1]));
            let j = choose|j: int| 0 <= j < ledger.receipts.len() && ledger.receipts[j] == found[1];
            assert(is_applied(ledger.receipts[j], client_id, key));
            assert(found[0].receipt_id != found[1].receipt_id);
            if i < j {
                assert(ledger.receipts[i].idempotency_key != ledger.receipts[j].idempotency_key);
            } else {
                assert(ledger.receipts[j].idempotency_key != ledger.receipts[i].idempotency_key);
            }
        }
    } else if applied_under(ledger, client_id, key) is Some {
        let n = choose|n: int|
            0 <= n < ledger.receipts.len() && is_applied(
                #[trigger] ledger.receipts[n],
                client_id,
                key,
            );
        assert(ledger.receipts.contains(ledger.receipts[n]));
        assert(found.contains(ledger.receipts[n]));
    }
}

} // verus!
