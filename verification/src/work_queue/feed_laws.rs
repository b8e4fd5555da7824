//! What holds of every feed.

use vstd::prelude::*;

use crate::contracts::packet_proposals::PacketProposalRunStatus;
use crate::contracts::work_queue::WorkItemStatus;
use crate::http::{scope_owns, ScopeView};
use super::feed::{
    accepted_kinds, all_failures, asks_attention, delivery_failures, fed, generated_in, generates,
    is_source_scoped, listed_kinds, narrowed, newest_first, newest_run, pending_kinds,
    placed_by_time, produce_failures, proposal_failures, shown_staged, standing, still_stands, FeedOptions, FeedSignals,
    OutboxFailureRow, ProposalRow, UsageRow,
};
use super::model::{EntryView, FailureView};
use super::service::proposal_status_of;

verus! {

/// The feed shows every listed item once, in the order of the listing, and changes
/// neither the items nor their revisions.
pub proof fn feed_keeps_the_listing(
    items: Seq<EntryView>,
    scope: ScopeView,
    signals: FeedSignals,
    options: FeedOptions<'_>,
)
    ensures
        fed(items, scope, signals, options).len() == items.len(),
        forall|i: int|
            0 <= i < items.len() ==> (#[trigger] fed(items, scope, signals, options)[i]).item
                == items[i].item && fed(items, scope, signals, options)[i].revision
                == items[i].revision,
{
}

/// Drafts and failures show on accepted items alone.
pub proof fn only_accepted_items_show_drafts(
    items: Seq<EntryView>,
    i: int,
    scope: ScopeView,
    signals: FeedSignals,
    options: FeedOptions<'_>,
)
    requires
        0 <= i < items.len(),
        items[i].item.status != WorkItemStatus::Accepted,
    ensures
        fed(items, scope, signals, options)[i].staged_draft_kinds.len() == 0,
        fed(items, scope, signals, options)[i].pending_produce_kinds.len() == 0,
        fed(items, scope, signals, options)[i].failure_notifications.len() == 0,
{
}

proof fn standing_failures_stand(failures: Seq<FailureView>, active: Seq<Seq<char>>)
    ensures
        forall|j: int|
            0 <= j < standing(failures, active).len() ==> still_stands(
                #[trigger] standing(failures, active)[j],
                active,
            ),
    decreases failures.len(),
{
    if failures.len() > 0 {
        standing_failures_stand(failures.drop_last(), active);
        let front = standing(failures.drop_last(), active);
        assert forall|j: int| 0 <= j < standing(failures, active).len() implies still_stands(
            #[trigger] standing(failures, active)[j],
            active,
        ) by {
            if j < front.len() {
                assert(standing(failures, active)[j] == front[j]);
            }
        }
    }
}

/// No entry reports a failure of a kind that it also shows as staged or pending.
pub proof fn active_kinds_report_no_failure(
    items: Seq<EntryView>,
    i: int,
    j: int,
    scope: ScopeView,
    signals: FeedSignals,
    options: FeedOptions<'_>,
)
    requires
        0 <= i < items.len(),
        0 <= j < fed(items, scope, signals, options)[i].failure_notifications.len(),
    ensures
        match fed(items, scope, signals, options)[i].failure_notifications[j].packet_kind {
            Some(kind) => {
                &&& !fed(items, scope, signals, options)[i].staged_draft_kinds.contains(kind)
                &&& !fed(items, scope, signals, options)[i].pending_produce_kinds.contains(kind)
            },
            None => true,
        },
{
    let entry = fed(items, scope, signals, options)[i];
    let staged = entry.staged_draft_kinds;
    let pending = entry.pending_produce_kinds;
    let failures = all_failures(
        signals,
        options,
        items[i].item.item_id,
        accepted_kinds(items, items[i].item.item_id),
    );
    standing_failures_stand(failures, staged + pending);
    assert(still_stands(entry.failure_notifications[j], staged + pending));
    if let Some(kind) = entry.failure_notifications[j].packet_kind {
        if staged.contains(kind) {
            let k = choose|k: int| 0 <= k < staged.len() && staged[k] == kind;
            assert((staged + pending)[k] == kind);
        }
        if pending.contains(kind) {
            let k = choose|k: int| 0 <= k < pending.len() && pending[k] == kind;
            assert((staged + pending)[staged.len() + k] == kind);
        }
    }
}

proof fn hidden_kinds_are_not_shown(kinds: Seq<Seq<char>>)
    ensures
        forall|j: int|
            0 <= j < shown_staged(kinds, false).len() ==> !is_source_scoped(
                #[trigger] shown_staged(kinds, false)[j],
            ),
    decreases kinds.len(),
{
    if kinds.len() > 0 {
        hidden_kinds_are_not_shown(kinds.drop_last());
        let front = shown_staged(kinds.drop_last(), false);
        assert forall|j: int| 0 <= j < shown_staged(kinds, false).len() implies !is_source_scoped(
            #[trigger] shown_staged(kinds, false)[j],
        ) by {
            if j < front.len() {
                assert(shown_staged(kinds, false)[j] == front[j]);
            }
        }
    }
}

/// Who does not own an item's source sees none of its source-scoped drafts.
pub proof fn source_scoped_drafts_are_the_owners(
    items: Seq<EntryView>,
    i: int,
    j: int,
    scope: ScopeView,
    signals: FeedSignals,
    options: FeedOptions<'_>,
)
    requires
        0 <= i < items.len(),
        !scope_owns(scope, items[i].item.source_user_id),
        0 <= j < fed(items, scope, signals, options)[i].staged_draft_kinds.len(),
    ensures
        !is_source_scoped(fed(items, scope, signals, options)[i].staged_draft_kinds[j]),
{
    hidden_kinds_are_not_shown(listed_kinds(signals.staged.deep_view(), items[i].item.item_id));
}

proof fn owner_sees_all(kinds: Seq<Seq<char>>)
    ensures
        shown_staged(kinds, true) == kinds,
    decreases kinds.len(),
{
    if kinds.len() > 0 {
        owner_sees_all(kinds.drop_last());
        assert(kinds.drop_last().push(kinds.last()) =~= kinds);
    }
}

/// The owner of an accepted item's source sees every staged kind.
pub proof fn owners_see_every_staged_draft(
    items: Seq<EntryView>,
    i: int,
    scope: ScopeView,
    signals: FeedSignals,
    options: FeedOptions<'_>,
)
    requires
        0 <= i < items.len(),
        items[i].item.status == WorkItemStatus::Accepted,
        forall|j: int, k: int|
            0 <= j < k < items.len() ==> (#[trigger] items[j]).item.item_id != (
            #[trigger] items[k]).item.item_id,
        scope_owns(scope, items[i].item.source_user_id),
    ensures
        fed(items, scope, signals, options)[i].staged_draft_kinds == listed_kinds(
            signals.staged.deep_view(),
            items[i].item.item_id,
        ),
{
    owner_sees_all(listed_kinds(signals.staged.deep_view(), items[i].item.item_id));
}

/// A generation of a kind that succeeded takes every older failure of the kind
/// away: where the latest generation of an item's kind succeeded, no failed
/// generation of that kind is reported. `rows` stand newest first; row `n` is the
/// latest one of the kind.
pub proof fn success_takes_older_failures_away(
    rows: Seq<UsageRow>,
    n: int,
    item_id: Seq<char>,
    kind: Seq<char>,
    packet_kinds: Seq<Seq<char>>,
    debug_enabled: bool,
    provider: Option<Seq<char>>,
)
    requires
        0 <= n < rows.len(),
        generates(rows[n], item_id, kind),
        !generated_in(rows.take(n), item_id, kind),
        rows[n].success,
    ensures
        forall|j: int|
            0 <= j < produce_failures(
                rows,
                item_id,
                packet_kinds,
                debug_enabled,
                provider,
            ).len() ==> (#[trigger] produce_failures(
                rows,
                item_id,
                packet_kinds,
                debug_enabled,
                provider,
            )[j]).packet_kind != Some(kind),
    decreases rows.len(),
{
    let before = rows.drop_last();
    if n < rows.len() - 1 {
        assert(before.take(n) =~= rows.take(n));
        assert(before[n] == rows[n]);
        success_takes_older_failures_away(
            before,
            n,
            item_id,
            kind,
            packet_kinds,
            debug_enabled,
            provider,
        );
        assert(generated_in(before, item_id, kind));
    } else {
        assert(before =~= rows.take(n));
        no_generation_no_failure(before, item_id, kind, packet_kinds, debug_enabled, provider);
    }
}

proof fn no_generation_no_failure(
    rows: Seq<UsageRow>,
    item_id: Seq<char>,
    kind: Seq<char>,
    packet_kinds: Seq<Seq<char>>,
    debug_enabled: bool,
    provider: Option<Seq<char>>,
)
    requires
        !generated_in(rows, item_id, kind),
    ensures
        forall|j: int|
            0 <= j < produce_failures(
                rows,
                item_id,
                packet_kinds,
                debug_enabled,
                provider,
            ).len() ==> (#[trigger] produce_failures(
                rows,
                item_id,
                packet_kinds,
                debug_enabled,
                provider,
            )[j]).packet_kind != Some(kind),
    decreases rows.len(),
{
    if rows.len() > 0 {
        let before = rows.drop_last();
        assert forall|i: int| 0 <= i < before.len() implies !generates(
            #[trigger] before[i],
            item_id,
            kind,
        ) by {
            assert(rows[i] == before[i]);
        }
        no_generation_no_failure(before, item_id, kind, packet_kinds, debug_enabled, provider);
        assert(!generates(rows[rows.len() - 1], item_id, kind));
    }
}

/// A smart draft that is running takes an older failure of the item's smart drafts
/// away.
pub proof fn running_retry_takes_the_notice_away(
    rows: Seq<ProposalRow>,
    item_id: Seq<char>,
    debug_enabled: bool,
    provider: Option<Seq<char>>,
)
    requires
        newest_run(rows, item_id) is Some,
        proposal_status_of(newest_run(rows, item_id)->Some_0.status@)
            == PacketProposalRunStatus::Running,
    ensures
        proposal_failures(rows, item_id, debug_enabled, provider).len() == 0,
{
}

/// Without diagnostics no notification carries a diagnostic link or id.
pub proof fn diagnostics_are_shown_on_request_alone(
    items: Seq<EntryView>,
    i: int,
    j: int,
    scope: ScopeView,
    signals: FeedSignals,
    options: FeedOptions<'_>,
)
    requires
        !options.debug_enabled,
        0 <= i < items.len(),
        0 <= j < fed(items, scope, signals, options)[i].failure_notifications.len(),
    ensures
        fed(items, scope, signals, options)[i].failure_notifications[j].diagnostic_href is None,
        fed(items, scope, signals, options)[i].failure_notifications[j].diagnostic_id is None,
{
    let item_id = items[i].item.item_id;
    let kinds = accepted_kinds(items, item_id);
    let provider = options.accounting_provider.deep_view();
    let produced = produce_failures(signals.usage@, item_id, kinds, false, provider);
    let delivered = delivery_failures(signals.outbox_failures@, item_id, false, provider);
    produce_failures_are_bare(signals.usage@, item_id, kinds, provider);
    delivery_failures_are_bare(signals.outbox_failures@, item_id, provider);
    assert(bare(produced + delivered));
    ordering_keeps_bare(produced + delivered);
    let all = all_failures(signals, options, item_id, kinds);
    assert(bare(all));
    let entry = fed(items, scope, signals, options)[i];
    standing_keeps_bare(all, entry.staged_draft_kinds + entry.pending_produce_kinds);
}

spec fn bare(failures: Seq<FailureView>) -> bool {
    forall|j: int|
        0 <= j < failures.len() ==> (#[trigger] failures[j]).diagnostic_href is None
            && failures[j].diagnostic_id is None
}

proof fn produce_failures_are_bare(
    rows: Seq<UsageRow>,
    item_id: Seq<char>,
    kinds: Seq<Seq<char>>,
    provider: Option<Seq<char>>,
)
    ensures
        bare(produce_failures(rows, item_id, kinds, false, provider)),
    decreases rows.len(),
{
    if rows.len() > 0 {
        produce_failures_are_bare(rows.drop_last(), item_id, kinds, provider);
    }
}

proof fn delivery_failures_are_bare(
    rows: Seq<OutboxFailureRow>,
    item_id: Seq<char>,
    provider: Option<Seq<char>>,
)
    ensures
        bare(delivery_failures(rows, item_id, false, provider)),
    decreases rows.len(),
{
    if rows.len() > 0 {
        delivery_failures_are_bare(rows.drop_last(), item_id, provider);
    }
}

proof fn placing_keeps_bare(list: Seq<FailureView>, x: FailureView)
    requires
        bare(list),
        x.diagnostic_href is None,
        x.diagnostic_id is None,
    ensures
        bare(placed_by_time(list, x)),
    decreases list.len(),
{
    if list.len() > 0 && list.last().occurred_at_ms < x.occurred_at_ms {
        placing_keeps_bare(list.drop_last(), x);
    }
}

proof fn ordering_keeps_bare(list: Seq<FailureView>)
    requires
        bare(list),
    ensures
        bare(newest_first(list)),
    decreases list.len(),
{
    if list.len() > 0 {
        assert(list.last() == list[list.len() - 1]);
        ordering_keeps_bare(list.drop_last());
        placing_keeps_bare(newest_first(list.drop_last()), list.last());
    }
}

proof fn standing_keeps_bare(failures: Seq<FailureView>, active: Seq<Seq<char>>)
    requires
        bare(failures),
    ensures
        bare(standing(failures, active)),
    decreases failures.len(),
{
    if failures.len() > 0 {
        assert(failures.last() == failures[failures.len() - 1]);
        standing_keeps_bare(failures.drop_last(), active);
    }
}

/// The order of the notifications: no notification is older than one behind it.
pub open spec fn in_order(list: Seq<FailureView>) -> bool {
    forall|i: int, j: int|
        0 <= i < j < list.len() ==> (#[trigger] list[i]).occurred_at_ms >= (
        #[trigger] list[j]).occurred_at_ms
}

proof fn placing_is_ordered(list: Seq<FailureView>, x: FailureView)
    requires
        in_order(list),
    ensures
        in_order(placed_by_time(list, x)),
        placed_by_time(list, x).to_multiset() == list.to_multiset().insert(x),
        forall|i: int|
            0 <= i < placed_by_time(list, x).len() ==> (#[trigger] placed_by_time(
                list,
                x,
            )[i]).occurred_at_ms >= x.occurred_at_ms || (list.len() > 0 && placed_by_time(
                list,
                x,
            )[i].occurred_at_ms >= list.last().occurred_at_ms),
    decreases list.len(),
{
    broadcast use vstd::seq_lib::group_to_multiset_ensures;

    if list.len() > 0 && list.last().occurred_at_ms < x.occurred_at_ms {
        let front = list.drop_last();
        placing_is_ordered(front, x);
        assert(front.push(list.last()) =~= list);
        let placed = placed_by_time(front, x);
        if front.len() > 0 {
            assert(front.last() == list[list.len() - 2]);
            assert(list.last() == list[list.len() - 1]);
        }
        assert(placed.push(list.last()).to_multiset() =~= list.to_multiset().insert(x));
    } else {
        assert(list.push(x).to_multiset() =~= list.to_multiset().insert(x));
        if list.len() > 0 {
            assert(list.last() == list[list.len() - 1]);
        }
    }
}

/// Failed generations and deliveries stand newest first, and none is lost or
/// added by the ordering.
pub proof fn failures_stand_newest_first(list: Seq<FailureView>)
    ensures
        in_order(newest_first(list)),
        newest_first(list).to_multiset() == list.to_multiset(),
    decreases list.len(),
{
    broadcast use vstd::seq_lib::group_to_multiset_ensures;

    if list.len() > 0 {
        failures_stand_newest_first(list.drop_last());
        placing_is_ordered(newest_first(list.drop_last()), list.last());
        assert(list.drop_last().push(list.last()) =~= list);
    }
}

/// A narrowed feed holds only entries that pass, and loses one only to the limit:
/// the limit counts the entries that pass, not those that were listed.
pub proof fn narrowing_applies_before_the_limit(
    entries: Seq<EntryView>,
    limit: nat,
    passes: spec_fn(EntryView) -> bool,
)
    ensures
        narrowed(entries, limit, passes).len() <= limit,
        forall|i: int|
            0 <= i < narrowed(entries, limit, passes).len() ==> passes(
                #[trigger] narrowed(entries, limit, passes)[i],
            ),
        narrowed(entries, limit, passes).len() < limit ==> forall|i: int|
            0 <= i < entries.len() && passes(#[trigger] entries[i]) ==> narrowed(
                entries,
                limit,
                passes,
            ).contains(entries[i]),
{
    entries.filter_lemma(passes);
    let kept = entries.filter(passes);
    assert forall|i: int| 0 <= i < narrowed(entries, limit, passes).len() implies passes(
        #[trigger] narrowed(entries, limit, passes)[i],
    ) by {
        assert(narrowed(entries, limit, passes)[i] == kept[i]);
    }
}

/// An open item always waits for the operator, whatever the signals say of it.
pub proof fn open_items_ask_attention(
    items: Seq<EntryView>,
    i: int,
    scope: ScopeView,
    signals: FeedSignals,
    options: FeedOptions<'_>,
)
    requires
        0 <= i < items.len(),
        items[i].item.status == WorkItemStatus::Open,
    ensures
        asks_attention(fed(items, scope, signals, options)[i]),
{
}

/// A dismissed item never waits for the operator.
pub proof fn dismissed_items_ask_no_attention(
    items: Seq<EntryView>,
    i: int,
    scope: ScopeView,
    signals: FeedSignals,
    options: FeedOptions<'_>,
)
    requires
        0 <= i < items.len(),
        items[i].item.status == WorkItemStatus::Dismissed,
    ensures
        !asks_attention(fed(items, scope, signals, options)[i]),
{
}

/// An accepted item stays in the operator's sight while something is being
/// drafted for it.
pub proof fn drafting_items_ask_attention(
    items: Seq<EntryView>,
    i: int,
    scope: ScopeView,
    signals: FeedSignals,
    options: FeedOptions<'_>,
)
    requires
        0 <= i < items.len(),
        items[i].item.status == WorkItemStatus::Accepted,
        forall|j: int, k: int|
            0 <= j < k < items.len() ==> (#[trigger] items[j]).item.item_id != (
            #[trigger] items[k]).item.item_id,
        pending_kinds(signals, options, items[i].item.item_id).len() > 0,
    ensures
        asks_attention(fed(items, scope, signals, options)[i]),
{
}

} // verus!
