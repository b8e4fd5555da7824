//! What the feed tells an operator of what went wrong, and of what is on the way.

use vstd::prelude::*;

use crate::contracts::email_identity::AttentionSignal;
use crate::contracts::packet_proposals::PacketProposalKindOutcomeStatus;
use crate::contracts::work_queue::WorkItemStatus;
use crate::http::ScopeView;
use crate::lists::merging_extends;
use super::feed::{
    accepted_kinds, all_failures, asks_attention, attention_of, delivery_failures, fed,
    generated_in, generates, job_in, listed_kinds, narrowed, newest_first, newest_run, paired_kinds,
    pending_kinds, produce_failures, proposal_failures, running_kinds, shown_staged, standing,
    still_stands, FeedOptions, FeedSignals, OutboxFailureRow, ProposalRow, UsageRow,
    PRODUCE_FAILURE_LOOKBACK_MS,
};
use super::feed_laws::failures_stand_newest_first;
use super::model::{EntryView, FailureView};

verus! {

/// Row `n` is the first of the rows that is of the item.
pub open spec fn first_of_item(rows: Seq<ProposalRow>, n: int, item_id: Seq<char>) -> bool {
    &&& 0 <= n < rows.len()
    &&& rows[n].item_id@ == item_id
    &&& forall|m: int| 0 <= m < n ==> (#[trigger] rows[m]).item_id@ != item_id
}

proof fn first_of_item_is_newest(rows: Seq<ProposalRow>, n: int, item_id: Seq<char>)
    requires
        first_of_item(rows, n, item_id),
    ensures
        newest_run(rows, item_id) == Some(rows[n]),
    decreases n,
{
    if n > 0 {
        assert(rows[0].item_id@ != item_id);
        let rest = rows.drop_first();
        assert(rest[n - 1] == rows[n]);
        assert forall|m: int| 0 <= m < n - 1 implies (#[trigger] rest[m]).item_id@ != item_id by {
            assert(rest[m] == rows[m + 1]);
        }
        first_of_item_is_newest(rest, n - 1, item_id);
    }
}

proof fn no_run_of_item(rows: Seq<ProposalRow>, item_id: Seq<char>)
    requires
        forall|m: int| 0 <= m < rows.len() ==> (#[trigger] rows[m]).item_id@ != item_id,
    ensures
        newest_run(rows, item_id) is None,
    decreases rows.len(),
{
    if rows.len() > 0 {
        assert(rows[0].item_id@ != item_id);
        let rest = rows.drop_first();
        assert forall|m: int| 0 <= m < rest.len() implies (#[trigger] rest[m]).item_id@
            != item_id by {
            assert(rest[m] == rows[m + 1]);
        }
        no_run_of_item(rest, item_id);
    }
}

/// A run whose operator is to be told of it: one that failed, and one that finished
/// without a draft and was not started by the triage or by the smart draft itself.
pub open spec fn leaves_an_operator_waiting(run: ProposalRow) -> bool {
    ||| run.status@ == "failed"@
    ||| run.status@ == "completed"@ && (forall|i: int|
        0 <= i < run.outcomes@.len() ==> (#[trigger] run.outcomes@[i]).status
            != PacketProposalKindOutcomeStatus::Drafted) && run.start_actor_id.deep_view() != Some(
        "email_ai_triage"@,
    ) && run.start_actor_id.deep_view() != Some("smart_draft"@)
}

/// What an item's smart drafts leave to tell is one notice of the newest run, where
/// that failed, or finished without a draft for an operator who asked for one. A run
/// that drafted anything, that is still under way, or that nobody asked for leaves
/// none, and neither does an older run.
pub proof fn smart_drafts_are_reported_where_an_operator_waits(
    rows: Seq<ProposalRow>,
    n: int,
    item_id: Seq<char>,
    debug_enabled: bool,
    provider: Option<Seq<char>>,
)
    requires
        first_of_item(rows, n, item_id),
    ensures
        ({
            let notices = proposal_failures(rows, item_id, debug_enabled, provider);
            let run = rows[n];
            &&& notices.len() == (if leaves_an_operator_waiting(run) {
                1nat
            } else {
                0nat
            })
            &&& (exists|i: int|
                0 <= i < run.outcomes@.len() && (#[trigger] run.outcomes@[i]).status
                    == PacketProposalKindOutcomeStatus::Drafted) && run.status@ == "completed"@
                ==> notices.len() == 0
            &&& notices.len() > 0 ==> {
                &&& notices[0].source == "smart_draft"@
                &&& notices[0].packet_kind is None
                &&& notices[0].occurred_at_ms == run.updated_at_ms
                &&& notices[0].error_code == run.error_code.deep_view()
                &&& notices[0].next_action is Some
                &&& notices[0].notification_id == "smart_draft:"@ + run.run_id@ + ":"@
                    + run.status@
                &&& notices[0].title == (if run.status@ == "failed"@ {
                    "Smart draft failed"@
                } else {
                    "Smart draft produced no drafts"@
                })
                &&& debug_enabled ==> notices[0].diagnostic_id == Some(
                    "packet_proposal:"@ + run.run_id@,
                )
                &&& !debug_enabled ==> notices[0].diagnostic_id is None
            }
        }),
{
    reveal_strlit("failed");
    reveal_strlit("completed");
    assert("failed"@.len() != "completed"@.len());
    first_of_item_is_newest(rows, n, item_id);
}

/// An item without runs has nothing to tell of them.
pub proof fn no_run_no_notice(
    rows: Seq<ProposalRow>,
    item_id: Seq<char>,
    debug_enabled: bool,
    provider: Option<Seq<char>>,
)
    requires
        forall|m: int| 0 <= m < rows.len() ==> (#[trigger] rows[m]).item_id@ != item_id,
    ensures
        proposal_failures(rows, item_id, debug_enabled, provider).len() == 0,
        running_kinds(rows, item_id).len() == 0,
    decreases rows.len(),
{
    no_run_of_item(rows, item_id);
    if rows.len() > 0 {
        let rest = rows.drop_last();
        assert(rows[rows.len() - 1].item_id@ != item_id);
        assert forall|m: int| 0 <= m < rest.len() implies (#[trigger] rest[m]).item_id@
            != item_id by {
            assert(rest[m] == rows[m]);
        }
        no_run_no_notice(rest, item_id, debug_enabled, provider);
    }
}

/// A run of the item that is under way may draft the kind.
pub open spec fn may_draft(run: ProposalRow, item_id: Seq<char>, kind: Seq<char>) -> bool {
    &&& run.item_id@ == item_id
    &&& run.status@ != "completed"@
    &&& run.status@ != "failed"@
    &&& run.candidate_packet_kinds.deep_view().contains(kind)
}

/// The kinds that an item's runs may draft are the candidates of those that are
/// under way, each once.
pub proof fn running_runs_show_their_candidates(rows: Seq<ProposalRow>, item_id: Seq<char>)
    ensures
        running_kinds(rows, item_id).no_duplicates(),
        forall|kind: Seq<char>| #[trigger]
            running_kinds(rows, item_id).contains(kind) <==> exists|i: int|
                0 <= i < rows.len() && may_draft(#[trigger] rows[i], item_id, kind),
    decreases rows.len(),
{
    if rows.len() > 0 {
        let front = rows.drop_last();
        let last = rows.last();
        let so_far = running_kinds(front, item_id);
        running_runs_show_their_candidates(front, item_id);
        merging_extends(so_far, last.candidate_packet_kinds.deep_view());
        assert(rows[rows.len() - 1] == last);
        assert forall|kind: Seq<char>| #[trigger]
            running_kinds(rows, item_id).contains(kind) <==> exists|i: int|
                0 <= i < rows.len() && may_draft(#[trigger] rows[i], item_id, kind) by {
            if so_far.contains(kind) {
                let i = choose|i: int|
                    0 <= i < front.len() && may_draft(#[trigger] front[i], item_id, kind);
                assert(rows[i] == front[i]);
            }
            if exists|i: int| 0 <= i < rows.len() && may_draft(#[trigger] rows[i], item_id, kind) {
                let i = choose|i: int|
                    0 <= i < rows.len() && may_draft(#[trigger] rows[i], item_id, kind);
                if i < front.len() {
                    assert(front[i] == rows[i]);
                    assert(so_far.contains(kind));
                }
            }
        }
    }
}

/// A failed generation of one of the item's kinds that no later generation of the
/// kind follows. `rows` stand newest first.
pub open spec fn fails_for_good(
    rows: Seq<UsageRow>,
    n: int,
    item_id: Seq<char>,
    packet_kinds: Seq<Seq<char>>,
) -> bool {
    &&& 0 <= n < rows.len()
    &&& rows[n].correlation_id@ == item_id
    &&& rows[n].packet_kind is Some
    &&& packet_kinds.contains(rows[n].packet_kind->Some_0@)
    &&& !rows[n].success
    &&& forall|m: int|
        0 <= m < n ==> !((#[trigger] rows[m]).correlation_id@ == item_id && rows[m].packet_kind.deep_view()
            == Some(rows[n].packet_kind->Some_0@))
}

proof fn failure_stays(
    rows: Seq<UsageRow>,
    n: int,
    item_id: Seq<char>,
    packet_kinds: Seq<Seq<char>>,
)
    requires
        0 <= n < rows.len() - 1,
    ensures
        fails_for_good(rows, n, item_id, packet_kinds) <==> fails_for_good(
            rows.drop_last(),
            n,
            item_id,
            packet_kinds,
        ),
{
    let front = rows.drop_last();
    assert(front[n] == rows[n]);
    let kind = rows[n].packet_kind->Some_0@;
    if fails_for_good(rows, n, item_id, packet_kinds) {
        assert forall|m: int| 0 <= m < n implies !((#[trigger] front[m]).correlation_id@ == item_id
            && front[m].packet_kind.deep_view() == Some(kind)) by {
            assert(rows[m] == front[m]);
        }
    }
    if fails_for_good(front, n, item_id, packet_kinds) {
        assert forall|m: int| 0 <= m < n implies !((#[trigger] rows[m]).correlation_id@ == item_id
            && rows[m].packet_kind.deep_view() == Some(kind)) by {
            assert(rows[m] == front[m]);
        }
    }
}

/// The notification tells of this generation.
pub open spec fn tells_of_generation(notice: FailureView, row: UsageRow, debug_enabled: bool) -> bool {
    &&& notice.source == "ai_produce"@
    &&& notice.packet_kind == row.packet_kind.deep_view()
    &&& notice.error_code == row.error_code.deep_view()
    &&& notice.occurred_at_ms == row.recorded_at_ms
    &&& notice.title == "Draft generation failed"@
    &&& notice.next_action is Some
    &&& debug_enabled ==> notice.diagnostic_id == Some("llm:"@ + row.usage_id@)
        && notice.diagnostic_href == Some("#debug/llm:"@ + row.usage_id@)
    &&& !debug_enabled ==> notice.diagnostic_id is None && notice.diagnostic_href is None
    &&& notice.notification_id == "ai_produce:"@ + row.packet_kind->Some_0@ + ":"@ + (
    match row.error_code {
        Some(code) => code@,
        None => "llm_failed"@,
    })
}

/// The notification tells of a generation that failed for good.
pub open spec fn stems_from_generation(
    notice: FailureView,
    rows: Seq<UsageRow>,
    item_id: Seq<char>,
    packet_kinds: Seq<Seq<char>>,
    debug_enabled: bool,
) -> bool {
    exists|n: int|
        #[trigger] fails_for_good(rows, n, item_id, packet_kinds) && tells_of_generation(
            notice,
            rows[n],
            debug_enabled,
        )
}

/// Every generation that failed for good is reported, and nothing else is.
pub proof fn failed_generations_are_reported(
    rows: Seq<UsageRow>,
    item_id: Seq<char>,
    packet_kinds: Seq<Seq<char>>,
    debug_enabled: bool,
    provider: Option<Seq<char>>,
)
    ensures
        ({
            let notices = produce_failures(rows, item_id, packet_kinds, debug_enabled, provider);
            &&& forall|n: int|
                #![trigger fails_for_good(rows, n, item_id, packet_kinds)]
                fails_for_good(rows, n, item_id, packet_kinds) ==> exists|j: int|
                    0 <= j < notices.len() && tells_of_generation(
                        #[trigger] notices[j],
                        rows[n],
                        debug_enabled,
                    )
            &&& forall|j: int|
                0 <= j < notices.len() ==> stems_from_generation(
                    #[trigger] notices[j],
                    rows,
                    item_id,
                    packet_kinds,
                    debug_enabled,
                )
            &&& notices.len() <= rows.len()
        }),
    decreases rows.len(),
{
    let notices = produce_failures(rows, item_id, packet_kinds, debug_enabled, provider);
    if rows.len() > 0 {
        let front = rows.drop_last();
        let last = rows.last();
        let z = rows.len() - 1;
        assert(rows[z] == last);
        let so_far = produce_failures(front, item_id, packet_kinds, debug_enabled, provider);
        failed_generations_are_reported(front, item_id, packet_kinds, debug_enabled, provider);
        reveal_strlit("#debug/");
        reveal_strlit("llm:");
        reveal_strlit("#debug/llm:");
        assert("#debug/"@ + ("llm:"@ + last.usage_id@) =~= "#debug/llm:"@ + last.usage_id@);
        if last.packet_kind is Some {
            let kind = last.packet_kind->Some_0@;
            assert(generated_in(front, item_id, kind) <==> exists|m: int|
                0 <= m < z && (#[trigger] rows[m]).correlation_id@ == item_id
                    && rows[m].packet_kind.deep_view() == Some(kind)) by {
                if generated_in(front, item_id, kind) {
                    let m = choose|m: int|
                        0 <= m < front.len() && generates(#[trigger] front[m], item_id, kind);
                    assert(rows[m] == front[m]);
                }
                if exists|m: int|
                    0 <= m < z && (#[trigger] rows[m]).correlation_id@ == item_id
                        && rows[m].packet_kind.deep_view() == Some(kind) {
                    let m = choose|m: int|
                        0 <= m < z && (#[trigger] rows[m]).correlation_id@ == item_id
                            && rows[m].packet_kind.deep_view() == Some(kind);
                    assert(generates(front[m], item_id, kind));
                }
            }
        }
        assert forall|n: int| n < z implies (#[trigger] fails_for_good(
            rows,
            n,
            item_id,
            packet_kinds,
        ) <==> fails_for_good(front, n, item_id, packet_kinds)) by {
            if 0 <= n < z {
                failure_stays(rows, n, item_id, packet_kinds);
            }
        }
        assert(fails_for_good(rows, z, item_id, packet_kinds) <==> notices.len() > so_far.len());
        assert forall|n: int| #[trigger] fails_for_good(
            rows,
            n,
            item_id,
            packet_kinds,
        ) implies exists|j: int|
            0 <= j < notices.len() && tells_of_generation(
                #[trigger] notices[j],
                rows[n],
                debug_enabled,
            ) by {
            if n < z {
                assert(fails_for_good(front, n, item_id, packet_kinds));
                assert(front[n] == rows[n]);
                let j = choose|j: int|
                    0 <= j < so_far.len() && tells_of_generation(
                        #[trigger] so_far[j],
                        front[n],
                        debug_enabled,
                    );
                assert(notices[j] == so_far[j]);
            } else {
                assert(tells_of_generation(notices[so_far.len() as int], rows[n], debug_enabled));
            }
        }
        assert forall|j: int| 0 <= j < notices.len() implies stems_from_generation(
            #[trigger] notices[j],
            rows,
            item_id,
            packet_kinds,
            debug_enabled,
        ) by {
            if j < so_far.len() {
                assert(notices[j] == so_far[j]);
                assert(stems_from_generation(
                    so_far[j],
                    front,
                    item_id,
                    packet_kinds,
                    debug_enabled,
                ));
                let n = choose|n: int|
                    #[trigger] fails_for_good(front, n, item_id, packet_kinds)
                        && tells_of_generation(so_far[j], front[n], debug_enabled);
                assert(fails_for_good(rows, n, item_id, packet_kinds));
                assert(front[n] == rows[n]);
            } else {
                assert(fails_for_good(rows, z, item_id, packet_kinds));
                assert(tells_of_generation(notices[j], rows[z], debug_enabled));
            }
        }
    }
}

/// A delivery of the item's that failed, told at its job's first row.
pub open spec fn undelivered(rows: Seq<OutboxFailureRow>, n: int, item_id: Seq<char>) -> bool {
    &&& 0 <= n < rows.len()
    &&& rows[n].item_id@ == item_id
    &&& forall|m: int| 0 <= m < n ==> (#[trigger] rows[m]).job_id@ != rows[n].job_id@
}

proof fn undelivered_stays(rows: Seq<OutboxFailureRow>, n: int, item_id: Seq<char>)
    requires
        0 <= n < rows.len() - 1,
    ensures
        undelivered(rows, n, item_id) <==> undelivered(rows.drop_last(), n, item_id),
{
    let front = rows.drop_last();
    assert(front[n] == rows[n]);
    if undelivered(rows, n, item_id) {
        assert forall|m: int| 0 <= m < n implies (#[trigger] front[m]).job_id@
            != front[n].job_id@ by {
            assert(rows[m].job_id@ != rows[n].job_id@);
        }
    }
    if undelivered(front, n, item_id) {
        assert forall|m: int| 0 <= m < n implies (#[trigger] rows[m]).job_id@
            != rows[n].job_id@ by {
            assert(front[m].job_id@ != front[n].job_id@);
        }
    }
}

/// The notification tells of this delivery.
pub open spec fn tells_of_delivery(
    notice: FailureView,
    row: OutboxFailureRow,
    debug_enabled: bool,
) -> bool {
    &&& notice.source == "provider_delivery"@
    &&& notice.packet_kind == Some(row.packet_kind@)
    &&& notice.error_code == Some(row.status@)
    &&& notice.occurred_at_ms == row.updated_at_ms
    &&& notice.title == "Couldn't deliver draft"@
    &&& notice.next_action is Some
    &&& notice.notification_id == "provider_delivery:"@ + row.job_id@ + ":"@ + row.status@
    &&& debug_enabled ==> notice.diagnostic_id == Some("outbox:"@ + row.job_id@)
        && notice.diagnostic_href == Some("#debug/outbox:"@ + row.job_id@)
    &&& !debug_enabled ==> notice.diagnostic_id is None && notice.diagnostic_href is None
}

/// The notification tells of a delivery that failed.
pub open spec fn stems_from_delivery(
    notice: FailureView,
    rows: Seq<OutboxFailureRow>,
    item_id: Seq<char>,
    debug_enabled: bool,
) -> bool {
    exists|n: int|
        #[trigger] undelivered(rows, n, item_id) && tells_of_delivery(
            notice,
            rows[n],
            debug_enabled,
        )
}

/// Every job that did not deliver one of the item's drafts is reported once, and
/// nothing else is.
pub proof fn failed_deliveries_are_reported(
    rows: Seq<OutboxFailureRow>,
    item_id: Seq<char>,
    debug_enabled: bool,
    provider: Option<Seq<char>>,
)
    ensures
        ({
            let notices = delivery_failures(rows, item_id, debug_enabled, provider);
            &&& forall|n: int|
                #![trigger undelivered(rows, n, item_id)]
                undelivered(rows, n, item_id) ==> exists|j: int|
                    0 <= j < notices.len() && tells_of_delivery(
                        #[trigger] notices[j],
                        rows[n],
                        debug_enabled,
                    )
            &&& forall|j: int|
                0 <= j < notices.len() ==> stems_from_delivery(
                    #[trigger] notices[j],
                    rows,
                    item_id,
                    debug_enabled,
                )
            &&& notices.len() <= rows.len()
        }),
    decreases rows.len(),
{
    let notices = delivery_failures(rows, item_id, debug_enabled, provider);
    if rows.len() > 0 {
        let front = rows.drop_last();
        let last = rows.last();
        let z = rows.len() - 1;
        assert(rows[z] == last);
        let so_far = delivery_failures(front, item_id, debug_enabled, provider);
        failed_deliveries_are_reported(front, item_id, debug_enabled, provider);
        reveal_strlit("#debug/");
        reveal_strlit("outbox:");
        reveal_strlit("#debug/outbox:");
        assert("#debug/"@ + ("outbox:"@ + last.job_id@) =~= "#debug/outbox:"@ + last.job_id@);
        assert(job_in(front, last.job_id@) <==> exists|m: int|
            0 <= m < z && (#[trigger] rows[m]).job_id@ == last.job_id@) by {
            if job_in(front, last.job_id@) {
                let m = choose|m: int|
                    0 <= m < front.len() && (#[trigger] front[m]).job_id@ == last.job_id@;
                assert(rows[m] == front[m]);
            }
            if exists|m: int| 0 <= m < z && (#[trigger] rows[m]).job_id@ == last.job_id@ {
                let m = choose|m: int| 0 <= m < z && (#[trigger] rows[m]).job_id@ == last.job_id@;
                assert(front[m].job_id@ == last.job_id@);
            }
        }
        assert forall|n: int| n < z implies (#[trigger] undelivered(rows, n, item_id)
            <==> undelivered(front, n, item_id)) by {
            if 0 <= n < z {
                undelivered_stays(rows, n, item_id);
            }
        }
        assert(undelivered(rows, z, item_id) <==> notices.len() > so_far.len());
        assert forall|n: int| #[trigger] undelivered(rows, n, item_id) implies exists|j: int|
            0 <= j < notices.len() && tells_of_delivery(
                #[trigger] notices[j],
                rows[n],
                debug_enabled,
            ) by {
            if n < z {
                assert(undelivered(front, n, item_id));
                assert(front[n] == rows[n]);
                let j = choose|j: int|
                    0 <= j < so_far.len() && tells_of_delivery(
                        #[trigger] so_far[j],
                        front[n],
                        debug_enabled,
                    );
                assert(notices[j] == so_far[j]);
            } else {
                assert(tells_of_delivery(notices[so_far.len() as int], rows[n], debug_enabled));
            }
        }
        assert forall|j: int| 0 <= j < notices.len() implies stems_from_delivery(
            #[trigger] notices[j],
            rows,
            item_id,
            debug_enabled,
        ) by {
            if j < so_far.len() {
                assert(notices[j] == so_far[j]);
                assert(stems_from_delivery(so_far[j], front, item_id, debug_enabled));
                let n = choose|n: int|
                    #[trigger] undelivered(front, n, item_id) && tells_of_delivery(
                        so_far[j],
                        front[n],
                        debug_enabled,
                    );
                assert(undelivered(rows, n, item_id));
                assert(front[n] == rows[n]);
            } else {
                assert(undelivered(rows, z, item_id));
                assert(tells_of_delivery(notices[j], rows[z], debug_enabled));
            }
        }
    }
}

/// The pair says that the kind is being drafted for the item.
proof fn paired_kinds_are_the_items(pairs: Seq<(Seq<char>, Seq<char>)>, item_id: Seq<char>)
    ensures
        forall|kind: Seq<char>| #[trigger]
            paired_kinds(pairs, item_id).contains(kind) <==> pairs.contains((item_id, kind)),
    decreases pairs.len(),
{
    if pairs.len() > 0 {
        let front = pairs.drop_last();
        let so_far = paired_kinds(front, item_id);
        let all = paired_kinds(pairs, item_id);
        paired_kinds_are_the_items(front, item_id);
        assert(pairs[pairs.len() - 1] == pairs.last());
        assert forall|kind: Seq<char>| #[trigger] all.contains(kind) <==> pairs.contains(
            (item_id, kind),
        ) by {
            let pair = (item_id, kind);
            assert(so_far.contains(kind) <==> front.contains(pair));
            if front.contains(pair) {
                let k = choose|k: int| 0 <= k < front.len() && front[k] == pair;
                assert(pairs[k] == pair);
            }
            if pairs.contains(pair) && pair != pairs.last() {
                let k = choose|k: int| 0 <= k < pairs.len() && pairs[k] == pair;
                assert(front[k] == pair);
            }
            if so_far.contains(kind) {
                let k = choose|k: int| 0 <= k < so_far.len() && so_far[k] == kind;
                assert(all[k] == kind);
            }
            if pairs.last() == pair {
                assert(all[so_far.len() as int] == kind);
            }
            if all.contains(kind) {
                let k = choose|k: int| 0 <= k < all.len() && all[k] == kind;
                if k < so_far.len() {
                    assert(so_far[k] == kind);
                }
            }
        }
    }
}

proof fn in_one_of_two<T>(a: Seq<T>, b: Seq<T>, x: T)
    ensures
        (a + b).contains(x) <==> a.contains(x) || b.contains(x),
{
    if a.contains(x) {
        let i = choose|i: int| 0 <= i < a.len() && a[i] == x;
        assert((a + b)[i] == x);
    }
    if b.contains(x) {
        let i = choose|i: int| 0 <= i < b.len() && b[i] == x;
        assert((a + b)[a.len() + i] == x);
    }
    if (a + b).contains(x) {
        let i = choose|i: int| 0 <= i < (a + b).len() && (a + b)[i] == x;
        if i < a.len() {
            assert(a[i] == x);
        } else {
            assert(b[i - a.len()] == x);
        }
    }
}

/// A kind is on the way for an item exactly where a run that is under way may draft
/// it, it is in flight, or the pump runs and has it as a candidate.
pub proof fn kinds_on_the_way_are_shown(
    signals: FeedSignals,
    options: FeedOptions<'_>,
    item_id: Seq<char>,
    kind: Seq<char>,
)
    ensures
        pending_kinds(signals, options, item_id).contains(kind) <==> {
            ||| exists|i: int|
                0 <= i < signals.proposals@.len() && may_draft(
                    #[trigger] signals.proposals@[i],
                    item_id,
                    kind,
                )
            ||| options.in_flight.deep_view().contains((item_id, kind))
            ||| options.auto_produce_running
                && signals.auto_produce_candidates.deep_view().contains((item_id, kind))
        },
{
    let running = running_kinds(signals.proposals@, item_id);
    let flying = paired_kinds(options.in_flight.deep_view(), item_id);
    let waiting = paired_kinds(signals.auto_produce_candidates.deep_view(), item_id);
    running_runs_show_their_candidates(signals.proposals@, item_id);
    paired_kinds_are_the_items(options.in_flight.deep_view(), item_id);
    paired_kinds_are_the_items(signals.auto_produce_candidates.deep_view(), item_id);
    in_one_of_two(running, flying, kind);
    merging_extends(running + flying, waiting);
}

/// A kind whose drafts touch the source's own mailbox, calendar or CRM record.
pub open spec fn is_private_to_the_source(kind: Seq<char>) -> bool {
    kind == "calendar_event_draft"@ || kind == "crm_activity"@ || kind == "crm_sales_intent"@
        || kind == "email_draft_reply"@ || kind == "follow_up_task"@
}

/// The staged kinds that are shown are those that are staged, in their order: all of
/// them to the owner of the source, the ones that are not private to it to others.
pub proof fn staged_kinds_are_shown(kinds: Seq<Seq<char>>, owner: bool)
    ensures
        shown_staged(kinds, owner) == kinds.filter(
            |kind: Seq<char>| owner || !is_private_to_the_source(kind),
        ),
    decreases kinds.len(),
{
    reveal(Seq::filter);
    if kinds.len() > 0 {
        staged_kinds_are_shown(kinds.drop_last(), owner);
    }
}

/// The kinds staged for an item are those of its entry.
pub proof fn staged_entries_are_found(
    entries: Seq<(Seq<char>, Seq<Seq<char>>)>,
    n: int,
    item_id: Seq<char>,
)
    requires
        0 <= n < entries.len(),
        entries[n].0 == item_id,
        forall|m: int| 0 <= m < n ==> (#[trigger] entries[m]).0 != item_id,
    ensures
        listed_kinds(entries, item_id) == entries[n].1,
    decreases n,
{
    if n > 0 {
        assert(entries[0].0 != item_id);
        let rest = entries.drop_first();
        assert(rest[n - 1] == entries[n]);
        assert forall|m: int| 0 <= m < n - 1 implies (#[trigger] rest[m]).0 != item_id by {
            assert(rest[m] == entries[m + 1]);
        }
        staged_entries_are_found(rest, n - 1, item_id);
    }
}

/// An item for which nothing is staged shows no staged kind.
pub proof fn unstaged_items_show_none(
    entries: Seq<(Seq<char>, Seq<Seq<char>>)>,
    item_id: Seq<char>,
)
    requires
        forall|m: int| 0 <= m < entries.len() ==> (#[trigger] entries[m]).0 != item_id,
    ensures
        listed_kinds(entries, item_id).len() == 0,
    decreases entries.len(),
{
    if entries.len() > 0 {
        assert(entries[0].0 != item_id);
        let rest = entries.drop_first();
        assert forall|m: int| 0 <= m < rest.len() implies (#[trigger] rest[m]).0 != item_id by {
            assert(rest[m] == entries[m + 1]);
        }
        unstaged_items_show_none(rest, item_id);
    }
}

proof fn standing_keeps(failures: Seq<FailureView>, active: Seq<Seq<char>>)
    ensures
        forall|f: FailureView| #[trigger]
            standing(failures, active).contains(f) <==> failures.contains(f) && still_stands(
                f,
                active,
            ),
    decreases failures.len(),
{
    if failures.len() > 0 {
        let front = failures.drop_last();
        let last = failures.last();
        let so_far = standing(front, active);
        let all = standing(failures, active);
        standing_keeps(front, active);
        assert(failures[failures.len() - 1] == last);
        assert forall|f: FailureView| #[trigger] all.contains(f) <==> failures.contains(f)
            && still_stands(f, active) by {
            assert(so_far.contains(f) <==> front.contains(f) && still_stands(f, active));
            if front.contains(f) {
                let k = choose|k: int| 0 <= k < front.len() && front[k] == f;
                assert(failures[k] == f);
            }
            if failures.contains(f) && f != last {
                let k = choose|k: int| 0 <= k < failures.len() && failures[k] == f;
                assert(front[k] == f);
            }
            if so_far.contains(f) {
                let k = choose|k: int| 0 <= k < so_far.len() && so_far[k] == f;
                assert(all[k] == f);
            }
            if still_stands(last, active) {
                assert(all[so_far.len() as int] == last);
            }
            if all.contains(f) {
                let k = choose|k: int| 0 <= k < all.len() && all[k] == f;
                if k < so_far.len() {
                    assert(so_far[k] == f);
                }
            }
        }
    }
}

/// An accepted item that no other accepted entry of the listing shares its id with.
pub open spec fn accepted_alone(items: Seq<EntryView>, i: int) -> bool {
    &&& 0 <= i < items.len()
    &&& items[i].item.status == WorkItemStatus::Accepted
    &&& forall|j: int|
        0 <= j < items.len() && j != i && (#[trigger] items[j]).item.status
            == WorkItemStatus::Accepted ==> items[j].item.item_id != items[i].item.item_id
}

proof fn kinds_of_the_accepted(items: Seq<EntryView>, i: int)
    requires
        accepted_alone(items, i),
    ensures
        accepted_kinds(items, items[i].item.item_id) == items[i].item.packet_kinds,
    decreases items.len(),
{
    if i < items.len() - 1 {
        let front = items.drop_last();
        assert(items[items.len() - 1] == items.last());
        assert(front[i] == items[i]);
        assert forall|j: int|
            0 <= j < front.len() && j != i && (#[trigger] front[j]).item.status
                == WorkItemStatus::Accepted implies front[j].item.item_id
            != front[i].item.item_id by {
            assert(front[j] == items[j]);
        }
        kinds_of_the_accepted(front, i);
    }
}

/// An accepted item's notifications are what its generations, its deliveries and its
/// smart drafts left to tell, but for the kinds that are staged or on the way.
pub proof fn notifications_are_what_is_left_to_tell(
    items: Seq<EntryView>,
    i: int,
    scope: ScopeView,
    signals: FeedSignals,
    options: FeedOptions<'_>,
    f: FailureView,
)
    requires
        accepted_alone(items, i),
    ensures
        ({
            let entry = fed(items, scope, signals, options)[i];
            let item_id = items[i].item.item_id;
            let debug = options.debug_enabled;
            let provider = options.accounting_provider.deep_view();
            entry.failure_notifications.contains(f) <==> {
                &&& {
                    ||| produce_failures(
                        signals.usage@,
                        item_id,
                        items[i].item.packet_kinds,
                        debug,
                        provider,
                    ).contains(f)
                    ||| delivery_failures(
                        signals.outbox_failures@,
                        item_id,
                        debug,
                        provider,
                    ).contains(f)
                    ||| proposal_failures(signals.proposals@, item_id, debug, provider).contains(f)
                }
                &&& f.packet_kind is Some ==> !entry.staged_draft_kinds.contains(
                    f.packet_kind->Some_0,
                ) && !entry.pending_produce_kinds.contains(f.packet_kind->Some_0)
            }
        }),
{
    broadcast use vstd::seq_lib::group_to_multiset_ensures;

    let entry = fed(items, scope, signals, options)[i];
    let item_id = items[i].item.item_id;
    let debug = options.debug_enabled;
    let provider = options.accounting_provider.deep_view();
    kinds_of_the_accepted(items, i);
    let generated = produce_failures(
        signals.usage@,
        item_id,
        items[i].item.packet_kinds,
        debug,
        provider,
    );
    let delivered = delivery_failures(signals.outbox_failures@, item_id, debug, provider);
    let proposed = proposal_failures(signals.proposals@, item_id, debug, provider);
    let dated = newest_first(generated + delivered);
    failures_stand_newest_first(generated + delivered);
    assert(dated.contains(f) <==> dated.to_multiset().count(f) > 0);
    assert((generated + delivered).contains(f) <==> (generated + delivered).to_multiset().count(f)
        > 0);
    in_one_of_two(generated, delivered, f);
    in_one_of_two(dated, proposed, f);
    let active = entry.staged_draft_kinds + entry.pending_produce_kinds;
    let all = all_failures(signals, options, item_id, items[i].item.packet_kinds);
    standing_keeps(all, active);
    if f.packet_kind is Some {
        in_one_of_two(
            entry.staged_draft_kinds,
            entry.pending_produce_kinds,
            f.packet_kind->Some_0,
        );
    }
}

/// The feed holds a smart-draft notification of an accepted item exactly where its
/// newest run leaves an operator waiting.
pub proof fn the_feed_tells_of_smart_drafts(
    items: Seq<EntryView>,
    i: int,
    scope: ScopeView,
    signals: FeedSignals,
    options: FeedOptions<'_>,
    n: int,
)
    requires
        accepted_alone(items, i),
        first_of_item(signals.proposals@, n, items[i].item.item_id),
    ensures
        (exists|j: int|
            0 <= j < fed(items, scope, signals, options)[i].failure_notifications.len() && (
            #[trigger] fed(items, scope, signals, options)[i].failure_notifications[j]).source
                == "smart_draft"@) <==> leaves_an_operator_waiting(signals.proposals@[n]),
{
    let item_id = items[i].item.item_id;
    let debug = options.debug_enabled;
    let provider = options.accounting_provider.deep_view();
    let shown = fed(items, scope, signals, options)[i].failure_notifications;
    let generated = produce_failures(
        signals.usage@,
        item_id,
        items[i].item.packet_kinds,
        debug,
        provider,
    );
    let delivered = delivery_failures(signals.outbox_failures@, item_id, debug, provider);
    let proposed = proposal_failures(signals.proposals@, item_id, debug, provider);
    smart_drafts_are_reported_where_an_operator_waits(
        signals.proposals@,
        n,
        item_id,
        debug,
        provider,
    );
    failed_generations_are_reported(
        signals.usage@,
        item_id,
        items[i].item.packet_kinds,
        debug,
        provider,
    );
    failed_deliveries_are_reported(signals.outbox_failures@, item_id, debug, provider);
    reveal_strlit("smart_draft");
    reveal_strlit("ai_produce");
    reveal_strlit("provider_delivery");
    assert("smart_draft"@.len() == 11 && "ai_produce"@.len() == 10 && "provider_delivery"@.len()
        == 17);
    if leaves_an_operator_waiting(signals.proposals@[n]) {
        let f = proposed[0];
        assert(proposed.contains(f));
        notifications_are_what_is_left_to_tell(items, i, scope, signals, options, f);
        let j = choose|j: int| 0 <= j < shown.len() && shown[j] == f;
        assert(shown[j].source == "smart_draft"@);
    }
    if exists|j: int| 0 <= j < shown.len() && (#[trigger] shown[j]).source == "smart_draft"@ {
        let j = choose|j: int| 0 <= j < shown.len() && (#[trigger] shown[j]).source
            == "smart_draft"@;
        let f = shown[j];
        assert(shown.contains(f));
        notifications_are_what_is_left_to_tell(items, i, scope, signals, options, f);
        if generated.contains(f) {
            let k = choose|k: int| 0 <= k < generated.len() && generated[k] == f;
            assert(generated[k].source == "ai_produce"@);
        }
        if delivered.contains(f) {
            let k = choose|k: int| 0 <= k < delivered.len() && delivered[k] == f;
            assert(delivered[k].source == "provider_delivery"@);
        }
        assert(proposed.contains(f));
    }
}

/// An accepted item shows the kinds that are staged for it and those that are on the
/// way, and asks for the operator exactly where it shows any, or a notification.
pub proof fn accepted_items_show_their_drafts(
    items: Seq<EntryView>,
    i: int,
    scope: ScopeView,
    signals: FeedSignals,
    options: FeedOptions<'_>,
)
    requires
        accepted_alone(items, i),
    ensures
        ({
            let entry = fed(items, scope, signals, options)[i];
            let item = items[i].item;
            let owner = scope is All || item.source_user_id == Some(scope->User_0);
            &&& entry.staged_draft_kinds == listed_kinds(
                signals.staged.deep_view(),
                item.item_id,
            ).filter(|kind: Seq<char>| owner || !is_private_to_the_source(kind))
            &&& entry.pending_produce_kinds == pending_kinds(signals, options, item.item_id)
            &&& asks_attention(entry) <==> entry.staged_draft_kinds.len() > 0
                || entry.pending_produce_kinds.len() > 0 || entry.failure_notifications.len() > 0
        }),
{
    let item = items[i].item;
    let owner = scope is All || item.source_user_id == Some(scope->User_0);
    staged_kinds_are_shown(listed_kinds(signals.staged.deep_view(), item.item_id), owner);
}

/// An entry that is not accepted shows neither drafts nor failures, and of several
/// accepted entries with one id only the first does. Every entry keeps its item, its
/// revision and its place.
pub proof fn other_entries_show_no_drafts(
    items: Seq<EntryView>,
    i: int,
    scope: ScopeView,
    signals: FeedSignals,
    options: FeedOptions<'_>,
)
    requires
        0 <= i < items.len(),
    ensures
        ({
            let shown = fed(items, scope, signals, options);
            let repeats = exists|j: int|
                0 <= j < i && (#[trigger] items[j]).item.status == WorkItemStatus::Accepted
                    && items[j].item.item_id == items[i].item.item_id;
            &&& shown.len() == items.len()
            &&& shown[i].item == items[i].item
            &&& shown[i].revision == items[i].revision
            &&& items[i].item.status != WorkItemStatus::Accepted || repeats
                ==> shown[i].staged_draft_kinds.len() == 0 && shown[i].pending_produce_kinds.len()
                == 0 && shown[i].failure_notifications.len() == 0
        }),
{
}

/// An email shows the attention of its first signal, cut to a label that fits; what
/// is no email, or has no signal, shows none.
pub proof fn attention_is_the_emails(
    signals: Seq<(String, AttentionSignal)>,
    n: int,
    source_kind: Seq<char>,
    source_ref: Seq<char>,
)
    requires
        0 <= n <= signals.len(),
        forall|m: int| 0 <= m < n ==> (#[trigger] signals[m]).0@ != source_ref,
        n < signals.len() ==> signals[n].0@ == source_ref,
    ensures
        source_kind != "email"@ ==> attention_of(signals, source_kind, source_ref) is None,
        source_kind == "email"@ && n == signals.len() ==> attention_of(
            signals,
            source_kind,
            source_ref,
        ) is None,
        source_kind == "email"@ && n < signals.len() ==> {
            let shown = attention_of(signals, source_kind, source_ref);
            &&& shown is Some
            &&& shown->Some_0.level == signals[n].1.level
            &&& shown->Some_0.detail == signals[n].1.detail.deep_view()
            &&& shown->Some_0.label.len() <= 48
        },
    decreases n,
{
    reveal_strlit("Lower attention");
    reveal_strlit("Attention");
    reveal_strlit("Needs attention");
    if n > 0 {
        assert(signals[0].0@ != source_ref);
        let rest = signals.drop_first();
        assert forall|m: int| 0 <= m < n - 1 implies (#[trigger] rest[m]).0@ != source_ref by {
            assert(rest[m] == signals[m + 1]);
        }
        if n < signals.len() {
            assert(rest[n - 1] == signals[n]);
        }
        attention_is_the_emails(rest, n - 1, source_kind, source_ref);
    }
}

/// A narrowed feed goes through the entries in their order: the first one is taken
/// where it passes and there is room, and the rest fill what room is left.
pub proof fn narrowing_takes_the_first(
    entries: Seq<EntryView>,
    limit: nat,
    passes: spec_fn(EntryView) -> bool,
)
    requires
        entries.len() > 0,
    ensures
        passes(entries[0]) && limit > 0 ==> narrowed(entries, limit, passes) == seq![entries[0]]
            + narrowed(entries.drop_first(), (limit - 1) as nat, passes),
        !passes(entries[0]) ==> narrowed(entries, limit, passes) == narrowed(
            entries.drop_first(),
            limit,
            passes,
        ),
        narrowed(entries, 0, passes).len() == 0,
{
    let rest = entries.drop_first();
    filtering_from_the_front(entries, passes);
    let kept = entries.filter(passes);
    if passes(entries[0]) && limit > 0 {
        assert(kept =~= seq![entries[0]] + rest.filter(passes));
        assert(narrowed(entries, limit, passes) =~= seq![entries[0]] + narrowed(
            rest,
            (limit - 1) as nat,
            passes,
        ));
    }
}

proof fn filtering_from_the_front(entries: Seq<EntryView>, passes: spec_fn(EntryView) -> bool)
    requires
        entries.len() > 0,
    ensures
        entries.filter(passes) == (if passes(entries[0]) {
            seq![entries[0]] + entries.drop_first().filter(passes)
        } else {
            entries.drop_first().filter(passes)
        }),
{
    let head = seq![entries[0]];
    let rest = entries.drop_first();
    assert(entries =~= head + rest);
    Seq::filter_distributes_over_add(head, rest, passes);
    assert(head.filter(passes) =~= (if passes(entries[0]) {
        head
    } else {
        Seq::empty()
    })) by {
        reveal(Seq::filter);
        assert(head.drop_last() =~= Seq::<EntryView>::empty());
        assert(head.drop_last().filter(passes) =~= Seq::<EntryView>::empty());
        assert(Seq::<EntryView>::empty().push(entries[0]) =~= head);
    }
    assert(Seq::<EntryView>::empty() + rest.filter(passes) =~= rest.filter(passes));
}

/// A failed generation is looked at for a week.
pub proof fn failures_are_shown_for_a_week()
    ensures
        PRODUCE_FAILURE_LOOKBACK_MS == 7 * 24 * 60 * 60 * 1000,
{
}

} // verus!
