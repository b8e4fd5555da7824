//! What the queue calls things, what it tells of them, and how it is asked.

use vstd::prelude::*;

use crate::contracts::email_identity::{AttentionLevel, AttentionSignal};
use crate::contracts::packet_proposals::{
    PacketProposalKindOutcome, PacketProposalKindOutcomeStatus, PacketProposalReasonCode,
    PacketProposalRunStatus,
};
use crate::contracts::work_queue::{WorkItemAcceptActor, WorkItemStatus};
use crate::lists::{filled, merging_extends, unique_ids};
use crate::text::{
    ascii_lower, ascii_lowered, contains_at, has_text, is_blank, joined, trimmed, without_leading,
};
use super::emit_laws::filled_texts_are_trimmed;
use super::feed::{asks_attention, asks_level};
use super::feed_laws::narrowing_applies_before_the_limit;
use super::items::{
    entry_of, listed_visibility, single_entry, status_count, users_of_item, ItemRow,
};
use super::launch::{wanted_attachments, AttachmentEvidenceError, LaunchAgentError, LaunchContext};
use super::model::{EntryView, ItemView};
use super::prompt_laws::{parts_stand_in_the_joined, stands_between, stands_in_the_whole};
use super::routes::{
    asked, attachment_answer, launch_answer, shown_queue, source_answer, ErrorAnswerView, QueueQuery,
    QueueView,
};
use super::service::{
    coded_reason, head, is_html, label_of_kind, outcome_reason, proposal_message, reason_label,
    summary_of, title_in, undrafted_lines, ItemSourceError,
};
use super::{catalog_of, kind_in_catalog, slice_of_kind, PacketKindView};

verus! {

/// A signal is shown with its own level and detail, and with its own label where it
/// has one: trimmed, and no more than forty-eight characters of it. Without a label it
/// is called after its level.
pub proof fn signals_are_shown_with_their_label(signal: AttentionSignal)
    ensures
        ({
            let shown = summary_of(signal);
            let named = signal.label is Some && trimmed(signal.label->Some_0@).len() > 0;
            let label = trimmed(signal.label->Some_0@);
            &&& shown.level == signal.level
            &&& shown.detail == signal.detail.deep_view()
            &&& named ==> shown.label.is_prefix_of(label)
            &&& named && label.len() <= 48 ==> shown.label == label
            &&& named && label.len() > 48 ==> shown.label.len() == 48
            &&& !named && signal.level == AttentionLevel::Lower ==> shown.label
                == "Lower attention"@
            &&& !named && signal.level == AttentionLevel::Normal ==> shown.label == "Attention"@
            &&& !named && signal.level == AttentionLevel::Higher ==> shown.label
                == "Needs attention"@
        }),
{
    if signal.label is Some {
        let label = trimmed(signal.label->Some_0@);
        assert(label.take(label.len() as int) =~= label);
    }
}

proof fn titles_come_from_the_entries(entries: Seq<PacketKindView>, kind: Seq<char>)
    ensures
        (exists|i: int|
            0 <= i < entries.len() && (#[trigger] entries[i]).kind_id == kind && entries[i].title
                == title_in(entries, kind)) || (title_in(entries, kind) == kind && forall|i: int|
            0 <= i < entries.len() ==> (#[trigger] entries[i]).kind_id != kind),
    decreases entries.len(),
{
    if entries.len() > 0 {
        let rest = entries.drop_first();
        titles_come_from_the_entries(rest, kind);
        if entries[0].kind_id == kind {
            assert(entries[0].title == title_in(entries, kind));
        } else if exists|i: int|
            0 <= i < rest.len() && (#[trigger] rest[i]).kind_id == kind && rest[i].title
                == title_in(rest, kind) {
            let i = choose|i: int|
                0 <= i < rest.len() && (#[trigger] rest[i]).kind_id == kind && rest[i].title
                    == title_in(rest, kind);
            assert(entries[i + 1] == rest[i]);
        } else {
            assert forall|i: int| 0 <= i < entries.len() implies (#[trigger] entries[i]).kind_id
                != kind by {
                if i > 0 {
                    assert(rest[i - 1] == entries[i]);
                }
            }
        }
    }
}

/// A kind of the catalog is called by its title there; another one by its id.
pub proof fn kinds_are_called_by_their_title(kind: Seq<char>, provider: Option<Seq<char>>)
    ensures
        kind_in_catalog(kind) ==> exists|i: int|
            0 <= i < catalog_of(provider).len() && (#[trigger] catalog_of(provider)[i]).kind_id
                == kind && catalog_of(provider)[i].title == label_of_kind(kind, provider),
        !kind_in_catalog(kind) ==> label_of_kind(kind, provider) == kind,
{
    let catalog = catalog_of(provider);
    titles_come_from_the_entries(catalog, kind);
    super::catalog_holds_its_kinds(provider, kind);
    if !kind_in_catalog(kind) {
        assert forall|i: int| 0 <= i < catalog.len() implies (#[trigger] catalog[i]).kind_id
            != kind by {}
    } else {
        let i = choose|i: int| 0 <= i < catalog.len() && (#[trigger] catalog[i]).kind_id == kind;
        assert(catalog[i].kind_id == kind);
    }
}

/// What an operator is told of a kind that was not drafted: what the outcome says,
/// else its reason, else that it was not available.
pub open spec fn tells_why(reason: Seq<char>, outcome: PacketProposalKindOutcome) -> bool {
    let says = outcome.message is Some && trimmed(outcome.message->Some_0@).len() > 0;
    &&& says ==> reason == outcome.message->Some_0@
    &&& !says && outcome.reason_code is Some ==> reason == reason_label(
        outcome.reason_code->Some_0,
    )
    &&& !says && outcome.reason_code is None ==> reason == "not available"@
}


spec fn line_of(outcome: PacketProposalKindOutcome, provider: Option<Seq<char>>) -> Seq<char> {
    label_of_kind(outcome.packet_kind@, provider) + ": "@ + outcome_reason(outcome)
}

proof fn undrafted_lines_are_of_the_undrafted(
    outcomes: Seq<PacketProposalKindOutcome>,
    provider: Option<Seq<char>>,
)
    ensures
        undrafted_lines(outcomes, provider) == outcomes.filter(
            |o: PacketProposalKindOutcome| o.status != PacketProposalKindOutcomeStatus::Drafted,
        ).map_values(|o: PacketProposalKindOutcome| line_of(o, provider)),
    decreases outcomes.len(),
{
    let keep = |o: PacketProposalKindOutcome| o.status != PacketProposalKindOutcomeStatus::Drafted;
    let write = |o: PacketProposalKindOutcome| line_of(o, provider);
    reveal(Seq::filter);
    if outcomes.len() > 0 {
        let front = outcomes.drop_last();
        undrafted_lines_are_of_the_undrafted(front, provider);
        if keep(outcomes.last()) {
            assert(front.filter(keep).push(outcomes.last()).map_values(write)
                =~= front.filter(keep).map_values(write).push(write(outcomes.last())));
        }
    } else {
        assert(outcomes.filter(keep).map_values(write) =~= Seq::<Seq<char>>::empty());
    }
}

/// A run that failed tells its error; one that finished without drafts tells of each
/// of the first three kinds that were not drafted what it is called and why, and of
/// none that was.
pub proof fn runs_tell_why_nothing_was_drafted(
    outcomes: Seq<PacketProposalKindOutcome>,
    error_code: Option<Seq<char>>,
    provider: Option<Seq<char>>,
    i: int,
)
    ensures
        ({
            let failed = proposal_message(
                PacketProposalRunStatus::Failed,
                outcomes,
                error_code,
                provider,
            );
            let finished = proposal_message(
                PacketProposalRunStatus::Completed,
                outcomes,
                error_code,
                provider,
            );
            let undrafted = outcomes.filter(
                |o: PacketProposalKindOutcome| o.status != PacketProposalKindOutcomeStatus::Drafted,
            );
            &&& error_code is Some ==> has_text(failed, error_code->Some_0)
            &&& error_code is None ==> failed == "Smart draft stopped before drafts were ready."@
            &&& undrafted.len() == 0 ==> finished
                == "Smart draft finished, but no reviewable draft passed the gates."@
            &&& 0 <= i < undrafted.len() && i < 3 ==> exists|reason: Seq<char>|
                #[trigger] tells_why(reason, undrafted[i]) && has_text(
                    finished,
                    label_of_kind(undrafted[i].packet_kind@, provider) + ": "@ + reason,
                )
        }),
{
    let keep = |o: PacketProposalKindOutcome| o.status != PacketProposalKindOutcomeStatus::Drafted;
    let undrafted = outcomes.filter(keep);
    let lines = undrafted_lines(outcomes, provider);
    undrafted_lines_are_of_the_undrafted(outcomes, provider);
    assert(lines.len() == undrafted.len());
    if error_code is Some {
        stands_between(
            "Smart draft stopped before drafts were ready: "@,
            error_code->Some_0,
            "."@,
        );
    }
    if 0 <= i < undrafted.len() && i < 3 {
        let shown = super::service::first_three(lines);
        let line = line_of(undrafted[i], provider);
        assert(shown[i] == line);
        parts_stand_in_the_joined(shown, "; "@, i);
        let lead = "Smart draft finished, but no reviewable draft passed the gates. "@;
        stands_in_the_whole(lead, joined(shown, "; "@), Seq::empty(), line);
        assert(lead + joined(shown, "; "@) + Seq::<char>::empty() =~= lead + joined(shown, "; "@));
        assert(tells_why(outcome_reason(undrafted[i]), undrafted[i]));
    }
}

/// A reason is told in the words of its code.
pub proof fn reasons_are_told_in_words(reason: PacketProposalReasonCode)
    ensures
        reason == PacketProposalReasonCode::ActiveDraftExists ==> coded_reason(Some(reason))
            == "active draft exists"@,
        reason == PacketProposalReasonCode::ContextUnavailable ==> coded_reason(Some(reason))
            == "context unavailable"@,
        reason == PacketProposalReasonCode::GateRejected ==> coded_reason(Some(reason))
            == "gate rejected"@,
        reason == PacketProposalReasonCode::LowConfidence ==> coded_reason(Some(reason))
            == "low confidence"@,
        reason == PacketProposalReasonCode::StageFailed ==> coded_reason(Some(reason))
            == "stage failed"@,
        reason == PacketProposalReasonCode::SourceMissing ==> coded_reason(Some(reason))
            == "source missing"@,
        reason == PacketProposalReasonCode::SourceUnsupported ==> coded_reason(Some(reason))
            == "source unsupported"@,
        reason == PacketProposalReasonCode::KindNotEnabled ==> coded_reason(Some(reason))
            == "kind not enabled"@,
        reason == PacketProposalReasonCode::KindNotRequested ==> coded_reason(Some(reason))
            == "kind not requested"@,
        reason == PacketProposalReasonCode::CategoryInvalid ==> coded_reason(Some(reason))
            == "category invalid"@,
        reason == PacketProposalReasonCode::ModelOutputInvalid ==> coded_reason(Some(reason))
            == "model output invalid"@,
{
}

/// White space before a body, and the case of its tags, do not decide whether it is
/// shown as HTML; a body that opens as a document does is, and one without a tag is
/// not.
pub proof fn html_is_told_by_its_tags(body: Seq<char>)
    ensures
        is_html(body) == is_html(without_leading(body)),
        contains_at(ascii_lowered(without_leading(body)), "<!doctype html"@, 0) ==> is_html(body),
        contains_at(ascii_lowered(without_leading(body)), "<html"@, 0) ==> is_html(body),
        contains_at(ascii_lowered(without_leading(body)), "<body"@, 0) ==> is_html(body),
        without_leading(body).len() <= 512 && has_text(ascii_lowered(without_leading(body)), "<div"@)
            ==> is_html(body),
        without_leading(body).len() <= 512 && has_text(ascii_lowered(without_leading(body)), "<p"@)
            ==> is_html(body),
        (forall|i: int| 0 <= i < body.len() ==> #[trigger] body[i] != '<') ==> !is_html(body),
{
    reveal_strlit("<!doctype html");
    reveal_strlit("<html");
    reveal_strlit("<body");
    reveal_strlit("<div");
    reveal_strlit("<table");
    reveal_strlit("<p");
    reveal_strlit("<br");
    reveal_strlit("<span");
    let rest = without_leading(body);
    let all = ascii_lowered(rest);
    let start = ascii_lowered(head(rest, 512));
    leading_goes_once(body);
    leading_is_a_tail(body);
    assert(start =~= head(all, 512));
    if contains_at(all, "<!doctype html"@, 0) {
        assert(start.subrange(0, 14) =~= all.subrange(0, 14));
    }
    if contains_at(all, "<html"@, 0) {
        assert(start.subrange(0, 5) =~= all.subrange(0, 5));
    }
    if contains_at(all, "<body"@, 0) {
        assert(start.subrange(0, 5) =~= all.subrange(0, 5));
    }
    if forall|i: int| 0 <= i < body.len() ==> #[trigger] body[i] != '<' {
        assert forall|i: int| 0 <= i < start.len() implies #[trigger] start[i] != '<' by {
            assert(rest[i] == body[body.len() - rest.len() + i]);
            assert(start[i] == ascii_lower(rest[i]));
        }
        no_tag_no_text(start, "<!doctype html"@);
        no_tag_no_text(start, "<html"@);
        no_tag_no_text(start, "<body"@);
        no_tag_no_text(start, "<div"@);
        no_tag_no_text(start, "<table"@);
        no_tag_no_text(start, "<p"@);
        no_tag_no_text(start, "<br"@);
        no_tag_no_text(start, "<span"@);
    }
}

proof fn no_tag_no_text(start: Seq<char>, tag: Seq<char>)
    requires
        forall|i: int| 0 <= i < start.len() ==> #[trigger] start[i] != '<',
        tag.len() > 0,
        tag[0] == '<',
    ensures
        !has_text(start, tag),
        !contains_at(start, tag, 0),
{
    if has_text(start, tag) {
        let at = choose|at: int| #[trigger] contains_at(start, tag, at);
        assert(start.subrange(at, at + tag.len())[0] == start[at]);
    }
    if contains_at(start, tag, 0) {
        assert(start.subrange(0, tag.len() as int)[0] == start[0]);
    }
}

proof fn leading_goes_once(s: Seq<char>)
    ensures
        without_leading(without_leading(s)) == without_leading(s),
    decreases s.len(),
{
    if s.len() > 0 && crate::text::is_white_space(s[0]) {
        leading_goes_once(s.drop_first());
    }
}

proof fn leading_is_a_tail(s: Seq<char>)
    ensures
        without_leading(s).len() <= s.len(),
        without_leading(s) == s.skip(s.len() - without_leading(s).len()),
    decreases s.len(),
{
    if s.len() > 0 && crate::text::is_white_space(s[0]) {
        let rest = s.drop_first();
        leading_is_a_tail(rest);
        assert(s.skip(s.len() - without_leading(s).len()) =~= rest.skip(
            rest.len() - without_leading(rest).len(),
        ));
    } else {
        assert(s.skip(0) =~= s);
    }
}

/// A query is refused for a status that there is not, then for a level that there is
/// not. Else it asks for the status it names, and for the entries of its level, for
/// those that wait, or for all.
pub proof fn queries_ask_for_what_they_name(query: QueueQuery)
    ensures
        ({
            let status = query.status.deep_view();
            let level = query.attention_level.deep_view();
            let known = status is None || status == Some("open"@) || status == Some("accepted"@)
                || status == Some("dismissed"@);
            let ranked = level is None || level == Some("lower"@) || level == Some("normal"@)
                || level == Some("higher"@);
            &&& asked(query) is Ok <==> known && ranked
            &&& !known ==> asked(query) is Err && asked(query)->Err_0
                == (ErrorAnswerView::Refused { status: 400, code: "work_queue_status_invalid"@ })
            &&& known && !ranked ==> asked(query) is Err && asked(query)->Err_0
                == (ErrorAnswerView::Refused { status: 400, code: "attention_level_invalid"@ })
            &&& asked(query) is Ok ==> {
                let request = asked(query)->Ok_0;
                &&& status is None ==> request.status is None
                &&& status == Some("open"@) ==> request.status == Some(WorkItemStatus::Open)
                &&& status == Some("accepted"@) ==> request.status == Some(
                    WorkItemStatus::Accepted,
                )
                &&& status == Some("dismissed"@) ==> request.status == Some(
                    WorkItemStatus::Dismissed,
                )
                &&& level == Some("lower"@) ==> request.view == QueueView::SourceAttention(
                    AttentionLevel::Lower,
                )
                &&& level == Some("normal"@) ==> request.view == QueueView::SourceAttention(
                    AttentionLevel::Normal,
                )
                &&& level == Some("higher"@) ==> request.view == QueueView::SourceAttention(
                    AttentionLevel::Higher,
                )
                &&& level is None ==> request.view == (if query.needs_attention == Some(true) {
                    QueueView::NeedsAttention
                } else {
                    QueueView::All
                })
            }
        }),
{
    reveal_strlit("open");
    reveal_strlit("accepted");
    reveal_strlit("dismissed");
    reveal_strlit("lower");
    reveal_strlit("normal");
    reveal_strlit("higher");
    assert("open"@.len() == 4 && "accepted"@.len() == 8 && "dismissed"@.len() == 9);
    assert("lower"@.len() == 5 && "normal"@[0] == 'n' && "higher"@[0] == 'h');
}

/// The whole queue shows every entry. A narrowed one shows no more than two hundred,
/// each of which waits for the operator, or asks for the level; and where it shows
/// fewer, it shows every such entry.
pub proof fn views_show_what_they_are_for(entries: Seq<EntryView>, level: AttentionLevel)
    ensures
        shown_queue(entries, QueueView::All) == entries,
        ({
            let waiting = shown_queue(entries, QueueView::NeedsAttention);
            let ranked = shown_queue(entries, QueueView::SourceAttention(level));
            &&& waiting.len() <= 200
            &&& ranked.len() <= 200
            &&& forall|i: int|
                0 <= i < waiting.len() ==> ((#[trigger] waiting[i]).item.status
                    == WorkItemStatus::Open || (waiting[i].item.status == WorkItemStatus::Accepted
                    && (waiting[i].staged_draft_kinds.len() > 0
                    || waiting[i].pending_produce_kinds.len() > 0
                    || waiting[i].failure_notifications.len() > 0)))
            &&& forall|i: int|
                0 <= i < ranked.len() ==> (#[trigger] ranked[i]).attention is Some
                    && ranked[i].attention->Some_0.level == level
            &&& waiting.len() < 200 ==> forall|i: int|
                0 <= i < entries.len() && (#[trigger] entries[i]).item.status
                    == WorkItemStatus::Open ==> waiting.contains(entries[i])
            &&& ranked.len() < 200 ==> forall|i: int|
                0 <= i < entries.len() && (#[trigger] entries[i]).attention is Some
                    && entries[i].attention->Some_0.level == level ==> ranked.contains(entries[i])
        }),
{
    let waits = |entry: EntryView| asks_attention(entry);
    let asks = |entry: EntryView| asks_level(entry, level);
    let waiting = shown_queue(entries, QueueView::NeedsAttention);
    let ranked = shown_queue(entries, QueueView::SourceAttention(level));
    narrowing_applies_before_the_limit(entries, 200, waits);
    narrowing_applies_before_the_limit(entries, 200, asks);
    assert forall|i: int| 0 <= i < waiting.len() implies asks_attention(#[trigger] waiting[i]) by {
        assert(waits(waiting[i]));
    }
    assert forall|i: int| 0 <= i < ranked.len() implies asks_level(#[trigger] ranked[i], level) by {
        assert(asks(ranked[i]));
    }
    if waiting.len() < 200 {
        assert forall|i: int|
            0 <= i < entries.len() && (#[trigger] entries[i]).item.status
                == WorkItemStatus::Open implies waiting.contains(entries[i]) by {
            assert(waits(entries[i]));
        }
    }
    if ranked.len() < 200 {
        assert forall|i: int|
            0 <= i < entries.len() && (#[trigger] entries[i]).attention is Some
                && entries[i].attention->Some_0.level == level implies ranked.contains(
            entries[i],
        ) by {
            assert(asks(entries[i]));
        }
    }
}

/// What is not there is answered as not found, a launch that was asked for before as
/// a conflict, what cannot be done as asked as unprocessable, a monitor that did not
/// deliver as a bad gateway; an error of the store stays the store's.
pub proof fn refusals_are_answered_by_their_kind(
    err: LaunchAgentError,
    source: ItemSourceError,
    code: Seq<char>,
)
    ensures
        err is Disabled ==> launch_answer(err) == (ErrorAnswerView::Refused {
            status: 404,
            code: "route_not_found"@,
        }),
        err is ItemNotFound ==> launch_answer(err) == (ErrorAnswerView::Refused {
            status: 404,
            code: "work_item_not_found"@,
        }),
        err is MonitorUnconfigured ==> launch_answer(err) == (ErrorAnswerView::Refused {
            status: 422,
            code: "agent_monitor_unconfigured"@,
        }),
        err is AlreadyRequested ==> launch_answer(err) == (ErrorAnswerView::Refused {
            status: 409,
            code: "agent_launch_already_requested"@,
        }),
        err is DeliveryFailed ==> launch_answer(err) == (ErrorAnswerView::Refused {
            status: 502,
            code: "work_queue_agent_monitor_delivery_failed"@,
        }),
        err is JobNotClaimable ==> launch_answer(err) == (ErrorAnswerView::Refused {
            status: 502,
            code: "work_queue_agent_job_not_claimable"@,
        }),
        err is ResultInvalid ==> launch_answer(err) == (ErrorAnswerView::Refused {
            status: 502,
            code: "work_queue_agent_result_invalid"@,
        }),
        err is PayloadBuild ==> launch_answer(err) == (ErrorAnswerView::Refused {
            status: 500,
            code: "work_queue_agent_payload_build_failed"@,
        }),
        err is JoinFailed ==> launch_answer(err) == (ErrorAnswerView::Refused {
            status: 500,
            code: "work_queue_agent_spawn_join_failed"@,
        }),
        err is Store ==> launch_answer(err) == ErrorAnswerView::Store(err->Store_0),
        err is AttachmentStageFailed ==> launch_answer(err) == attachment_answer(
            err->AttachmentStageFailed_0,
        ),
        attachment_answer(AttachmentEvidenceError::AttachmentNotFound)
            == (ErrorAnswerView::Refused { status: 404, code: "email_attachment_not_found"@ }),
        attachment_answer(AttachmentEvidenceError::CredentialMissing)
            == (ErrorAnswerView::Refused { status: 422, code: "gmail_credential_missing"@ }),
        attachment_answer(AttachmentEvidenceError::AttachmentTooLarge)
            == (ErrorAnswerView::Refused { status: 413, code: "email_attachment_too_large"@ }),
        source is ItemNotFound ==> source_answer(source, code) == (ErrorAnswerView::Refused {
            status: 404,
            code: "work_item_not_found"@,
        }),
        source is SourceMissing ==> source_answer(source, code) == (ErrorAnswerView::Refused {
            status: 404,
            code: "work_item_source_missing"@,
        }),
        source is SourceUnsupported ==> source_answer(source, code) == (ErrorAnswerView::Refused {
            status: 422,
            code,
        }),
        source is Store ==> source_answer(source, code) == ErrorAnswerView::Store(source->Store_0),
{
}

/// The catalog offers ten kinds, each of them once and wired end to end, whatever the
/// accounting provider; a provider that is known by name is named in the title and
/// the description of its invoices.
pub proof fn the_catalog_offers_its_kinds(provider: Option<Seq<char>>)
    ensures
        ({
            let catalog = catalog_of(provider);
            &&& catalog.len() == 10
            &&& catalog[0].kind_id == "follow_up_task"@ && catalog[0].title == "Follow-up task"@
            &&& catalog[1].kind_id == "email_draft_reply"@ && catalog[1].title
                == "Email draft reply"@
            &&& catalog[2].kind_id == "calendar_event_draft"@ && catalog[2].title
                == "Calendar event draft"@
            &&& catalog[3].kind_id == "crm_activity"@ && catalog[3].title == "Log CRM note"@
            &&& catalog[4].kind_id == "crm_record_create"@ && catalog[4].title
                == "Create CRM records"@
            &&& catalog[5].kind_id == "crm_sales_intent"@ && catalog[5].title == "Create CRM lead"@
            &&& catalog[6].kind_id == "ledger_entry"@ && catalog[6].title
                == "Record received payment"@
            &&& catalog[7].kind_id == "content_draft"@ && catalog[7].title == "Content draft"@
            &&& catalog[8].kind_id == "invoice_draft"@
            &&& catalog[9].kind_id == "claim_draft"@ && catalog[9].title
                == "Shipping damage claim packet"@
            &&& forall|i: int| 0 <= i < 10 ==> (#[trigger] catalog[i]).produce_available
            &&& provider == Some("invoice_ninja"@) ==> has_text(catalog[8].title, "Invoice Ninja"@)
                && has_text(catalog[8].description, "Invoice Ninja"@)
            &&& provider == Some("stripe"@) ==> has_text(catalog[8].title, "Stripe"@) && has_text(
                catalog[8].description,
                "Stripe"@,
            )
            &&& provider is None ==> catalog[8].title == "Invoice draft"@ && has_text(
                catalog[8].description,
                "your invoicing system"@,
            )
            &&& has_text(catalog[8].description, "amounts are never invented by AI"@)
        }),
{
    reveal_strlit("invoice_ninja");
    reveal_strlit("stripe");
    assert("invoice_ninja"@.len() != "stripe"@.len());
    let catalog = catalog_of(provider);
    let intro =
        "An invoice drafted from a note or email describing billable work. Customer and line items are taken directly from the source — amounts are never invented by AI. Approve to create a draft in "@;
    let close = "; sending always stays with you."@;
    if provider == Some("invoice_ninja"@) {
        stands_between("Invoice draft ("@, "Invoice Ninja"@, ")"@);
        stands_between(intro, "Invoice Ninja"@, close);
    }
    assert(has_text(intro, "amounts are never invented by AI"@)) by {
        reveal_strlit(
            "An invoice drafted from a note or email describing billable work. Customer and line items are taken directly from the source — amounts are never invented by AI. Approve to create a draft in ",
        );
        reveal_strlit("amounts are never invented by AI");
        assert(intro.subrange(127, 159) =~= "amounts are never invented by AI"@);
        assert(contains_at(intro, "amounts are never invented by AI"@, 127));
    }
    stands_in_the_whole(
        Seq::empty(),
        intro,
        catalog[8].description.skip(intro.len() as int),
        "amounts are never invented by AI"@,
    );
    assert(Seq::<char>::empty() + intro + catalog[8].description.skip(intro.len() as int)
        =~= catalog[8].description);
    if provider is None {
        stands_between(intro, "your invoicing system"@, close);
    }
    if provider == Some("stripe"@) {
        stands_between("Invoice draft ("@, "Stripe"@, ")"@);
        stands_between(intro, "Stripe"@, close);
    }
}

/// Each kind is described by what it stages, from what, and what stays with the
/// operator.
pub proof fn kinds_are_described(provider: Option<Seq<char>>)
    ensures
        catalog_of(provider)[0].description
            == "A follow-up task with a due date and context, drafted from the source message. Saved locally — nothing is sent to an external service."@,
        catalog_of(provider)[1].description
            == "A drafted reply to the source message, staged for your review before a Gmail draft is created. Sending always stays with you."@,
        catalog_of(provider)[2].description
            == "A calendar event drafted from the source message, staged for your review before anything is added to your calendar."@,
        catalog_of(provider)[3].description
            == "A note logging the call or email (who contacted, what they wanted, next steps), staged for your review before anything is added to your CRM. If the contact doesn't yet exist, a record-creation draft is proposed first."@,
        catalog_of(provider)[4].description
            == "Creates the company and/or contact records referenced in a note, if they don't already exist in your CRM. Review and approve before any records are added. Currently supports EspoCRM."@,
        catalog_of(provider)[5].description
            == "Stages pipeline intent separately from CRM contacts and companies. A lead means sales interest or an unqualified opportunity; approval creates an EspoCRM Lead when supported."@,
        catalog_of(provider)[6].description
            == "Records a received payment in your accounting system — payer, amount, and date are taken directly from the source email. Staged for your review before anything is recorded."@,
        catalog_of(provider)[7].description
            == "A blog post or web page drafted from the brief using your Drive documents as the only source. Every statement must be supported by your documents — unsupported content is blocked before approval. Publishing always stays with you."@,
        catalog_of(provider)[9].description
            == "A shipping-damage claim packet assembled from your order evidence (order reference, pack photos, tracking, damage photos). Completeness is checked before approval. Approving creates a Gmail draft for manual carrier or shipping-platform filing, plus a follow-up task."@,
{
}

/// Each kind is owned by the slice that drafts it, and by no other.
pub proof fn kinds_are_owned_by_their_slice(kind: Seq<char>)
    ensures
        kind == "follow_up_task"@ ==> slice_of_kind(kind) == Some("follow_up_tasks"@),
        kind == "email_draft_reply"@ ==> slice_of_kind(kind) == Some("email_drafts"@),
        kind == "calendar_event_draft"@ ==> slice_of_kind(kind) == Some("calendar_drafts"@),
        kind == "crm_activity"@ ==> slice_of_kind(kind) == Some("crm_drafts"@),
        kind == "crm_record_create"@ ==> slice_of_kind(kind) == Some("crm_record_drafts"@),
        kind == "crm_sales_intent"@ ==> slice_of_kind(kind) == Some("crm_sales_intent"@),
        kind == "ledger_entry"@ ==> slice_of_kind(kind) == Some("ledger_drafts"@),
        kind == "content_draft"@ ==> slice_of_kind(kind) == Some("content_drafts"@),
        kind == "invoice_draft"@ ==> slice_of_kind(kind) == Some("invoice_drafts"@),
        kind == "claim_draft"@ ==> slice_of_kind(kind) == Some("claim_drafts"@),
        !kind_in_catalog(kind) ==> slice_of_kind(kind) is None,
{
    reveal_strlit("follow_up_task");
    reveal_strlit("email_draft_reply");
    reveal_strlit("calendar_event_draft");
    reveal_strlit("crm_activity");
    reveal_strlit("crm_record_create");
    reveal_strlit("crm_sales_intent");
    reveal_strlit("ledger_entry");
    reveal_strlit("content_draft");
    reveal_strlit("invoice_draft");
    reveal_strlit("claim_draft");
    assert("follow_up_task"@.len() == 14 && "email_draft_reply"@.len() == 17
        && "calendar_event_draft"@.len() == 20 && "crm_activity"@.len() == 12
        && "crm_record_create"@.len() == 17 && "crm_sales_intent"@.len() == 16
        && "ledger_entry"@.len() == 12 && "content_draft"@.len() == 13 && "invoice_draft"@.len()
        == 13 && "claim_draft"@.len() == 11);
    assert("email_draft_reply"@[0] == 'e' && "crm_record_create"@[0] == 'c');
    assert("crm_activity"@[0] == 'c' && "ledger_entry"@[0] == 'l');
    assert("content_draft"@[0] == 'c' && "invoice_draft"@[0] == 'i');
}

/// An entry says what its row holds, with nothing decorating it: a status that is not
/// known is open, and an actor that is not known is nobody.
pub proof fn entries_say_what_their_row_holds(
    row: ItemRow,
    packet_kinds: Seq<Seq<char>>,
    visible_to_user_ids: Seq<Seq<char>>,
)
    ensures
        ({
            let entry = entry_of(row, packet_kinds, visible_to_user_ids);
            &&& entry.item.item_id == row.item_id@
            &&& entry.item.source_kind == row.source_kind@
            &&& entry.item.source_ref == row.source_ref@
            &&& entry.item.category_id == row.category_id@
            &&& entry.item.title == row.title@
            &&& entry.item.summary == row.summary@
            &&& entry.item.packet_kinds == packet_kinds
            &&& entry.item.visible_to_user_ids == visible_to_user_ids
            &&& entry.item.rationale == row.rationale@
            &&& entry.item.produce_guidance == row.produce_guidance@
            &&& entry.item.source_user_id == row.source_user_id.deep_view()
            &&& entry.item.assignee_user_id == row.assignee_user_id.deep_view()
            &&& entry.item.ai_suggested == row.ai_suggested
            &&& entry.item.created_at_ms == row.created_at_ms as u64
            &&& entry.item.updated_at_ms == row.updated_at_ms as u64
            &&& entry.revision == row.revision as u64
            &&& row.status@ == "accepted"@ ==> entry.item.status == WorkItemStatus::Accepted
            &&& row.status@ == "dismissed"@ ==> entry.item.status == WorkItemStatus::Dismissed
            &&& row.status@ != "accepted"@ && row.status@ != "dismissed"@ ==> entry.item.status
                == WorkItemStatus::Open
            &&& row.accept_actor.deep_view() == Some("operator"@) ==> entry.item.accept_actor
                == Some(WorkItemAcceptActor::Operator)
            &&& row.accept_actor.deep_view() == Some("system"@) ==> entry.item.accept_actor == Some(
                WorkItemAcceptActor::System,
            )
            &&& row.accept_actor is None ==> entry.item.accept_actor is None
            &&& entry.staged_draft_kinds.len() == 0
            &&& entry.pending_produce_kinds.len() == 0
            &&& entry.failure_notifications.len() == 0
            &&& entry.attention is None
        }),
{
    reveal_strlit("accepted");
    reveal_strlit("dismissed");
    reveal_strlit("operator");
    reveal_strlit("system");
    assert("accepted"@.len() != "dismissed"@.len());
    assert("operator"@.len() != "system"@.len());
}

proof fn users_are_those_of_the_rows(rows: Seq<(Seq<char>, Seq<char>)>, item_id: Seq<char>)
    ensures
        forall|user_id: Seq<char>| #[trigger]
            users_of_item(rows, item_id).contains(user_id) <==> rows.contains((item_id, user_id)),
    decreases rows.len(),
{
    if rows.len() > 0 {
        let front = rows.drop_last();
        let so_far = users_of_item(front, item_id);
        let all = users_of_item(rows, item_id);
        users_are_those_of_the_rows(front, item_id);
        assert(rows[rows.len() - 1] == rows.last());
        assert forall|user_id: Seq<char>| #[trigger] all.contains(user_id) <==> rows.contains(
            (item_id, user_id),
        ) by {
            let row = (item_id, user_id);
            assert(so_far.contains(user_id) <==> front.contains(row));
            if front.contains(row) {
                let k = choose|k: int| 0 <= k < front.len() && front[k] == row;
                assert(rows[k] == row);
            }
            if rows.contains(row) && row != rows.last() {
                let k = choose|k: int| 0 <= k < rows.len() && rows[k] == row;
                assert(front[k] == row);
            }
            if so_far.contains(user_id) {
                let k = choose|k: int| 0 <= k < so_far.len() && so_far[k] == user_id;
                assert(all[k] == user_id);
            }
            if rows.last() == row {
                assert(all[so_far.len() as int] == user_id);
            }
            if all.contains(user_id) {
                let k = choose|k: int| 0 <= k < all.len() && all[k] == user_id;
                if k < so_far.len() {
                    assert(so_far[k] == user_id);
                }
            }
        }
    }
}

/// A listed item is seen by the users of its visibility rows, each once; where it has
/// none, by the user it came from.
pub proof fn listed_items_are_seen_by_their_users(
    rows: Seq<(Seq<char>, Seq<char>)>,
    item_id: Seq<char>,
    source_user_id: Option<Seq<char>>,
)
    ensures
        ({
            let users = listed_visibility(rows, item_id, source_user_id);
            let shared = exists|user_id: Seq<char>| #[trigger] rows.contains((item_id, user_id));
            &&& users.no_duplicates()
            &&& shared ==> forall|user_id: Seq<char>| #[trigger]
                users.contains(user_id) <==> rows.contains((item_id, user_id))
            &&& !shared ==> users == (if source_user_id is Some && !is_blank(
                source_user_id->Some_0,
            ) {
                seq![source_user_id->Some_0]
            } else {
                Seq::empty()
            })
        }),
{
    let found = users_of_item(rows, item_id);
    users_are_those_of_the_rows(rows, item_id);
    merging_extends(Seq::empty(), found);
    if exists|user_id: Seq<char>| #[trigger] rows.contains((item_id, user_id)) {
        let user_id = choose|user_id: Seq<char>| #[trigger] rows.contains((item_id, user_id));
        assert(found.contains(user_id));
    } else if found.len() > 0 {
        assert(found.contains(found[0]));
    }
}

/// A single item is seen by the users that are stored for it, each once; where there
/// are none, by the user it came from.
pub proof fn single_items_are_seen_by_their_users(row: ItemRow, stored: Seq<Seq<char>>)
    ensures
        ({
            let users = single_entry(row, stored).item.visible_to_user_ids;
            &&& users.no_duplicates()
            &&& stored.len() > 0 ==> forall|user_id: Seq<char>| #[trigger]
                users.contains(user_id) <==> stored.contains(user_id)
            &&& stored.len() == 0 ==> users == (if row.source_user_id is Some && trimmed(
                row.source_user_id->Some_0@,
            ).len() > 0 {
                seq![trimmed(row.source_user_id->Some_0@)]
            } else {
                Seq::empty()
            })
            &&& single_entry(row, stored).item.item_id == row.item_id@
            &&& single_entry(row, stored).item.packet_kinds == crate::json::stored_strings(
                row.packet_kinds_json@,
            )
        }),
{
    merging_extends(Seq::empty(), stored);
    let kept = crate::lists::first_occurrences(stored);
    if stored.len() > 0 {
        assert(stored.contains(stored[0]));
        assert(kept.contains(stored[0]));
    }
}

/// A status is counted once for each time it occurs.
pub proof fn statuses_are_counted(statuses: Seq<Option<Seq<char>>>, status: Seq<char>)
    ensures
        status_count(statuses, status) == statuses.filter(
            |s: Option<Seq<char>>| s == Some(status),
        ).len(),
    decreases statuses.len(),
{
    reveal(Seq::filter);
    if statuses.len() > 0 {
        statuses_are_counted(statuses.drop_last(), status);
    }
}

/// A launch from an email stages the attachments that its request names: trimmed, each
/// once, blank ones left out.
pub proof fn emails_stage_the_requested_attachments(ctx: LaunchContext<'_>, item: ItemView)
    requires
        item.source_kind == "email"@,
    ensures
        wanted_attachments(ctx, item).no_duplicates(),
        forall|id: Seq<char>| #[trigger]
            wanted_attachments(ctx, item).contains(id) <==> id.len() > 0 && exists|j: int|
                0 <= j < ctx.request.attachment_ids.deep_view().len() && trimmed(
                    #[trigger] ctx.request.attachment_ids.deep_view()[j],
                ) == id,
{
    let ids = ctx.request.attachment_ids.deep_view();
    merging_extends(Seq::empty(), filled(ids));
    assert forall|id: Seq<char>| #[trigger] unique_ids(ids).contains(id) <==> id.len() > 0
        && exists|j: int| 0 <= j < ids.len() && trimmed(#[trigger] ids[j]) == id by {
        filled_texts_are_trimmed(ids, id);
    }
}

} // verus!
