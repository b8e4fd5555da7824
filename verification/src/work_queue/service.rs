//! What the queue says of its items: titles, summaries, labels, messages, and who
//! an inbound message is for.

use vstd::prelude::*;

use crate::contracts::email_identity::{AttentionLevel, AttentionSignal};
use crate::contracts::email_triage::{CategoryRecord, InboundMessageRecord};
use crate::contracts::packet_proposals::{
    PacketProposalKindOutcome, PacketProposalKindOutcomeStatus, PacketProposalReasonCode,
    PacketProposalRunStatus,
};
use crate::contracts::work_queue::{
    LaunchAgentRequest, PacketKindRecord, WorkItem, WorkItemAttentionSummary,
    WorkItemSourceBodyFormat, WorkItemSourceResponse,
};
use crate::lists::{collapse_runs, distinct_ids, filled, filled_texts, runs_collapsed, unique_ids};
use crate::store_core::StoreError;
use crate::text::{
    ascii_lowered, case_blind_sorted, contains_at, contains_text, has_text, is_blank, join, joined,
    same_text, sort_case_blind, trimmed, without_leading,
};
use super::agent_launch::{
    chosen_work_dir, combine_context, combined_context, effective_work_dir, message_body,
    resolve_work_dir, text_or, work_dir_of,
};
use super::model::AttentionView;
use super::{catalog_of, packet_kind_catalog, PacketKindView};

verus! {

pub const SUMMARY_MAX_CHARS: usize = 200;

pub const ATTENTION_LABEL_MAX_CHARS: usize = 48;

pub const HTML_HEAD_CHARS: usize = 512;

/// The first `n` characters of a text, or all of a shorter one.
pub open spec fn head(s: Seq<char>, n: nat) -> Seq<char> {
    if s.len() <= n {
        s
    } else {
        s.take(n as int)
    }
}

/// The first `n` characters of a text, or all of a shorter one.
pub fn text_head(s: &str, n: usize) -> (r: &str)
    ensures
        r@ == head(s@, n as nat),
{
    if s.unicode_len() <= n {
        s
    } else {
        s.substring_char(0, n)
    }
}

pub open spec fn attention_label(level: AttentionLevel) -> Seq<char> {
    match level {
        AttentionLevel::Lower => "Lower attention"@,
        AttentionLevel::Normal => "Attention"@,
        AttentionLevel::Higher => "Needs attention"@,
    }
}

pub fn default_attention_label(level: AttentionLevel) -> (r: &'static str)
    ensures
        r@ == attention_label(level),
{
    match level {
        AttentionLevel::Lower => "Lower attention",
        AttentionLevel::Normal => "Attention",
        AttentionLevel::Higher => "Needs attention",
    }
}

/// The operator-facing summary of a signal: its own label, cut to size, or the
/// level's where it has none.
pub open spec fn summary_of(signal: AttentionSignal) -> AttentionView {
    AttentionView {
        level: signal.level,
        label: match signal.label {
            Some(label) => if is_blank(label@) {
                attention_label(signal.level)
            } else {
                head(trimmed(label@), ATTENTION_LABEL_MAX_CHARS as nat)
            },
            None => attention_label(signal.level),
        },
        detail: signal.detail.deep_view(),
    }
}

pub fn attention_summary(signal: &AttentionSignal) -> (r: WorkItemAttentionSummary)
    ensures
        r.deep_view() == summary_of(*signal),
{
    let label: String = match &signal.label {
        Some(label) => {
            let text: &str = label.as_str().trim();
            if text.is_empty() {
                default_attention_label(signal.level).to_owned()
            } else {
                text_head(text, ATTENTION_LABEL_MAX_CHARS).to_owned()
            }
        },
        None => default_attention_label(signal.level).to_owned(),
    };
    WorkItemAttentionSummary { level: signal.level, label, detail: signal.detail.clone() }
}

/// A run that was started without an operator.
pub open spec fn is_automatic_actor(actor_id: Option<Seq<char>>) -> bool {
    actor_id == Some("email_ai_triage"@) || actor_id == Some("smart_draft"@)
}

pub fn is_automatic_packet_proposal_actor(actor_id: Option<&str>) -> (r: bool)
    ensures
        r == is_automatic_actor(actor_id.deep_view()),
{
    match actor_id {
        Some(id) => same_text(id, "email_ai_triage") || same_text(id, "smart_draft"),
        None => false,
    }
}

/// The status a stored text stands for; an unknown text is a running run.
pub open spec fn proposal_status_of(raw: Seq<char>) -> PacketProposalRunStatus {
    if raw == "completed"@ {
        PacketProposalRunStatus::Completed
    } else if raw == "failed"@ {
        PacketProposalRunStatus::Failed
    } else {
        PacketProposalRunStatus::Running
    }
}

pub fn packet_proposal_status_from_str(raw: &str) -> (r: PacketProposalRunStatus)
    ensures
        r == proposal_status_of(raw@),
{
    if same_text(raw, "completed") {
        PacketProposalRunStatus::Completed
    } else if same_text(raw, "failed") {
        PacketProposalRunStatus::Failed
    } else {
        PacketProposalRunStatus::Running
    }
}

pub open spec fn reason_label(reason: PacketProposalReasonCode) -> Seq<char> {
    match reason {
        PacketProposalReasonCode::ActiveDraftExists => "active draft exists"@,
        PacketProposalReasonCode::CategoryInvalid => "category invalid"@,
        PacketProposalReasonCode::ContextUnavailable => "context unavailable"@,
        PacketProposalReasonCode::GateRejected => "gate rejected"@,
        PacketProposalReasonCode::KindNotEnabled => "kind not enabled"@,
        PacketProposalReasonCode::KindNotRequested => "kind not requested"@,
        PacketProposalReasonCode::LowConfidence => "low confidence"@,
        PacketProposalReasonCode::ModelOutputInvalid => "model output invalid"@,
        PacketProposalReasonCode::SourceMissing => "source missing"@,
        PacketProposalReasonCode::SourceUnsupported => "source unsupported"@,
        PacketProposalReasonCode::StageFailed => "stage failed"@,
    }
}

pub fn reason_code_label(reason: PacketProposalReasonCode) -> (r: &'static str)
    ensures
        r@ == reason_label(reason),
{
    match reason {
        PacketProposalReasonCode::ActiveDraftExists => "active draft exists",
        PacketProposalReasonCode::CategoryInvalid => "category invalid",
        PacketProposalReasonCode::ContextUnavailable => "context unavailable",
        PacketProposalReasonCode::GateRejected => "gate rejected",
        PacketProposalReasonCode::KindNotEnabled => "kind not enabled",
        PacketProposalReasonCode::KindNotRequested => "kind not requested",
        PacketProposalReasonCode::LowConfidence => "low confidence",
        PacketProposalReasonCode::ModelOutputInvalid => "model output invalid",
        PacketProposalReasonCode::SourceMissing => "source missing",
        PacketProposalReasonCode::SourceUnsupported => "source unsupported",
        PacketProposalReasonCode::StageFailed => "stage failed",
    }
}

/// The title of the first entry with this id, or the id itself.
pub open spec fn title_in(entries: Seq<PacketKindView>, kind: Seq<char>) -> Seq<char>
    decreases entries.len(),
{
    if entries.len() == 0 {
        kind
    } else if entries[0].kind_id == kind {
        entries[0].title
    } else {
        title_in(entries.drop_first(), kind)
    }
}

/// What a kind is called: its catalog title, or its id where the catalog does not
/// know it.
pub open spec fn label_of_kind(kind: Seq<char>, provider: Option<Seq<char>>) -> Seq<char> {
    title_in(catalog_of(provider), kind)
}

pub fn packet_label(kind: &str, accounting_provider: Option<&str>) -> (r: String)
    ensures
        r@ == label_of_kind(kind@, accounting_provider.deep_view()),
{
    let catalog: Vec<PacketKindRecord> = packet_kind_catalog(accounting_provider);
    let ghost all = catalog_of(accounting_provider.deep_view());
    let mut i: usize = 0;
    proof {
        assert(all.skip(0) =~= all);
    }
    while i < catalog.len()
        invariant
            i <= catalog.len(),
            catalog.deep_view() == all,
            all == catalog_of(accounting_provider.deep_view()),
            title_in(all, kind@) == title_in(all.skip(i as int), kind@),
        decreases catalog.len() - i,
    {
        proof {
            assert(catalog.deep_view()[i as int] == catalog[i as int].deep_view());
            assert(all.skip(i as int)[0] == all[i as int]);
            assert(all.skip(i as int).drop_first() =~= all.skip(i + 1));
        }
        if same_text(catalog[i].kind_id.as_str(), kind) {
            return catalog[i].title.clone();
        }
        i += 1;
    }
    kind.to_owned()
}

pub fn packet_title(kind: &str, accounting_provider: Option<&str>) -> (r: String)
    ensures
        r@ == label_of_kind(kind@, accounting_provider.deep_view())
            + " could not be generated."@,
{
    packet_label(kind, accounting_provider).concat(" could not be generated.")
}

/// Why a kind was not drafted: the outcome's message, its reason, or neither.
pub open spec fn outcome_reason(outcome: PacketProposalKindOutcome) -> Seq<char> {
    match outcome.message {
        Some(message) => if !is_blank(message@) {
            message@
        } else {
            coded_reason(outcome.reason_code)
        },
        None => coded_reason(outcome.reason_code),
    }
}

/// What a reason code says; "not available" where there is none.
pub open spec fn coded_reason(reason: Option<PacketProposalReasonCode>) -> Seq<char> {
    match reason {
        Some(code) => reason_label(code),
        None => "not available"@,
    }
}

/// One line for each kind that was not drafted.
pub open spec fn undrafted_lines(
    outcomes: Seq<PacketProposalKindOutcome>,
    provider: Option<Seq<char>>,
) -> Seq<Seq<char>>
    decreases outcomes.len(),
{
    if outcomes.len() == 0 {
        Seq::empty()
    } else if outcomes.last().status == PacketProposalKindOutcomeStatus::Drafted {
        undrafted_lines(outcomes.drop_last(), provider)
    } else {
        undrafted_lines(outcomes.drop_last(), provider).push(
            label_of_kind(outcomes.last().packet_kind@, provider) + ": "@ + outcome_reason(
                outcomes.last(),
            ),
        )
    }
}

/// The first three of the lines.
pub open spec fn first_three(lines: Seq<Seq<char>>) -> Seq<Seq<char>> {
    if lines.len() <= 3 {
        lines
    } else {
        lines.take(3)
    }
}

/// What an operator is told of a run that failed or drafted nothing.
pub open spec fn proposal_message(
    status: PacketProposalRunStatus,
    outcomes: Seq<PacketProposalKindOutcome>,
    error_code: Option<Seq<char>>,
    provider: Option<Seq<char>>,
) -> Seq<char> {
    if status == PacketProposalRunStatus::Failed {
        match error_code {
            Some(code) => "Smart draft stopped before drafts were ready: "@ + code + "."@,
            None => "Smart draft stopped before drafts were ready."@,
        }
    } else {
        let lines = first_three(undrafted_lines(outcomes, provider));
        if lines.len() == 0 {
            "Smart draft finished, but no reviewable draft passed the gates."@
        } else {
            "Smart draft finished, but no reviewable draft passed the gates. "@ + joined(
                lines,
                "; "@,
            )
        }
    }
}

fn undrafted_texts(outcomes: &Vec<PacketProposalKindOutcome>, accounting_provider: Option<&str>) -> (r:
    Vec<String>)
    ensures
        r.deep_view() == undrafted_lines(outcomes@, accounting_provider.deep_view()),
{
    let mut lines: Vec<String> = Vec::new();
    let ghost provider = accounting_provider.deep_view();
    let mut i: usize = 0;
    proof {
        assert(lines.deep_view() =~= undrafted_lines(outcomes@.take(0), provider));
    }
    while i < outcomes.len()
        invariant
            i <= outcomes.len(),
            provider == accounting_provider.deep_view(),
            lines.deep_view() == undrafted_lines(outcomes@.take(i as int), provider),
        decreases outcomes.len() - i,
    {
        let outcome: &PacketProposalKindOutcome = &outcomes[i];
        let ghost before = lines.deep_view();
        proof {
            assert(outcomes@.take(i + 1).drop_last() =~= outcomes@.take(i as int));
            assert(outcomes@.take(i + 1).last() == outcomes@[i as int]);
        }
        if outcome.status != PacketProposalKindOutcomeStatus::Drafted {
            let coded: &str = match outcome.reason_code {
                Some(code) => reason_code_label(code),
                None => "not available",
            };
            let reason: &str = match &outcome.message {
                Some(message) => if message.as_str().trim().is_empty() {
                    coded
                } else {
                    message.as_str()
                },
                None => coded,
            };
            let line: String = packet_label(
                outcome.packet_kind.as_str(),
                accounting_provider,
            ).concat(": ").concat(reason);
            let ghost said = line@;
            lines.push(line);
            proof {
                assert(lines.deep_view() =~= before.push(said));
            }
        }
        i += 1;
    }
    proof {
        assert(outcomes@.take(i as int) =~= outcomes@);
    }
    lines
}

pub fn packet_proposal_failure_message(
    status: PacketProposalRunStatus,
    outcomes: &Vec<PacketProposalKindOutcome>,
    error_code: Option<&str>,
    accounting_provider: Option<&str>,
) -> (r: String)
    ensures
        r@ == proposal_message(
            status,
            outcomes@,
            error_code.deep_view(),
            accounting_provider.deep_view(),
        ),
{
    if status == PacketProposalRunStatus::Failed {
        return match error_code {
            Some(code) => "Smart draft stopped before drafts were ready: ".to_owned().concat(
                code,
            ).concat("."),
            None => "Smart draft stopped before drafts were ready.".to_owned(),
        };
    }
    let mut lines: Vec<String> = undrafted_texts(outcomes, accounting_provider);
    let ghost all = lines.deep_view();
    lines.truncate(3);
    proof {
        assert(lines.deep_view() =~= first_three(all));
    }
    if lines.len() == 0 {
        "Smart draft finished, but no reviewable draft passed the gates.".to_owned()
    } else {
        "Smart draft finished, but no reviewable draft passed the gates. ".to_owned().concat(
            join(&lines, "; ").as_str(),
        )
    }
}

/// True when `s` starts with `prefix`.
pub fn starts_with_text(s: &str, prefix: &str) -> (r: bool)
    ensures
        r == contains_at(s@, prefix@, 0),
{
    let n: usize = prefix.unicode_len();
    if s.unicode_len() < n {
        return false;
    }
    same_text(s.substring_char(0, n), prefix)
}

/// A body that starts as an HTML document does, or holds HTML near its start.
pub open spec fn is_html(body: Seq<char>) -> bool {
    let start = ascii_lowered(head(without_leading(body), HTML_HEAD_CHARS as nat));
    ||| contains_at(start, "<!doctype html"@, 0)
    ||| contains_at(start, "<html"@, 0)
    ||| contains_at(start, "<body"@, 0)
    ||| has_text(start, "<div"@)
    ||| has_text(start, "<table"@)
    ||| has_text(start, "<p"@)
    ||| has_text(start, "<br"@)
    ||| has_text(start, "<span"@)
}

pub fn looks_like_html(body: &str) -> (r: bool)
    ensures
        r == is_html(body@),
{
    let start: String = text_head(body.trim_start(), HTML_HEAD_CHARS).to_ascii_lowercase();
    let start: &str = start.as_str();
    starts_with_text(start, "<!doctype html") || starts_with_text(start, "<html")
        || starts_with_text(start, "<body") || contains_text(start, "<div") || contains_text(
        start,
        "<table",
    ) || contains_text(start, "<p") || contains_text(start, "<br") || contains_text(start, "<span")
}

/// The body to show for a message and its format: the HTML that was kept of it,
/// or its own body.
pub open spec fn shown_body(html: Option<Seq<char>>, message: InboundMessageRecord) -> (
    Seq<char>,
    WorkItemSourceBodyFormat,
) {
    match html {
        Some(text) => (text, WorkItemSourceBodyFormat::Html),
        None => (
            message_body(message),
            if is_html(message_body(message)) {
                WorkItemSourceBodyFormat::Html
            } else {
                WorkItemSourceBodyFormat::PlainText
            },
        ),
    }
}

/// The body to show for a message and its format.
pub fn source_body_for_display(html: Option<String>, message: &InboundMessageRecord) -> (r: (
    String,
    WorkItemSourceBodyFormat,
))
    ensures
        (r.0@, r.1) == shown_body(html.deep_view(), *message),
{
    if let Some(text) = html {
        return (text, WorkItemSourceBodyFormat::Html);
    }
    let body: String = if message.body_full.as_str().trim().is_empty() {
        message.body_excerpt.clone()
    } else {
        message.body_full.clone()
    };
    let format: WorkItemSourceBodyFormat = if looks_like_html(body.as_str()) {
        WorkItemSourceBodyFormat::Html
    } else {
        WorkItemSourceBodyFormat::PlainText
    };
    (body, format)
}

/// The title of a message's item: its subject, or its sender where it has none.
pub open spec fn title_of(message: InboundMessageRecord) -> Seq<char> {
    match message.subject {
        Some(subject) => if is_blank(subject@) {
            "Email from "@ + text_or(message.from_addr.deep_view(), "unknown sender"@)
        } else {
            trimmed(subject@)
        },
        None => "Email from "@ + text_or(message.from_addr.deep_view(), "unknown sender"@),
    }
}

pub fn item_title(message: &InboundMessageRecord) -> (r: String)
    ensures
        r@ == title_of(*message),
{
    if let Some(subject) = &message.subject {
        let text: &str = subject.as_str().trim();
        if !text.is_empty() {
            return text.to_owned();
        }
    }
    let sender: &str = match &message.from_addr {
        Some(from) => from.as_str(),
        None => "unknown sender",
    };
    "Email from ".to_owned().concat(sender)
}

/// The summary of a message's item: its sender, where known, and the start of its
/// excerpt.
pub open spec fn summary_of_message(message: InboundMessageRecord) -> Seq<char> {
    (match message.from_addr {
        Some(from) => "From "@ + from@ + " — "@,
        None => Seq::<char>::empty(),
    }) + head(message.body_excerpt@, SUMMARY_MAX_CHARS as nat)
}

pub fn item_summary(message: &InboundMessageRecord) -> (r: String)
    ensures
        r@ == summary_of_message(*message),
{
    let mut summary: String = match &message.from_addr {
        Some(from) => "From ".to_owned().concat(from.as_str()).concat(" — "),
        None => String::new(),
    };
    summary.append(text_head(message.body_excerpt.as_str(), SUMMARY_MAX_CHARS));
    summary
}

/// The key of a set of users: their ids in case-blind order, each once.
pub open spec fn visibility_key(user_ids: Seq<Seq<char>>) -> Seq<char> {
    joined(runs_collapsed(case_blind_sorted(filled(user_ids))), ","@)
}

pub fn stable_visibility_key(user_ids: &Vec<String>) -> (r: String)
    ensures
        r@ == visibility_key(user_ids.deep_view()),
{
    let sorted: Vec<String> = sort_case_blind(filled_texts(user_ids));
    join(&collapse_runs(sorted), ",")
}

/// A kind that waits while an input wants less attention.
pub open spec fn is_deferred_kind(kind: Seq<char>) -> bool {
    kind == "follow_up_task"@ || kind == "calendar_event_draft"@
}

/// The kinds that do not wait.
pub open spec fn without_deferred(kinds: Seq<Seq<char>>) -> Seq<Seq<char>>
    decreases kinds.len(),
{
    if kinds.len() == 0 {
        kinds
    } else if is_deferred_kind(kinds.last()) {
        without_deferred(kinds.drop_last())
    } else {
        without_deferred(kinds.drop_last()).push(kinds.last())
    }
}

/// The kinds that an input's attention leaves: lower attention defers some, and
/// every other leaves them all.
pub open spec fn gated_kinds(kinds: Seq<Seq<char>>, attention: Option<AttentionLevel>) -> Seq<
    Seq<char>,
> {
    if attention == Some(AttentionLevel::Lower) {
        without_deferred(kinds)
    } else {
        kinds
    }
}

/// The level of a signal, where there is one.
pub open spec fn signal_level(signal: Option<AttentionSignal>) -> Option<AttentionLevel> {
    match signal {
        Some(s) => Some(s.level),
        None => None,
    }
}

pub fn gate_packet_kinds_for_attention(kinds: Vec<String>, attention: &Option<AttentionSignal>) -> (r:
    Vec<String>)
    ensures
        r.deep_view() == gated_kinds(kinds.deep_view(), signal_level(*attention)),
{
    let lower: bool = match attention {
        Some(signal) => signal.level == AttentionLevel::Lower,
        None => false,
    };
    if !lower {
        return kinds;
    }
    let ghost all = kinds.deep_view();
    let mut out: Vec<String> = Vec::new();
    proof {
        assert(out.deep_view() =~= all.take(0));
    }
    for kind in it: kinds
        invariant
            it.seq().len() == all.len(),
            forall|i: int| 0 <= i < all.len() ==> (#[trigger] it.seq()[i])@ == all[i],
            out.deep_view() == without_deferred(all.take(it.index())),
    {
        let ghost before = out.deep_view();
        let ghost said = kind@;
        proof {
            let n = it.index();
            assert(all.take(n + 1).drop_last() =~= all.take(n));
            assert(all.take(n + 1).last() == all[n]);
        }
        if !(same_text(kind.as_str(), "follow_up_task") || same_text(
            kind.as_str(),
            "calendar_event_draft",
        )) {
            out.push(kind);
            proof {
                assert(out.deep_view() =~= before.push(said));
            }
        }
    }
    proof {
        assert(all.take(all.len() as int) =~= all);
    }
    out
}

/// The ids of a request: trimmed, each where it came first, blank ones left out.
pub fn dedupe_ids(ids: &Vec<String>) -> (r: Vec<String>)
    ensures
        r.deep_view() == unique_ids(ids.deep_view()),
{
    distinct_ids(ids)
}

/// One line for each staged file.
pub open spec fn staged_lines(paths: Seq<Seq<char>>) -> Seq<char>
    decreases paths.len(),
{
    if paths.len() == 0 {
        Seq::<char>::empty()
    } else {
        staged_lines(paths.drop_last()) + "- "@ + paths.last() + "\n"@
    }
}

/// A launch context with the staged files listed behind it.
pub open spec fn context_with_files(context: Seq<char>, paths: Seq<Seq<char>>) -> Seq<char> {
    if paths.len() == 0 {
        context
    } else {
        trimmed(context) + (if is_blank(context) {
            Seq::<char>::empty()
        } else {
            "\n\n"@
        }) + "--- Staged attachment files ---\n"@ + staged_lines(paths)
    }
}

pub fn context_with_staged_evidence(context: &str, paths: &Vec<String>) -> (r: String)
    ensures
        r@ == context_with_files(context@, paths.deep_view()),
{
    if paths.len() == 0 {
        return context.to_owned();
    }
    let text: &str = context.trim();
    let gap: &str = if text.is_empty() {
        ""
    } else {
        "\n\n"
    };
    proof {
        reveal_strlit("");
        assert(""@ =~= Seq::<char>::empty());
    }
    let mut lines: String = String::new();
    let ghost all = paths.deep_view();
    let mut i: usize = 0;
    while i < paths.len()
        invariant
            i <= paths.len(),
            all == paths.deep_view(),
            lines@ == staged_lines(all.take(i as int)),
        decreases paths.len() - i,
    {
        lines.append("- ");
        lines.append(paths[i].as_str());
        lines.append("\n");
        proof {
            assert(all.take(i + 1).drop_last() =~= all.take(i as int));
            assert(all.take(i + 1).last() == paths[i as int]@);
        }
        i += 1;
    }
    proof {
        assert(all.take(i as int) =~= all);
    }
    text.to_owned().concat(gap).concat("--- Staged attachment files ---\n").concat(lines.as_str())
}

/// What a launch starts with.
#[derive(Debug, Clone, PartialEq, Eq)]
pub struct AgentLaunchDefaults {
    pub context: String,
    pub work_dir: String,
}

/// A category's default context and directory; empty where there is no category.
pub open spec fn category_defaults(category: Option<CategoryRecord>) -> (Seq<char>, Seq<char>) {
    match category {
        Some(c) => (c.default_agent_context@, c.default_agent_dir@),
        None => (Seq::<char>::empty(), Seq::<char>::empty()),
    }
}

pub fn resolve_agent_launch_defaults(
    category: Option<&CategoryRecord>,
    request: &LaunchAgentRequest,
) -> (r: AgentLaunchDefaults)
    ensures
        ({
            let defaults = category_defaults(
                match category {
                    Some(c) => Some(*c),
                    None => None,
                },
            );
            &&& r.context@ == combined_context(defaults.0, request.context@)
            &&& r.work_dir@ == work_dir_of(
                chosen_work_dir(request.work_dir.deep_view(), defaults.1),
            )
        }),
{
    proof {
        reveal_strlit("");
        assert(""@ =~= Seq::<char>::empty());
    }
    let category_context: &str = match category {
        Some(c) => c.default_agent_context.as_str(),
        None => "",
    };
    let category_work_dir: &str = match category {
        Some(c) => c.default_agent_dir.as_str(),
        None => "",
    };
    let request_work_dir: Option<&str> = match &request.work_dir {
        Some(dir) => Some(dir.as_str()),
        None => None,
    };
    AgentLaunchDefaults {
        context: combine_context(category_context, request.context.as_str()),
        work_dir: effective_work_dir(
            resolve_work_dir(request_work_dir, category_work_dir),
        ).to_owned(),
    }
}

/// Why an item's source cannot be shown.
#[derive(Debug)]
pub enum ItemSourceError {
    ItemNotFound,
    SourceMissing,
    SourceUnsupported,
    Store(StoreError),
}

/// Why an item's source does not resolve.
#[derive(Debug)]
pub enum SourceError {
    Unsupported,
    Store(StoreError),
}

/// `r` is the answer for an item whose source resolved to this message, where
/// `html` is what was kept of its HTML body.
pub open spec fn shows_message(
    item: WorkItem,
    message: InboundMessageRecord,
    html: Result<Option<String>, StoreError>,
    r: Result<WorkItemSourceResponse, ItemSourceError>,
) -> bool {
    match html {
        Ok(html) => {
            &&& r is Ok
            &&& r->Ok_0.source_kind == item.source_kind
            &&& r->Ok_0.message == message
            &&& (r->Ok_0.source_body@, r->Ok_0.source_body_format) == shown_body(
                html.deep_view(),
                message,
            )
        },
        Err(err) => r == Err::<WorkItemSourceResponse, _>(ItemSourceError::Store(err)),
    }
}

/// The full source behind a work item, through the same resolution the produce
/// stage uses: the operator peeks at exactly what the LLM would see. `item` is the
/// item in the operator's scope, `resolve` its source's message and `read_html`
/// the HTML body that was kept of a message.
pub fn item_source<R, H>(item: Result<Option<WorkItem>, StoreError>, resolve: R, read_html: H) -> (r:
    Result<WorkItemSourceResponse, ItemSourceError>) where
    R: FnOnce(&WorkItem) -> Result<Option<InboundMessageRecord>, SourceError>,
    H: FnOnce(&InboundMessageRecord) -> Result<Option<String>, StoreError>,

    requires
        forall|i: &WorkItem| #[trigger] call_requires(resolve, (i,)),
        forall|m: &InboundMessageRecord| #[trigger] call_requires(read_html, (m,)),
    ensures
        match item {
            Err(err) => r == Err::<WorkItemSourceResponse, _>(ItemSourceError::Store(err)),
            Ok(None) => r == Err::<WorkItemSourceResponse, _>(ItemSourceError::ItemNotFound),
            Ok(Some(found)) => exists|resolved: Result<Option<InboundMessageRecord>, SourceError>|
                #[trigger] call_ensures(resolve, (&found,), resolved) && (match resolved {
                    Err(SourceError::Unsupported) => r == Err::<WorkItemSourceResponse, _>(
                        ItemSourceError::SourceUnsupported,
                    ),
                    Err(SourceError::Store(err)) => r == Err::<WorkItemSourceResponse, _>(
                        ItemSourceError::Store(err),
                    ),
                    Ok(None) => r == Err::<WorkItemSourceResponse, _>(
                        ItemSourceError::SourceMissing,
                    ),
                    Ok(Some(message)) => exists|html: Result<Option<String>, StoreError>|
                        #[trigger] call_ensures(read_html, (&message,), html) && shows_message(
                            found,
                            message,
                            html,
                            r,
                        ),
                }),
        },
{
    let found: WorkItem = match item {
        Err(err) => return Err(ItemSourceError::Store(err)),
        Ok(None) => return Err(ItemSourceError::ItemNotFound),
        Ok(Some(found)) => found,
    };
    match resolve(&found) {
        Err(SourceError::Unsupported) => Err(ItemSourceError::SourceUnsupported),
        Err(SourceError::Store(err)) => Err(ItemSourceError::Store(err)),
        Ok(None) => Err(ItemSourceError::SourceMissing),
        Ok(Some(message)) => match read_html(&message) {
            Err(err) => Err(ItemSourceError::Store(err)),
            Ok(html) => {
                let (source_body, source_body_format) = source_body_for_display(html, &message);
                Ok(
                    WorkItemSourceResponse {
                        source_kind: found.source_kind,
                        source_body,
                        source_body_format,
                        message,
                    },
                )
            },
        },
    }
}

} // verus!
