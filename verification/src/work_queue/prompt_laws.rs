//! What an agent session is told, and what opens it.

use vstd::prelude::*;

use crate::contracts::email_triage::{CategoryRecord, EmailAttachmentRecord};
use crate::contracts::work_queue::WorkItemSourceResponse;
use crate::json::{member, object_of, quoted};
use crate::outbox::AttemptView;
use crate::store_core::StoreError;
use crate::text::{
    contains_at, decimal, has_text, is_blank, joined, trimmed, without_leading, without_trailing,
};
use super::agent_launch::{
    attachment_line, attachment_lines, chosen_work_dir, combined_context, delivery_of, launch_job,
    message_body, monitor_error_code, opened_session, payload_json, prompt, prompt_attachments,
    prompt_header, prompt_mcp, prompt_message, prompt_notes, prompt_thread_check, session_request,
    work_dir_of, LaunchResponseView, MonitorError, ReplyView,
};
use super::launch::{
    after_preparation, after_source, first_step, launched, without_slashes, FoundView,
    LaunchAgentError, LaunchContext, LaunchStepView, PreparedView,
};
use super::model::ItemView;
use super::service::{context_with_files, staged_lines};

verus! {

/// A text stands in what is written round it.
pub proof fn stands_between(before: Seq<char>, text: Seq<char>, after: Seq<char>)
    ensures
        has_text(before + text + after, text),
        has_text(before + (text + after), text),
{
    let whole = before + text + after;
    assert(whole.subrange(before.len() as int, (before.len() + text.len()) as int) =~= text);
    assert(contains_at(whole, text, before.len() as int));
    assert(whole =~= before + (text + after));
}

/// What stands in a part stands in the whole.
pub proof fn stands_in_the_whole(
    before: Seq<char>,
    part: Seq<char>,
    after: Seq<char>,
    text: Seq<char>,
)
    requires
        has_text(part, text),
    ensures
        has_text(before + part + after, text),
{
    let at = choose|at: int| #[trigger] contains_at(part, text, at);
    let whole = before + part + after;
    assert(whole.subrange(before.len() + at, before.len() + at + text.len()) =~= part.subrange(
        at,
        at + text.len(),
    ));
    assert(contains_at(whole, text, before.len() + at));
}

/// What stands in a text that stands in another stands in that one too.
pub proof fn stands_within(whole: Seq<char>, part: Seq<char>, text: Seq<char>)
    requires
        has_text(whole, part),
        has_text(part, text),
    ensures
        has_text(whole, text),
{
    let at = choose|at: int| #[trigger] contains_at(whole, part, at);
    let before = whole.take(at);
    let after = whole.skip(at + part.len());
    assert(whole =~= before + part + after) by {
        assert(whole.subrange(at, at + part.len()) == part);
    }
    stands_in_the_whole(before, part, after, text);
}

/// Every part of a joined text stands in it.
pub proof fn parts_stand_in_the_joined(parts: Seq<Seq<char>>, sep: Seq<char>, i: int)
    requires
        0 <= i < parts.len(),
    ensures
        has_text(joined(parts, sep), parts[i]),
    decreases parts.len(),
{
    let all = joined(parts, sep);
    if parts.len() == 1 {
        stands_between(Seq::empty(), parts[0], Seq::empty());
        assert(Seq::<char>::empty() + parts[0] + Seq::<char>::empty() =~= parts[0]);
    } else if i == parts.len() - 1 {
        stands_between(joined(parts.drop_last(), sep) + sep, parts[i], Seq::empty());
        assert(joined(parts.drop_last(), sep) + sep + parts[i] + Seq::<char>::empty() =~= all);
    } else {
        parts_stand_in_the_joined(parts.drop_last(), sep, i);
        assert(parts.drop_last()[i] == parts[i]);
        stands_in_the_whole(
            Seq::empty(),
            joined(parts.drop_last(), sep),
            sep + parts.last(),
            parts[i],
        );
        assert(Seq::<char>::empty() + joined(parts.drop_last(), sep) + (sep + parts.last())
            =~= all);
    }
}

/// A member that an object is made of stands in its text.
pub proof fn members_stand_in_the_object(members: Seq<Seq<char>>, i: int)
    requires
        0 <= i < members.len(),
    ensures
        has_text(object_of(members), members[i]),
{
    parts_stand_in_the_joined(members, seq![','], i);
    stands_in_the_whole(seq!['{'], joined(members, seq![',']), seq!['}'], members[i]);
}

spec fn prompt_source(source: Option<WorkItemSourceResponse>, source_kind: Seq<char>) -> Seq<char> {
    match source {
        Some(s) => prompt_message(s.message) + prompt_attachments(s.message) + prompt_thread_check(
            source_kind,
        ),
        None => Seq::<char>::empty(),
    }
}

proof fn sections_stand_in_the_prompt(
    client_id: Seq<char>,
    item: ItemView,
    source: Option<WorkItemSourceResponse>,
    operator_context: Seq<char>,
    work_dir: Seq<char>,
    mcp_server_url: Option<Seq<char>>,
)
    ensures
        ({
            let p = prompt(client_id, item, source, operator_context, work_dir, mcp_server_url);
            &&& prompt_header(client_id, item, work_dir).is_prefix_of(p)
            &&& has_text(p, prompt_header(client_id, item, work_dir))
            &&& has_text(p, prompt_notes(operator_context))
            &&& has_text(p, prompt_mcp(mcp_server_url))
            &&& source is Some ==> {
                &&& has_text(p, prompt_message(source->Some_0.message))
                &&& has_text(p, prompt_attachments(source->Some_0.message))
                &&& has_text(p, prompt_thread_check(item.source_kind))
            }
        }),
{
    let p = prompt(client_id, item, source, operator_context, work_dir, mcp_server_url);
    let header = prompt_header(client_id, item, work_dir);
    let middle = prompt_source(source, item.source_kind);
    let notes = prompt_notes(operator_context);
    let mcp = prompt_mcp(mcp_server_url);
    let end =
        "\nAct on this work item. Use the repo instructions, preserve receipts/outbox invariants, and report what you changed and verified."@;
    assert(p == header + middle + notes + mcp + end);
    assert(p =~= Seq::<char>::empty() + header + (middle + notes + mcp + end));
    stands_between(Seq::empty(), header, middle + notes + mcp + end);
    assert(p =~= (header + middle) + notes + (mcp + end));
    stands_between(header + middle, notes, mcp + end);
    stands_between(header + middle + notes, mcp, end);
    if let Some(s) = source {
        let message = prompt_message(s.message);
        let attachments = prompt_attachments(s.message);
        let check = prompt_thread_check(item.source_kind);
        assert(p =~= header + message + (attachments + check + notes + mcp + end));
        stands_between(header, message, attachments + check + notes + mcp + end);
        assert(p =~= (header + message) + attachments + (check + notes + mcp + end));
        stands_between(header + message, attachments, check + notes + mcp + end);
        assert(p =~= (header + message + attachments) + check + (notes + mcp + end));
        stands_between(header + message + attachments, check, notes + mcp + end);
    }
}

/// Where the source resolves, the prompt quotes it: who wrote, on what, and behind
/// the heading the trimmed full body, or the trimmed excerpt where that is blank.
pub proof fn prompts_quote_the_source_message(
    client_id: Seq<char>,
    item: ItemView,
    source: WorkItemSourceResponse,
    operator_context: Seq<char>,
    work_dir: Seq<char>,
    mcp_server_url: Option<Seq<char>>,
)
    ensures
        ({
            let p = prompt(
                client_id,
                item,
                Some(source),
                operator_context,
                work_dir,
                mcp_server_url,
            );
            let message = source.message;
            let from = match message.from_addr {
                Some(from) => from@,
                None => "-"@,
            };
            let subject = match message.subject {
                Some(subject) => subject@,
                None => "-"@,
            };
            let body = if trimmed(message.body_full@).len() > 0 {
                trimmed(message.body_full@)
            } else {
                trimmed(message.body_excerpt@)
            };
            &&& has_text(
                p,
                "From: "@ + from + "\nSubject: "@ + subject + "\n--- Source message ---\n"@ + body
                    + "\n"@,
            )
            &&& has_text(p, from)
            &&& has_text(p, subject)
            &&& has_text(p, body)
        }),
{
    sections_stand_in_the_prompt(
        client_id,
        item,
        Some(source),
        operator_context,
        work_dir,
        mcp_server_url,
    );
    let p = prompt(client_id, item, Some(source), operator_context, work_dir, mcp_server_url);
    let message = source.message;
    let from = match message.from_addr {
        Some(from) => from@,
        None => "-"@,
    };
    let subject = match message.subject {
        Some(subject) => subject@,
        None => "-"@,
    };
    let body = trimmed(message_body(message));
    let part = "From: "@ + from + "\nSubject: "@ + subject + "\n--- Source message ---\n"@ + body
        + "\n"@;
    assert(part == prompt_message(message));
    assert(part =~= "From: "@ + from + ("\nSubject: "@ + subject + "\n--- Source message ---\n"@
        + body + "\n"@));
    stands_between(
        "From: "@,
        from,
        "\nSubject: "@ + subject + "\n--- Source message ---\n"@ + body + "\n"@,
    );
    assert(part =~= ("From: "@ + from + "\nSubject: "@) + subject + (
    "\n--- Source message ---\n"@ + body + "\n"@));
    stands_between(
        "From: "@ + from + "\nSubject: "@,
        subject,
        "\n--- Source message ---\n"@ + body + "\n"@,
    );
    stands_between(
        "From: "@ + from + "\nSubject: "@ + subject + "\n--- Source message ---\n"@,
        body,
        "\n"@,
    );
    stands_within(p, part, from);
    stands_within(p, part, subject);
    stands_within(p, part, body);
}

proof fn attachment_lines_hold_each(attachments: Seq<EmailAttachmentRecord>, i: int)
    requires
        0 <= i < attachments.len(),
    ensures
        has_text(attachment_lines(attachments), attachment_line(attachments[i])),
    decreases attachments.len(),
{
    let front = attachments.drop_last();
    let all = attachment_lines(attachments);
    if i == attachments.len() - 1 {
        stands_between(attachment_lines(front), attachment_line(attachments[i]), Seq::empty());
        assert(all =~= attachment_lines(front) + attachment_line(attachments[i])
            + Seq::<char>::empty());
    } else {
        attachment_lines_hold_each(front, i);
        assert(front[i] == attachments[i]);
        stands_in_the_whole(
            Seq::empty(),
            attachment_lines(front),
            attachment_line(attachments.last()),
            attachment_line(attachments[i]),
        );
        assert(all =~= Seq::<char>::empty() + attachment_lines(front) + attachment_line(
            attachments.last(),
        ));
    }
}

/// Every attachment of the source is listed in the prompt under its id, with its
/// name, its type and its size where they are known, and the prompt says where it is
/// staged.
pub proof fn prompts_list_every_attachment(
    client_id: Seq<char>,
    item: ItemView,
    source: WorkItemSourceResponse,
    operator_context: Seq<char>,
    work_dir: Seq<char>,
    mcp_server_url: Option<Seq<char>>,
    i: int,
)
    requires
        0 <= i < source.message.attachments@.len(),
    ensures
        ({
            let p = prompt(
                client_id,
                item,
                Some(source),
                operator_context,
                work_dir,
                mcp_server_url,
            );
            let attachment = source.message.attachments@[i];
            &&& has_text(p, "attachment_id="@ + attachment.attachment_id@)
            &&& has_text(p, attachment.filename@)
            &&& attachment.mime_type is Some ==> has_text(p, attachment.mime_type->Some_0@)
            &&& attachment.size_bytes is Some ==> has_text(
                p,
                decimal(attachment.size_bytes->Some_0 as nat) + " bytes"@,
            )
            &&& has_text(
                p,
                "POST /api/email-triage/inbox/"@ + source.message.source_key@ + "/attachments/"@,
            )
        }),
{
    sections_stand_in_the_prompt(
        client_id,
        item,
        Some(source),
        operator_context,
        work_dir,
        mcp_server_url,
    );
    let p = prompt(client_id, item, Some(source), operator_context, work_dir, mcp_server_url);
    let message = source.message;
    let all = message.attachments@;
    let attachment = all[i];
    let part = prompt_attachments(message);
    let lines = attachment_lines(all);
    let line = attachment_line(attachment);
    let head = "\n--- Source attachments ---\n"@;
    let how =
        "To inspect an attachment, stage it through BusinessOS: POST /api/email-triage/inbox/"@;
    let rest =
        "/attachments/<attachment_id>/evidence with this agent session id, then read the returned local evidence path.\n"@;
    assert(part == head + lines + how + message.source_key@ + rest);
    assert(part =~= head + lines + (how + message.source_key@ + rest));
    attachment_lines_hold_each(all, i);
    stands_in_the_whole(head, lines, how + message.source_key@ + rest, line);
    stands_within(p, part, line);
    line_names_the_attachment(attachment);
    stands_within(p, line, "attachment_id="@ + attachment.attachment_id@);
    stands_within(p, line, attachment.filename@);
    if attachment.mime_type is Some {
        stands_within(p, line, attachment.mime_type->Some_0@);
    }
    if attachment.size_bytes is Some {
        stands_within(p, line, decimal(attachment.size_bytes->Some_0 as nat) + " bytes"@);
    }
    let route = "POST /api/email-triage/inbox/"@ + message.source_key@ + "/attachments/"@;
    route_is_named(head + lines, message.source_key@);
    stands_within(p, part, route);
}

proof fn line_names_the_attachment(attachment: EmailAttachmentRecord)
    ensures
        has_text(
            attachment_line(attachment),
            "attachment_id="@ + attachment.attachment_id@,
        ),
        has_text(attachment_line(attachment), attachment.filename@),
        attachment.mime_type is Some ==> has_text(
            attachment_line(attachment),
            attachment.mime_type->Some_0@,
        ),
        attachment.size_bytes is Some ==> has_text(
            attachment_line(attachment),
            decimal(attachment.size_bytes->Some_0 as nat) + " bytes"@,
        ),
{
    let mime = match attachment.mime_type {
        Some(text) => text@,
        None => "unknown mime"@,
    };
    let size = match attachment.size_bytes {
        Some(bytes) => decimal(bytes as nat) + " bytes"@,
        None => "unknown size"@,
    };
    let id = attachment.attachment_id@;
    let named = "attachment_id="@ + id;
    let s1 = "- "@ + attachment.filename@;
    let s2 = s1 + " ("@;
    let s3 = s2 + mime;
    let s4 = s3 + ", "@;
    let s5 = s4 + size;
    let s6 = s5 + "; attachment_id="@;
    let s7 = s6 + id;
    let line = s7 + ")\n"@;
    assert(line == attachment_line(attachment));
    last_stands("- "@, attachment.filename@);
    grows(s1, " ("@, attachment.filename@);
    grows(s2, mime, attachment.filename@);
    grows(s3, ", "@, attachment.filename@);
    grows(s4, size, attachment.filename@);
    grows(s5, "; attachment_id="@, attachment.filename@);
    grows(s6, id, attachment.filename@);
    grows(s7, ")\n"@, attachment.filename@);
    last_stands(s2, mime);
    grows(s3, ", "@, mime);
    grows(s4, size, mime);
    grows(s5, "; attachment_id="@, mime);
    grows(s6, id, mime);
    grows(s7, ")\n"@, mime);
    last_stands(s4, size);
    grows(s5, "; attachment_id="@, size);
    grows(s6, id, size);
    grows(s7, ")\n"@, size);
    assert(has_text(s7, named)) by {
        reveal_strlit("; attachment_id=");
        reveal_strlit("attachment_id=");
        reveal_strlit("; ");
        assert("; attachment_id="@ =~= "; "@ + "attachment_id="@);
        assert(s7 =~= (s5 + "; "@) + named);
        last_stands(s5 + "; "@, named);
    }
    grows(s7, ")\n"@, named);
}

proof fn route_is_named(before: Seq<char>, source_key: Seq<char>)
    ensures
        has_text(
            before
                + "To inspect an attachment, stage it through BusinessOS: POST /api/email-triage/inbox/"@
                + source_key
                + "/attachments/<attachment_id>/evidence with this agent session id, then read the returned local evidence path.\n"@,
            "POST /api/email-triage/inbox/"@ + source_key + "/attachments/"@,
        ),
{
    let how =
        "To inspect an attachment, stage it through BusinessOS: POST /api/email-triage/inbox/"@;
    let rest =
        "/attachments/<attachment_id>/evidence with this agent session id, then read the returned local evidence path.\n"@;
    let lead = "To inspect an attachment, stage it through BusinessOS: "@;
    let close =
        "<attachment_id>/evidence with this agent session id, then read the returned local evidence path.\n"@;
    let post = "POST /api/email-triage/inbox/"@;
    let under = "/attachments/"@;
    assert(how =~= lead + post) by {
        reveal_strlit(
            "To inspect an attachment, stage it through BusinessOS: POST /api/email-triage/inbox/",
        );
        reveal_strlit("To inspect an attachment, stage it through BusinessOS: ");
        reveal_strlit("POST /api/email-triage/inbox/");
    }
    assert(rest =~= under + close) by {
        reveal_strlit(
            "/attachments/<attachment_id>/evidence with this agent session id, then read the returned local evidence path.\n",
        );
        reveal_strlit("/attachments/");
        reveal_strlit(
            "<attachment_id>/evidence with this agent session id, then read the returned local evidence path.\n",
        );
    }
    let route = post + source_key + under;
    assert(before + how + source_key + rest =~= (before + lead) + route + close);
    stands_between(before + lead, route, close);
}

proof fn grows(s: Seq<char>, more: Seq<char>, text: Seq<char>)
    requires
        has_text(s, text),
    ensures
        has_text(s + more, text),
{
    stands_in_the_whole(Seq::empty(), s, more, text);
    assert(Seq::<char>::empty() + s + more =~= s + more);
}

proof fn last_stands(s: Seq<char>, text: Seq<char>)
    ensures
        has_text(s + text, text),
{
    stands_between(s, text, Seq::empty());
    assert(s + text + Seq::<char>::empty() =~= s + text);
}

proof fn all_grow(s: Seq<char>, more: Seq<char>, facts: Seq<Seq<char>>)
    requires
        forall|i: int| 0 <= i < facts.len() ==> has_text(s, #[trigger] facts[i]),
    ensures
        forall|i: int| 0 <= i < facts.len() ==> has_text(s + more, #[trigger] facts[i]),
{
    assert forall|i: int| 0 <= i < facts.len() implies has_text(s + more, #[trigger] facts[i]) by {
        grows(s, more, facts[i]);
    }
}

/// A line of a header, and the start of the next one, added to what stands.
proof fn fact_is_added(s: Seq<char>, label: Seq<char>, value: Seq<char>, next: Seq<char>)
    requires
        next.len() > 0,
        next[0] == '\n',
    ensures
        has_text(s + label + value + next, label + value + "\n"@),
{
    reveal_strlit("\n");
    let line = label + value + "\n"@;
    assert(s + label + value + next =~= s + line + next.drop_first());
    stands_between(s, line, next.drop_first());
}

/// The prompt opens with the facts of the item: its client, its id, its category, its
/// title, its summary, every kind it suggests, its source's kind and the directory.
pub proof fn prompts_state_the_items_facts(
    client_id: Seq<char>,
    item: ItemView,
    source: Option<WorkItemSourceResponse>,
    operator_context: Seq<char>,
    work_dir: Seq<char>,
    mcp_server_url: Option<Seq<char>>,
)
    ensures
        ({
            let p = prompt(client_id, item, source, operator_context, work_dir, mcp_server_url);
            &&& has_text(p, "\nClient: "@ + client_id + "\n"@)
            &&& has_text(p, "\nWork item: "@ + item.item_id + "\n"@)
            &&& has_text(p, "\nCategory: "@ + item.category_id + "\n"@)
            &&& has_text(p, "\nTitle: "@ + item.title + "\n"@)
            &&& has_text(p, "\nSummary: "@ + item.summary + "\n"@)
            &&& has_text(p, "\nSource kind: "@ + item.source_kind + "\n"@)
            &&& !is_blank(work_dir) ==> has_text(p, "\nWorkdir: "@ + trimmed(work_dir) + "\n"@)
            &&& forall|i: int|
                0 <= i < item.packet_kinds.len() ==> has_text(p, #[trigger] item.packet_kinds[i])
        }),
{
    sections_stand_in_the_prompt(
        client_id,
        item,
        source,
        operator_context,
        work_dir,
        mcp_server_url,
    );
    let p = prompt(client_id, item, source, operator_context, work_dir, mcp_server_url);
    let h = prompt_header(client_id, item, work_dir);
    header_states_the_facts(client_id, item, work_dir);
    stands_within(p, h, "\nClient: "@ + client_id + "\n"@);
    stands_within(p, h, "\nWork item: "@ + item.item_id + "\n"@);
    stands_within(p, h, "\nCategory: "@ + item.category_id + "\n"@);
    stands_within(p, h, "\nTitle: "@ + item.title + "\n"@);
    stands_within(p, h, "\nSummary: "@ + item.summary + "\n"@);
    stands_within(p, h, "\nSource kind: "@ + item.source_kind + "\n"@);
    stands_within(p, h, "\nWorkdir: "@ + work_dir_of(work_dir) + "\n"@);
    assert forall|i: int| 0 <= i < item.packet_kinds.len() implies has_text(
        p,
        #[trigger] item.packet_kinds[i],
    ) by {
        stands_within(p, h, item.packet_kinds[i]);
    }
}

proof fn header_states_the_facts(client_id: Seq<char>, item: ItemView, work_dir: Seq<char>)
    ensures
        ({
            let h = prompt_header(client_id, item, work_dir);
            &&& has_text(h, "\nWorkdir: "@ + work_dir_of(work_dir) + "\n"@)
            &&& has_text(h, "\nClient: "@ + client_id + "\n"@)
            &&& has_text(h, "\nWork item: "@ + item.item_id + "\n"@)
            &&& has_text(h, "\nCategory: "@ + item.category_id + "\n"@)
            &&& has_text(h, "\nTitle: "@ + item.title + "\n"@)
            &&& has_text(h, "\nSummary: "@ + item.summary + "\n"@)
            &&& has_text(h, "\nSource kind: "@ + item.source_kind + "\n"@)
            &&& forall|i: int|
                0 <= i < item.packet_kinds.len() ==> has_text(h, #[trigger] item.packet_kinds[i])
        }),
{
    let kinds = if item.packet_kinds.len() == 0 {
        "-"@
    } else {
        joined(item.packet_kinds, ", "@)
    };
    let dir = work_dir_of(work_dir);
    let open = "Agent session: BusinessOS work item"@;
    let w = "\nWorkdir: "@;
    let l1 = "\nClient: "@;
    let l2 = "\nWork item: "@;
    let l3 = "\nCategory: "@;
    let l4 = "\nTitle: "@;
    let l5 = "\nSummary: "@;
    let l6 = "\nSuggested outputs: "@;
    let l7 = "\nSource kind: "@;
    let nl = "\n"@;
    assert("Agent session: BusinessOS work item\nWorkdir: "@ =~= open + w) by {
        reveal_strlit("Agent session: BusinessOS work item\nWorkdir: ");
        reveal_strlit("Agent session: BusinessOS work item");
        reveal_strlit("\nWorkdir: ");
    }
    assert(l1.len() > 0 && l1[0] == '\n') by {
        reveal_strlit("\nClient: ");
    }
    assert(l2.len() > 0 && l2[0] == '\n') by {
        reveal_strlit("\nWork item: ");
    }
    assert(l3.len() > 0 && l3[0] == '\n') by {
        reveal_strlit("\nCategory: ");
    }
    assert(l4.len() > 0 && l4[0] == '\n') by {
        reveal_strlit("\nTitle: ");
    }
    assert(l5.len() > 0 && l5[0] == '\n') by {
        reveal_strlit("\nSummary: ");
    }
    assert(l6.len() > 0 && l6[0] == '\n') by {
        reveal_strlit("\nSuggested outputs: ");
    }
    assert(l7.len() > 0 && l7[0] == '\n') by {
        reveal_strlit("\nSource kind: ");
    }
    assert(nl.len() > 0 && nl[0] == '\n') by {
        reveal_strlit("\n");
    }
    let f0 = w + dir + nl;
    let f1 = l1 + client_id + nl;
    let f2 = l2 + item.item_id + nl;
    let f3 = l3 + item.category_id + nl;
    let f4 = l4 + item.title + nl;
    let f5 = l5 + item.summary + nl;
    let s0 = open + w + dir;
    let s1 = s0 + l1 + client_id;
    let s2 = s1 + l2 + item.item_id;
    let s3 = s2 + l3 + item.category_id;
    let s4 = s3 + l4 + item.title;
    let s5 = s4 + l5 + item.summary;
    let s6 = s5 + l6 + kinds;
    let s7 = s6 + l7 + item.source_kind;
    assert(s7 + nl == prompt_header(client_id, item, work_dir));
    fact_is_added(open, w, dir, l1);
    added(s0 + l1, Seq::empty(), f0);
    let g0 = Seq::<Seq<char>>::empty().push(f0);
    all_grow(s0 + l1, client_id, g0);
    all_grow(s1, l2, g0);
    fact_is_added(s0, l1, client_id, l2);
    added(s1 + l2, g0, f1);
    let g1 = g0.push(f1);
    all_grow(s1 + l2, item.item_id, g1);
    all_grow(s2, l3, g1);
    fact_is_added(s1, l2, item.item_id, l3);
    added(s2 + l3, g1, f2);
    let g2 = g1.push(f2);
    all_grow(s2 + l3, item.category_id, g2);
    all_grow(s3, l4, g2);
    fact_is_added(s2, l3, item.category_id, l4);
    added(s3 + l4, g2, f3);
    let g3 = g2.push(f3);
    all_grow(s3 + l4, item.title, g3);
    all_grow(s4, l5, g3);
    fact_is_added(s3, l4, item.title, l5);
    added(s4 + l5, g3, f4);
    let g4 = g3.push(f4);
    all_grow(s4 + l5, item.summary, g4);
    all_grow(s5, l6, g4);
    fact_is_added(s4, l5, item.summary, l6);
    added(s5 + l6, g4, f5);
    let g5 = g4.push(f5);
    all_grow(s5 + l6, kinds, g5);
    all_grow(s6, l7, g5);
    all_grow(s6 + l7, item.source_kind, g5);
    all_grow(s7, nl, g5);
    fact_is_added(s6, l7, item.source_kind, nl);
    assert(g5[0] == f0 && g5[1] == f1 && g5[2] == f2 && g5[3] == f3 && g5[4] == f4 && g5[5] == f5);
    assert forall|i: int| 0 <= i < item.packet_kinds.len() implies has_text(
        s7 + nl,
        #[trigger] item.packet_kinds[i],
    ) by {
        let kind = item.packet_kinds[i];
        parts_stand_in_the_joined(item.packet_kinds, ", "@, i);
        last_stands(s5 + l6, kinds);
        stands_within(s6, kinds, kind);
        grows(s6, l7, kind);
        grows(s6 + l7, item.source_kind, kind);
        grows(s7, nl, kind);
    }
}

proof fn added(s: Seq<char>, facts: Seq<Seq<char>>, fact: Seq<char>)
    requires
        forall|i: int| 0 <= i < facts.len() ==> has_text(s, #[trigger] facts[i]),
        has_text(s, fact),
    ensures
        forall|i: int|
            0 <= i < facts.push(fact).len() ==> has_text(s, #[trigger] facts.push(fact)[i]),
{
}

/// The operator's notes stand in the prompt, trimmed, behind their heading; where
/// there are none it says so.
pub proof fn prompts_carry_the_operators_notes(
    client_id: Seq<char>,
    item: ItemView,
    source: Option<WorkItemSourceResponse>,
    operator_context: Seq<char>,
    work_dir: Seq<char>,
    mcp_server_url: Option<Seq<char>>,
)
    ensures
        ({
            let p = prompt(client_id, item, source, operator_context, work_dir, mcp_server_url);
            let notes = if trimmed(operator_context).len() > 0 {
                trimmed(operator_context)
            } else {
                "(none provided)"@
            };
            &&& has_text(p, "\n--- Operator context ---\n"@ + notes + "\n"@)
            &&& mcp_server_url is Some ==> has_text(
                p,
                "Server URL: "@ + mcp_server_url->Some_0 + ". Authentication must be supplied by "@,
            ) && has_text(p, "Do not approve drafts, send email, publish content, or write providers through MCP."@)
            &&& item.source_kind == "email"@ && source is Some ==> has_text(
                p,
                "Before you create an action, task, or email draft, inspect the current Gmail thread."@,
            )
            &&& p.len() >= 5 && p.last() == '.'
        }),
{
    sections_stand_in_the_prompt(
        client_id,
        item,
        source,
        operator_context,
        work_dir,
        mcp_server_url,
    );
    let p = prompt(client_id, item, source, operator_context, work_dir, mcp_server_url);
    reveal_strlit(
        "\nAct on this work item. Use the repo instructions, preserve receipts/outbox invariants, and report what you changed and verified.",
    );
    if let Some(url) = mcp_server_url {
        mcp_note_names_the_server(url);
        stands_within(
            p,
            prompt_mcp(mcp_server_url),
            "Server URL: "@ + url + ". Authentication must be supplied by "@,
        );
        stands_within(
            p,
            prompt_mcp(mcp_server_url),
            "Do not approve drafts, send email, publish content, or write providers through MCP."@,
        );
    }
    if item.source_kind == "email"@ && source is Some {
        thread_check_asks_first();
        stands_within(
            p,
            prompt_thread_check("email"@),
            "Before you create an action, task, or email draft, inspect the current Gmail thread."@,
        );
    }
}

proof fn mcp_note_names_the_server(url: Seq<char>)
    ensures
        has_text(
            prompt_mcp(Some(url)),
            "Server URL: "@ + url + ". Authentication must be supplied by "@,
        ),
        has_text(
            prompt_mcp(Some(url)),
            "Do not approve drafts, send email, publish content, or write providers through MCP."@,
        ),
{
    let lead =
        "\n--- Optional BusinessOS MCP ---\nThis session was launched with BusinessOS context. If the launcher seeded the `businessos` MCP server, use it for BOS reads, notes, queue artifacts, and draft staging only. Do not approve drafts, send email, publish content, or write providers through MCP. Server URL: "@;
    let close =
        ". Authentication must be supplied by the operator/Fleet config; do not ask for or print tokens.\n"@;
    let ban = "Do not approve drafts, send email, publish content, or write providers through MCP."@;
    let first =
        "\n--- Optional BusinessOS MCP ---\nThis session was launched with BusinessOS context. If the launcher seeded the `businessos` MCP server, use it for BOS reads, notes, queue artifacts, and draft staging only. "@;
    reveal_strlit(
        "\n--- Optional BusinessOS MCP ---\nThis session was launched with BusinessOS context. If the launcher seeded the `businessos` MCP server, use it for BOS reads, notes, queue artifacts, and draft staging only. Do not approve drafts, send email, publish content, or write providers through MCP. Server URL: ",
    );
    reveal_strlit(
        "\n--- Optional BusinessOS MCP ---\nThis session was launched with BusinessOS context. If the launcher seeded the `businessos` MCP server, use it for BOS reads, notes, queue artifacts, and draft staging only. ",
    );
    reveal_strlit(
        "Do not approve drafts, send email, publish content, or write providers through MCP.",
    );
    reveal_strlit(
        ". Authentication must be supplied by the operator/Fleet config; do not ask for or print tokens.\n",
    );
    reveal_strlit(". Authentication must be supplied by ");
    reveal_strlit("the operator/Fleet config; do not ask for or print tokens.\n");
    reveal_strlit("Server URL: ");
    reveal_strlit(" ");
    let note = prompt_mcp(Some(url));
    assert(lead =~= first + ban + " "@ + "Server URL: "@);
    assert(close =~= ". Authentication must be supplied by "@
        + "the operator/Fleet config; do not ask for or print tokens.\n"@);
    assert(note == lead + url + close);
    assert(note =~= first + ban + (" "@ + "Server URL: "@ + url + close));
    stands_between(first, ban, " "@ + "Server URL: "@ + url + close);
    let named = "Server URL: "@ + url + ". Authentication must be supplied by "@;
    assert(note =~= (first + ban + " "@) + named
        + "the operator/Fleet config; do not ask for or print tokens.\n"@);
    stands_between(
        first + ban + " "@,
        named,
        "the operator/Fleet config; do not ask for or print tokens.\n"@,
    );
}

proof fn thread_check_asks_first()
    ensures
        has_text(
            prompt_thread_check("email"@),
            "Before you create an action, task, or email draft, inspect the current Gmail thread."@,
        ),
{
    let check = prompt_thread_check("email"@);
    let ask =
        "Before you create an action, task, or email draft, inspect the current Gmail thread."@;
    reveal_strlit(
        "\n--- Required email thread check ---\nBefore you create an action, task, or email draft, inspect the current Gmail thread. Use bos_email_thread_read with the source_ref when the BusinessOS MCP server is available. Otherwise, inspect the full thread with an available read-only Gmail tool. If a sent message follows the source email, determine whether it already resolves the request. Usually, do not create another reply draft after a response was sent. Do not assume the inbox message is still unanswered when you cannot verify the thread.\n",
    );
    reveal_strlit(
        "Before you create an action, task, or email draft, inspect the current Gmail thread.",
    );
    reveal_strlit("\n--- Required email thread check ---\n");
    let at = "\n--- Required email thread check ---\n"@.len() as int;
    assert(check.subrange(at, at + ask.len()) =~= ask);
    assert(contains_at(check, ask, at));
}

/// A launch's context is the category's and its own, both trimmed: either alone where
/// the other is blank, else the category's first.
pub proof fn contexts_are_combined(category_default: Seq<char>, request_context: Seq<char>)
    ensures
        ({
            let all = combined_context(category_default, request_context);
            let category = trimmed(category_default);
            let request = trimmed(request_context);
            &&& category.len() == 0 ==> all == request
            &&& request.len() == 0 ==> all == category
            &&& has_text(all, category)
            &&& has_text(all, request)
            &&& category.len() > 0 && request.len() > 0 ==> {
                &&& all.skip(all.len() - request.len()) == request
                &&& all.len() > category.len() + request.len()
            }
        }),
{
    let all = combined_context(category_default, request_context);
    let category = trimmed(category_default);
    let request = trimmed(request_context);
    let none = Seq::<char>::empty();
    let first = "--- Category default context ---\n"@;
    let second = "\n\n--- Launch override context ---\n"@;
    reveal_strlit("--- Category default context ---\n");
    if category.len() == 0 {
        stands_between(none, request, none);
        assert(none + request + none =~= request);
        assert(request =~= none + category + request);
        stands_between(none, category, request);
    } else if request.len() == 0 {
        stands_between(none, category, none);
        assert(none + category + none =~= category);
        assert(category =~= category + request + none);
        stands_between(category, request, none);
    } else {
        assert(all =~= first + category + (second + request));
        stands_between(first, category, second + request);
        assert(all =~= (first + category + second) + request + none);
        stands_between(first + category + second, request, none);
        assert(all.skip(all.len() - request.len()) =~= request);
    }
}

/// A session runs in the request's directory, else in the category's, else in the
/// operator's workspace.
pub proof fn sessions_run_where_they_are_told(request: Option<Seq<char>>, category: Seq<char>)
    ensures
        ({
            let dir = work_dir_of(chosen_work_dir(request, category));
            &&& request is Some && !is_blank(request->Some_0) ==> dir == trimmed(request->Some_0)
            &&& (request is None || is_blank(request->Some_0)) && !is_blank(category) ==> dir
                == trimmed(category)
            &&& (request is None || is_blank(request->Some_0)) && is_blank(category) ==> dir
                == "/home/example/projects/BusinessOS"@
        }),
{
    if request is Some && !is_blank(request->Some_0) {
        trimming_again_changes_nothing(request->Some_0);
    }
}

/// A trimmed text has no white space left to trim.
pub proof fn trimming_again_changes_nothing(s: Seq<char>)
    ensures
        trimmed(trimmed(s)) == trimmed(s),
{
    let a = without_leading(s);
    let t = without_trailing(a);
    leading_is_gone(s);
    trailing_is_gone(a);
    if t.len() > 0 {
        trailing_keeps_the_front(a);
        assert(without_leading(t) == t);
    }
    assert(without_trailing(t) == t);
}

proof fn leading_is_gone(s: Seq<char>)
    ensures
        without_leading(s).len() > 0 ==> !crate::text::is_white_space(without_leading(s)[0]),
    decreases s.len(),
{
    if s.len() > 0 && crate::text::is_white_space(s[0]) {
        leading_is_gone(s.drop_first());
    }
}

proof fn trailing_is_gone(s: Seq<char>)
    ensures
        without_trailing(s).len() > 0 ==> !crate::text::is_white_space(without_trailing(s).last()),
    decreases s.len(),
{
    if s.len() > 0 && crate::text::is_white_space(s.last()) {
        trailing_is_gone(s.drop_last());
    }
}

proof fn trailing_keeps_the_front(s: Seq<char>)
    ensures
        without_trailing(s).len() > 0 ==> s.len() > 0 && without_trailing(s)[0] == s[0],
    decreases s.len(),
{
    if s.len() > 0 && crate::text::is_white_space(s.last()) {
        trailing_keeps_the_front(s.drop_last());
    }
}

/// The staged files are listed behind the context, each on a line of its own; with
/// none staged the context stays as it is.
pub proof fn staged_files_are_listed(context: Seq<char>, paths: Seq<Seq<char>>)
    ensures
        paths.len() == 0 ==> context_with_files(context, paths) == context,
        paths.len() > 0 ==> {
            &&& trimmed(context).is_prefix_of(context_with_files(context, paths))
            &&& has_text(context_with_files(context, paths), "--- Staged attachment files ---\n"@)
        },
        forall|i: int|
            0 <= i < paths.len() ==> has_text(
                context_with_files(context, paths),
                "- "@ + #[trigger] paths[i] + "\n"@,
            ),
{
    if paths.len() > 0 {
        let all = context_with_files(context, paths);
        let gap = if is_blank(context) {
            Seq::<char>::empty()
        } else {
            "\n\n"@
        };
        let heading = "--- Staged attachment files ---\n"@;
        let lines = staged_lines(paths);
        let none = Seq::<char>::empty();
        assert(all == trimmed(context) + gap + heading + lines);
        assert(all =~= trimmed(context) + (gap + heading + lines));
        stands_between(trimmed(context) + gap, heading, lines);
        assert forall|i: int| 0 <= i < paths.len() implies has_text(
            all,
            "- "@ + #[trigger] paths[i] + "\n"@,
        ) by {
            staged_line_stands(paths, i);
            stands_in_the_whole(
                trimmed(context) + gap + heading,
                lines,
                none,
                "- "@ + paths[i] + "\n"@,
            );
            assert(all =~= trimmed(context) + gap + heading + lines + none);
        }
    }
}

proof fn staged_line_stands(paths: Seq<Seq<char>>, i: int)
    requires
        0 <= i < paths.len(),
    ensures
        has_text(staged_lines(paths), "- "@ + paths[i] + "\n"@),
    decreases paths.len(),
{
    let front = paths.drop_last();
    let all = staged_lines(paths);
    let line = "- "@ + paths[i] + "\n"@;
    let none = Seq::<char>::empty();
    if i == paths.len() - 1 {
        assert(all =~= staged_lines(front) + line + none);
        stands_between(staged_lines(front), line, none);
    } else {
        staged_line_stands(front, i);
        assert(front[i] == paths[i]);
        let last = "- "@ + paths.last() + "\n"@;
        assert(all =~= none + staged_lines(front) + last);
        stands_in_the_whole(none, staged_lines(front), last, line);
    }
}

/// A launch's job is the monitor's to launch an agent, under the launch's key, and
/// its payload carries the monitor, the name, the prompt and the directory.
pub proof fn jobs_carry_the_prompt(
    source_id: Seq<char>,
    idempotency_key: Seq<char>,
    monitor_url: Seq<char>,
    display_name: Seq<char>,
    initial_prompt: Seq<char>,
    work_dir: Seq<char>,
    source_entity_kind: Seq<char>,
    source_entity_id: Seq<char>,
    correlation_id: Option<Seq<char>>,
)
    ensures
        ({
            let payload = payload_json(monitor_url, display_name, initial_prompt, work_dir);
            let job = launch_job(
                source_id,
                idempotency_key,
                payload,
                source_entity_kind,
                source_entity_id,
                correlation_id,
            );
            &&& job.provider == "agent_monitor"@
            &&& job.capability == "launch_agent"@
            &&& job.idempotency_key == idempotency_key
            &&& job.source_entity_kind == source_entity_kind
            &&& job.source_entity_id == source_entity_id
            &&& job.correlation_id == correlation_id
            &&& ("agent_launch:"@ + source_id + ":"@).is_prefix_of(job.job_id)
            &&& has_text(job.payload_json, quoted("initial_prompt"@) + seq![':'] + quoted(initial_prompt))
            &&& has_text(job.payload_json, quoted("monitor_url"@) + seq![':'] + quoted(monitor_url))
            &&& has_text(job.payload_json, quoted("display_name"@) + seq![':'] + quoted(display_name))
            &&& has_text(job.payload_json, quoted("work_dir"@) + seq![':'] + quoted(work_dir))
        }),
{
    let members = seq![
        member("monitor_url"@, quoted(monitor_url)),
        member("display_name"@, quoted(display_name)),
        member("initial_prompt"@, quoted(initial_prompt)),
        member("work_dir"@, quoted(work_dir)),
    ];
    members_stand_in_the_object(members, 0);
    members_stand_in_the_object(members, 1);
    members_stand_in_the_object(members, 2);
    members_stand_in_the_object(members, 3);
}

/// The job that a launch records is for its item, under its key, and carries the
/// prompt of its item, its source and its context with the staged files.
pub proof fn launches_record_their_prompt(ctx: LaunchContext<'_>, prepared: PreparedView)
    requires
        prepared.left.len() == 0,
    ensures
        ({
            let step = after_preparation(ctx, prepared);
            let item = prepared.found.item;
            let context = context_with_files(prepared.context, prepared.staged);
            let p = prompt(
                ctx.client_id@,
                item,
                prepared.source,
                context,
                prepared.work_dir,
                ctx.mcp_server_url.deep_view(),
            );
            &&& step is Record
            &&& step->Record_staged == prepared.staged
            &&& step->operator_context == context
            &&& step->Record_job.source_entity_id == item.item_id
            &&& step->Record_job.correlation_id == Some(item.item_id)
            &&& step->Record_job.idempotency_key == ctx.request.idempotency_key@
            &&& has_text(
                step->Record_job.payload_json,
                quoted("initial_prompt"@) + seq![':'] + quoted(p),
            )
            &&& has_text(
                step->Record_job.payload_json,
                quoted("monitor_url"@) + seq![':'] + quoted(prepared.found.monitor_url),
            )
        }),
{
    let item = prepared.found.item;
    let p = prompt(
        ctx.client_id@,
        item,
        prepared.source,
        context_with_files(prepared.context, prepared.staged),
        prepared.work_dir,
        ctx.mcp_server_url.deep_view(),
    );
    jobs_carry_the_prompt(
        item.item_id,
        ctx.request.idempotency_key@,
        prepared.found.monitor_url,
        "BusinessOS work item "@ + item.item_id,
        p,
        work_dir_of(prepared.work_dir),
        super::store::AGENT_LAUNCH_ENTITY_KIND@,
        item.item_id,
        Some(item.item_id),
    );
}

/// A launch stages the next attachment that is left, for its own job and item, under
/// a key of the attachment's own.
pub proof fn launches_stage_what_is_left(ctx: LaunchContext<'_>, prepared: PreparedView)
    requires
        prepared.left.len() > 0,
    ensures
        ({
            let step = after_preparation(ctx, prepared);
            &&& step is StageAttachment
            &&& step->attachment_id == prepared.left[0]
            &&& step->source_ref == prepared.found.item.source_ref
            &&& step->evidence.session_id == prepared.found.job_id
            &&& step->evidence.item_id == Some(prepared.found.item.item_id)
            &&& step->evidence.target_dir is Some
            &&& !is_blank(prepared.work_dir) ==> step->evidence.target_dir == Some(
                trimmed(prepared.work_dir),
            )
            &&& step->evidence.idempotency_key == ctx.request.idempotency_key@ + ":attachment:"@
                + prepared.left[0]
            &&& step->prepared.left == prepared.left.skip(1)
            &&& step->prepared.staged == prepared.staged
            &&& step->prepared.source == prepared.source
            &&& step->prepared.context == prepared.context
            &&& step->prepared.work_dir == prepared.work_dir
            &&& step->prepared.found == prepared.found
        }),
{
    assert(prepared.left.drop_first() =~= prepared.left.skip(1));
}

/// A launch starts nowhere while launching is off or no monitor is configured; else
/// at its item, with the monitor's address without the slashes it ends with.
pub proof fn launches_start_at_the_item(ctx: LaunchContext<'_>)
    ensures
        !ctx.launch_enabled ==> first_step(ctx) == (LaunchStepView::Finish {
            answer: Err::<LaunchResponseView, _>(LaunchAgentError::Disabled),
        }),
        ctx.launch_enabled && ctx.monitor_url is None ==> first_step(ctx)
            == (LaunchStepView::Finish {
            answer: Err::<LaunchResponseView, _>(LaunchAgentError::MonitorUnconfigured),
        }),
        first_step(ctx) is ReadItem ==> {
            let raw = trimmed(ctx.monitor_url->Some_0@);
            let url = first_step(ctx)->ReadItem_monitor_url;
            &&& ctx.launch_enabled
            &&& url.len() > 0
            &&& url.last() != '/'
            &&& url.is_prefix_of(raw)
            &&& forall|i: int| url.len() <= i < raw.len() ==> #[trigger] raw[i] == '/'
        },
        ctx.launch_enabled && ctx.monitor_url is Some && (exists|i: int|
            0 <= i < trimmed(ctx.monitor_url->Some_0@).len() && #[trigger] trimmed(
                ctx.monitor_url->Some_0@,
            )[i] != '/') ==> first_step(ctx) is ReadItem,
{
    if ctx.monitor_url is Some {
        only_slashes_go(trimmed(ctx.monitor_url->Some_0@));
    }
}

proof fn only_slashes_go(s: Seq<char>)
    ensures
        without_slashes(s).is_prefix_of(s),
        without_slashes(s).len() > 0 ==> without_slashes(s).last() != '/',
        forall|i: int| without_slashes(s).len() <= i < s.len() ==> #[trigger] s[i] == '/',
    decreases s.len(),
{
    if s.len() > 0 && s.last() == '/' {
        let front = s.drop_last();
        only_slashes_go(front);
        let kept = without_slashes(s);
        assert(front.take(kept.len() as int) =~= s.take(kept.len() as int));
        assert forall|i: int| kept.len() <= i < s.len() implies #[trigger] s[i] == '/' by {
            if i < front.len() {
                assert(front[i] == s[i]);
            }
        }
    } else {
        assert(s.take(s.len() as int) =~= s);
    }
}

/// A launch is answered with its session exactly where its job was delivered and the
/// result can be read, and then with the evidence that was staged for it.
pub proof fn delivered_launches_are_answered(
    staged: Seq<Seq<char>>,
    outcome: AttemptView,
    status: Result<Seq<char>, StoreError>,
    response: Option<LaunchResponseView>,
)
    ensures
        launched(staged, outcome, status, response) is Ok <==> {
            &&& status is Ok
            &&& status->Ok_0 == "delivered"@
            &&& outcome is Delivered
            &&& response is Some
        },
        launched(staged, outcome, status, response) is Ok ==> {
            let answer = launched(staged, outcome, status, response)->Ok_0;
            &&& answer.staged_evidence_paths == staged
            &&& answer.session_id == response->Some_0.session_id
            &&& answer.thread_id == response->Some_0.thread_id
            &&& answer.monitor_url == response->Some_0.monitor_url
        },
        status is Ok && (status->Ok_0 != "delivered"@ || !(outcome is Delivered)) ==> launched(
            staged,
            outcome,
            status,
            response,
        ) == Err::<LaunchResponseView, _>(LaunchAgentError::DeliveryFailed),
{
}

/// The request that opens a session carries its key, its name, its prompt and its
/// directory, and the MCP configuration where there is one.
pub proof fn session_requests_carry_the_launch(
    idempotency_key: Seq<char>,
    display_name: Seq<char>,
    initial_prompt: Seq<char>,
    work_dir: Seq<char>,
    mcp_config: Option<Seq<char>>,
)
    ensures
        ({
            let body = session_request(
                idempotency_key,
                display_name,
                initial_prompt,
                work_dir,
                mcp_config,
            );
            &&& has_text(body, quoted("initialPrompt"@) + seq![':'] + quoted(initial_prompt))
            &&& has_text(body, quoted("idempotencyKey"@) + seq![':'] + quoted(idempotency_key))
            &&& has_text(body, quoted("displayName"@) + seq![':'] + quoted(display_name))
            &&& !is_blank(work_dir) ==> has_text(
                body,
                quoted("workDir"@) + seq![':'] + quoted(trimmed(work_dir)),
            )
            &&& has_text(body, quoted("executor"@) + seq![':'] + quoted("tmux"@))
            &&& has_text(body, quoted("provider"@) + seq![':'] + quoted("codex"@))
            &&& mcp_config is Some ==> has_text(
                body,
                quoted("businessos"@) + seq![':'] + mcp_config->Some_0,
            )
        }),
{
    let body = session_request(
        idempotency_key,
        display_name,
        initial_prompt,
        work_dir,
        mcp_config,
    );
    let first = seq![
        member("displayName"@, quoted(display_name)),
        member("executor"@, quoted("tmux"@)),
        member("idempotencyKey"@, quoted(idempotency_key)),
        member("initialPrompt"@, quoted(initial_prompt)),
    ];
    let last = seq![
        member("provider"@, quoted("codex"@)),
        member("workDir"@, quoted(work_dir_of(work_dir))),
    ];
    match mcp_config {
        Some(config) => {
            let servers = member("mcpServers"@, object_of(seq![member("businessos"@, config)]));
            let metadata = member(
                "metadata"@,
                object_of(
                    seq![
                        member(
                            "businessOsMcp"@,
                            object_of(
                                seq![
                                    member(
                                        "authorization"@,
                                        quoted("operator_bearer_token_required"@),
                                    ),
                                    member("requiresExplicitSelection"@, "true"@),
                                    member("serverName"@, quoted("businessos"@)),
                                ],
                            ),
                        ),
                    ],
                ),
            );
            let all = first + seq![servers, metadata] + last;
            assert(body == object_of(all));
            members_stand_in_the_object(all, 0);
            members_stand_in_the_object(all, 1);
            members_stand_in_the_object(all, 2);
            members_stand_in_the_object(all, 3);
            members_stand_in_the_object(all, 4);
            members_stand_in_the_object(all, 6);
            members_stand_in_the_object(all, 7);
            let inner = seq![member("businessos"@, config)];
            members_stand_in_the_object(inner, 0);
            stands_in_the_whole(
                quoted("mcpServers"@) + seq![':'],
                object_of(inner),
                Seq::empty(),
                inner[0],
            );
            assert(servers =~= quoted("mcpServers"@) + seq![':'] + object_of(inner)
                + Seq::<char>::empty());
            stands_within(body, servers, inner[0]);
        },
        None => {
            let all = first + Seq::<Seq<char>>::empty() + last;
            assert(body == object_of(all));
            members_stand_in_the_object(all, 0);
            members_stand_in_the_object(all, 1);
            members_stand_in_the_object(all, 2);
            members_stand_in_the_object(all, 3);
            members_stand_in_the_object(all, 4);
            members_stand_in_the_object(all, 5);
        },
    }
}

/// A reply opens the session whose id it holds, looked for under the result first,
/// and the thread likewise; one without a session id opens none.
pub proof fn replies_open_their_session(reply: ReplyView, monitor_url: Seq<char>, id: Seq<char>)
    ensures
        ({
            let opened = opened_session(reply, monitor_url);
            &&& reply.result_session_id == Some(Some(id)) ==> opened is Ok && opened->Ok_0.session_id
                == id
            &&& reply.result_session_id is None && reply.session_id == Some(Some(id)) ==> opened is Ok
                && opened->Ok_0.session_id == id
            &&& reply.result_session_id is None && reply.session_id is None
                && reply.result_session_id_field == Some(Some(id)) ==> opened is Ok
                && opened->Ok_0.session_id == id
            &&& reply.result_session_id is None && reply.session_id is None
                && reply.result_session_id_field is None ==> opened
                == Err::<LaunchResponseView, _>(MonitorError::InvalidResponse)
            &&& opened is Ok ==> {
                &&& opened->Ok_0.monitor_url == Some(monitor_url)
                &&& opened->Ok_0.staged_evidence_paths.len() == 0
                &&& reply.result_thread_id_field == Some(Some(id)) ==> opened->Ok_0.thread_id
                    == Some(id)
                &&& reply.result_thread_id_field is None && reply.result_thread_id == Some(Some(id))
                    ==> opened->Ok_0.thread_id == Some(id)
                &&& reply.result_thread_id_field is None && reply.result_thread_id is None
                    && reply.thread_id == Some(Some(id)) ==> opened->Ok_0.thread_id == Some(id)
                &&& reply.result_thread_id_field is None && reply.result_thread_id is None
                    && reply.thread_id is None && reply.thread_id_field is None
                    && reply.session_thread_id is None ==> opened->Ok_0.thread_id is None
            }
        }),
{
}

/// A session request that was answered is delivered with the answer; one that was not
/// ends for good, under the code of its error.
pub proof fn session_requests_end_as_answered(result: Result<Option<String>, MonitorError>)
    ensures
        result is Ok <==> delivery_of(result) is Delivered,
        result is Ok && result->Ok_0 is Some ==> delivery_of(result)->Delivered_result_json
            == result->Ok_0->Some_0@,
        result is Err ==> delivery_of(result) == (AttemptView::Terminal {
            error: monitor_error_code(result->Err_0),
            result_json: None,
        }),
        monitor_error_code(MonitorError::Rejected) != monitor_error_code(
            MonitorError::InvalidResponse,
        ),
{
    reveal_strlit("work_queue_agent_monitor_rejected");
    reveal_strlit("work_queue_agent_monitor_response_invalid");
    assert("work_queue_agent_monitor_rejected"@.len()
        != "work_queue_agent_monitor_response_invalid"@.len());
}

/// A launch goes on from its source with its item, the context and the directory that
/// the category and the request give it, and nothing staged yet; a category that
/// cannot be read ends it, a source that does not resolve does not.
pub proof fn launches_go_on_without_a_source(
    ctx: LaunchContext<'_>,
    found: FoundView,
    source: Option<WorkItemSourceResponse>,
    category: Result<Option<CategoryRecord>, StoreError>,
)
    ensures
        category is Err ==> after_source(ctx, found, source, category)
            == (LaunchStepView::Finish {
            answer: Err::<LaunchResponseView, _>(LaunchAgentError::Store(category->Err_0)),
        }),
        category is Ok ==> !(after_source(ctx, found, source, category) is Finish),
        category is Ok && after_source(ctx, found, source, category) is StageAttachment ==> {
            let prepared = after_source(ctx, found, source, category)->prepared;
            &&& prepared.found == found
            &&& prepared.source == source
            &&& prepared.staged.len() == 0
            &&& found.item.source_kind == "email"@
            &&& has_text(prepared.context, trimmed(ctx.request.context@))
            &&& category->Ok_0 is Some ==> has_text(
                prepared.context,
                trimmed(category->Ok_0->Some_0.default_agent_context@),
            )
        },
{
    if category is Ok {
        let default_context = match category->Ok_0 {
            Some(c) => c.default_agent_context@,
            None => Seq::<char>::empty(),
        };
        contexts_are_combined(default_context, ctx.request.context@);
    }
}

} // verus!
