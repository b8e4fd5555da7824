//! Launch an Agent Monitor agent session seeded with a work item's context.
//!
//! Operator power tool. It sources its context from a work item + its source
//! message, and appends the operator's optional free-text notes.

use vstd::prelude::*;

use sha2::{Digest, Sha256};

use crate::contracts::email_triage::{EmailAttachmentRecord, InboundMessageRecord};
use crate::contracts::work_queue::{LaunchAgentResponse, WorkItem, WorkItemSourceResponse};
use crate::json::{
    hex_digit, member, member_text, object_of, object_text, pointed_text, quote, quoted,
    string_to_json, text_at_pointer,
};
use crate::outbox::{AttemptOutcome, AttemptView, ClaimedJob, JobView, NewOutboxJob};
use crate::text::{
    decimal, decimal_text, is_blank, join, joined, same_text, trimmed,
};
use super::model::ItemView;
use super::store::AGENT_LAUNCH_ENTITY_KIND;

verus! {

/// Fallback directory for spawned agents when neither the request nor category
/// policy specifies one.
pub const DEFAULT_AGENT_WORK_DIR: &'static str = "/home/example/projects/BusinessOS";

pub const PROVIDER_AGENT_MONITOR: &'static str = "agent_monitor";

pub const CAPABILITY_LAUNCH_AGENT: &'static str = "launch_agent";

/// The directory that a raw setting stands for.
pub open spec fn work_dir_of(raw: Seq<char>) -> Seq<char> {
    if is_blank(raw) {
        DEFAULT_AGENT_WORK_DIR@
    } else {
        trimmed(raw)
    }
}

pub fn effective_work_dir(raw: &str) -> (r: &str)
    ensures
        r@ == work_dir_of(raw@),
{
    let text: &str = raw.trim();
    if text.is_empty() {
        DEFAULT_AGENT_WORK_DIR
    } else {
        text
    }
}

/// The request's directory, or the category's where the request names none.
pub open spec fn chosen_work_dir(request: Option<Seq<char>>, category: Seq<char>) -> Seq<char> {
    match request {
        Some(raw) => if is_blank(raw) {
            category
        } else {
            trimmed(raw)
        },
        None => category,
    }
}

pub fn resolve_work_dir<'a>(request_work_dir: Option<&'a str>, category_work_dir: &'a str) -> (r:
    &'a str)
    ensures
        r@ == chosen_work_dir(request_work_dir.deep_view(), category_work_dir@),
{
    match request_work_dir {
        Some(raw) => {
            let text: &str = raw.trim();
            if text.is_empty() {
                category_work_dir
            } else {
                text
            }
        },
        None => category_work_dir,
    }
}

/// The context that a session starts with: the category's default, the launch's
/// own, or both under their headings.
pub open spec fn combined_context(category_default: Seq<char>, request_context: Seq<char>) -> Seq<
    char,
> {
    let category = trimmed(category_default);
    let request = trimmed(request_context);
    if category.len() == 0 {
        request
    } else if request.len() == 0 {
        category
    } else {
        "--- Category default context ---\n"@ + category
            + "\n\n--- Launch override context ---\n"@ + request
    }
}

pub fn combine_context(category_default: &str, request_context: &str) -> (r: String)
    ensures
        r@ == combined_context(category_default@, request_context@),
{
    let category: &str = category_default.trim();
    let request: &str = request_context.trim();
    if category.is_empty() {
        request.to_owned()
    } else if request.is_empty() {
        category.to_owned()
    } else {
        "--- Category default context ---\n".to_owned().concat(category).concat(
            "\n\n--- Launch override context ---\n",
        ).concat(request)
    }
}

/// The SHA-256 digest of bytes.
pub uninterp spec fn sha256_of(data: Seq<u8>) -> Seq<u8>;

/// `sha2::Sha256`, fed with the bytes and finalized: the thirty-two bytes that
/// [`sha256_of`] names.
#[verifier::external_body]
fn sha256(data: &Vec<u8>) -> (r: [u8; 32])
    ensures
        r@ == sha256_of(data@),
{
    let mut hasher = Sha256::new();
    hasher.update(data);
    hasher.finalize().into()
}

/// Bytes in hexadecimal notation, two digits each.
pub open spec fn hex_text(bytes: Seq<u8>) -> Seq<char>
    decreases bytes.len(),
{
    if bytes.len() == 0 {
        Seq::<char>::empty()
    } else {
        hex_text(bytes.drop_last()).push(hex_digit(bytes.last() as int / 16)).push(
            hex_digit(bytes.last() as int % 16),
        )
    }
}

fn hex_char(n: u8) -> (r: char)
    requires
        n < 16,
    ensures
        r == hex_digit(n as int),
{
    if n < 10 {
        (48 + n) as char
    } else {
        (87 + n) as char
    }
}

/// The id of a launch's job, where `digest` is the digest of what identifies it.
pub open spec fn job_id_text(item_id: Seq<char>, digest: Seq<u8>) -> Seq<char> {
    "agent_launch:"@ + item_id + ":"@ + hex_text(digest.take(8))
}

/// The id of a launch's job, where `digest` is the digest of what identifies it.
pub fn job_id_from_digest(item_id: &str, digest: &[u8; 32]) -> (r: String)
    ensures
        r@ == job_id_text(item_id@, digest@),
{
    let mut hash: String = String::new();
    let mut i: usize = 0;
    proof {
        assert(digest@.take(0) =~= Seq::<u8>::empty());
    }
    while i < 8
        invariant
            i <= 8,
            hash@ == hex_text(digest@.take(i as int)),
        decreases 8 - i,
    {
        let byte: u8 = digest[i];
        hash.push(hex_char(byte / 16));
        hash.push(hex_char(byte % 16));
        proof {
            assert(digest@.take(i + 1).drop_last() =~= digest@.take(i as int));
            assert(digest@.take(i + 1).last() == byte);
        }
        i += 1;
    }
    "agent_launch:".to_owned().concat(item_id).concat(":").concat(hash.as_str())
}

/// The bytes that identify a launch: the item, a zero byte, and the key.
pub open spec fn launch_identity(item_id: Seq<char>, idempotency_key: Seq<char>) -> Seq<u8> {
    vstd::utf8::encode_utf8(item_id) + seq![0u8] + vstd::utf8::encode_utf8(idempotency_key)
}

pub fn job_id(item_id: &str, idempotency_key: &str) -> (r: String)
    ensures
        r@ == job_id_text(item_id@, sha256_of(launch_identity(item_id@, idempotency_key@))),
{
    let mut data: Vec<u8> = item_id.as_bytes_vec();
    data.push(0u8);
    let mut key: Vec<u8> = idempotency_key.as_bytes_vec();
    data.append(&mut key);
    proof {
        assert(data@ =~= launch_identity(item_id@, idempotency_key@));
    }
    let digest: [u8; 32] = sha256(&data);
    job_id_from_digest(item_id, &digest)
}

pub struct AgentLaunchOutboxJobInput<'a> {
    pub source_id: &'a str,
    pub idempotency_key: &'a str,
    pub monitor_url: &'a str,
    pub display_name: &'a str,
    pub initial_prompt: &'a str,
    pub work_dir: &'a str,
    pub source_entity_kind: &'a str,
    pub source_entity_id: &'a str,
    pub correlation_id: Option<&'a str>,
}

/// What a launch job carries to the monitor.
#[derive(Debug, Clone, PartialEq, Eq)]
pub struct AgentLaunchOutboxPayload {
    pub monitor_url: String,
    pub display_name: String,
    pub initial_prompt: String,
    pub work_dir: String,
}

/// The JSON of a launch job's payload.
pub open spec fn payload_json(
    monitor_url: Seq<char>,
    display_name: Seq<char>,
    initial_prompt: Seq<char>,
    work_dir: Seq<char>,
) -> Seq<char> {
    object_of(
        seq![
            member("monitor_url"@, quoted(monitor_url)),
            member("display_name"@, quoted(display_name)),
            member("initial_prompt"@, quoted(initial_prompt)),
            member("work_dir"@, quoted(work_dir)),
        ],
    )
}

fn payload_text(monitor_url: &str, display_name: &str, initial_prompt: &str, work_dir: &str) -> (r:
    Result<String, serde_json::Error>)
    ensures
        r is Ok,
        r->Ok_0@ == payload_json(monitor_url@, display_name@, initial_prompt@, work_dir@),
{
    let url: String = match string_to_json(monitor_url) {
        Ok(text) => text,
        Err(err) => return Err(err),
    };
    let name: String = match string_to_json(display_name) {
        Ok(text) => text,
        Err(err) => return Err(err),
    };
    let prompt: String = match string_to_json(initial_prompt) {
        Ok(text) => text,
        Err(err) => return Err(err),
    };
    let dir: String = match string_to_json(work_dir) {
        Ok(text) => text,
        Err(err) => return Err(err),
    };
    let members: Vec<String> = vec![
        member_text("monitor_url", url.as_str()),
        member_text("display_name", name.as_str()),
        member_text("initial_prompt", prompt.as_str()),
        member_text("work_dir", dir.as_str()),
    ];
    proof {
        assert(members.deep_view() =~= seq![
            member("monitor_url"@, quoted(monitor_url@)),
            member("display_name"@, quoted(display_name@)),
            member("initial_prompt"@, quoted(initial_prompt@)),
            member("work_dir"@, quoted(work_dir@)),
        ]);
    }
    Ok(object_text(&members))
}

/// The job that launches an agent for a source.
pub open spec fn launch_job(
    source_id: Seq<char>,
    idempotency_key: Seq<char>,
    payload: Seq<char>,
    source_entity_kind: Seq<char>,
    source_entity_id: Seq<char>,
    correlation_id: Option<Seq<char>>,
) -> JobView {
    JobView {
        job_id: job_id_text(source_id, sha256_of(launch_identity(source_id, idempotency_key))),
        provider: PROVIDER_AGENT_MONITOR@,
        capability: CAPABILITY_LAUNCH_AGENT@,
        payload_json: payload,
        source_entity_kind,
        source_entity_id,
        correlation_id,
        causation_id: None,
        idempotency_key,
    }
}

pub fn build_outbox_job_for_source(input: AgentLaunchOutboxJobInput<'_>) -> (r: Result<
    NewOutboxJob,
    serde_json::Error,
>)
    ensures
        r is Ok,
        r->Ok_0.deep_view() == launch_job(
            input.source_id@,
            input.idempotency_key@,
            payload_json(
                input.monitor_url@,
                input.display_name@,
                input.initial_prompt@,
                work_dir_of(input.work_dir@),
            ),
            input.source_entity_kind@,
            input.source_entity_id@,
            input.correlation_id.deep_view(),
        ),
{
    let payload: String = match payload_text(
        input.monitor_url,
        input.display_name,
        input.initial_prompt,
        effective_work_dir(input.work_dir),
    ) {
        Ok(text) => text,
        Err(err) => return Err(err),
    };
    let correlation_id: Option<String> = match input.correlation_id {
        Some(id) => Some(id.to_owned()),
        None => None,
    };
    Ok(
        NewOutboxJob {
            job_id: job_id(input.source_id, input.idempotency_key),
            provider: PROVIDER_AGENT_MONITOR.to_owned(),
            capability: CAPABILITY_LAUNCH_AGENT.to_owned(),
            payload_json: payload,
            source_entity_kind: input.source_entity_kind.to_owned(),
            source_entity_id: input.source_entity_id.to_owned(),
            correlation_id,
            causation_id: None,
            idempotency_key: input.idempotency_key.to_owned(),
        },
    )
}

pub fn build_outbox_job(
    item_id: &str,
    idempotency_key: &str,
    monitor_url: &str,
    display_name: &str,
    initial_prompt: &str,
    work_dir: &str,
) -> (r: Result<NewOutboxJob, serde_json::Error>)
    ensures
        r is Ok,
        r->Ok_0.deep_view() == launch_job(
            item_id@,
            idempotency_key@,
            payload_json(
                monitor_url@,
                display_name@,
                initial_prompt@,
                work_dir_of(work_dir@),
            ),
            AGENT_LAUNCH_ENTITY_KIND@,
            item_id@,
            Some(item_id@),
        ),
{
    build_outbox_job_for_source(
        AgentLaunchOutboxJobInput {
            source_id: item_id,
            idempotency_key,
            monitor_url,
            display_name,
            initial_prompt,
            work_dir,
            source_entity_kind: AGENT_LAUNCH_ENTITY_KIND,
            source_entity_id: item_id,
            correlation_id: Some(item_id),
        },
    )
}

/// The facts of the item that a prompt starts with.
pub open spec fn prompt_header(client_id: Seq<char>, item: ItemView, work_dir: Seq<char>) -> Seq<
    char,
> {
    "Agent session: BusinessOS work item\nWorkdir: "@ + work_dir_of(work_dir) + "\nClient: "@
        + client_id + "\nWork item: "@ + item.item_id + "\nCategory: "@ + item.category_id
        + "\nTitle: "@ + item.title + "\nSummary: "@ + item.summary + "\nSuggested outputs: "@
        + (if item.packet_kinds.len() == 0 {
        "-"@
    } else {
        joined(item.packet_kinds, ", "@)
    }) + "\nSource kind: "@ + item.source_kind + "\n"@
}

/// An optional text, or what stands for it.
pub open spec fn text_or(value: Option<Seq<char>>, other: Seq<char>) -> Seq<char> {
    match value {
        Some(text) => text,
        None => other,
    }
}

/// The body of a message: the full one, or the excerpt where that is blank.
pub open spec fn message_body(message: InboundMessageRecord) -> Seq<char> {
    if is_blank(message.body_full@) {
        message.body_excerpt@
    } else {
        message.body_full@
    }
}

/// The source message in a prompt.
pub open spec fn prompt_message(message: InboundMessageRecord) -> Seq<char> {
    "From: "@ + text_or(message.from_addr.deep_view(), "-"@) + "\nSubject: "@ + text_or(
        message.subject.deep_view(),
        "-"@,
    ) + "\n--- Source message ---\n"@ + trimmed(message_body(message)) + "\n"@
}

/// The size of an attachment in a prompt.
pub open spec fn attachment_size(size_bytes: Option<u64>) -> Seq<char> {
    match size_bytes {
        Some(bytes) => decimal(bytes as nat) + " bytes"@,
        None => "unknown size"@,
    }
}

/// The line of an attachment in a prompt.
pub open spec fn attachment_line(attachment: EmailAttachmentRecord) -> Seq<char> {
    "- "@ + attachment.filename@ + " ("@ + text_or(
        attachment.mime_type.deep_view(),
        "unknown mime"@,
    ) + ", "@ + attachment_size(attachment.size_bytes) + "; attachment_id="@
        + attachment.attachment_id@ + ")\n"@
}

/// The lines of attachments in a prompt.
pub open spec fn attachment_lines(attachments: Seq<EmailAttachmentRecord>) -> Seq<char>
    decreases attachments.len(),
{
    if attachments.len() == 0 {
        Seq::<char>::empty()
    } else {
        attachment_lines(attachments.drop_last()) + attachment_line(attachments.last())
    }
}

/// The attachments in a prompt, and how to get at them.
pub open spec fn prompt_attachments(message: InboundMessageRecord) -> Seq<char> {
    if message.attachments@.len() == 0 {
        Seq::<char>::empty()
    } else {
        "\n--- Source attachments ---\n"@ + attachment_lines(message.attachments@)
            + "To inspect an attachment, stage it through BusinessOS: POST /api/email-triage/inbox/"@
            + message.source_key@
            + "/attachments/<attachment_id>/evidence with this agent session id, then read the returned local evidence path.\n"@
    }
}

/// The check that an email's prompt asks for.
pub open spec fn prompt_thread_check(source_kind: Seq<char>) -> Seq<char> {
    if source_kind == "email"@ {
        "\n--- Required email thread check ---\nBefore you create an action, task, or email draft, inspect the current Gmail thread. Use bos_email_thread_read with the source_ref when the BusinessOS MCP server is available. Otherwise, inspect the full thread with an available read-only Gmail tool. If a sent message follows the source email, determine whether it already resolves the request. Usually, do not create another reply draft after a response was sent. Do not assume the inbox message is still unanswered when you cannot verify the thread.\n"@
    } else {
        Seq::<char>::empty()
    }
}

/// The operator's notes in a prompt.
pub open spec fn prompt_notes(operator_context: Seq<char>) -> Seq<char> {
    "\n--- Operator context ---\n"@ + (if is_blank(operator_context) {
        "(none provided)"@
    } else {
        trimmed(operator_context)
    }) + "\n"@
}

/// The note on the MCP server in a prompt, where one is configured.
pub open spec fn prompt_mcp(mcp_server_url: Option<Seq<char>>) -> Seq<char> {
    match mcp_server_url {
        Some(url) =>
            "\n--- Optional BusinessOS MCP ---\nThis session was launched with BusinessOS context. If the launcher seeded the `businessos` MCP server, use it for BOS reads, notes, queue artifacts, and draft staging only. Do not approve drafts, send email, publish content, or write providers through MCP. Server URL: "@
            + url
            + ". Authentication must be supplied by the operator/Fleet config; do not ask for or print tokens.\n"@,
        None => Seq::<char>::empty(),
    }
}

/// The prompt that a session starts with.
pub open spec fn prompt(
    client_id: Seq<char>,
    item: ItemView,
    source: Option<WorkItemSourceResponse>,
    operator_context: Seq<char>,
    work_dir: Seq<char>,
    mcp_server_url: Option<Seq<char>>,
) -> Seq<char> {
    prompt_header(client_id, item, work_dir) + (match source {
        Some(s) => prompt_message(s.message) + prompt_attachments(s.message) + prompt_thread_check(
            item.source_kind,
        ),
        None => Seq::<char>::empty(),
    }) + prompt_notes(operator_context) + prompt_mcp(mcp_server_url)
        + "\nAct on this work item. Use the repo instructions, preserve receipts/outbox invariants, and report what you changed and verified."@
}

fn header_text(client_id: &str, item: &WorkItem, work_dir: &str) -> (r: String)
    ensures
        r@ == prompt_header(client_id@, item.deep_view(), work_dir@),
{
    let kinds: String = if item.packet_kinds.len() == 0 {
        "-".to_owned()
    } else {
        join(&item.packet_kinds, ", ")
    };
    "Agent session: BusinessOS work item\nWorkdir: ".to_owned().concat(
        effective_work_dir(work_dir),
    ).concat("\nClient: ").concat(client_id).concat("\nWork item: ").concat(
        item.item_id.as_str(),
    ).concat("\nCategory: ").concat(item.category_id.as_str()).concat("\nTitle: ").concat(
        item.title.as_str(),
    ).concat("\nSummary: ").concat(item.summary.as_str()).concat("\nSuggested outputs: ").concat(
        kinds.as_str(),
    ).concat("\nSource kind: ").concat(item.source_kind.as_str()).concat("\n")
}

fn str_or<'a>(value: &'a Option<String>, other: &'a str) -> (r: &'a str)
    ensures
        r@ == text_or(value.deep_view(), other@),
{
    match value {
        Some(text) => text.as_str(),
        None => other,
    }
}

fn message_text(message: &InboundMessageRecord) -> (r: String)
    ensures
        r@ == prompt_message(*message),
{
    let body: &str = if message.body_full.as_str().trim().is_empty() {
        message.body_excerpt.as_str()
    } else {
        message.body_full.as_str()
    };
    "From: ".to_owned().concat(str_or(&message.from_addr, "-")).concat("\nSubject: ").concat(
        str_or(&message.subject, "-"),
    ).concat("\n--- Source message ---\n").concat(body.trim()).concat("\n")
}

fn attachment_text(attachment: &EmailAttachmentRecord) -> (r: String)
    ensures
        r@ == attachment_line(*attachment),
{
    let size: String = match attachment.size_bytes {
        Some(bytes) => decimal_text(bytes).concat(" bytes"),
        None => "unknown size".to_owned(),
    };
    "- ".to_owned().concat(attachment.filename.as_str()).concat(" (").concat(
        str_or(&attachment.mime_type, "unknown mime"),
    ).concat(", ").concat(size.as_str()).concat("; attachment_id=").concat(
        attachment.attachment_id.as_str(),
    ).concat(")\n")
}

fn attachments_text(message: &InboundMessageRecord) -> (r: String)
    ensures
        r@ == prompt_attachments(*message),
{
    if message.attachments.len() == 0 {
        return String::new();
    }
    let mut lines: String = String::new();
    let mut i: usize = 0;
    while i < message.attachments.len()
        invariant
            i <= message.attachments.len(),
            lines@ == attachment_lines(message.attachments@.take(i as int)),
        decreases message.attachments.len() - i,
    {
        lines.append(attachment_text(&message.attachments[i]).as_str());
        proof {
            let all = message.attachments@;
            assert(all.take(i + 1).drop_last() =~= all.take(i as int));
            assert(all.take(i + 1).last() == all[i as int]);
        }
        i += 1;
    }
    proof {
        assert(message.attachments@.take(i as int) =~= message.attachments@);
    }
    "\n--- Source attachments ---\n".to_owned().concat(lines.as_str()).concat(
        "To inspect an attachment, stage it through BusinessOS: POST /api/email-triage/inbox/",
    ).concat(message.source_key.as_str()).concat(
        "/attachments/<attachment_id>/evidence with this agent session id, then read the returned local evidence path.\n",
    )
}

fn thread_check_text(source_kind: &str) -> (r: String)
    ensures
        r@ == prompt_thread_check(source_kind@),
{
    if same_text(source_kind, "email") {
        "\n--- Required email thread check ---\nBefore you create an action, task, or email draft, inspect the current Gmail thread. Use bos_email_thread_read with the source_ref when the BusinessOS MCP server is available. Otherwise, inspect the full thread with an available read-only Gmail tool. If a sent message follows the source email, determine whether it already resolves the request. Usually, do not create another reply draft after a response was sent. Do not assume the inbox message is still unanswered when you cannot verify the thread.\n".to_owned()
    } else {
        String::new()
    }
}

/// Assemble the initial prompt: a stable header of work-item facts, the source
/// message when one resolves, then the operator's optional notes, and a note on
/// the MCP server at `mcp_server_url`, where one is configured.
pub fn build_prompt(
    client_id: &str,
    item: &WorkItem,
    source: Option<&WorkItemSourceResponse>,
    operator_context: &str,
    work_dir: &str,
    mcp_server_url: Option<&str>,
) -> (r: String)
    ensures
        r@ == prompt(
            client_id@,
            item.deep_view(),
            (match source {
                Some(s) => Some(*s),
                None => None,
            }),
            operator_context@,
            work_dir@,
            mcp_server_url.deep_view(),
        ),
{
    let mut text: String = header_text(client_id, item, work_dir);
    let source_part: String = match source {
        Some(s) => message_text(&s.message).concat(attachments_text(&s.message).as_str()).concat(
            thread_check_text(item.source_kind.as_str()).as_str(),
        ),
        None => String::new(),
    };
    text.append(source_part.as_str());
    let notes: &str = operator_context.trim();
    let notes: &str = if notes.is_empty() {
        "(none provided)"
    } else {
        notes
    };
    let notes_part: String = "\n--- Operator context ---\n".to_owned().concat(notes).concat("\n");
    text.append(notes_part.as_str());
    let mcp_part: String = match mcp_server_url {
        Some(url) =>
            "\n--- Optional BusinessOS MCP ---\nThis session was launched with BusinessOS context. If the launcher seeded the `businessos` MCP server, use it for BOS reads, notes, queue artifacts, and draft staging only. Do not approve drafts, send email, publish content, or write providers through MCP. Server URL: ".to_owned().concat(
            url,
        ).concat(
            ". Authentication must be supplied by the operator/Fleet config; do not ask for or print tokens.\n",
        ),
        None => String::new(),
    };
    text.append(mcp_part.as_str());
    text.append(
        "\nAct on this work item. Use the repo instructions, preserve receipts/outbox invariants, and report what you changed and verified.",
    );
    text
}

/// The server URL of an MCP configuration; empty where it names none.
pub fn mcp_server_url(config_json: &str) -> (r: String)
    ensures
        r@ == (match pointed_text(config_json@, "/url"@) {
            Some(Some(url)) => url,
            _ => Seq::<char>::empty(),
        }),
{
    match text_at_pointer(config_json, "/url") {
        Some(Some(url)) => url,
        _ => String::new(),
    }
}

/// The body of the request that opens a session, where `mcp_config` is the JSON of
/// the MCP configuration.
pub open spec fn session_request(
    idempotency_key: Seq<char>,
    display_name: Seq<char>,
    initial_prompt: Seq<char>,
    work_dir: Seq<char>,
    mcp_config: Option<Seq<char>>,
) -> Seq<char> {
    let first = seq![
        member("displayName"@, quoted(display_name)),
        member("executor"@, quoted("tmux"@)),
        member("idempotencyKey"@, quoted(idempotency_key)),
        member("initialPrompt"@, quoted(initial_prompt)),
    ];
    let mcp = match mcp_config {
        Some(config) => seq![
            member("mcpServers"@, object_of(seq![member("businessos"@, config)])),
            member(
                "metadata"@,
                object_of(
                    seq![
                        member(
                            "businessOsMcp"@,
                            object_of(
                                seq![
                                    member(
                                        "authorization"@,
                                        quoted("operator_bearer_token_required"@),
                                    ),
                                    member("requiresExplicitSelection"@, "true"@),
                                    member("serverName"@, quoted("businessos"@)),
                                ],
                            ),
                        ),
                    ],
                ),
            ),
        ],
        None => Seq::empty(),
    };
    let last = seq![
        member("provider"@, quoted("codex"@)),
        member("workDir"@, quoted(work_dir_of(work_dir))),
    ];
    object_of(first + mcp + last)
}

fn one_member_object(key: &str, value: &str) -> (r: String)
    ensures
        r@ == object_of(seq![member(key@, value@)]),
{
    let members: Vec<String> = vec![member_text(key, value)];
    proof {
        assert(members.deep_view() =~= seq![member(key@, value@)]);
    }
    object_text(&members)
}

fn mcp_metadata_text() -> (r: String)
    ensures
        r@ == object_of(
            seq![
                member("authorization"@, quoted("operator_bearer_token_required"@)),
                member("requiresExplicitSelection"@, "true"@),
                member("serverName"@, quoted("businessos"@)),
            ],
        ),
{
    let members: Vec<String> = vec![
        member_text("authorization", quote("operator_bearer_token_required").as_str()),
        member_text("requiresExplicitSelection", "true"),
        member_text("serverName", quote("businessos").as_str()),
    ];
    proof {
        assert(members.deep_view() =~= seq![
            member("authorization"@, quoted("operator_bearer_token_required"@)),
            member("requiresExplicitSelection"@, "true"@),
            member("serverName"@, quoted("businessos"@)),
        ]);
    }
    object_text(&members)
}

/// The JSON body of the request that opens a session. `mcp_config_json` is the
/// JSON of the MCP configuration, where there is one.
pub fn monitor_session_request_body(
    idempotency_key: &str,
    display_name: &str,
    initial_prompt: &str,
    work_dir: &str,
    mcp_config_json: Option<&str>,
) -> (r: String)
    ensures
        r@ == session_request(
            idempotency_key@,
            display_name@,
            initial_prompt@,
            work_dir@,
            mcp_config_json.deep_view(),
        ),
{
    let mut members: Vec<String> = vec![
        member_text("displayName", quote(display_name).as_str()),
        member_text("executor", quote("tmux").as_str()),
        member_text("idempotencyKey", quote(idempotency_key).as_str()),
        member_text("initialPrompt", quote(initial_prompt).as_str()),
    ];
    let ghost first = members.deep_view();
    proof {
        assert(first =~= seq![
            member("displayName"@, quoted(display_name@)),
            member("executor"@, quoted("tmux"@)),
            member("idempotencyKey"@, quoted(idempotency_key@)),
            member("initialPrompt"@, quoted(initial_prompt@)),
        ]);
    }
    if let Some(config) = mcp_config_json {
        members.push(
            member_text("mcpServers", one_member_object("businessos", config).as_str()),
        );
        members.push(
            member_text(
                "metadata",
                one_member_object("businessOsMcp", mcp_metadata_text().as_str()).as_str(),
            ),
        );
    }
    let ghost middle = members.deep_view();
    members.push(member_text("provider", quote("codex").as_str()));
    members.push(member_text("workDir", quote(effective_work_dir(work_dir)).as_str()));
    proof {
        let last = seq![
            member("provider"@, quoted("codex"@)),
            member("workDir"@, quoted(work_dir_of(work_dir@))),
        ];
        assert(members.deep_view() =~= middle + last);
        match mcp_config_json {
            Some(config) => {
                assert(middle =~= first + seq![
                    member("mcpServers"@, object_of(seq![member("businessos"@, config@)])),
                    member(
                        "metadata"@,
                        object_of(
                            seq![
                                member(
                                    "businessOsMcp"@,
                                    object_of(
                                        seq![
                                            member(
                                                "authorization"@,
                                                quoted("operator_bearer_token_required"@),
                                            ),
                                            member("requiresExplicitSelection"@, "true"@),
                                            member("serverName"@, quoted("businessos"@)),
                                        ],
                                    ),
                                ),
                            ],
                        ),
                    ),
                ]);
            },
            None => {
                assert(middle =~= first + Seq::<Seq<char>>::empty());
            },
        }
    }
    object_text(&members)
}

/// Why a session could not be opened. The texts are those of the HTTP client's
/// errors.
#[derive(Debug)]
pub enum MonitorError {
    ClientBuild(String),
    Request(String),
    Rejected,
    InvalidResponse,
}

/// The code of a monitor error.
pub open spec fn monitor_error_code(err: MonitorError) -> Seq<char> {
    match err {
        MonitorError::ClientBuild(_) => "work_queue_agent_client_build_failed"@,
        MonitorError::Request(_) => "work_queue_agent_monitor_request_failed"@,
        MonitorError::Rejected => "work_queue_agent_monitor_rejected"@,
        MonitorError::InvalidResponse => "work_queue_agent_monitor_response_invalid"@,
    }
}

impl MonitorError {
    pub fn code(&self) -> (r: &'static str)
        ensures
            r@ == monitor_error_code(*self),
    {
        match self {
            MonitorError::ClientBuild(_) => "work_queue_agent_client_build_failed",
            MonitorError::Request(_) => "work_queue_agent_monitor_request_failed",
            MonitorError::Rejected => "work_queue_agent_monitor_rejected",
            MonitorError::InvalidResponse => "work_queue_agent_monitor_response_invalid",
        }
    }
}

/// What the monitor's reply holds at the places where session and thread ids may
/// stand: nothing, something that is no string, or a string.
#[derive(Debug, Clone, PartialEq, Eq)]
pub struct MonitorReply {
    pub result_session_id: Option<Option<String>>,
    pub session_id: Option<Option<String>>,
    pub result_session_id_field: Option<Option<String>>,
    pub result_thread_id_field: Option<Option<String>>,
    pub result_thread_id: Option<Option<String>>,
    pub thread_id: Option<Option<String>>,
    pub thread_id_field: Option<Option<String>>,
    pub session_thread_id: Option<Option<String>>,
}

/// The first of two places that holds anything.
pub open spec fn first_present(
    a: Option<Option<Seq<char>>>,
    b: Option<Option<Seq<char>>>,
) -> Option<Option<Seq<char>>> {
    if a is Some {
        a
    } else {
        b
    }
}

/// The string at a place, where there is one.
pub open spec fn as_string(place: Option<Option<Seq<char>>>) -> Option<Seq<char>> {
    match place {
        Some(text) => text,
        None => None,
    }
}

/// What a [`MonitorReply`] says.
pub struct ReplyView {
    pub result_session_id: Option<Option<Seq<char>>>,
    pub session_id: Option<Option<Seq<char>>>,
    pub result_session_id_field: Option<Option<Seq<char>>>,
    pub result_thread_id_field: Option<Option<Seq<char>>>,
    pub result_thread_id: Option<Option<Seq<char>>>,
    pub thread_id: Option<Option<Seq<char>>>,
    pub thread_id_field: Option<Option<Seq<char>>>,
    pub session_thread_id: Option<Option<Seq<char>>>,
}

impl DeepView for MonitorReply {
    type V = ReplyView;

    open spec fn deep_view(&self) -> ReplyView {
        ReplyView {
            result_session_id: self.result_session_id.deep_view(),
            session_id: self.session_id.deep_view(),
            result_session_id_field: self.result_session_id_field.deep_view(),
            result_thread_id_field: self.result_thread_id_field.deep_view(),
            result_thread_id: self.result_thread_id.deep_view(),
            thread_id: self.thread_id.deep_view(),
            thread_id_field: self.thread_id_field.deep_view(),
            session_thread_id: self.session_thread_id.deep_view(),
        }
    }
}

/// The session id in a reply: where the session stands, else the reply's own field.
pub open spec fn reply_session_id(reply: ReplyView) -> Option<Seq<char>> {
    let in_session = as_string(first_present(reply.result_session_id, reply.session_id));
    if in_session is Some {
        in_session
    } else {
        as_string(reply.result_session_id_field)
    }
}

/// The thread id in a reply: at the first of its places that holds anything.
pub open spec fn reply_thread_id(reply: ReplyView) -> Option<Seq<char>> {
    as_string(
        first_present(
            reply.result_thread_id_field,
            first_present(
                reply.result_thread_id,
                first_present(
                    reply.thread_id,
                    first_present(reply.thread_id_field, reply.session_thread_id),
                ),
            ),
        ),
    )
}

/// The session that a reply opens; a reply without a session id is no answer.
pub open spec fn opened_session(reply: ReplyView, monitor_url: Seq<char>) -> Result<
    LaunchResponseView,
    MonitorError,
> {
    match reply_session_id(reply) {
        Some(session_id) => Ok(
            LaunchResponseView {
                session_id,
                thread_id: reply_thread_id(reply),
                monitor_url: Some(monitor_url),
                staged_evidence_paths: Seq::empty(),
            },
        ),
        None => Err(MonitorError::InvalidResponse),
    }
}

/// What a response, or the lack of one, says.
pub open spec fn session_view(r: Result<LaunchAgentResponse, MonitorError>) -> Result<
    LaunchResponseView,
    MonitorError,
> {
    match r {
        Ok(response) => Ok(response.deep_view()),
        Err(err) => Err(err),
    }
}

fn present_or(a: Option<Option<String>>, b: Option<Option<String>>) -> (r: Option<Option<String>>)
    ensures
        r.deep_view() == first_present(a.deep_view(), b.deep_view()),
{
    if a.is_some() {
        a
    } else {
        b
    }
}

fn string_at(place: Option<Option<String>>) -> (r: Option<String>)
    ensures
        r.deep_view() == as_string(place.deep_view()),
{
    match place {
        Some(text) => text,
        None => None,
    }
}

/// What a [`LaunchAgentResponse`] says.
pub struct LaunchResponseView {
    pub session_id: Seq<char>,
    pub thread_id: Option<Seq<char>>,
    pub monitor_url: Option<Seq<char>>,
    pub staged_evidence_paths: Seq<Seq<char>>,
}

impl DeepView for LaunchAgentResponse {
    type V = LaunchResponseView;

    open spec fn deep_view(&self) -> LaunchResponseView {
        LaunchResponseView {
            session_id: self.session_id@,
            thread_id: self.thread_id.deep_view(),
            monitor_url: self.monitor_url.deep_view(),
            staged_evidence_paths: self.staged_evidence_paths.deep_view(),
        }
    }
}

/// The session that a reply opens, with no evidence staged for it yet.
pub fn launch_response(reply: MonitorReply, monitor_url: &str) -> (r: Result<
    LaunchAgentResponse,
    MonitorError,
>)
    ensures
        session_view(r) == opened_session(reply.deep_view(), monitor_url@),
{
    let in_session: Option<String> = string_at(
        present_or(reply.result_session_id, reply.session_id),
    );
    let session_id: Option<String> = match in_session {
        Some(id) => Some(id),
        None => string_at(reply.result_session_id_field),
    };
    let thread_id: Option<String> = string_at(
        present_or(
            reply.result_thread_id_field,
            present_or(
                reply.result_thread_id,
                present_or(
                    reply.thread_id,
                    present_or(reply.thread_id_field, reply.session_thread_id),
                ),
            ),
        ),
    );
    match session_id {
        Some(session_id) => {
            let none: Vec<String> = Vec::new();
            proof {
                assert(none.deep_view() =~= Seq::<Seq<char>>::empty());
            }
            Ok(
                LaunchAgentResponse {
                    session_id,
                    thread_id,
                    monitor_url: Some(monitor_url.to_owned()),
                    staged_evidence_paths: none,
                },
            )
        },
        None => Err(MonitorError::InvalidResponse),
    }
}

/// What a reply's text holds at each place.
pub open spec fn reply_in(body: Seq<char>) -> ReplyView {
    ReplyView {
        result_session_id: pointed_text(body, "/result/session/id"@),
        session_id: pointed_text(body, "/session/id"@),
        result_session_id_field: pointed_text(body, "/result/sessionId"@),
        result_thread_id_field: pointed_text(body, "/result/threadId"@),
        result_thread_id: pointed_text(body, "/result/thread/id"@),
        thread_id: pointed_text(body, "/thread/id"@),
        thread_id_field: pointed_text(body, "/threadId"@),
        session_thread_id: pointed_text(body, "/session/threadId"@),
    }
}

/// What the monitor's reply holds at each place, where `body` is its text.
pub fn monitor_reply(body: &str) -> (r: MonitorReply)
    ensures
        r.deep_view() == reply_in(body@),
{
    MonitorReply {
        result_session_id: text_at_pointer(body, "/result/session/id"),
        session_id: text_at_pointer(body, "/session/id"),
        result_session_id_field: text_at_pointer(body, "/result/sessionId"),
        result_thread_id_field: text_at_pointer(body, "/result/threadId"),
        result_thread_id: text_at_pointer(body, "/result/thread/id"),
        thread_id: text_at_pointer(body, "/thread/id"),
        thread_id_field: text_at_pointer(body, "/threadId"),
        session_thread_id: text_at_pointer(body, "/session/threadId"),
    }
}

/// The request that opens a session: where it goes, what it carries, and the
/// bearer token it is sent with, where one is configured.
#[derive(Debug, Clone, PartialEq, Eq)]
pub struct MonitorPost {
    pub url: String,
    pub body: String,
    pub bearer_token: Option<String>,
}

/// Where a monitor takes session requests.
pub open spec fn sessions_url(monitor_url: Seq<char>) -> Seq<char> {
    monitor_url + "/api/agents/sessions"@
}

/// The bearer token of a session request: the configured one, where it is not blank.
pub open spec fn bearer_token_of(token: Option<Seq<char>>) -> Option<Seq<char>> {
    match token {
        Some(t) => if is_blank(t) {
            None
        } else {
            Some(trimmed(t))
        },
        None => None,
    }
}

/// The request that opens a session.
pub fn monitor_post(
    payload: &AgentLaunchOutboxPayload,
    token: Option<&str>,
    idempotency_key: &str,
    mcp_config_json: Option<&str>,
) -> (r: MonitorPost)
    ensures
        r.url@ == sessions_url(payload.monitor_url@),
        r.body@ == session_request(
            idempotency_key@,
            payload.display_name@,
            payload.initial_prompt@,
            payload.work_dir@,
            mcp_config_json.deep_view(),
        ),
        r.bearer_token.deep_view() == bearer_token_of(token.deep_view()),
{
    let bearer_token: Option<String> = match token {
        Some(t) => {
            let t: &str = t.trim();
            if t.is_empty() {
                None
            } else {
                Some(t.to_owned())
            }
        },
        None => None,
    };
    MonitorPost {
        url: payload.monitor_url.clone().concat("/api/agents/sessions"),
        body: monitor_session_request_body(
            idempotency_key,
            payload.display_name.as_str(),
            payload.initial_prompt.as_str(),
            payload.work_dir.as_str(),
            mcp_config_json,
        ),
        bearer_token,
    }
}

/// What comes of a session request: no session where the monitor did not take it,
/// else the one that its answer opens.
pub open spec fn session_opened(success: bool, body: Seq<char>, monitor_url: Seq<char>) -> Result<
    LaunchResponseView,
    MonitorError,
> {
    if success {
        opened_session(reply_in(body), monitor_url)
    } else {
        Err(MonitorError::Rejected)
    }
}

/// What comes of a session request, where the monitor answered with `body`.
pub fn post_monitor_agent_session(success: bool, body: &str, monitor_url: &str) -> (r: Result<
    LaunchAgentResponse,
    MonitorError,
>)
    ensures
        session_view(r) == session_opened(success, body@, monitor_url@),
{
    if !success {
        return Err(MonitorError::Rejected);
    }
    let reply: MonitorReply = monitor_reply(body);
    launch_response(reply, monitor_url)
}

/// A terminal outcome with this error.
pub open spec fn terminal(error: Seq<char>) -> AttemptView {
    AttemptView::Terminal { error, result_json: None }
}

/// What stands against a delivery: the job is none of a launch, or its payload cannot
/// be read.
pub open spec fn undeliverable(
    provider: Seq<char>,
    capability: Seq<char>,
    payload_error: Option<Seq<char>>,
) -> Option<AttemptView> {
    if provider != PROVIDER_AGENT_MONITOR@ || capability != CAPABILITY_LAUNCH_AGENT@ {
        Some(terminal("outbox_unsupported_job:"@ + provider + ":"@ + capability))
    } else {
        match payload_error {
            Some(error) => Some(terminal("work_queue_agent_payload_invalid:"@ + error)),
            None => None,
        }
    }
}

/// The error of a payload that cannot be read.
pub open spec fn payload_error(payload: Result<AgentLaunchOutboxPayload, String>) -> Option<
    Seq<char>,
> {
    match payload {
        Ok(_) => None,
        Err(error) => Some(error@),
    }
}

/// What a worker does with a claimed launch job: nothing, where it is not one or
/// its payload cannot be read, else a session is requested.
pub fn deliver(job: &ClaimedJob, payload: Result<AgentLaunchOutboxPayload, String>) -> (r: Result<
    AgentLaunchOutboxPayload,
    AttemptOutcome,
>)
    ensures
        match r {
            Ok(p) => undeliverable(job.provider@, job.capability@, payload_error(payload)) is None
                && payload == Ok::<AgentLaunchOutboxPayload, String>(p),
            Err(outcome) => undeliverable(job.provider@, job.capability@, payload_error(payload))
                == Some(outcome.deep_view()),
        },
{
    if !same_text(job.provider.as_str(), PROVIDER_AGENT_MONITOR) || !same_text(
        job.capability.as_str(),
        CAPABILITY_LAUNCH_AGENT,
    ) {
        return Err(
            AttemptOutcome::Terminal {
                error: "outbox_unsupported_job:".to_owned().concat(job.provider.as_str()).concat(
                    ":",
                ).concat(job.capability.as_str()),
                result_json: None,
            },
        );
    }
    match payload {
        Ok(p) => Ok(p),
        Err(err) => Err(
            AttemptOutcome::Terminal {
                error: "work_queue_agent_payload_invalid:".to_owned().concat(err.as_str()),
                result_json: None,
            },
        ),
    }
}

/// How a session request ends: delivered with the response's JSON (an empty object
/// where it has none), or for good.
pub open spec fn delivery_of(result: Result<Option<String>, MonitorError>) -> AttemptView {
    match result {
        Ok(Some(json)) => AttemptView::Delivered { result_json: json@ },
        Ok(None) => AttemptView::Delivered { result_json: "{}"@ },
        Err(err) => terminal(monitor_error_code(err)),
    }
}

/// How a session request ends.
///
/// Session creation is not proven idempotent on the monitor side. A transport
/// error after the monitor accepted the POST could otherwise be retried by the
/// outbox pump and create duplicate sessions, so no error is retried.
pub fn delivery_outcome(result: Result<Option<String>, MonitorError>) -> (r: AttemptOutcome)
    ensures
        r.deep_view() == delivery_of(result),
{
    match result {
        Ok(Some(json)) => AttemptOutcome::Delivered { result_json: json },
        Ok(None) => AttemptOutcome::Delivered { result_json: "{}".to_owned() },
        Err(err) => AttemptOutcome::Terminal { error: err.code().to_owned(), result_json: None },
    }
}

/// No launch is ever retried: every delivery ends delivered or for good.
pub proof fn launches_are_never_retried(result: Result<Option<String>, MonitorError>)
    ensures
        delivery_of(result) is Delivered || delivery_of(result) is Terminal,
{
}

/// A session's directory is never blank.
pub proof fn work_dirs_are_never_blank(raw: Seq<char>)
    ensures
        work_dir_of(raw).len() > 0,
{
    reveal_strlit("/home/example/projects/BusinessOS");
}

} // verus!
