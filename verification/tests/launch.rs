//! Prompts, contexts, job ids, and the steps of an agent launch.

use bos_work_queue::contracts::email_triage::{
    CategoryRecord, EmailAttachmentRecord, InboundMessageRecord,
};
use bos_work_queue::contracts::work_queue::{
    LaunchAgentRequest, LaunchAgentResponse, WorkItem, WorkItemSourceBodyFormat,
    WorkItemSourceResponse, WorkItemStatus,
};
use bos_work_queue::outbox::{AttemptOutcome, ClaimedJob};
use bos_work_queue::store_core::{MutationOutcome, StoreError};
use bos_work_queue::work_queue::agent_launch::{
    build_outbox_job, build_prompt, combine_context, deliver, delivery_outcome, effective_work_dir,
    job_id, job_id_from_digest, mcp_server_url, monitor_post, monitor_session_request_body,
    post_monitor_agent_session, resolve_work_dir, AgentLaunchOutboxPayload, MonitorError,
    DEFAULT_AGENT_WORK_DIR,
};
use bos_work_queue::work_queue::launch::{
    attachment_staged, item_read, job_claimed, job_read, launch_agent_from_item,
    launch_claimed_agent_job, launch_response_with_staged_paths, replay_read, request_recorded,
    result_read, source_read, AttachmentEvidenceError, FoundItem, LaunchAgentError, LaunchContext,
    LaunchStep,
};
use bos_work_queue::work_queue::routes::{launch_agent_error_response, ErrorAnswer};
use bos_work_queue::work_queue::service::{
    context_with_staged_evidence, dedupe_ids, resolve_agent_launch_defaults,
};

use sha2::Digest;

fn item() -> WorkItem {
    WorkItem {
        item_id: "wi_email_m1".into(),
        source_kind: "email".into(),
        source_ref: "m1".into(),
        category_id: "wythe_hotel".into(),
        title: "Invoice question".into(),
        summary: "They ask about line item 3".into(),
        packet_kinds: vec!["email_draft_reply".into()],
        status: WorkItemStatus::Open,
        accept_actor: None,
        ai_suggested: false,
        rationale: String::new(),
        produce_guidance: String::new(),
        source_user_id: None,
        assignee_user_id: None,
        visible_to_user_ids: Vec::new(),
        created_at_ms: 1,
        updated_at_ms: 1,
    }
}

fn source_with_attachment() -> WorkItemSourceResponse {
    WorkItemSourceResponse {
        source_kind: "email".to_string(),
        source_body: "See attached.".to_string(),
        source_body_format: WorkItemSourceBodyFormat::PlainText,
        message: InboundMessageRecord {
            source_key: "m1".to_string(),
            message_id: "m1".to_string(),
            thread_id: None,
            internal_date_ms: None,
            from_addr: Some("buyer@example.com".to_string()),
            to_addr: None,
            subject: Some("Quote files".to_string()),
            body_excerpt: "See attached.".to_string(),
            body_full: "See attached.".to_string(),
            headers: Vec::new(),
            labels: Vec::new(),
            resolved_category: "quote".to_string(),
            matched_rule_id: None,
            ingested_at_ms: 1,
            ai_triage_status: None,
            ai_triage_rationale: None,
            attachments: vec![EmailAttachmentRecord {
                attachment_id: "att-1".to_string(),
                part_id: Some("1".to_string()),
                filename: "spec.pdf".to_string(),
                mime_type: Some("application/pdf".to_string()),
                size_bytes: Some(1234),
                inline: false,
                content_id: None,
            }],
            source_user_id: None,
        },
    }
}

fn category() -> CategoryRecord {
    CategoryRecord {
        category_id: "billing".to_string(),
        display_name: "Billing".to_string(),
        description: "Invoices and payments".to_string(),
        color: "#10b981".to_string(),
        sort: 40,
        is_system: false,
        default_agent_dir: "/home/example/projects/billing-client".to_string(),
        default_agent_context: "Use the billing-client runbook.".to_string(),
    }
}

fn strings(values: &[&str]) -> Vec<String> {
    values.iter().map(|v| v.to_string()).collect()
}

#[test]
fn prompt_includes_item_facts_and_operator_notes() {
    let prompt = build_prompt(
        "Example Company",
        &item(),
        None,
        "look at ~/projects/wythe",
        "/tmp/wythe",
        None,
    );
    assert!(prompt.contains("Work item: wi_email_m1"));
    assert!(prompt.contains("Workdir: /tmp/wythe"));
    assert!(prompt.contains("Category: wythe_hotel"));
    assert!(prompt.contains("Suggested outputs: email_draft_reply"));
    assert!(prompt.contains("look at ~/projects/wythe"));
}

#[test]
fn prompt_marks_absent_operator_context() {
    let prompt = build_prompt("Example Company", &item(), None, "   ", "", None);
    assert!(prompt.contains("(none provided)"));
}

#[test]
fn prompt_includes_source_attachment_metadata_and_stage_endpoint() {
    let source = source_with_attachment();
    let prompt = build_prompt("Example Company", &item(), Some(&source), "", "", None);
    assert!(prompt.contains("--- Source attachments ---"));
    assert!(prompt.contains("spec.pdf (application/pdf, 1234 bytes; attachment_id=att-1)"));
    assert!(prompt.contains("/api/email-triage/inbox/m1/attachments/<attachment_id>/evidence"));
    assert!(prompt.contains("--- Required email thread check ---"));
    assert!(prompt.contains("bos_email_thread_read"));
    assert!(prompt.contains("Usually, do not create another reply draft"));
}

#[test]
fn prompt_names_the_mcp_server_where_one_is_configured() {
    let with = build_prompt("c", &item(), None, "", "", Some("https://mcp.example.test"));
    assert!(with.contains("--- Optional BusinessOS MCP ---"));
    assert!(with.contains("Server URL: https://mcp.example.test."));
    let without = build_prompt("c", &item(), None, "", "", None);
    assert!(!without.contains("MCP"));
}

#[test]
fn monitor_request_body_carries_idempotency_key() {
    let text = monitor_session_request_body("launch-1", "Work item", "prompt", "/tmp/bos", None);
    let body: serde_json::Value = serde_json::from_str(&text).expect("body is JSON");
    assert_eq!(
        body.pointer("/idempotencyKey").and_then(serde_json::Value::as_str),
        Some("launch-1")
    );
    assert_eq!(
        body.pointer("/workDir").and_then(serde_json::Value::as_str),
        Some("/tmp/bos")
    );
}

#[test]
fn monitor_request_body_escapes_what_json_escapes() {
    let text = monitor_session_request_body("k\"1", "a\\b", "line\n\u{1}end", "/tmp/é", None);
    let body: serde_json::Value = serde_json::from_str(&text).expect("body is JSON");
    assert_eq!(
        body.pointer("/idempotencyKey").and_then(serde_json::Value::as_str),
        Some("k\"1")
    );
    assert!(text.contains("line\\n\\u0001end"));
    assert!(text.contains("a\\\\b"));
}

#[test]
fn combines_category_default_and_request_context() {
    let combined = combine_context("Use the IMS repo", "Focus claims first");
    assert!(combined.contains("Category default context"));
    assert!(combined.contains("Use the IMS repo"));
    assert!(combined.contains("Launch override context"));
    assert!(combined.contains("Focus claims first"));
    assert_eq!(combine_context("  Use IMS  ", "  "), "Use IMS");
}

#[test]
fn combined_contexts_are_exact() {
    assert_eq!(combine_context("", "\u{3000} only this \t"), "only this");
    assert_eq!(combine_context(" ", "\n"), "");
    assert_eq!(
        combine_context("a", "b"),
        "--- Category default context ---\na\n\n--- Launch override context ---\nb"
    );
}

#[test]
fn resolves_work_dir_request_then_category_then_platform_default() {
    assert_eq!(
        effective_work_dir(resolve_work_dir(Some("/tmp/request"), "/tmp/category")),
        "/tmp/request"
    );
    assert_eq!(
        effective_work_dir(resolve_work_dir(Some("  "), "/tmp/category")),
        "/tmp/category"
    );
    assert_eq!(
        effective_work_dir(resolve_work_dir(None, "  ")),
        DEFAULT_AGENT_WORK_DIR
    );
}

#[test]
fn launch_defaults_apply_category_context_and_workdir_server_side() {
    let request = LaunchAgentRequest {
        context: "Focus overdue invoices.".to_string(),
        work_dir: None,
        attachment_ids: Vec::new(),
        idempotency_key: "launch-1".to_string(),
    };

    let resolved = resolve_agent_launch_defaults(Some(&category()), &request);

    assert_eq!(resolved.work_dir, "/home/example/projects/billing-client");
    assert!(resolved.context.contains("Category default context"));
    assert!(resolved.context.contains("Use the billing-client runbook."));
    assert!(resolved.context.contains("Launch override context"));
    assert!(resolved.context.contains("Focus overdue invoices."));
}

#[test]
fn launch_defaults_allow_request_workdir_override() {
    let request = LaunchAgentRequest {
        context: String::new(),
        work_dir: Some("/tmp/one-off".to_string()),
        attachment_ids: Vec::new(),
        idempotency_key: "launch-1".to_string(),
    };

    let resolved = resolve_agent_launch_defaults(Some(&category()), &request);

    assert_eq!(resolved.work_dir, "/tmp/one-off");
    assert_eq!(resolved.context, "Use the billing-client runbook.");
}

#[test]
fn job_ids_are_the_head_of_a_digest() {
    // SHA-256 of the bytes "abc": ba7816bf 8f01cfea ...
    let digest: [u8; 32] = [
        0xba, 0x78, 0x16, 0xbf, 0x8f, 0x01, 0xcf, 0xea, 0x41, 0x41, 0x40, 0xde, 0x5d, 0xae, 0x22,
        0x23, 0xb0, 0x03, 0x61, 0xa3, 0x96, 0x17, 0x7a, 0x9c, 0xb4, 0x10, 0xff, 0x61, 0xf2, 0x00,
        0x15, 0xad,
    ];
    assert_eq!(
        job_id_from_digest("wi_1", &digest),
        "agent_launch:wi_1:ba7816bf8f01cfea"
    );
}

#[test]
fn job_ids_hash_the_item_and_the_key() {
    let mut hasher = sha2::Sha256::new();
    hasher.update(b"wi_email_m1\0launch-1");
    let digest: [u8; 32] = hasher.finalize().into();
    assert_eq!(
        job_id("wi_email_m1", "launch-1"),
        job_id_from_digest("wi_email_m1", &digest)
    );
    assert_eq!(job_id("wi_1", "k"), job_id("wi_1", "k"));
    assert_ne!(job_id("wi_1", "k"), job_id("wi_1", "other"));
    assert_ne!(job_id("wi_1", "k"), job_id("wi_2", "k"));
}

#[test]
fn outbox_jobs_carry_their_payload() {
    let job = build_outbox_job(
        "wi_email_m1",
        "launch-1",
        "http://monitor.local",
        "BusinessOS work item wi_email_m1",
        "say \"hi\"",
        "  ",
    )
    .expect("job");
    assert_eq!(job.provider, "agent_monitor");
    assert_eq!(job.capability, "launch_agent");
    assert_eq!(job.source_entity_kind, "work_item_agent_launch");
    assert_eq!(job.source_entity_id, "wi_email_m1");
    assert_eq!(job.correlation_id.as_deref(), Some("wi_email_m1"));
    assert_eq!(job.idempotency_key, "launch-1");
    assert_eq!(job.job_id, job_id("wi_email_m1", "launch-1"));
    assert_eq!(
        job.payload_json,
        "{\"monitor_url\":\"http://monitor.local\",\"display_name\":\"BusinessOS work item wi_email_m1\",\"initial_prompt\":\"say \\\"hi\\\"\",\"work_dir\":\"/home/example/projects/BusinessOS\"}"
    );
}

#[test]
fn attachment_ids_are_deduped() {
    assert_eq!(
        dedupe_ids(&strings(&[" a ", "b", "a", "  ", "b"])),
        strings(&["a", "b"])
    );
}

#[test]
fn staged_files_are_listed_behind_the_context() {
    assert_eq!(context_with_staged_evidence(" keep ", &Vec::new()), " keep ");
    assert_eq!(
        context_with_staged_evidence("  notes ", &strings(&["/tmp/a", "/tmp/b"])),
        "notes\n\n--- Staged attachment files ---\n- /tmp/a\n- /tmp/b\n"
    );
    assert_eq!(
        context_with_staged_evidence(" ", &strings(&["/tmp/a"])),
        "--- Staged attachment files ---\n- /tmp/a\n"
    );
}

#[test]
fn mcp_server_url_is_read_from_the_configuration() {
    assert_eq!(mcp_server_url("{\"url\":\"https://x.test/mcp\"}"), "https://x.test/mcp");
    assert_eq!(mcp_server_url("{\"url\":3}"), "");
    assert_eq!(mcp_server_url("{}"), "");
    assert_eq!(mcp_server_url("not json"), "");
}

fn payload() -> AgentLaunchOutboxPayload {
    AgentLaunchOutboxPayload {
        monitor_url: "http://monitor.local".to_string(),
        display_name: "Work item".to_string(),
        initial_prompt: "prompt".to_string(),
        work_dir: "/tmp/bos".to_string(),
    }
}

#[test]
fn monitor_posts_go_to_the_sessions_endpoint() {
    let post = monitor_post(&payload(), Some("  secret "), "launch-1", None);
    assert_eq!(post.url, "http://monitor.local/api/agents/sessions");
    assert_eq!(post.bearer_token.as_deref(), Some("secret"));
    assert_eq!(
        post.body,
        monitor_session_request_body("launch-1", "Work item", "prompt", "/tmp/bos", None)
    );
    assert_eq!(monitor_post(&payload(), Some(" "), "k", None).bearer_token, None);
    assert_eq!(monitor_post(&payload(), None, "k", None).bearer_token, None);
}

#[test]
fn monitor_replies_open_sessions() {
    let url = "http://monitor.local";
    let opened = post_monitor_agent_session(
        true,
        "{\"result\":{\"session\":{\"id\":\"s-1\"},\"threadId\":\"t-1\"}}",
        url,
    )
    .expect("session");
    assert_eq!(opened.session_id, "s-1");
    assert_eq!(opened.thread_id.as_deref(), Some("t-1"));
    assert_eq!(opened.monitor_url.as_deref(), Some(url));
    assert!(opened.staged_evidence_paths.is_empty());
    let bare = post_monitor_agent_session(
        true,
        "{\"session\":{\"id\":\"s-2\",\"threadId\":\"t-2\"}}",
        url,
    )
    .expect("session");
    assert_eq!(bare.session_id, "s-2");
    assert_eq!(bare.thread_id.as_deref(), Some("t-2"));
    let field = post_monitor_agent_session(true, "{\"result\":{\"sessionId\":\"s-3\"}}", url)
        .expect("session");
    assert_eq!(field.session_id, "s-3");
    assert_eq!(field.thread_id, None);
    // A place that is present but holds no string hides the places behind it.
    let hidden = post_monitor_agent_session(
        true,
        "{\"session\":{\"id\":\"s-4\"},\"result\":{\"threadId\":7},\"threadId\":\"t-4\"}",
        url,
    )
    .expect("session");
    assert_eq!(hidden.thread_id, None);
    assert!(matches!(
        post_monitor_agent_session(false, "{\"session\":{\"id\":\"s-1\"}}", url),
        Err(MonitorError::Rejected)
    ));
    assert!(matches!(
        post_monitor_agent_session(true, "{}", url),
        Err(MonitorError::InvalidResponse)
    ));
    assert!(post_monitor_agent_session(true, "no json", url).is_err());
}

fn claimed_job() -> ClaimedJob {
    ClaimedJob {
        job_id: "agent_launch:wi_email_m1:00".to_string(),
        provider: "agent_monitor".to_string(),
        capability: "launch_agent".to_string(),
        payload_json: "{}".to_string(),
        idempotency_key: "launch-1".to_string(),
    }
}

#[test]
fn only_launch_jobs_are_delivered() {
    assert_eq!(deliver(&claimed_job(), Ok(payload())), Ok(payload()));
    let mut other = claimed_job();
    other.provider = "gmail".to_string();
    assert_eq!(
        deliver(&other, Ok(payload())),
        Err(AttemptOutcome::Terminal {
            error: "outbox_unsupported_job:gmail:launch_agent".to_string(),
            result_json: None,
        })
    );
    assert_eq!(
        deliver(&claimed_job(), Err("missing field".to_string())),
        Err(AttemptOutcome::Terminal {
            error: "work_queue_agent_payload_invalid:missing field".to_string(),
            result_json: None,
        })
    );
}

#[test]
fn deliveries_end_delivered_or_for_good() {
    assert_eq!(
        delivery_outcome(Ok(Some("{\"a\":1}".to_string()))),
        AttemptOutcome::Delivered { result_json: "{\"a\":1}".to_string() }
    );
    assert_eq!(
        delivery_outcome(Ok(None)),
        AttemptOutcome::Delivered { result_json: "{}".to_string() }
    );
    assert!(matches!(
        delivery_outcome(Err(MonitorError::Rejected)),
        AttemptOutcome::Terminal { .. }
    ));
}

fn launch_request(attachments: &[&str]) -> LaunchAgentRequest {
    LaunchAgentRequest {
        context: "Please check.".to_string(),
        work_dir: None,
        attachment_ids: strings(attachments),
        idempotency_key: "launch-1".to_string(),
    }
}

fn context<'a>(request: &'a LaunchAgentRequest) -> LaunchContext<'a> {
    LaunchContext {
        client_id: "test-client",
        item_id: "wi_email_m1",
        request,
        launch_enabled: true,
        monitor_url: Some(" http://monitor.local// "),
        mcp_server_url: None,
    }
}

fn response() -> LaunchAgentResponse {
    LaunchAgentResponse {
        session_id: "s-1".to_string(),
        thread_id: None,
        monitor_url: None,
        staged_evidence_paths: Vec::new(),
    }
}

fn found() -> FoundItem {
    FoundItem {
        monitor_url: "http://monitor.local".to_string(),
        job_id: job_id("wi_email_m1", "launch-1"),
        item: item(),
    }
}

#[test]
fn launching_wants_the_switch_and_a_monitor() {
    let request = launch_request(&[]);
    let mut ctx = context(&request);
    assert!(matches!(
        launch_agent_from_item(&ctx),
        LaunchStep::ReadItem { monitor_url } if monitor_url == "http://monitor.local"
    ));
    ctx.monitor_url = Some(" / ");
    assert!(matches!(
        launch_agent_from_item(&ctx),
        LaunchStep::Finish { answer: Err(LaunchAgentError::MonitorUnconfigured) }
    ));
    ctx.monitor_url = None;
    assert!(matches!(
        launch_agent_from_item(&ctx),
        LaunchStep::Finish { answer: Err(LaunchAgentError::MonitorUnconfigured) }
    ));
    ctx.launch_enabled = false;
    assert!(matches!(
        launch_agent_from_item(&ctx),
        LaunchStep::Finish { answer: Err(LaunchAgentError::Disabled) }
    ));
}

#[test]
fn launches_are_looked_up_before_they_are_made() {
    let request = launch_request(&[]);
    let ctx = context(&request);
    let url = "http://monitor.local".to_string();
    assert!(matches!(
        item_read(&ctx, url.clone(), Ok(None)),
        LaunchStep::Finish { answer: Err(LaunchAgentError::ItemNotFound) }
    ));
    assert!(matches!(
        item_read(&ctx, url.clone(), Err(StoreError::Domain("x".to_string()))),
        LaunchStep::Finish { answer: Err(LaunchAgentError::Store(_)) }
    ));
    assert!(matches!(
        item_read(&ctx, url, Ok(Some(item()))),
        LaunchStep::ReadResult { found } if found.job_id == job_id("wi_email_m1", "launch-1")
    ));
    assert!(matches!(
        result_read(found(), Ok(Some(Some(response())))),
        LaunchStep::ReadPaths { response, .. } if response.session_id == "s-1"
    ));
    assert!(matches!(
        result_read(found(), Ok(Some(None))),
        LaunchStep::Finish { answer: Err(LaunchAgentError::ResultInvalid) }
    ));
    assert!(matches!(result_read(found(), Ok(None)), LaunchStep::ReadJob { .. }));
    assert!(matches!(
        job_read(found(), Ok(true)),
        LaunchStep::Finish { answer: Err(LaunchAgentError::AlreadyRequested) }
    ));
    assert!(matches!(job_read(found(), Ok(false)), LaunchStep::ReadSource { .. }));
}

#[test]
fn attachments_are_staged_before_the_request_is_recorded() {
    let request = launch_request(&["att-1", " att-2 ", "att-1", " "]);
    let ctx = context(&request);
    let step = source_read(
        &ctx,
        found(),
        Some(source_with_attachment()),
        Ok(Some(category())),
    );
    let LaunchStep::StageAttachment { attachment_id, source_ref, evidence, prepared } = step else {
        panic!("an attachment is staged first");
    };
    assert_eq!(attachment_id, "att-1");
    assert_eq!(source_ref, "m1");
    assert_eq!(evidence.session_id, job_id("wi_email_m1", "launch-1"));
    assert_eq!(evidence.item_id.as_deref(), Some("wi_email_m1"));
    assert_eq!(
        evidence.target_dir.as_deref(),
        Some("/home/example/projects/billing-client")
    );
    assert_eq!(evidence.idempotency_key, "launch-1:attachment:att-1");
    let step = attachment_staged(&ctx, prepared, Ok("/tmp/one".to_string()));
    let LaunchStep::StageAttachment { attachment_id, evidence, prepared, .. } = step else {
        panic!("the second attachment is staged");
    };
    assert_eq!(attachment_id, "att-2");
    assert_eq!(evidence.idempotency_key, "launch-1:attachment:att-2");
    let step = attachment_staged(&ctx, prepared, Ok("/tmp/two".to_string()));
    let LaunchStep::Record { job, operator_context, staged } = step else {
        panic!("the request is recorded");
    };
    assert_eq!(staged, strings(&["/tmp/one", "/tmp/two"]));
    assert!(operator_context.ends_with("--- Staged attachment files ---\n- /tmp/one\n- /tmp/two\n"));
    assert_eq!(job.job_id, job_id("wi_email_m1", "launch-1"));
    let payload: serde_json::Value = serde_json::from_str(&job.payload_json).expect("payload");
    assert_eq!(
        payload.pointer("/display_name").and_then(serde_json::Value::as_str),
        Some("BusinessOS work item wi_email_m1")
    );
    let prompt = payload
        .pointer("/initial_prompt")
        .and_then(serde_json::Value::as_str)
        .expect("prompt");
    assert!(prompt.contains("- /tmp/two"));
    assert!(prompt.contains("Use the billing-client runbook."));
}

#[test]
fn only_email_items_stage_attachments() {
    let request = launch_request(&["att-1"]);
    let ctx = context(&request);
    let mut note = found();
    note.item.source_kind = "operator_note".to_string();
    assert!(matches!(
        source_read(&ctx, note, None, Ok(None)),
        LaunchStep::Record { staged, .. } if staged.is_empty()
    ));
}

#[test]
fn a_failed_attachment_ends_the_launch() {
    let request = launch_request(&["att-1"]);
    let ctx = context(&request);
    let LaunchStep::StageAttachment { prepared, .. } = source_read(&ctx, found(), None, Ok(None))
    else {
        panic!("an attachment is staged first");
    };
    assert!(matches!(
        attachment_staged(&ctx, prepared, Err(AttachmentEvidenceError::AttachmentTooLarge)),
        LaunchStep::Finish {
            answer: Err(LaunchAgentError::AttachmentStageFailed(
                AttachmentEvidenceError::AttachmentTooLarge
            ))
        }
    ));
}

#[test]
fn only_applied_requests_are_claimed() {
    let applied = MutationOutcome::Applied { receipt_id: "r".to_string(), revision: 1 };
    assert!(matches!(
        request_recorded("j".to_string(), strings(&["/tmp/a"]), Ok(applied)),
        LaunchStep::Claim { job_id, staged } if job_id == "j" && staged == strings(&["/tmp/a"])
    ));
    let replayed =
        MutationOutcome::ReplayedIdempotent { receipt_id: "r".to_string(), revision: Some(1) };
    assert!(matches!(
        request_recorded("j".to_string(), Vec::new(), Ok(replayed)),
        LaunchStep::ReadReplay { job_id } if job_id == "j"
    ));
    let conflict =
        MutationOutcome::RevisionConflict { receipt_id: "r".to_string(), current_revision: None };
    assert!(matches!(
        request_recorded("j".to_string(), Vec::new(), Ok(conflict)),
        LaunchStep::Finish { answer: Err(LaunchAgentError::AlreadyRequested) }
    ));
    assert!(matches!(
        replay_read("j".to_string(), Ok(None)),
        LaunchStep::Finish { answer: Err(LaunchAgentError::AlreadyRequested) }
    ));
    assert!(matches!(
        replay_read("j".to_string(), Ok(Some(Some(response())))),
        LaunchStep::ReadPaths { session_id, .. } if session_id == "j"
    ));
    let answer = launch_response_with_staged_paths(response(), Ok(strings(&["/tmp/kept"])))
        .expect("response");
    assert_eq!(answer.staged_evidence_paths, strings(&["/tmp/kept"]));
}

#[test]
fn launches_answer_with_the_delivered_result() {
    assert!(matches!(
        job_claimed(Vec::new(), Ok(None)),
        LaunchStep::Finish { answer: Err(LaunchAgentError::JobNotClaimable) }
    ));
    assert!(matches!(
        job_claimed(Vec::new(), Ok(Some(claimed_job()))),
        LaunchStep::Deliver { .. }
    ));
    let delivered = AttemptOutcome::Delivered { result_json: "{}".to_string() };
    let answer = launch_claimed_agent_job(
        strings(&["/tmp/a"]),
        &delivered,
        Ok("delivered".to_string()),
        Some(response()),
    )
    .expect("answer");
    assert_eq!(answer.session_id, "s-1");
    assert_eq!(answer.staged_evidence_paths, strings(&["/tmp/a"]));
    assert!(matches!(
        launch_claimed_agent_job(Vec::new(), &delivered, Ok("delivered".to_string()), None),
        Err(LaunchAgentError::ResultInvalid)
    ));
    assert!(matches!(
        launch_claimed_agent_job(
            Vec::new(),
            &delivered,
            Ok("failed_terminal".to_string()),
            Some(response())
        ),
        Err(LaunchAgentError::DeliveryFailed)
    ));
    let unknown = AttemptOutcome::OutcomeUnknown { error: "x".to_string() };
    assert!(matches!(
        launch_claimed_agent_job(
            Vec::new(),
            &unknown,
            Ok("delivered".to_string()),
            Some(response())
        ),
        Err(LaunchAgentError::DeliveryFailed)
    ));
}

fn refusal(err: LaunchAgentError) -> (u16, String) {
    match launch_agent_error_response(err) {
        ErrorAnswer::Refused { status, code } => (status, code),
        ErrorAnswer::Store(err) => panic!("store error {err:?}"),
    }
}

#[test]
fn launch_agent_preserves_attachment_staging_errors() {
    let staged = |err| refusal(LaunchAgentError::AttachmentStageFailed(err));
    assert_eq!(
        staged(AttachmentEvidenceError::AttachmentNotFound),
        (404, "email_attachment_not_found".to_string())
    );
    assert_eq!(
        staged(AttachmentEvidenceError::CredentialMissing),
        (422, "gmail_credential_missing".to_string())
    );
    assert_eq!(
        staged(AttachmentEvidenceError::AttachmentTooLarge),
        (413, "email_attachment_too_large".to_string())
    );
}

#[test]
fn launch_errors_have_their_codes() {
    let expected = [
        (LaunchAgentError::Disabled, 404, "route_not_found"),
        (LaunchAgentError::MonitorUnconfigured, 422, "agent_monitor_unconfigured"),
        (LaunchAgentError::ItemNotFound, 404, "work_item_not_found"),
        (LaunchAgentError::PayloadBuild, 500, "work_queue_agent_payload_build_failed"),
        (LaunchAgentError::AlreadyRequested, 409, "agent_launch_already_requested"),
        (LaunchAgentError::ResultInvalid, 502, "work_queue_agent_result_invalid"),
        (LaunchAgentError::JobNotClaimable, 502, "work_queue_agent_job_not_claimable"),
        (LaunchAgentError::DeliveryFailed, 502, "work_queue_agent_monitor_delivery_failed"),
        (LaunchAgentError::JoinFailed, 500, "work_queue_agent_spawn_join_failed"),
    ];
    for (err, status, code) in expected {
        assert_eq!(refusal(err), (status, code.to_string()));
    }
    assert!(matches!(
        launch_agent_error_response(LaunchAgentError::Store(StoreError::Domain("x".to_string()))),
        ErrorAnswer::Store(StoreError::Domain(code)) if code == "x"
    ));
}
