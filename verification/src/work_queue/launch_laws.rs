//! What a launch does with each thing it reads, and what is sent to the monitor.

use vstd::prelude::*;

use crate::contracts::email_triage::InboundMessageRecord;
use crate::contracts::work_queue::{LaunchAgentResponse, WorkItem, WorkItemStatus};
use crate::json::pointed_text;
use crate::outbox::ClaimedJob;
use crate::store_core::StoreError;
use crate::text::{has_text, trimmed};
use super::agent_launch::{
    bearer_token_of, payload_error, session_opened, sessions_url, undeliverable,
    AgentLaunchOutboxPayload,
};
use super::feed::accepted_ids;
use super::launch::{
    after_claim, after_item, after_job, after_replay, after_result, launch_job_id, FoundView,
    LaunchAgentError, LaunchContext, LaunchStepView,
};
use super::model::EntryView;
use super::prompt_laws::stands_between;
use super::service::{is_html, shown_body};

verus! {

/// A launch goes on from an item that is in scope, with that item and the monitor it
/// started with; it ends where the item cannot be read or is not there.
pub proof fn launches_go_on_from_their_item(
    ctx: LaunchContext<'_>,
    monitor_url: Seq<char>,
    item: Result<Option<WorkItem>, StoreError>,
)
    ensures
        ({
            let step = after_item(ctx, monitor_url, item);
            &&& item is Ok && item->Ok_0 is Some ==> step is ReadResult
                && step->ReadResult_found.monitor_url == monitor_url
                && step->ReadResult_found.job_id == launch_job_id(ctx)
                && step->ReadResult_found.item == item->Ok_0->Some_0.deep_view()
            &&& item is Ok && item->Ok_0 is None ==> step is Finish && step->answer is Err
                && step->answer->Err_0 is ItemNotFound
            &&& item is Err ==> step is Finish && step->answer is Err && step->answer->Err_0
                == LaunchAgentError::Store(item->Err_0)
        }),
{
}

/// A launch whose job has a result is answered with it and not started again; one
/// whose job is on its way is refused; only one without a job goes on to its source.
pub proof fn launches_are_started_once(
    found: FoundView,
    result: Result<Option<Option<LaunchAgentResponse>>, StoreError>,
    exists: Result<bool, StoreError>,
)
    ensures
        ({
            let step = after_result(found, result);
            &&& result is Ok && result->Ok_0 is Some && result->Ok_0->Some_0 is Some ==> step
                is ReadPaths && step->ReadPaths_session_id == found.job_id && step->response
                == result->Ok_0->Some_0->Some_0.deep_view()
            &&& result is Ok && result->Ok_0 is Some && result->Ok_0->Some_0 is None ==> step
                is Finish && step->answer is Err && step->answer->Err_0 is ResultInvalid
            &&& result is Ok && result->Ok_0 is None ==> step == (LaunchStepView::ReadJob { found })
            &&& result is Err ==> step is Finish && step->answer is Err && step->answer->Err_0
                == LaunchAgentError::Store(result->Err_0)
        }),
        ({
            let step = after_job(found, exists);
            &&& exists is Ok && exists->Ok_0 ==> step is Finish && step->answer is Err
                && step->answer->Err_0 is AlreadyRequested
            &&& exists is Ok && !exists->Ok_0 ==> step == (LaunchStepView::ReadSource { found })
            &&& exists is Err ==> step is Finish && step->answer is Err && step->answer->Err_0
                == LaunchAgentError::Store(exists->Err_0)
        }),
{
}

/// A request that was recorded before is answered with its job's result where it has
/// one, and refused as asked for before where it has none yet.
pub proof fn repeated_requests_are_answered_from_their_job(
    job_id: Seq<char>,
    result: Result<Option<Option<LaunchAgentResponse>>, StoreError>,
)
    ensures
        ({
            let step = after_replay(job_id, result);
            &&& result is Ok && result->Ok_0 is None ==> step is Finish && step->answer is Err
                && step->answer->Err_0 is AlreadyRequested
            &&& result is Ok && result->Ok_0 is Some && result->Ok_0->Some_0 is Some ==> step
                is ReadPaths && step->ReadPaths_session_id == job_id && step->response
                == result->Ok_0->Some_0->Some_0.deep_view()
            &&& result is Ok && result->Ok_0 is Some && result->Ok_0->Some_0 is None ==> step
                is Finish && step->answer is Err && step->answer->Err_0 is ResultInvalid
            &&& result is Err ==> step is Finish && step->answer is Err && step->answer->Err_0
                == LaunchAgentError::Store(result->Err_0)
        }),
{
}

/// A job that is claimed is delivered, with the evidence that was staged for it; a
/// job that another worker holds is not.
pub proof fn claimed_jobs_are_delivered(
    staged: Seq<Seq<char>>,
    claimed: Result<Option<ClaimedJob>, StoreError>,
)
    ensures
        ({
            let step = after_claim(staged, claimed);
            &&& claimed is Ok && claimed->Ok_0 is Some ==> step is Deliver && step->Deliver_job
                == claimed->Ok_0->Some_0 && step->Deliver_staged == staged
            &&& claimed is Ok && claimed->Ok_0 is None ==> step is Finish && step->answer is Err
                && step->answer->Err_0 is JobNotClaimable
            &&& claimed is Err ==> step is Finish && step->answer is Err && step->answer->Err_0
                == LaunchAgentError::Store(claimed->Err_0)
        }),
{
}

/// Sessions are asked for at the monitor's own address, with the configured token
/// without the white space around it, or with none where there is nothing in it.
pub proof fn session_requests_go_to_the_monitor(monitor_url: Seq<char>, token: Option<Seq<char>>)
    ensures
        sessions_url(monitor_url).take(monitor_url.len() as int) == monitor_url,
        sessions_url(monitor_url).skip(monitor_url.len() as int) == "/api/agents/sessions"@,
        bearer_token_of(token) is Some <==> token is Some && trimmed(token->Some_0).len() > 0,
        bearer_token_of(token) is Some ==> bearer_token_of(token)->Some_0 == trimmed(
            token->Some_0,
        ),
{
    assert(sessions_url(monitor_url).take(monitor_url.len() as int) =~= monitor_url);
    assert(sessions_url(monitor_url).skip(monitor_url.len() as int) =~= "/api/agents/sessions"@);
}

/// A reply opens the session whose id it names: that of its result, else its own,
/// else the field of its result; a request that the monitor did not take opens none,
/// and neither does a reply without an id.
pub proof fn replies_are_read_where_ids_stand(body: Seq<char>, monitor_url: Seq<char>)
    ensures
        session_opened(false, body, monitor_url) is Err && session_opened(
            false,
            body,
            monitor_url,
        )->Err_0 is Rejected,
        ({
            let opened = session_opened(true, body, monitor_url);
            let in_result = pointed_text(body, "/result/session/id"@);
            let at_top = pointed_text(body, "/session/id"@);
            let field = pointed_text(body, "/result/sessionId"@);
            &&& in_result is Some && in_result->Some_0 is Some ==> opened is Ok
                && opened->Ok_0.session_id == in_result->Some_0->Some_0
            &&& in_result is None && at_top is Some && at_top->Some_0 is Some ==> opened is Ok
                && opened->Ok_0.session_id == at_top->Some_0->Some_0
            &&& in_result is None && at_top is None && field is Some && field->Some_0 is Some
                ==> opened is Ok && opened->Ok_0.session_id == field->Some_0->Some_0
            &&& in_result is None && at_top is None && field is None ==> opened is Err
                && opened->Err_0 is InvalidResponse
            &&& opened is Ok ==> opened->Ok_0.monitor_url == Some(monitor_url)
                && opened->Ok_0.staged_evidence_paths.len() == 0
        }),
        ({
            let opened = session_opened(true, body, monitor_url);
            let first = pointed_text(body, "/result/threadId"@);
            let second = pointed_text(body, "/result/thread/id"@);
            let third = pointed_text(body, "/thread/id"@);
            let fourth = pointed_text(body, "/threadId"@);
            let fifth = pointed_text(body, "/session/threadId"@);
            opened is Ok ==> {
                let thread = opened->Ok_0.thread_id;
                &&& first is Some ==> thread == first->Some_0
                &&& first is None && second is Some ==> thread == second->Some_0
                &&& first is None && second is None && third is Some ==> thread == third->Some_0
                &&& first is None && second is None && third is None && fourth is Some ==> thread
                    == fourth->Some_0
                &&& first is None && second is None && third is None && fourth is None && fifth
                    is Some ==> thread == fifth->Some_0
                &&& first is None && second is None && third is None && fourth is None && fifth
                    is None ==> thread is None
            }
        }),
{
}

/// A job is delivered exactly where it asks the monitor to launch an agent and its
/// payload can be read; else it is given up, with an error that names the job's kind
/// or what is wrong with its payload.
pub proof fn undeliverable_jobs_are_given_up(
    provider: Seq<char>,
    capability: Seq<char>,
    payload: Result<AgentLaunchOutboxPayload, String>,
)
    ensures
        ({
            let refused = undeliverable(provider, capability, payload_error(payload));
            let launches = provider == "agent_monitor"@ && capability == "launch_agent"@;
            &&& refused is None <==> launches && payload is Ok
            &&& refused is Some ==> refused->Some_0 is Terminal
                && refused->Some_0->Terminal_result_json is None
            &&& !launches ==> has_text(refused->Some_0->Terminal_error, provider) && has_text(
                refused->Some_0->Terminal_error,
                capability,
            )
            &&& launches && payload is Err ==> has_text(
                refused->Some_0->Terminal_error,
                payload->Err_0@,
            )
        }),
{
    if !(provider == "agent_monitor"@ && capability == "launch_agent"@) {
        let error = "outbox_unsupported_job:"@ + provider + ":"@ + capability;
        stands_between("outbox_unsupported_job:"@, provider, ":"@ + capability);
        assert("outbox_unsupported_job:"@ + provider + (":"@ + capability) =~= error);
        stands_between("outbox_unsupported_job:"@ + provider + ":"@, capability, Seq::empty());
        assert(error + Seq::<char>::empty() =~= error);
    } else if payload is Err {
        let error = "work_queue_agent_payload_invalid:"@ + payload->Err_0@;
        stands_between("work_queue_agent_payload_invalid:"@, payload->Err_0@, Seq::empty());
        assert(error + Seq::<char>::empty() =~= error);
    }
}

/// A source is shown with the HTML that was kept of it, as HTML; else with the
/// message's full body, or its excerpt where that is blank, in the format that its
/// text has.
pub proof fn sources_are_shown_in_full(html: Option<Seq<char>>, message: InboundMessageRecord)
    ensures
        ({
            let (body, format) = shown_body(html, message);
            &&& html is Some ==> body == html->Some_0 && format is Html
            &&& html is None && trimmed(message.body_full@).len() > 0 ==> body == message.body_full@
            &&& html is None && trimmed(message.body_full@).len() == 0 ==> body
                == message.body_excerpt@
            &&& html is None ==> (format is Html <==> is_html(body))
        }),
{
}

/// The feed reads the signals of the accepted entries and of no others, in the order
/// of the queue.
pub proof fn signals_are_read_for_accepted_items(items: Seq<EntryView>)
    ensures
        accepted_ids(items) == items.filter(
            |entry: EntryView| entry.item.status == WorkItemStatus::Accepted,
        ).map_values(|entry: EntryView| entry.item.item_id),
    decreases items.len(),
{
    let keep = |entry: EntryView| entry.item.status == WorkItemStatus::Accepted;
    let id = |entry: EntryView| entry.item.item_id;
    reveal(Seq::filter);
    if items.len() > 0 {
        let front = items.drop_last();
        signals_are_read_for_accepted_items(front);
        if keep(items.last()) {
            assert(front.filter(keep).push(items.last()).map_values(id) =~= front.filter(
                keep,
            ).map_values(id).push(id(items.last())));
        }
    } else {
        assert(items.filter(keep).map_values(id) =~= Seq::<Seq<char>>::empty());
    }
}

} // verus!
