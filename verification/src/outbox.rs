//! Outbox jobs: provider work that is recorded before it is attempted.

use vstd::prelude::*;

verus! {

/// The status of a job whose provider accepted it.
pub const STATUS_DELIVERED: &'static str = "delivered";

/// A job to enqueue with the mutation that asks for it.
#[derive(Debug, Clone, PartialEq, Eq)]
pub struct NewOutboxJob {
    pub job_id: String,
    pub provider: String,
    pub capability: String,
    pub payload_json: String,
    pub source_entity_kind: String,
    pub source_entity_id: String,
    pub correlation_id: Option<String>,
    pub causation_id: Option<String>,
    pub idempotency_key: String,
}

/// What a [`NewOutboxJob`] says.
pub struct JobView {
    pub job_id: Seq<char>,
    pub provider: Seq<char>,
    pub capability: Seq<char>,
    pub payload_json: Seq<char>,
    pub source_entity_kind: Seq<char>,
    pub source_entity_id: Seq<char>,
    pub correlation_id: Option<Seq<char>>,
    pub causation_id: Option<Seq<char>>,
    pub idempotency_key: Seq<char>,
}

impl DeepView for NewOutboxJob {
    type V = JobView;

    open spec fn deep_view(&self) -> JobView {
        JobView {
            job_id: self.job_id@,
            provider: self.provider@,
            capability: self.capability@,
            payload_json: self.payload_json@,
            source_entity_kind: self.source_entity_kind@,
            source_entity_id: self.source_entity_id@,
            correlation_id: self.correlation_id.deep_view(),
            causation_id: self.causation_id.deep_view(),
            idempotency_key: self.idempotency_key@,
        }
    }
}

impl NewOutboxJob {
    pub fn copy(&self) -> (r: NewOutboxJob)
        ensures
            r.deep_view() == self.deep_view(),
    {
        NewOutboxJob {
            job_id: self.job_id.clone(),
            provider: self.provider.clone(),
            capability: self.capability.clone(),
            payload_json: self.payload_json.clone(),
            source_entity_kind: self.source_entity_kind.clone(),
            source_entity_id: self.source_entity_id.clone(),
            correlation_id: self.correlation_id.clone(),
            causation_id: self.causation_id.clone(),
            idempotency_key: self.idempotency_key.clone(),
        }
    }
}

/// A job that a worker holds.
#[derive(Debug, Clone, PartialEq, Eq)]
pub struct ClaimedJob {
    pub job_id: String,
    pub provider: String,
    pub capability: String,
    pub payload_json: String,
    pub idempotency_key: String,
}

/// How an attempt at a job ended.
#[derive(Debug, Clone, PartialEq, Eq)]
pub enum AttemptOutcome {
    Delivered { result_json: String },
    Retry { error: String },
    Terminal { error: String, result_json: Option<String> },
    OutcomeUnknown { error: String },
}

/// What an [`AttemptOutcome`] says.
pub enum AttemptView {
    Delivered { result_json: Seq<char> },
    Retry { error: Seq<char> },
    Terminal { error: Seq<char>, result_json: Option<Seq<char>> },
    OutcomeUnknown { error: Seq<char> },
}

impl DeepView for AttemptOutcome {
    type V = AttemptView;

    open spec fn deep_view(&self) -> AttemptView {
        match self {
            AttemptOutcome::Delivered { result_json } => AttemptView::Delivered {
                result_json: result_json@,
            },
            AttemptOutcome::Retry { error } => AttemptView::Retry { error: error@ },
            AttemptOutcome::Terminal { error, result_json } => AttemptView::Terminal {
                error: error@,
                result_json: result_json.deep_view(),
            },
            AttemptOutcome::OutcomeUnknown { error } => AttemptView::OutcomeUnknown {
                error: error@,
            },
        }
    }
}

} // verus!
