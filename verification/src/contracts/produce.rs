//! Shared produce-stage wire types (every packet kind's produce route uses
//! the same kickoff shape).

use vstd::prelude::*;

verus! {

/// 202 body when a produce was kicked off in the background: the draft is
/// being generated and will appear in the drafts list / queue feed — poll,
/// don't wait on the request. Also returned when a produce for the same
/// item+kind is already running (the second click is a no-op).
#[derive(Debug, Clone, Copy, PartialEq, Eq)]
pub struct ProduceKickoffResponse {
    pub producing: bool,
}

/// Polled status for a background produce kickoff.
#[derive(Debug, Clone, PartialEq, Eq)]
pub enum ProduceStatusResponse {
    Producing,
    Failed {
        error_code: String,
        message: Option<String>,
        receipt_id: String,
        created_at_ms: u64,
    },
    Idle,
}

} // verus!
