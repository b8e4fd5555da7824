//! Generic outbox operator actions. Outbox job summaries are embedded in draft
//! read models; these requests cover recovery actions on the shared delivery
//! spine.

use vstd::prelude::*;

verus! {

#[derive(Debug, Clone, PartialEq, Eq)]
pub struct OutboxRetryRequest {
    pub idempotency_key: String,
    pub actor_id: Option<String>,
}

} // verus!
