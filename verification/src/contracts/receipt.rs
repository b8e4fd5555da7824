use vstd::prelude::*;

verus! {

/// Wire form of a mutation receipt. Every mutation in the system produces one,
/// success or failure — this is the audit trail the future central dashboard reads.
#[derive(Debug, Clone, PartialEq, Eq)]
pub struct ReceiptDto {
    pub receipt_id: String,
    pub client_id: String,
    pub entity_kind: String,
    pub entity_id: String,
    pub change_kind: String,
    pub actor_id: String,
    pub actor_kind: ActorKindDto,
    pub outcome: ReceiptOutcomeDto,
    pub error_class: Option<String>,
    pub revision_before: Option<u64>,
    pub revision_after: Option<u64>,
    pub idempotency_key: String,
    pub correlation_id: Option<String>,
    pub causation_id: Option<String>,
    pub created_at_ms: u64,
}

#[derive(Debug, Clone, Copy, PartialEq, Eq, Structural)]
pub enum ActorKindDto {
    Operator,
    System,
    Agent,
}

#[derive(Debug, Clone, Copy, PartialEq, Eq, Structural)]
pub enum ReceiptOutcomeDto {
    Applied,
    ReplayedIdempotent,
    RevisionConflict,
    Failed,
}

} // verus!
