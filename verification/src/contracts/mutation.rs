//! Wire form of mutation outcomes (shared by every slice's mutation routes).

use vstd::prelude::*;

verus! {

#[derive(Debug, Clone, Copy, PartialEq, Eq, Structural)]
pub enum MutationOutcomeKind {
    Applied,
    ReplayedIdempotent,
    RevisionConflict,
}

#[derive(Debug, Clone, PartialEq, Eq)]
pub struct MutationResponse {
    pub outcome: MutationOutcomeKind,
    pub receipt_id: String,
    pub revision: Option<u64>,
}

} // verus!
