//! Per-client company background + owner/operator voice, used to ground
//! outward-facing LLM tasks (seeded from the client overlay, read at produce).

use vstd::prelude::*;

verus! {

/// A client's background profile. Every field is optional: a blank deployment
/// simply grounds nothing.
#[derive(Debug, Clone, Default, PartialEq, Eq)]
pub struct ClientProfile {
    pub client_id: String,
    pub company_name: Option<String>,
    pub bio: Option<String>,
    pub industry: Option<String>,
    pub website: Option<String>,
    /// Owner/operator voice line — the persona outward-facing drafts speak in.
    pub persona: Option<String>,
}

} // verus!
