//! Generic inbound-email identity enrichment contracts.
//!
//! Client-specific parsers may suggest who an email represents and whether it
//! carries attention/routing signals. Field names stay provider-neutral: the
//! parser id and opaque reason codes carry client/provider specificity.

use vstd::prelude::*;

verus! {

#[derive(Debug, Clone, Copy, Default, PartialEq, Eq, Structural)]
pub enum IdentityConfidence {
    Low,
    #[default]
    Medium,
    High,
}

#[derive(Debug, Clone, PartialEq, Eq)]
pub struct RepresentedPartyCandidate {
    pub email: Option<String>,
    pub name: Option<String>,
    pub phone: Option<String>,
    pub company: Option<String>,
    /// Opaque parser-local source label, e.g. "field:email" or "form:name".
    pub provenance: String,
    pub confidence: IdentityConfidence,
}

#[derive(Debug, Clone, Copy, Default, PartialEq, Eq, Structural)]
pub enum AttentionLevel {
    Lower,
    #[default]
    Normal,
    Higher,
}

#[derive(Debug, Clone, PartialEq, Eq)]
pub struct AttentionSignal {
    pub level: AttentionLevel,
    /// Opaque parser-local reason code. Generic code must not match on values.
    pub reason_code: String,
    /// Parser-supplied operator-facing summary. This lets client-specific
    /// parsers explain the signal without teaching generic UI about reason
    /// codes.
    pub label: Option<String>,
    pub detail: Option<String>,
    pub provenance: String,
}

#[derive(Debug, Clone, Default, PartialEq, Eq)]
pub struct ParsedInbound {
    pub represented_parties: Vec<RepresentedPartyCandidate>,
    pub attention_signals: Vec<AttentionSignal>,
    /// Optional neutral title/summary hints for operator-facing work items.
    pub title_hint: Option<String>,
    pub summary_hint: Option<String>,
}

#[derive(Debug, Clone, PartialEq, Eq)]
pub struct InboundParserResult {
    pub parser_id: String,
    pub parsed: ParsedInbound,
}

} // verus!
