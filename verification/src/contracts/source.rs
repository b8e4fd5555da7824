//! Kinds of source an input can come from.

use vstd::prelude::*;

verus! {

#[derive(Debug, Clone, Copy, PartialEq, Eq, Structural)]
pub enum SourceKind {
    Forum,
    Reddit,
    GoogleAlert,
    FacebookGroup,
    Other,
}

} // verus!
