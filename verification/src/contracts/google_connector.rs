//! Google connector status wire contract.

use vstd::prelude::*;

verus! {

#[derive(Debug, Clone, PartialEq, Eq)]
pub struct ConnectorStatus {
    pub service: String,
    pub connected: bool,
    /// Where the credential came from: "env" or "stored".
    pub source: Option<String>,
    pub scopes: Vec<String>,
    /// Scopes the platform needs but the stored credential lacks. Non-empty =
    /// the operator should reconnect to re-consent (e.g. calendar.events or
    /// calendar.calendarlist.readonly added after the first connect).
    pub missing_scopes: Vec<String>,
    /// Present when not connected and the OAuth app is configured — and also
    /// when connected with missing_scopes (reconnect to grant them).
    pub connect_url: Option<String>,
    /// Present when not connected and the OAuth app is NOT configured.
    pub blocked_reason: Option<String>,
}

#[derive(Debug, Clone, PartialEq, Eq)]
pub struct GoogleDriveFolderOption {
    pub folder_id: String,
    pub name: String,
    pub parent_folder_ids: Vec<String>,
    pub web_view_link: Option<String>,
}

#[derive(Debug, Clone, PartialEq, Eq)]
pub struct GoogleDriveFolderOptionsResponse {
    pub folders: Vec<GoogleDriveFolderOption>,
}

} // verus!
