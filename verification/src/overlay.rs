//! Client overlay: what a deployment configures of the queue.

use vstd::prelude::*;

verus! {

/// A mailbox that several users share.
#[derive(Debug, Clone, PartialEq, Eq)]
pub struct SharedInboxOverlay {
    /// The normalized addresses that mail to the inbox carries.
    pub match_to: Vec<String>,
    /// The users that see its items.
    pub visible_to_user_ids: Vec<String>,
}

/// The shared inboxes of a client, in the order of their names.
#[derive(Debug, Clone, PartialEq, Eq)]
pub struct WorkQueueOverlay {
    pub shared_inboxes: Vec<SharedInboxOverlay>,
}

impl Default for WorkQueueOverlay {
    fn default() -> (r: Self)
        ensures
            r.shared_inboxes@.len() == 0,
    {
        WorkQueueOverlay { shared_inboxes: Vec::new() }
    }
}

} // verus!
