//! The operator work queue: which classified inputs become work items, who sees
//! them, what an operator may do with them, and how every change is receipted.

pub mod contracts;
pub mod http;
pub mod json;
pub mod ledger;
pub mod lists;
pub mod ordering;
pub mod outbox;
pub mod overlay;
pub mod receipt_laws;
pub mod receipt_query;
pub mod receipts;
pub mod spine;
pub mod spine_laws;
pub mod sql;
pub mod store_core;
pub mod text;
pub mod work_queue;
