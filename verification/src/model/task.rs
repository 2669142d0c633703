//! Polling an asynchronous task for completion.

use vstd::prelude::*;

verus! {

/// The state of an asynchronous task created by an action call.
#[derive(Debug, Clone)]
pub struct TaskStatus {
    pub request_id: String,
    pub order_id: u32,
    pub status: String,
}

} // verus!
