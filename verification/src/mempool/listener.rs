//! The subscription to the pending-transaction feed.
//!
//! The listener filters nothing and decodes nothing: every transaction whose
//! lookup succeeds is forwarded, and a failed lookup is dropped in silence.

use vstd::prelude::*;

verus! {

/// Capacity of the queue between the listener and the decision loop.
pub const QUEUE_CAPACITY: usize = 5000;

/// A listener on one streaming endpoint.
#[derive(Debug, PartialEq, Eq)]
pub struct MempoolListener {
    pub ws_url: String,
}

impl MempoolListener {
    pub fn new(ws_url: String) -> (r: MempoolListener)
        ensures
            r.ws_url == ws_url,
    {
        MempoolListener { ws_url }
    }
}

} // verus!
