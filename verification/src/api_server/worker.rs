//! The configuration of the API server.

use vstd::prelude::*;

verus! {

/// What the API server is started with, where `Q` is the sending end of the
/// price reporter's job queue.
#[derive(Clone, Debug)]
pub struct ApiServerConfig<Q> {
    /// The queue of jobs for the price reporter.
    pub price_reporter_work_queue: Q,
}

} // verus!
