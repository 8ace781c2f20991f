//! The errors of the API server.

use vstd::prelude::*;

verus! {

/// Why the API server failed, with the text of the cause.
#[derive(Clone, Debug, PartialEq, Eq)]
pub enum ApiServerError {
    /// A job could not be handed to another worker.
    EnqueueJob(String),
    /// The server could not be set up.
    Setup(String),
    /// A websocket connection could not be served.
    WebsocketHandlerFailure(String),
    /// The websocket server stopped.
    WebsocketServerFailure(String),
}

} // verus!
