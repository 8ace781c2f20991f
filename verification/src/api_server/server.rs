//! The decisions of the HTTP and websocket servers.
//!
//! The caller runs the servers: it accepts connections, waits for messages and
//! for the clock, and does what is decided here.

use vstd::prelude::*;
use vstd::string::StringExecFns;
use crate::api_server::error::ApiServerError;
use crate::api_server::http::{GetReplicasRequest, GetReplicasResponse};
#[allow(unused_imports)]
use crate::api_server::routes;
use crate::api_server::routes::{Method, Router};
use crate::state::RelayerState;

verus! {

/// The time between two messages that are pushed to a websocket client, in
/// milliseconds.
pub const PUSH_INTERVAL_MILLIS: u64 = 5000;

/// What can happen on a websocket connection.
#[derive(Clone, Copy, Debug, PartialEq, Eq, Structural)]
pub enum WebsocketEvent {
    /// The client asked to close the connection.
    Close,
    /// Any other message came in.
    Message,
    /// A message came in that could not be read.
    ReadFailed,
    /// The connection is closed or has failed for good.
    Disconnected,
    /// The time for the next push has come.
    Tick,
}

/// What to do next on a websocket connection.
#[derive(Clone, Debug, PartialEq, Eq)]
pub enum WebsocketAction {
    /// Stop serving the connection.
    HangUp,
    /// Log the message, or why it could not be read, and go on.
    LogMessage,
    /// Send the client a text message and go on.
    Push(String),
}

/// Decides what to do about an event on a websocket connection.
pub fn serve_websocket(event: WebsocketEvent) -> (action: WebsocketAction)
    ensures
        match event {
            WebsocketEvent::Close => action is HangUp,
            WebsocketEvent::Disconnected => action is HangUp,
            WebsocketEvent::Message => action is LogMessage,
            WebsocketEvent::ReadFailed => action is LogMessage,
            WebsocketEvent::Tick => action matches WebsocketAction::Push(text) && text@ == "test"@,
        },
{
    match event {
        WebsocketEvent::Close => WebsocketAction::HangUp,
        WebsocketEvent::Disconnected => WebsocketAction::HangUp,
        WebsocketEvent::Message => WebsocketAction::LogMessage,
        WebsocketEvent::ReadFailed => WebsocketAction::LogMessage,
        WebsocketEvent::Tick => WebsocketAction::Push(String::from_str("test")),
    }
}

/// The outcome of accepting the websocket upgrade of a connection, given the
/// text of the error if it failed.
pub fn websocket_accepted<S>(upgrade: Result<S, String>) -> (stream: Result<S, ApiServerError>)
    ensures
        stream == (match upgrade {
            Ok(stream) => Ok(stream),
            Err(text) => Err(ApiServerError::WebsocketHandlerFailure(text)),
        }),
{
    match upgrade {
        Ok(stream) => Ok(stream),
        Err(text) => Err(ApiServerError::WebsocketHandlerFailure(text)),
    }
}

/// The outcome of binding the websocket server to its address, given the text
/// of the error if it failed.
pub fn websocket_bound<L>(bind: Result<L, String>) -> (listener: Result<L, ApiServerError>)
    ensures
        listener == (match bind {
            Ok(listener) => Ok(listener),
            Err(text) => Err(ApiServerError::Setup(text)),
        }),
{
    match bind {
        Ok(listener) => Ok(listener),
        Err(text) => Err(ApiServerError::Setup(text)),
    }
}

/// Decides whether the websocket server goes on: it serves the connections
/// that come in, until its listener fails to give one.
pub fn websocket_execution_loop<S>(incoming: Option<S>) -> (connection: Result<S, ApiServerError>)
    ensures
        match incoming {
            Some(stream) => connection == Ok::<S, ApiServerError>(stream),
            None => connection matches Err(ApiServerError::WebsocketServerFailure(text)) && text@
                == "websocket server spuriously shutdown"@,
        },
{
    match incoming {
        Some(stream) => Ok(stream),
        None => Err(
            ApiServerError::WebsocketServerFailure(
                String::from_str("websocket server spuriously shutdown"),
            ),
        ),
    }
}

/// Sets up the routes that the API service exposes in the router.
pub fn setup_routes<'a>(router: &mut Router<ReplicasHandler<'a>>, global_state: &'a RelayerState)
    ensures
        final(router)@.len() == old(router)@.len() + 1,
        final(router)@.drop_last() == old(router)@,
        final(router)@.last().serves(Method::Post, "/replicas"@),
        final(router)@.last().method == Method::Post,
        final(router)@.last().path@ == "/replicas"@,
        final(router)@.last().handler.global_state == global_state,
{
    router.add_route(
        Method::Post,
        String::from_str("/replicas"),
        ReplicasHandler::new(global_state),
    );
    assert(router@.drop_last() =~= old(router)@);
}

/// The handler of an incoming HTTP request, if there is a route for it.
pub fn handle_http_req<'a, H>(method: Method, path: String, router: &'a Router<H>) -> (handler:
    Option<&'a H>)
    ensures
        handler is Some <==> routes::first_match(router@, method, path@) is Some,
        handler is Some ==> *handler->Some_0 == routes::first_match(
            router@,
            method,
            path@,
        )->Some_0,
{
    router.handler(method, &path)
}

/// Handler for the replicas route, returns the replicas that a given wallet
/// has.
#[derive(Clone)]
pub struct ReplicasHandler<'a> {
    /// The global state of the relayer, used to query information for requests.
    pub global_state: &'a RelayerState,
}

impl<'a> ReplicasHandler<'a> {
    /// Create a new handler for "/replicas".
    pub fn new(global_state: &'a RelayerState) -> (handler: Self)
        ensures
            handler.global_state == global_state,
    {
        Self { global_state }
    }

    /// Lists the replicas of a wallet, each once, in no particular order. A
    /// wallet that is not known has none.
    pub fn handle_typed(&self, req: GetReplicasRequest) -> (response: Result<
        GetReplicasResponse,
        ApiServerError,
    >)
        ensures
            response is Ok,
            response->Ok_0.replicas@.no_duplicates(),
            response->Ok_0.replicas@.to_set() == self.global_state@.replicas_of(req.wallet_id),
    {
        Ok(GetReplicasResponse { replicas: self.global_state.replicas(req.wallet_id) })
    }
}

/// A router that was empty before its routes were set up finds a handler for
/// posts to "/replicas" and for nothing else.
pub proof fn law_only_replicas_are_served(
    router: Seq<routes::Route<ReplicasHandler>>,
    method: Method,
    path: Seq<char>,
)
    requires
        router.len() == 1,
        router[0].serves(Method::Post, "/replicas"@),
    ensures
        routes::first_match(router, method, path) is Some <==> method == Method::Post && path
            == "/replicas"@,
{
    reveal_with_fuel(routes::first_match, 2);
}

} // verus!
