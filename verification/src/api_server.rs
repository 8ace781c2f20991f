//! The API server: its requests and responses, the handlers that turn one into
//! the other, and the decisions of its HTTP and websocket servers.

pub mod error;
pub mod http;
pub mod http_handlers;
pub mod jobs;
pub mod routes;
pub mod server;
pub mod worker;
