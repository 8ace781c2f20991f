//! The core of a relayer: the types that the circuits work on, the state that
//! a relayer keeps, the handlers of its API server, and the aggregation of
//! the price feeds that it listens to.

pub mod api_server;
pub mod circuits;
pub mod crypto;
pub mod external_events;
pub mod state;
