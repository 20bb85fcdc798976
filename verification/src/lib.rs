//! Relay core of a mock WebSocket endpoint: an observable ledger of every
//! inbound client payload, a broadcast bus fanning control events out to all
//! connected sessions, and the per-session loop logic that ties them to a
//! socket.
//!
//! Everything here is plain data and decisions; the sockets, the HTTP control
//! surface and the async runtime live outside the library and drive it.

pub mod bus;
pub mod ledger;
pub mod session;
