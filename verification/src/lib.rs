//! Realtime core of a chat backend: connection registry, publish/subscribe
//! fan-out, per-connection protocol state machine, presence tracking, and
//! message ingress. The surrounding process (HTTP layer, websocket transport,
//! persistent stores) drives this library and performs the effects it decides.

pub mod awsp;
pub mod broker;
pub mod connection;
pub mod coordinator;
pub mod error;
pub mod ids;
mod index_list;
pub mod message;
pub mod pub_sub;
pub mod routes;
pub mod session;
pub mod stateactor;
pub mod textchannel;
pub mod user;
pub mod util;
pub mod ws;
