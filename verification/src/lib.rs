//! The engine of a plugin that bridges a local archive server to a worklist
//! source and to a peer archive.
//!
//! The engine decides; it does not reach out. Each part says what is due next
//! (a request to send, a service of the host to call, a time to sleep) and is
//! told what came of it. [`worklist`] answers the host's worklist queries,
//! with [`items`] for the candidates of one response; [`change`] reacts to a
//! study that has become stable; [`sync`] and [`periodic`] keep the peer's
//! inventory up with the local one. [`state`] and [`config`] hold what the
//! parts share, [`http`] and [`host`] describe the two outer sides, and
//! [`json`] and [`text`] read and write what travels.

pub mod change;
pub mod config;
pub mod host;
pub mod http;
pub mod items;
pub mod json;
pub mod periodic;
pub mod state;
pub mod sync;
pub mod text;
pub mod worklist;
